use cloud_pe_plugin_market::widgets::{
    button_on_event, imm_button, loading_button, ButtonState, ButtonStyle, Clicky, EventResult, Interaction,
    PointerEvent, VisualState,
};

#[test]
fn clicky_press_release_inside_is_a_click() {
    let mut c = Clicky::new(ButtonState::standard("关闭"));
    let (r, clicked) = c.event(PointerEvent::Down { inside: true });
    assert!(!clicked);
    assert!(r.redraw);
    assert!(c.btn.interaction.pressed);
    let (_, clicked) = c.event(PointerEvent::Up { inside: true });
    assert!(clicked);
    assert!(!c.btn.interaction.pressed);
}

#[test]
fn clicky_release_outside_is_not_a_click() {
    let mut c = Clicky::new(ButtonState::accent("确定"));
    c.event(PointerEvent::Down { inside: true });
    let (_, clicked) = c.event(PointerEvent::Up { inside: false });
    assert!(!clicked);
}

#[test]
fn clicky_release_without_press_is_not_a_click() {
    let mut c = Clicky::new(ButtonState::standard("浏览"));
    let (_, clicked) = c.event(PointerEvent::Up { inside: true });
    assert!(!clicked);
    c.event(PointerEvent::Down { inside: false });
    let (_, clicked) = c.event(PointerEvent::Up { inside: true });
    assert!(!clicked);
}

#[test]
fn clicky_leave_cancels_press() {
    let mut c = Clicky::new(ButtonState::standard("浏览"));
    c.event(PointerEvent::Down { inside: true });
    c.event(PointerEvent::Leave);
    let (_, clicked) = c.event(PointerEvent::Up { inside: true });
    assert!(!clicked);
}

#[test]
fn disabled_button_ignores_events() {
    let mut c = Clicky::new(ButtonState::standard("检测可用性"));
    c.set_enabled(false);
    assert!(!c.btn.interaction.enabled);
    let (r, clicked) = c.event(PointerEvent::Down { inside: true });
    assert_eq!(r, EventResult::none());
    assert!(!clicked);
    assert!(!c.btn.interaction.pressed);
    assert_eq!(c.btn.interaction.visual_state(), VisualState::Disabled);
}

#[test]
fn hover_changes_visual_state_and_asks_redraw() {
    let mut i = Interaction::new();
    let r = button_on_event(&mut i, PointerEvent::Move { inside: true });
    assert!(r.redraw && r.animating);
    assert_eq!(i.visual_state(), VisualState::PointerOver);
    let r = button_on_event(&mut i, PointerEvent::Move { inside: true });
    assert!(!r.redraw);
    let r = button_on_event(&mut i, PointerEvent::Other);
    assert_eq!(r, EventResult::none());
}

#[test]
fn press_outside_drops_focus() {
    let mut i = Interaction { hovered: false, pressed: false, focused: true, enabled: true };
    let r = button_on_event(&mut i, PointerEvent::Down { inside: false });
    assert!(!i.focused);
    assert!(r.redraw);
}

#[test]
fn event_results_combine() {
    let a = EventResult { redraw: true, animating: false };
    let b = EventResult { redraw: false, animating: true };
    assert_eq!(a.or(b), EventResult { redraw: true, animating: true });
    assert_eq!(EventResult::none().or(EventResult::redraw()), EventResult::redraw());
}

#[test]
fn immediate_buttons() {
    let b = imm_button("更新", true, true, false, true);
    assert_eq!(b.text, "更新");
    assert_eq!(b.style, ButtonStyle::Accent);
    assert_eq!(b.interaction, Interaction { hovered: true, pressed: false, focused: false, enabled: true });
    let l = loading_button();
    assert_eq!(l.text, "");
    assert_eq!(l.style, ButtonStyle::Standard);
    assert!(!l.interaction.enabled);
}
