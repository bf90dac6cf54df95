use vstd::prelude::*;

verus! {

/// Pointer state of a control, as the control itself tracks it.
#[derive(Clone, Copy, Debug, PartialEq, Eq, Structural)]
pub struct Interaction {
    pub hovered: bool,
    pub pressed: bool,
    pub focused: bool,
    pub enabled: bool,
}

/// The visual state a control is drawn in.
#[derive(Clone, Copy, Debug, PartialEq, Eq, Structural)]
pub enum VisualState {
    Normal,
    PointerOver,
    Pressed,
    Disabled,
}

/// Disabled wins over pressed, pressed over hovered.
pub open spec fn visual_state_of(i: Interaction) -> VisualState {
    if !i.enabled {
        VisualState::Disabled
    } else if i.pressed {
        VisualState::Pressed
    } else if i.hovered {
        VisualState::PointerOver
    } else {
        VisualState::Normal
    }
}

impl Interaction {
    /// A fresh control: enabled, neither hovered, pressed nor focused.
    pub fn new() -> (r: Interaction)
        ensures
            r == (Interaction { hovered: false, pressed: false, focused: false, enabled: true }),
    {
        Interaction { hovered: false, pressed: false, focused: false, enabled: true }
    }

    /// The visual state this interaction is drawn in.
    pub fn visual_state(&self) -> (r: VisualState)
        ensures
            r == visual_state_of(*self),
    {
        if !self.enabled {
            VisualState::Disabled
        } else if self.pressed {
            VisualState::Pressed
        } else if self.hovered {
            VisualState::PointerOver
        } else {
            VisualState::Normal
        }
    }
}

/// A pointer event as a button sees it: the kind of event and, where the
/// event has a position, whether that position lies inside the button.
#[derive(Clone, Copy, Debug, PartialEq, Eq, Structural)]
pub enum PointerEvent {
    Move { inside: bool },
    Leave,
    Down { inside: bool },
    Up { inside: bool },
    Other,
}

/// What a control asks of its host after an event.
#[derive(Clone, Copy, Debug, PartialEq, Eq, Structural)]
pub struct EventResult {
    pub redraw: bool,
    pub animating: bool,
}

impl EventResult {
    /// Nothing to redraw, nothing animating.
    pub fn none() -> (r: EventResult)
        ensures
            r == (EventResult { redraw: false, animating: false }),
    {
        EventResult { redraw: false, animating: false }
    }

    /// A redraw, no animation.
    pub fn redraw() -> (r: EventResult)
        ensures
            r == (EventResult { redraw: true, animating: false }),
    {
        EventResult { redraw: true, animating: false }
    }

    /// Both requests combined.
    pub fn or(self, other: EventResult) -> (r: EventResult)
        ensures
            r == (EventResult {
                redraw: self.redraw || other.redraw,
                animating: self.animating || other.animating,
            }),
    {
        EventResult { redraw: self.redraw || other.redraw, animating: self.animating || other.animating }
    }
}

/// The interaction of an enabled button after an event.
pub open spec fn button_step(i: Interaction, ev: PointerEvent) -> Interaction {
    if !i.enabled {
        i
    } else {
        match ev {
            PointerEvent::Move { inside } => Interaction { hovered: inside, ..i },
            PointerEvent::Leave => Interaction { hovered: false, pressed: false, ..i },
            PointerEvent::Down { inside } => if inside {
                Interaction { pressed: true, focused: true, ..i }
            } else {
                Interaction { focused: false, ..i }
            },
            PointerEvent::Up { inside } => Interaction { pressed: false, ..i },
            PointerEvent::Other => i,
        }
    }
}

/// A button asks for a redraw (and an animation frame) when its visual
/// state or its focus changed.
pub open spec fn button_changed(before: Interaction, after: Interaction) -> bool {
    visual_state_of(before) != visual_state_of(after) || before.focused != after.focused
}

/// Applies a pointer event to a button's interaction; a disabled button
/// ignores every event.
pub fn button_on_event(i: &mut Interaction, ev: PointerEvent) -> (r: EventResult)
    ensures
        *final(i) == button_step(*old(i), ev),
        r.redraw == (old(i).enabled && button_changed(*old(i), *final(i))),
        r.animating == r.redraw,
{
    if !i.enabled {
        return EventResult::none();
    }
    let before = *i;
    match ev {
        PointerEvent::Move { inside } => {
            i.hovered = inside;
        },
        PointerEvent::Leave => {
            i.hovered = false;
            i.pressed = false;
        },
        PointerEvent::Down { inside } => {
            if inside {
                i.pressed = true;
                i.focused = true;
            } else {
                i.focused = false;
            }
        },
        PointerEvent::Up { inside: _ } => {
            i.pressed = false;
        },
        PointerEvent::Other => {},
    }
    let changed = before.visual_state() != i.visual_state() || before.focused != i.focused;
    EventResult { redraw: changed, animating: changed }
}

/// How a button is filled: neutral or in the accent colour.
#[derive(Clone, Copy, Debug, PartialEq, Eq, Structural)]
pub enum ButtonStyle {
    Standard,
    Accent,
}

/// A push button: its caption, style and pointer state.
#[derive(Debug)]
pub struct ButtonState {
    pub text: String,
    pub style: ButtonStyle,
    pub interaction: Interaction,
}

impl ButtonState {
    /// A fresh standard button.
    pub fn standard(text: &str) -> (r: ButtonState)
        ensures
            r.text@ == text@,
            r.style == ButtonStyle::Standard,
            r.interaction == (Interaction { hovered: false, pressed: false, focused: false, enabled: true }),
    {
        ButtonState { text: String::from_str(text), style: ButtonStyle::Standard, interaction: Interaction::new() }
    }

    /// A fresh accent button.
    pub fn accent(text: &str) -> (r: ButtonState)
        ensures
            r.text@ == text@,
            r.style == ButtonStyle::Accent,
            r.interaction == (Interaction { hovered: false, pressed: false, focused: false, enabled: true }),
    {
        ButtonState { text: String::from_str(text), style: ButtonStyle::Accent, interaction: Interaction::new() }
    }
}

/// Whether an event completes a click: a release inside the button while
/// it was held down.
pub open spec fn completes_click(i: Interaction, ev: PointerEvent) -> bool {
    i.pressed && ev == (PointerEvent::Up { inside: true })
}

/// A button together with click detection (a press inside followed by a
/// release inside counts as a click).
#[derive(Debug)]
pub struct Clicky {
    pub btn: ButtonState,
    /// Whether the button was held down before the last event.
    pub was_pressed: bool,
}

impl Clicky {
    /// Wraps a button for click detection.
    pub fn new(btn: ButtonState) -> (r: Clicky)
        ensures
            r.btn == btn,
            !r.was_pressed,
    {
        Clicky { btn, was_pressed: false }
    }

    /// Enables or disables the button.
    pub fn set_enabled(&mut self, e: bool)
        ensures
            final(self).btn.interaction == (Interaction { enabled: e, ..old(self).btn.interaction }),
            final(self).btn.text == old(self).btn.text,
            final(self).btn.style == old(self).btn.style,
            final(self).was_pressed == old(self).was_pressed,
    {
        self.btn.interaction.enabled = e;
    }

    /// Feeds an event to the button. Returns what the button asks of the
    /// host, and whether the event completed a click.
    pub fn event(&mut self, ev: PointerEvent) -> (r: (EventResult, bool))
        ensures
            final(self).btn.interaction == button_step(old(self).btn.interaction, ev),
            final(self).btn.text == old(self).btn.text,
            final(self).btn.style == old(self).btn.style,
            final(self).was_pressed == old(self).btn.interaction.pressed,
            r.0.redraw == (old(self).btn.interaction.enabled && button_changed(
                old(self).btn.interaction,
                final(self).btn.interaction,
            )),
            r.0.animating == r.0.redraw,
            r.1 == completes_click(old(self).btn.interaction, ev),
    {
        self.was_pressed = self.btn.interaction.pressed;
        let r = button_on_event(&mut self.btn.interaction, ev);
        let clicked = match ev {
            PointerEvent::Up { inside } => self.was_pressed && inside,
            _ => false,
        };
        (r, clicked)
    }
}

/// The button drawn by an immediate-mode list row: the given caption, style
/// and pointer state, never keyboard-focused.
pub fn imm_button(text: &str, accent: bool, hovered: bool, pressed: bool, enabled: bool) -> (r:
    ButtonState)
    ensures
        r.text@ == text@,
        r.style == (if accent { ButtonStyle::Accent } else { ButtonStyle::Standard }),
        r.interaction == (Interaction { hovered, pressed, focused: false, enabled }),
{
    ButtonState {
        text: String::from_str(text),
        style: if accent { ButtonStyle::Accent } else { ButtonStyle::Standard },
        interaction: Interaction { hovered, pressed, focused: false, enabled },
    }
}

/// The button drawn under the spinner of an operation in progress: an empty,
/// disabled standard button.
pub fn loading_button() -> (r: ButtonState)
    ensures
        r.text@ == Seq::<char>::empty(),
        r.style == ButtonStyle::Standard,
        r.interaction == (Interaction { hovered: false, pressed: false, focused: false, enabled: false }),
{
    proof { reveal_strlit(""); }
    imm_button("", false, false, false, false)
}

/// A press inside an enabled button followed by a release inside is a click.
pub proof fn lemma_press_release_inside_clicks(i: Interaction)
    requires
        i.enabled,
    ensures
        completes_click(button_step(i, PointerEvent::Down { inside: true }), PointerEvent::Up { inside: true }),
{
}

/// Only a release completes a click, and only a release inside the button
/// while it is held down: leaving, moving, pressing, a release outside or a
/// release without a press never do.
pub proof fn lemma_only_release_inside_clicks(i: Interaction, ev: PointerEvent)
    ensures
        completes_click(i, ev) ==> ev is Up,
        completes_click(i, ev) ==> i.pressed && ev == (PointerEvent::Up { inside: true }),
        i.pressed ==> completes_click(i, PointerEvent::Up { inside: true }),
        !completes_click(i, PointerEvent::Leave),
        !completes_click(i, PointerEvent::Up { inside: false }),
        !i.pressed ==> !completes_click(i, ev),
{
}

/// A disabled button ignores every event.
pub proof fn lemma_disabled_ignores_events(i: Interaction, ev: PointerEvent)
    requires
        !i.enabled,
    ensures
        button_step(i, ev) == i,
{
}

/// After a release or after the pointer leaves, an enabled button is no
/// longer held down, so the next release cannot be a click until a new press
/// inside.
pub proof fn lemma_release_and_leave_clear_press(i: Interaction, inside: bool, ev: PointerEvent)
    requires
        i.enabled,
        ev == (PointerEvent::Up { inside }) || ev == PointerEvent::Leave,
    ensures
        !button_step(i, ev).pressed,
        !completes_click(button_step(i, ev), PointerEvent::Up { inside: true }),
{
}

/// A press outside the button never starts a click.
pub proof fn lemma_press_outside_does_not_arm(i: Interaction)
    requires
        !i.pressed,
    ensures
        !button_step(i, PointerEvent::Down { inside: false }).pressed,
{
}

/// The interaction after a sequence of events.
pub open spec fn run_events(i: Interaction, evs: Seq<PointerEvent>) -> Interaction
    decreases evs.len(),
{
    if evs.len() == 0 {
        i
    } else {
        button_step(run_events(i, evs.drop_last()), evs.last())
    }
}

/// Whether a button is held down after a sequence of events: the last press
/// inside came after the last release and the last leave (or, with none of
/// these, it was held down before).
pub open spec fn held_after(held: bool, evs: Seq<PointerEvent>) -> bool
    decreases evs.len(),
{
    if evs.len() == 0 {
        held
    } else {
        match evs.last() {
            PointerEvent::Down { inside } => if inside { true } else { held_after(held, evs.drop_last()) },
            PointerEvent::Up { .. } => false,
            PointerEvent::Leave => false,
            _ => held_after(held, evs.drop_last()),
        }
    }
}

/// For an enabled button, a release inside completes a click exactly when
/// the last press inside came after the last release and the last leave;
/// moves and presses outside change nothing about it. A disabled button
/// keeps its state through any events.
pub proof fn lemma_click_needs_unbroken_press(i: Interaction, evs: Seq<PointerEvent>)
    ensures
        run_events(i, evs).enabled == i.enabled,
        i.enabled ==> run_events(i, evs).pressed == held_after(i.pressed, evs),
        i.enabled ==> (completes_click(run_events(i, evs), PointerEvent::Up { inside: true })
            <==> held_after(i.pressed, evs)),
        !i.enabled ==> run_events(i, evs) == i,
    decreases evs.len(),
{
    if evs.len() > 0 {
        lemma_click_needs_unbroken_press(i, evs.drop_last());
    }
}

} // verus!
