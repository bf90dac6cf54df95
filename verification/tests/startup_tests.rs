use cloud_pe_plugin_market::host::dwm_update;
use cloud_pe_plugin_market::host::{
    cursor_in_client, is_control_char, paint_request, typed_chars, without_composition_window,
};
use cloud_pe_plugin_market::host::{
    centered_origin, dpi_from_wparam, ime_units, ime_units_read, is_touch_or_pen, must_recreate_surface, next_frame,
    point_from_lparam, size_from_lparam, wheel_from_wparam, FrameAction,
};
use cloud_pe_plugin_market::loading::{LoadingState, LoadingView, NetStatus, Probe, ProbeStep};
use cloud_pe_plugin_market::mode::{
    is_pe_environment, mode_from_args, parse_usize, resolve_theme, runas_command, shot_request, shot_size, shot_target,
    ColorMode, PluginMode, ShotTarget, ThemeChoice,
};
use cloud_pe_plugin_market::selector::{launch_arg, SelectorAction, SourceBoard, StatusIcon};

fn strings(v: &[&str]) -> Vec<String> {
    v.iter().map(|s| s.to_string()).collect()
}

#[test]
fn modes_from_arguments() {
    assert_eq!(mode_from_args(&strings(&["app"])), PluginMode::CloudPE);
    assert_eq!(mode_from_args(&strings(&["app", "--hpm"])), PluginMode::HotPE);
    assert_eq!(mode_from_args(&strings(&["app", "--edgeless"])), PluginMode::Edgeless);
    assert_eq!(mode_from_args(&strings(&["app", "--select"])), PluginMode::Select);
    assert_eq!(mode_from_args(&strings(&["app", "x", "--hpm"])), PluginMode::CloudPE);
}

#[test]
fn shot_arguments() {
    assert!(shot_request(&strings(&["app", "--hpm"])).is_none());
    let q = shot_request(&strings(&["app", "--shot"])).unwrap();
    assert_eq!(q.path, "shot.png");
    assert_eq!(q.page, 0);
    assert!(!q.light);
    assert_eq!(q.mode, PluginMode::CloudPE);
    let q = shot_request(&strings(&["app", "--shot", "out.png", "2", "light", "--edgeless"])).unwrap();
    assert_eq!(q.path, "out.png");
    assert_eq!(q.page, 2);
    assert!(q.light);
    assert_eq!(q.mode, PluginMode::Edgeless);
    let q = shot_request(&strings(&["--hpm", "--shot", "a.png", "x", "--edgeless"])).unwrap();
    assert_eq!(q.page, 0);
    assert_eq!(q.mode, PluginMode::HotPE);
    assert_eq!(shot_target(3), ShotTarget::Selector);
    assert_eq!(shot_target(4), ShotTarget::Loading);
    assert_eq!(shot_target(1), ShotTarget::Main(1));
    assert_eq!(shot_size(ShotTarget::Selector), (400, 300));
    assert_eq!(shot_size(ShotTarget::Main(0)), (1024, 630));
}

#[test]
fn number_parsing_matches_std() {
    for s in ["0", "7", "+42", "007", "", "+", "-1", "12a", "1 ", "18446744073709551615", "18446744073709551616", "99999999999999999999999", "٣"] {
        assert_eq!(parse_usize(s), s.parse::<usize>().ok(), "{s:?}");
    }
}

#[test]
fn pe_environment() {
    assert!(is_pe_environment(true, false, None));
    assert!(is_pe_environment(false, true, Some("C:\\")));
    assert!(is_pe_environment(false, false, Some("X:\\Windows")));
    assert!(!is_pe_environment(false, false, Some("C:\\X:")));
    assert!(!is_pe_environment(false, false, Some("X")));
    assert!(!is_pe_environment(false, false, None));
}

#[test]
fn themes() {
    assert_eq!(resolve_theme(ColorMode::System), ThemeChoice::FollowSystem);
    assert_eq!(resolve_theme(ColorMode::Light), ThemeChoice::Light);
    assert_eq!(resolve_theme(ColorMode::Dark), ThemeChoice::Dark);
}

#[test]
fn elevation_command() {
    assert_eq!(
        runas_command("C:\\a.exe", &strings(&["--hpm", "x"])),
        "runas /user:Administrator \"C:\\a.exe\" --hpm x"
    );
    assert_eq!(runas_command("a", &Vec::new()), "runas /user:Administrator \"a\" ");
}

#[test]
fn probe_gives_up_after_three_failures() {
    let (mut p, step) = Probe::start(false);
    assert_eq!(step, ProbeStep::Attempt);
    assert_eq!(p.on_result(false), ProbeStep::SleepThenAttempt);
    assert_eq!(p.on_result(false), ProbeStep::SleepThenAttempt);
    assert_eq!(p.on_result(false), ProbeStep::Done(false));
    assert_eq!(p.attempts, 3);
    let (mut p, _) = Probe::start(false);
    p.on_result(false);
    assert_eq!(p.on_result(true), ProbeStep::Done(true));
    let (_, step) = Probe::start(true);
    assert_eq!(step, ProbeStep::Done(false));
}

#[test]
fn loading_window_states() {
    let mut s = LoadingState::new();
    assert_eq!(s.view(), LoadingView::Spinner);
    assert!(s.is_animating(false, false));
    assert!(s.probe_finished(true));
    assert_eq!(s.status, NetStatus::Connected);
    assert_eq!(s.view(), LoadingView::Spinner);
    s.finish();
    assert!(s.done());
    assert_eq!(s.view(), LoadingView::Shell);
    assert!(!s.is_animating(false, true));
    let mut f = LoadingState::new();
    assert!(!f.probe_finished(false));
    assert!(f.failed());
    assert_eq!(f.view(), LoadingView::Failure);
    f.finish();
    assert!(!f.done());
    assert!(f.is_animating(false, true));
}

#[test]
fn selector_round_of_checks() {
    let mut b = SourceBoard::new();
    assert_eq!(b.label(PluginMode::HotPE, "HotPE"), "HotPE");
    assert!(b.source_enabled(PluginMode::CloudPE));
    assert_eq!(b.check_button_text(), "检测可用性");
    assert!(b.check_availability());
    assert!(!b.check_availability());
    assert_eq!(b.check_button_text(), "检测中...");
    assert!(!b.source_enabled(PluginMode::CloudPE));
    assert!(b.actions(true, false, false, true).is_empty());
    b.record(PluginMode::CloudPE, true);
    b.sweep();
    assert!(b.is_checking);
    b.record(PluginMode::HotPE, false);
    b.record(PluginMode::Edgeless, true);
    b.sweep();
    assert!(!b.is_checking);
    assert_eq!(b.label(PluginMode::CloudPE, "Cloud-PE"), "✓  Cloud-PE");
    assert_eq!(b.label(PluginMode::HotPE, "HotPE"), "✗  HotPE");
    assert_eq!(b.status_icon(PluginMode::HotPE), Some(StatusIcon::Error));
    assert_eq!(b.status_icon(PluginMode::Select), None);
    assert!(!b.source_enabled(PluginMode::HotPE));
    assert!(b.source_enabled(PluginMode::Edgeless));
    assert_eq!(
        b.actions(false, true, false, true),
        vec![SelectorAction::Launch(PluginMode::HotPE), SelectorAction::Check]
    );
    assert_eq!(launch_arg(PluginMode::CloudPE), Some(""));
    assert_eq!(launch_arg(PluginMode::Edgeless), Some("--edgeless"));
    assert_eq!(launch_arg(PluginMode::Select), None);
}

#[test]
fn message_parameters() {
    assert_eq!(size_from_lparam(0x0276_0400), (0x400, 0x276));
    assert_eq!(point_from_lparam(0x0010_FFFE), (-2, 16));
    assert_eq!(point_from_lparam(-1), (-1, -1));
    assert_eq!(wheel_from_wparam(0xFF88_0000), -120);
    assert_eq!(wheel_from_wparam(0x0078_0008), 120);
    assert_eq!(dpi_from_wparam(0x0090_0090), 144);
    assert!(is_touch_or_pen(0xFF51_5780u32 as isize));
    assert!(!is_touch_or_pen(0xFF51_5680u32 as isize));
    assert!(!is_touch_or_pen(0));
}

#[test]
fn window_placement_and_frames() {
    assert_eq!(centered_origin(0, 1920, 1000), 460);
    assert_eq!(centered_origin(100, 600, 800), 100);
    assert_eq!(next_frame(true, false), (FrameAction::PaintAnimated, true));
    assert_eq!(next_frame(false, true), (FrameAction::PaintSettled, false));
    assert_eq!(next_frame(false, false), (FrameAction::Wait, false));
    assert!(must_recreate_surface(None));
    assert!(must_recreate_surface(Some(true)));
    assert!(!must_recreate_surface(Some(false)));
    assert_eq!(ime_units(0), None);
    assert_eq!(ime_units(10), Some(5));
    assert_eq!(ime_units_read(-1, 5), None);
    assert_eq!(ime_units_read(6, 5), Some(3));
    assert_eq!(ime_units_read(20, 5), Some(5));
}

#[test]
fn window_frame_attributes() {
    assert_eq!(dwm_update(None, true), (true, Some(true)));
    assert_eq!(dwm_update(Some(true), true), (false, Some(true)));
    assert_eq!(dwm_update(Some(true), false), (true, Some(false)));
}

#[test]
fn committed_input_drops_control_characters() {
    assert_eq!(typed_chars("插件\r\n a\u{7f}b\u{85}\tc"), vec!['插', '件', ' ', 'a', 'b', 'c']);
    assert_eq!(typed_chars(""), Vec::<char>::new());
    assert!(is_control_char('\u{0}'));
    assert!(is_control_char('\u{1f}'));
    assert!(is_control_char('\u{9f}'));
    assert!(!is_control_char(' '));
    assert!(!is_control_char('\u{a0}'));
    assert!(!is_control_char('\u{3000}'));
    for u in 0u32..0x300 {
        let c = char::from_u32(u).unwrap();
        assert_eq!(is_control_char(c), c.is_control());
    }
}

#[test]
fn composition_window_bit_is_cleared() {
    assert_eq!(without_composition_window(0xC000_000F), 0x4000_000F);
    assert_eq!(without_composition_window(0x4000_000F), 0x4000_000F);
    assert_eq!(without_composition_window(0x1_8000_0001), 0x1_0000_0001);
    assert_eq!(without_composition_window(usize::MAX), usize::MAX - 0x8000_0000);
    assert_eq!(without_composition_window(0), 0);
}

#[test]
fn paint_messages_and_cursor() {
    assert_eq!(paint_request(true, false), (false, false));
    assert_eq!(paint_request(true, true), (false, false));
    assert_eq!(paint_request(false, false), (true, true));
    assert_eq!(paint_request(false, true), (true, false));
    assert!(cursor_in_client(0x0200_0001, 1));
    assert!(!cursor_in_client(0x0001_0002, 1));
    assert!(!cursor_in_client(0x0001_0000, 1));
}
