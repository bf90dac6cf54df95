use cloud_pe_plugin_market::settings::{rescan_caption, settings_change, SettingsChange};
use cloud_pe_plugin_market::tasks::{manage_action_allowed, update_next, update_start, ManageAct, UpdateStep};
use cloud_pe_plugin_market::cards::{
    check_status, has_update, manage_card_buttons, market_card_buttons, task_id, CardButton, CardLabel,
    InstallStatus, TaskKind, VersionOrder,
};
use cloud_pe_plugin_market::manage::{card_height, section_empty_text, section_full_height, section_title, should_refresh, RowPress};
use cloud_pe_plugin_market::market::{
    connection_error_message, empty_list_glyph, empty_list_text, fetch_failed_message, loading_list_text,
    plugin_key_of, visible_plugins, CategoryNav, ListSource,
};
use cloud_pe_plugin_market::mode::{ColorMode, PluginMode};
use cloud_pe_plugin_market::plugin::Plugin;
use cloud_pe_plugin_market::settings::{
    about_description, about_lines, about_title, color_at, color_index, drive_index, open_combo,
    section_body_heights, threads_at, threads_index,
};
use cloud_pe_plugin_market::shell::{confirm_boot_drive, page_of, plan_startup, NavOutcome, Page, ShellNav};

fn mk(name: &str, ver: &str, auth: &str, desc: &str, size: &str) -> Plugin {
    Plugin {
        name: name.into(),
        size: size.into(),
        version: ver.into(),
        author: auth.into(),
        describe: desc.into(),
        file: String::new(),
        link: String::new(),
    }
}

fn strings(v: &[&str]) -> Vec<String> {
    v.iter().map(|s| s.to_string()).collect()
}

#[test]
fn search_selects_search_tab_and_clearing_restores() {
    let mut nav = CategoryNav::new();
    assert_eq!(nav.selected_category, "推荐");
    nav.on_tab_clicked(&"系统工具".to_string());
    nav.on_search_changed(false);
    assert!(nav.show_search_category);
    assert_eq!(nav.selected_category, "搜索");
    assert_eq!(nav.last_selected_category, "系统工具");
    nav.on_search_changed(false);
    assert_eq!(nav.selected_category, "搜索");
    nav.on_search_changed(true);
    assert!(!nav.show_search_category);
    assert_eq!(nav.selected_category, "系统工具");
}

#[test]
fn tab_click_while_searching() {
    let mut nav = CategoryNav::new();
    nav.on_search_changed(false);
    nav.on_tab_clicked(&"搜索".to_string());
    assert_eq!(nav.last_selected_category, "推荐");
    nav.on_tab_clicked(&"系统工具".to_string());
    assert_eq!(nav.last_selected_category, "系统工具");
    nav.on_search_changed(true);
    assert_eq!(nav.selected_category, "系统工具");
}

#[test]
fn categories_without_recommended_select_first() {
    let mut nav = CategoryNav::new();
    nav.on_categories(&Vec::new());
    assert!(nav.is_loading);
    nav.on_categories(&strings(&["系统工具", "网络"]));
    assert!(!nav.is_loading);
    assert_eq!(nav.selected_category, "系统工具");
    assert_eq!(nav.last_selected_category, "系统工具");
    nav.on_categories(&strings(&["网络"]));
    assert_eq!(nav.selected_category, "系统工具");
}

#[test]
fn categories_with_recommended_keep_it() {
    let mut nav = CategoryNav::new();
    nav.on_categories(&strings(&["系统工具", "推荐"]));
    assert!(!nav.is_loading);
    assert_eq!(nav.selected_category, "推荐");
}

#[test]
fn tabs_list_search_first() {
    let mut nav = CategoryNav::new();
    let classes = strings(&["推荐", "系统工具"]);
    let t = nav.tabs(&classes);
    assert_eq!(t, vec![("推荐".to_string(), true), ("系统工具".to_string(), false)]);
    nav.on_search_changed(false);
    let t = nav.tabs(&classes);
    assert_eq!(t, vec![("搜索".to_string(), true), ("推荐".to_string(), false), ("系统工具".to_string(), false)]);
}

#[test]
fn list_source_choice() {
    let mut nav = CategoryNav::new();
    assert_eq!(nav.list_source(true), ListSource::Category);
    nav.on_search_changed(false);
    assert_eq!(nav.list_source(false), ListSource::Search);
    assert_eq!(nav.list_source(true), ListSource::Nothing);
    assert_eq!(nav.find_selected(&strings(&["推荐"])), None);
    nav.on_search_changed(true);
    assert_eq!(nav.find_selected(&strings(&["a", "推荐", "推荐"])), Some(1));
}

#[test]
fn duplicate_plugins_are_listed_once() {
    let ps = vec![
        mk("A", "1", "x", "d", "1 MB"),
        mk("B", "1", "x", "", "1 MB"),
        mk("A", "1", "x", "other", "1 MB"),
        mk("A", "2", "x", "d", "1 MB"),
        mk("B", "1", "x", "", "1 MB"),
    ];
    assert_eq!(visible_plugins(&ps), vec![0, 1, 3]);
    assert_eq!(plugin_key_of(&ps[0]), "A_1_x_1 MB");
    assert_eq!(visible_plugins(&Vec::new()), Vec::<usize>::new());
}

#[test]
fn market_texts() {
    assert_eq!(empty_list_text(true, true), "未找到相关模块");
    assert_eq!(empty_list_text(true, false), "未找到相关插件");
    assert_eq!(empty_list_text(false, true), "该分类暂无模块");
    assert_eq!(empty_list_text(false, false), "该分类暂无插件");
    assert_eq!(empty_list_glyph(true), '\u{E721}');
    assert_eq!(empty_list_glyph(false), '\u{E8B7}');
    assert_eq!(loading_list_text(true), "正在加载模块列表...");
    assert_eq!(fetch_failed_message(false), "无法获取插件列表，请检查网络连接，稍后重新打开重试。");
    assert_eq!(connection_error_message("Cloud-PE"), "无法连接至 Cloud-PE 服务器，请检查网络连接或联系开发人员。");
}

#[test]
fn install_status_and_update() {
    assert_eq!(check_status(None), InstallStatus::NotInstalled);
    assert_eq!(check_status(Some(VersionOrder::Older)), InstallStatus::UpdateAvailable);
    assert_eq!(check_status(Some(VersionOrder::Same)), InstallStatus::Installed);
    assert_eq!(check_status(Some(VersionOrder::Newer)), InstallStatus::Installed);
    assert!(has_update(Some(VersionOrder::Older)));
    assert!(!has_update(Some(VersionOrder::Same)));
    assert!(!has_update(None));
}

#[test]
fn task_ids() {
    assert_eq!(task_id("CPU-Z_CPUID", TaskKind::Install), "CPU-Z_CPUID_install");
    assert_eq!(task_id("x", TaskKind::Update), "x_update");
    assert_eq!(task_id("x", TaskKind::Download), "x_download");
}

#[test]
fn market_card_slots() {
    assert_eq!(
        market_card_buttons(false, false, false, false, InstallStatus::NotInstalled),
        vec![CardButton::Action(CardLabel::Download)]
    );
    assert_eq!(
        market_card_buttons(true, true, false, true, InstallStatus::NotInstalled),
        vec![CardButton::Busy(CardLabel::Download), CardButton::Busy(CardLabel::Install)]
    );
    assert_eq!(
        market_card_buttons(false, false, false, true, InstallStatus::Installed),
        vec![CardButton::Action(CardLabel::Download), CardButton::Inert(CardLabel::Installed)]
    );
    assert_eq!(
        market_card_buttons(false, false, true, true, InstallStatus::UpdateAvailable),
        vec![CardButton::Action(CardLabel::Download), CardButton::Busy(CardLabel::Update)]
    );
    assert_eq!(CardLabel::Installed.text(), "已安装");
    assert!(CardLabel::Install.accent());
    assert!(!CardLabel::Download.accent());
}

#[test]
fn manage_card_slots() {
    assert_eq!(manage_card_buttons(false, true, true), vec![CardButton::Action(CardLabel::Enable)]);
    assert_eq!(manage_card_buttons(true, false, false), vec![CardButton::Action(CardLabel::Disable)]);
    assert_eq!(
        manage_card_buttons(true, true, false),
        vec![CardButton::Action(CardLabel::Update), CardButton::Action(CardLabel::Disable)]
    );
    assert_eq!(manage_card_buttons(true, true, true), vec![CardButton::Busy(CardLabel::Update)]);
    assert_eq!(CardLabel::Enable.text(), "启用");
}

#[test]
fn manage_sections() {
    assert_eq!(section_title(true, false), "已启用插件");
    assert_eq!(section_title(false, true), "已禁用模块");
    assert_eq!(section_empty_text(true, true), "暂无已启用的模块");
    assert_eq!(section_empty_text(false, false), "暂无已禁用的插件");
    let ps = vec![mk("A", "1", "x", "desc", "1"), mk("B", "1", "x", "", "1")];
    assert_eq!(card_height(PluginMode::CloudPE, &ps[0]), 86);
    assert_eq!(card_height(PluginMode::Edgeless, &ps[0]), 66);
    assert_eq!(section_full_height(PluginMode::CloudPE, &ps), 86 + 8 + 66 + 8);
    assert_eq!(section_full_height(PluginMode::Edgeless, &ps), 148);
    assert_eq!(section_full_height(PluginMode::CloudPE, &Vec::new()), 30);
}

#[test]
fn manage_refresh_rule() {
    assert!(!should_refresh(true, true, None));
    assert!(should_refresh(false, true, Some(false)));
    assert!(should_refresh(false, false, None));
    assert!(should_refresh(false, false, Some(true)));
    assert!(!should_refresh(false, false, Some(false)));
}

#[test]
fn row_press_runs_only_pressed_row() {
    let mut rp = RowPress::new();
    assert!(!rp.on_down(false, Some(2)));
    assert_eq!(rp.pressed, None);
    assert!(rp.on_down(true, Some(2)));
    assert!(rp.is_press(2));
    assert!(!rp.is_hover(true));
    assert_eq!(rp.on_up(true), Some(2));
    assert_eq!(rp.pressed, None);
    rp.on_down(true, Some(1));
    assert_eq!(rp.on_up(false), None);
    rp.on_down(true, Some(1));
    rp.on_leave();
    assert_eq!(rp.on_up(true), None);
    assert!(rp.is_hover(true));
}

#[test]
fn settings_combos() {
    for m in [ColorMode::System, ColorMode::Light, ColorMode::Dark] {
        assert_eq!(color_at(color_index(m)), m);
    }
    assert_eq!(color_index(ColorMode::Dark), 2);
    assert_eq!(color_at(7), ColorMode::Dark);
    assert_eq!(threads_index(16), 1);
    assert_eq!(threads_index(12), 0);
    assert_eq!(threads_at(2), 32);
    assert_eq!(threads_at(9), 32);
    for i in 0..3 {
        assert_eq!(threads_index(threads_at(i)), i);
    }
    assert_eq!(open_combo(false, true, true), Some(1));
    assert_eq!(open_combo(false, false, false), None);
    let letters = strings(&["D:", "E:"]);
    assert_eq!(drive_index(&letters, &"E:".to_string()), 1);
    assert_eq!(drive_index(&letters, &"F:".to_string()), 0);
}

#[test]
fn settings_about() {
    assert_eq!(about_title(PluginMode::HotPE), "HotPE 模块下载");
    assert_eq!(about_title(PluginMode::Select), "");
    assert_eq!(about_lines()[0], "版本：v0.1");
    assert_eq!(about_description(PluginMode::Edgeless), vec!["此软件是 Edgeless 插件下载管理工具", "专用于管理和下载 Edgeless 插件"]);
    assert!(about_description(PluginMode::Select).is_empty());
    assert_eq!(section_body_heights(true, PluginMode::CloudPE), [40, 70, 84, 146]);
    assert_eq!(section_body_heights(false, PluginMode::Select), [40, 84, 84, 98]);
}

#[test]
fn startup_plans() {
    let p = plan_startup(&strings(&["D:", "E:"]), &None);
    assert!(p.first_launch);
    assert_eq!(p.current_drive, None);
    let p = plan_startup(&strings(&["D:", "E:"]), &Some("E:".to_string()));
    assert!(!p.first_launch);
    assert_eq!(p.current_drive, Some("E:".to_string()));
    assert!(!p.save_default);
    let p = plan_startup(&strings(&["D:"]), &None);
    assert_eq!(p.current_drive, Some("D:".to_string()));
    assert!(p.save_default);
    let p = plan_startup(&Vec::new(), &None);
    assert!(!p.first_launch);
    assert_eq!(p.current_drive, None);
}

#[test]
fn boot_dialog_confirm() {
    let drives = strings(&["D:", "E:"]);
    let c = confirm_boot_drive(&drives, 1, true).unwrap();
    assert_eq!(c.drive, "E:");
    assert!(c.remember);
    assert!(confirm_boot_drive(&drives, 2, false).is_none());
    assert!(confirm_boot_drive(&Vec::new(), 0, false).is_none());
}

#[test]
fn shell_navigation() {
    assert_eq!(page_of(0), Page::Market);
    assert_eq!(page_of(1), Page::Manage);
    assert_eq!(page_of(5), Page::Settings);
    let mut nav = ShellNav::new(true);
    assert!(!nav.text_input_to_market());
    nav.set_page(2);
    assert!(!nav.show_boot_dialog);
    assert_eq!(nav.navigated(2), NavOutcome::Unchanged);
    nav.selected = 1;
    assert_eq!(nav.navigated(2), NavOutcome::Switched { refresh_manage: true });
    nav.selected = 0;
    assert_eq!(nav.navigated(1), NavOutcome::Switched { refresh_manage: false });
    assert!(nav.text_input_to_market());
}

#[test]
fn settings_combo_changes() {
    let letters = strings(&["D:", "E:"]);
    assert!(matches!(settings_change(0, 1, &letters), SettingsChange::Color(ColorMode::Light)));
    assert!(matches!(settings_change(0, 9, &letters), SettingsChange::Color(ColorMode::Dark)));
    match settings_change(1, 1, &letters) {
        SettingsChange::BootDrive(d) => assert_eq!(d, "E:"),
        _ => panic!("expected a boot drive change"),
    }
    assert!(matches!(settings_change(1, 2, &letters), SettingsChange::Nothing));
    assert!(matches!(settings_change(2, 0, &letters), SettingsChange::Threads(8)));
    assert!(matches!(settings_change(7, 5, &letters), SettingsChange::Threads(32)));
}

#[test]
fn card_label_texts() {
    let all = [
        (CardLabel::Download, "下载", false),
        (CardLabel::Install, "安装", true),
        (CardLabel::Installed, "已安装", false),
        (CardLabel::Update, "更新", true),
        (CardLabel::Disable, "禁用", false),
        (CardLabel::Enable, "启用", false),
    ];
    for (l, t, accent) in all {
        assert_eq!(l.text(), t);
        assert_eq!(l.accent(), accent);
    }
}

#[test]
fn update_steps_in_order() {
    assert_eq!(update_start(false), UpdateStep::Finish);
    assert_eq!(update_start(true), UpdateStep::MakeDir);
    // Update of an installed plugin: folder, delete, download, reload, done.
    let mut s = update_start(true);
    let mut seen = vec![s];
    while s != UpdateStep::Finish {
        s = update_next(s, true, true);
        seen.push(s);
    }
    assert_eq!(
        seen,
        vec![UpdateStep::MakeDir, UpdateStep::DeleteOld, UpdateStep::Download, UpdateStep::Reload, UpdateStep::Finish]
    );
    // A fresh install skips the delete.
    assert_eq!(update_next(UpdateStep::MakeDir, true, false), UpdateStep::Download);
}

#[test]
fn update_stops_at_first_failure() {
    assert_eq!(update_next(UpdateStep::MakeDir, false, true), UpdateStep::Finish);
    assert_eq!(update_next(UpdateStep::DeleteOld, false, true), UpdateStep::Finish);
    assert_eq!(update_next(UpdateStep::Download, false, false), UpdateStep::Finish);
    assert_eq!(update_next(UpdateStep::Reload, false, true), UpdateStep::Finish);
    assert_eq!(update_next(UpdateStep::Finish, true, true), UpdateStep::Finish);
}

#[test]
fn every_update_ends_within_four_steps() {
    for bits in 0u32..16 {
        for &has_old in &[false, true] {
            for &ready in &[false, true] {
                let mut s = update_start(ready);
                for k in 0..4 {
                    let next = update_next(s, bits & (1 << k) != 0, has_old);
                    if next == UpdateStep::Reload {
                        assert_eq!(s, UpdateStep::Download);
                    }
                    s = next;
                }
                assert_eq!(s, UpdateStep::Finish);
            }
        }
    }
}

#[test]
fn manage_actions_need_a_drive() {
    assert!(manage_action_allowed(ManageAct::ToggleSection, false));
    assert!(manage_action_allowed(ManageAct::ToggleSection, true));
    for act in [ManageAct::Enable, ManageAct::Disable, ManageAct::Update] {
        assert!(!manage_action_allowed(act, false));
        assert!(manage_action_allowed(act, true));
    }
}

#[test]
fn rescan_button_caption() {
    assert_eq!(rescan_caption(true), "刷新启动盘");
    assert_eq!(rescan_caption(false), "重新扫描启动盘");
}
