use cloud_pe_plugin_market::mode::PluginMode;
use cloud_pe_plugin_market::plugin::{
    card_meta, file_with_extension, generate_plugin_filename, plugin_dir, sanitize_filename_part, unsafe_filename_char,
    Plugin,
};

fn mk(name: &str, ver: &str, auth: &str, desc: &str, size: &str) -> Plugin {
    Plugin {
        name: name.into(),
        size: size.into(),
        version: ver.into(),
        author: auth.into(),
        describe: desc.into(),
        file: String::new(),
        link: "https://example.com/x".into(),
    }
}

#[test]
fn filename_cloudpe_joins_name_version_author_description() {
    let p = mk("DiskGenius", "5.5.0", "CloudPE", "磁盘分区与数据恢复工具", "12.34 MB");
    assert_eq!(generate_plugin_filename(PluginMode::CloudPE, &p), "DiskGenius_5.5.0_CloudPE_磁盘分区与数据恢复工具");
}

#[test]
fn filename_replaces_unsafe_description_chars() {
    let p = mk("7-Zip", "23.01", "Igor Pavlov", "a/b\\c:d*e?f\"g<h>i|j k", "1.50 MB");
    assert_eq!(generate_plugin_filename(PluginMode::CloudPE, &p), "7-Zip_23.01_Igor Pavlov_a_b_c_d_e_f_g_h_i_j_k");
}

#[test]
fn filename_hotpe_orders_author_before_version() {
    let p = mk("CPU-Z", "2.06", "CPUID", "处理器 信息", "2.10 MB");
    assert_eq!(generate_plugin_filename(PluginMode::HotPE, &p), "CPU-Z_CPUID_2.06_处理器_信息");
}

#[test]
fn filename_hotpe_without_description_repeats_name() {
    let p = mk("Dism++", "10.1.1", "初雨团队", "", "8.20 MB");
    assert_eq!(generate_plugin_filename(PluginMode::HotPE, &p), "Dism++_初雨团队_10.1.1_Dism++");
}

#[test]
fn filename_edgeless_has_no_description() {
    let p = mk("Firefox", "120.0", "Mozilla", "浏览器", "80 MB");
    assert_eq!(generate_plugin_filename(PluginMode::Edgeless, &p), "Firefox_120.0_Mozilla");
}

#[test]
fn filename_select_mode_is_empty() {
    let p = mk("Firefox", "120.0", "Mozilla", "浏览器", "80 MB");
    assert_eq!(generate_plugin_filename(PluginMode::Select, &p), "");
}

#[test]
fn sanitize_keeps_safe_text() {
    assert_eq!(sanitize_filename_part("安全-text_1.0"), "安全-text_1.0");
    assert_eq!(sanitize_filename_part(""), "");
    assert_eq!(sanitize_filename_part("  "), "__");
}

#[test]
fn card_meta_line() {
    let p = mk("CPU-Z", "2.06", "CPUID", "x", "2.10 MB");
    assert_eq!(card_meta(&p), "版本: 2.06    大小: 2.10 MB    作者: CPUID");
}

#[test]
fn plugin_paths() {
    assert_eq!(plugin_dir("E:", "ce-apps"), "E:\\ce-apps");
    assert_eq!(file_with_extension("a_b", "7z"), "a_b.7z");
}

#[test]
fn filename_replaces_all_white_space_in_description() {
    let p = mk("a", "b", "c", "\t", "1 MB");
    assert_eq!(generate_plugin_filename(PluginMode::CloudPE, &p), "a_b_c__");
    assert_eq!(sanitize_filename_part("x\ny\u{3000}z\u{a0}w\u{2009}v\r"), "x_y_z_w_v_");
    assert_eq!(sanitize_filename_part("\u{85}\u{2028}\u{2029}\u{202f}\u{205f}\u{1680}\u{b}\u{c}"), "________");
    assert_eq!(sanitize_filename_part("\u{200b}\u{180e}"), "\u{200b}\u{180e}");
}

#[test]
fn unsafe_characters_match_white_space() {
    for u in 0u32..0x3100 {
        if let Some(c) = char::from_u32(u) {
            let bad = "/\\:*?\"<>|".contains(c);
            assert_eq!(unsafe_filename_char(c), c.is_whitespace() || bad, "U+{:04X}", u);
        }
    }
}
