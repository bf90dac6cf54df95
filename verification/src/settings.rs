use vstd::prelude::*;
use crate::mode::{ColorMode, PluginMode};

verus! {

/// The download thread counts the settings page offers, in combo order.
pub open spec fn thread_choices() -> Seq<u32> {
    seq![8u32, 16u32, 32u32]
}

/// Combo index of a colour mode: system, light, dark.
pub open spec fn spec_color_index(m: ColorMode) -> usize {
    match m {
        ColorMode::System => 0,
        ColorMode::Light => 1,
        ColorMode::Dark => 2,
    }
}

/// Combo index of a colour mode.
pub fn color_index(m: ColorMode) -> (r: usize)
    ensures
        r == spec_color_index(m),
{
    match m {
        ColorMode::System => 0,
        ColorMode::Light => 1,
        ColorMode::Dark => 2,
    }
}

/// Colour mode chosen in the combo: 0 system, 1 light, anything else dark.
pub open spec fn spec_color_at(i: usize) -> ColorMode {
    if i == 0 {
        ColorMode::System
    } else if i == 1 {
        ColorMode::Light
    } else {
        ColorMode::Dark
    }
}

/// Colour mode chosen in the combo.
pub fn color_at(i: usize) -> (r: ColorMode)
    ensures
        r == spec_color_at(i),
{
    match i {
        0 => ColorMode::System,
        1 => ColorMode::Light,
        _ => ColorMode::Dark,
    }
}

/// Combo index of a thread count: its position among 8, 16 and 32, or 0
/// for any other count.
pub open spec fn spec_threads_index(t: u32) -> usize {
    if t == 8 {
        0
    } else if t == 16 {
        1
    } else if t == 32 {
        2
    } else {
        0
    }
}

/// Combo index of a thread count.
pub fn threads_index(t: u32) -> (r: usize)
    ensures
        r == spec_threads_index(t),
{
    let choices: [u32; 3] = [8, 16, 32];
    let mut k: usize = 0;
    while k < 3
        invariant
            k <= 3,
            choices@ == thread_choices(),
            forall|j: int| 0 <= j < k ==> choices@[j] != t,
        decreases 3 - k,
    {
        if choices[k] == t {
            return k;
        }
        k = k + 1;
    }
    0
}

/// Thread count chosen in the combo; an index past the end counts as the
/// last entry.
pub open spec fn spec_threads_at(i: usize) -> u32 {
    thread_choices()[if i < 2 { i as int } else { 2 }]
}

/// Thread count chosen in the combo.
pub fn threads_at(i: usize) -> (r: u32)
    ensures
        r == spec_threads_at(i),
{
    let choices: [u32; 3] = [8, 16, 32];
    let k = if i < 2 { i } else { 2 };
    assert(choices@ == thread_choices());
    choices[k]
}

/// Choosing a colour mode in the combo and reading the combo back from the
/// stored mode give the same entry, for every mode.
pub proof fn lemma_color_round_trip(m: ColorMode, i: usize)
    requires
        i < 3,
    ensures
        spec_color_at(spec_color_index(m)) == m,
        spec_color_index(spec_color_at(i)) == i,
{
}

/// Choosing a thread count in the combo and reading the combo back from the
/// stored count give the same entry; a stored count the combo does not offer
/// shows as the first entry.
pub proof fn lemma_threads_round_trip(t: u32, i: usize)
    requires
        i < 3,
    ensures
        spec_threads_index(spec_threads_at(i)) == i,
        thread_choices().contains(t) ==> spec_threads_at(spec_threads_index(t)) == t,
        !thread_choices().contains(t) ==> spec_threads_index(t) == 0,
{
    if thread_choices().contains(t) {
        let k = choose|k: int| 0 <= k < 3 && thread_choices()[k] == t;
    }
    if !thread_choices().contains(t) {
        assert(t != thread_choices()[0]);
        assert(t != thread_choices()[1]);
        assert(t != thread_choices()[2]);
    }
}

/// Which combo box of the settings page is open, if any (they are checked
/// in the order colour, drive, threads).
pub fn open_combo(color_open: bool, drive_open: bool, threads_open: bool) -> (r: Option<u8>)
    ensures
        r == (if color_open {
            Some(0u8)
        } else if drive_open {
            Some(1u8)
        } else if threads_open {
            Some(2u8)
        } else {
            None
        }),
{
    if color_open {
        Some(0)
    } else if drive_open {
        Some(1)
    } else if threads_open {
        Some(2)
    } else {
        None
    }
}

/// Position of the current boot drive among the drive letters, or 0.
pub fn drive_index(letters: &Vec<String>, current: &String) -> (r: usize)
    ensures
        (exists|j: int| 0 <= j < letters@.len() && #[trigger] letters@[j]@ == current@) ==> {
            &&& r < letters@.len()
            &&& letters@[r as int]@ == current@
            &&& forall|j: int| 0 <= j < r ==> #[trigger] letters@[j]@ != current@
        },
        (forall|j: int| 0 <= j < letters@.len() ==> #[trigger] letters@[j]@ != current@) ==> r == 0,
{
    let mut k: usize = 0;
    while k < letters.len()
        invariant
            k <= letters@.len(),
            forall|j: int| 0 <= j < k ==> #[trigger] letters@[j]@ != current@,
        decreases letters.len() - k,
    {
        if letters[k] == *current {
            return k;
        }
        k = k + 1;
    }
    0
}

/// Whether the mode is one of the three plugin sources.
pub open spec fn is_source(mode: PluginMode) -> bool {
    mode == PluginMode::CloudPE || mode == PluginMode::HotPE || mode == PluginMode::Edgeless
}

/// Caption of the boot-drive rescan button: "refresh" when no boot drive
/// was found, "scan again" beside the drive list otherwise.
pub fn rescan_caption(no_drives: bool) -> (r: &'static str)
    ensures
        r@ == (if no_drives { "刷新启动盘"@ } else { "重新扫描启动盘"@ }),
{
    if no_drives { "刷新启动盘" } else { "重新扫描启动盘" }
}

/// Title line of the about section.
pub fn about_title(mode: PluginMode) -> (r: &'static str)
    ensures
        r@ == (match mode {
            PluginMode::CloudPE => "Cloud-PE 插件市场"@,
            PluginMode::HotPE => "HotPE 模块下载"@,
            PluginMode::Edgeless => "Edgeless 插件下载"@,
            PluginMode::Select => ""@,
        }),
{
    match mode {
        PluginMode::CloudPE => "Cloud-PE 插件市场",
        PluginMode::HotPE => "HotPE 模块下载",
        PluginMode::Edgeless => "Edgeless 插件下载",
        PluginMode::Select => "",
    }
}

/// The fixed lines of the about section (version, author, copyright).
pub fn about_lines() -> (r: [&'static str; 3])
    ensures
        r@[0]@ == "版本：v0.1"@,
        r@[1]@ == "作者：NORMAL-EX（别称：dddffgg）"@,
        r@[2]@ == "版权：© 2025-present Cloud-PE Dev."@,
{
    ["版本：v0.1", "作者：NORMAL-EX（别称：dddffgg）", "版权：© 2025-present Cloud-PE Dev."]
}

/// The description lines of the about section for a mode.
pub fn about_description(mode: PluginMode) -> (r: Vec<&'static str>)
    ensures
        is_source(mode) ==> r@.len() == 2,
        !is_source(mode) ==> r@.len() == 0,
        mode == PluginMode::CloudPE ==> r@[0]@ == "此软件是 Cloud-PE One 的独立功能模块"@ && r@[1]@ == "专用于管理和下载 Cloud-PE 插件"@,
        mode == PluginMode::HotPE ==> r@[0]@ == "此软件是 HotPE 模块下载管理工具"@ && r@[1]@ == "专用于管理和下载 HotPE 模块"@,
        mode == PluginMode::Edgeless ==> r@[0]@ == "此软件是 Edgeless 插件下载管理工具"@ && r@[1]@ == "专用于管理和下载 Edgeless 插件"@,
{
    let mut r: Vec<&'static str> = Vec::new();
    match mode {
        PluginMode::CloudPE => {
            r.push("此软件是 Cloud-PE One 的独立功能模块");
            r.push("专用于管理和下载 Cloud-PE 插件");
        },
        PluginMode::HotPE => {
            r.push("此软件是 HotPE 模块下载管理工具");
            r.push("专用于管理和下载 HotPE 模块");
        },
        PluginMode::Edgeless => {
            r.push("此软件是 Edgeless 插件下载管理工具");
            r.push("专用于管理和下载 Edgeless 插件");
        },
        PluginMode::Select => {},
    }
    r
}

/// Heights (logical pixels, before padding) of the bodies of the four
/// settings sections: basic, boot drive, download, about. The boot drive
/// section is shorter when no drive was found; the about section has one
/// 24 pixel line per text line below its 26 pixel title.
pub fn section_body_heights(no_drives: bool, mode: PluginMode) -> (r: [u32; 4])
    ensures
        r@[0] == 40,
        r@[1] == (if no_drives { 70u32 } else { 84u32 }),
        r@[2] == 84,
        r@[3] == 26 + 24 * (if is_source(mode) { 5u32 } else { 3u32 }),
{
    let lines: u32 = match mode {
        PluginMode::CloudPE | PluginMode::HotPE | PluginMode::Edgeless => 5,
        PluginMode::Select => 3,
    };
    [40, if no_drives { 70 } else { 84 }, 84, 26 + 24 * lines]
}

} // verus!

verus! {

/// A change of the configuration made through a settings combo box.
#[derive(Debug)]
pub enum SettingsChange {
    /// Store this colour mode.
    Color(ColorMode),
    /// Make this drive current and store it as the default boot drive.
    BootDrive(String),
    /// Store this download thread count.
    Threads(u32),
    /// Nothing to store (a drive entry that no longer exists).
    Nothing,
}

/// What choosing entry `selected` in combo `which` (0 colour, 1 boot drive,
/// any other the thread count) changes; the drive entry is looked up in the
/// freshly listed drive letters.
pub fn settings_change(which: u8, selected: usize, letters: &Vec<String>) -> (r: SettingsChange)
    ensures
        which == 0 ==> r == SettingsChange::Color(spec_color_at(selected)),
        which == 1 && selected < letters@.len() ==> (r matches SettingsChange::BootDrive(d) && d@
            == letters@[selected as int]@),
        which == 1 && selected >= letters@.len() ==> r == SettingsChange::Nothing,
        which != 0 && which != 1 ==> r == SettingsChange::Threads(spec_threads_at(selected)),
{
    if which == 0 {
        SettingsChange::Color(color_at(selected))
    } else if which == 1 {
        if selected < letters.len() {
            SettingsChange::BootDrive(letters[selected].clone())
        } else {
            SettingsChange::Nothing
        }
    } else {
        SettingsChange::Threads(threads_at(selected))
    }
}

} // verus!
