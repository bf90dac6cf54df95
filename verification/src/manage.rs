use vstd::prelude::*;
use crate::mode::PluginMode;
use crate::plugin::Plugin;

verus! {

/// Title of a section of the manage page (enabled or disabled list; the
/// HotPE source calls its plugins modules).
pub fn section_title(enabled: bool, module: bool) -> (r: &'static str)
    ensures
        r@ == (if enabled {
            if module { "已启用模块"@ } else { "已启用插件"@ }
        } else if module {
            "已禁用模块"@
        } else {
            "已禁用插件"@
        }),
{
    if enabled {
        if module { "已启用模块" } else { "已启用插件" }
    } else if module {
        "已禁用模块"
    } else {
        "已禁用插件"
    }
}

/// Text shown in an empty section of the manage page.
pub fn section_empty_text(enabled: bool, module: bool) -> (r: &'static str)
    ensures
        r@ == (if enabled {
            if module { "暂无已启用的模块"@ } else { "暂无已启用的插件"@ }
        } else if module {
            "暂无已禁用的模块"@
        } else {
            "暂无已禁用的插件"@
        }),
{
    if enabled {
        if module { "暂无已启用的模块" } else { "暂无已启用的插件" }
    } else if module {
        "暂无已禁用的模块"
    } else {
        "暂无已禁用的插件"
    }
}

/// Whether the HotPE source is in use (its plugins are called modules).
pub fn is_module(mode: PluginMode) -> (r: bool)
    ensures
        r == (mode == PluginMode::HotPE),
{
    mode == PluginMode::HotPE
}

/// Whether the manage page reloads the local plugin list before drawing:
/// never while an update runs; otherwise when asked to, when it never loaded,
/// or when the last load is stale (`last_load_stale` is `None` when it never
/// loaded).
pub fn should_refresh(has_updating: bool, need_refresh: bool, last_load_stale: Option<bool>) -> (r: bool)
    ensures
        r == (!has_updating && (need_refresh || match last_load_stale {
            None => true,
            Some(stale) => stale,
        })),
{
    if has_updating {
        false
    } else if need_refresh {
        true
    } else {
        match last_load_stale {
            Some(stale) => stale,
            None => true,
        }
    }
}

/// Whether a plugin card shows the description line.
pub open spec fn shows_description(mode: PluginMode, p: Plugin) -> bool {
    mode != PluginMode::Edgeless && p.describe@.len() > 0
}

/// Height of a plugin card: taller when it shows a description.
pub open spec fn spec_card_height(mode: PluginMode, p: Plugin) -> nat {
    if shows_description(mode, p) { 86 } else { 66 }
}

/// Height of a plugin card (in logical pixels).
pub fn card_height(mode: PluginMode, p: &Plugin) -> (r: u32)
    ensures
        r == spec_card_height(mode, *p),
{
    if mode != PluginMode::Edgeless && p.describe.unicode_len() > 0 {
        86
    } else {
        66
    }
}

/// Total height of the cards of a list, each followed by an 8 pixel gap.
pub open spec fn cards_height(mode: PluginMode, ps: Seq<Plugin>) -> nat
    decreases ps.len(),
{
    if ps.len() == 0 {
        0
    } else {
        cards_height(mode, ps.drop_last()) + spec_card_height(mode, ps.last()) + 8
    }
}

/// Full height of a section's content: one line for the empty text, or
/// the cards with their gaps.
pub open spec fn spec_section_full_height(mode: PluginMode, ps: Seq<Plugin>) -> nat {
    if ps.len() == 0 { 30 } else { cards_height(mode, ps) }
}

proof fn lemma_cards_height_bound(mode: PluginMode, ps: Seq<Plugin>)
    ensures
        cards_height(mode, ps) <= 94 * ps.len(),
    decreases ps.len(),
{
    if ps.len() > 0 {
        lemma_cards_height_bound(mode, ps.drop_last());
    }
}

/// Full height of a section's content (in logical pixels).
pub fn section_full_height(mode: PluginMode, list: &Vec<Plugin>) -> (r: u128)
    ensures
        r == spec_section_full_height(mode, list@),
{
    if list.len() == 0 {
        return 30;
    }
    let mut h: u128 = 0;
    let mut k: usize = 0;
    while k < list.len()
        invariant
            k <= list@.len(),
            h == cards_height(mode, list@.take(k as int)),
        decreases list.len() - k,
    {
        proof {
            lemma_cards_height_bound(mode, list@.take(k as int));
            assert(list@.take(k + 1).drop_last() =~= list@.take(k as int));
        }
        let c = card_height(mode, &list[k]);
        h = h + c as u128 + 8;
        k = k + 1;
    }
    assert(list@.take(list@.len() as int) =~= list@);
    h
}

/// Which action row of a list is held down by the pointer.
#[derive(Debug)]
pub struct RowPress {
    pub pressed: Option<usize>,
}

impl RowPress {
    /// Nothing held down.
    pub fn new() -> (r: RowPress)
        ensures
            r.pressed is None,
    {
        RowPress { pressed: None }
    }

    /// A press: inside the list it holds down the first action area under the
    /// pointer (`first_hit`, or nothing); outside the list it changes nothing.
    /// Returns whether the page must redraw.
    pub fn on_down(&mut self, in_view: bool, first_hit: Option<usize>) -> (r: bool)
        ensures
            r == in_view,
            final(self).pressed == (if in_view { first_hit } else { old(self).pressed }),
    {
        if in_view {
            self.pressed = first_hit;
            true
        } else {
            false
        }
    }

    /// A release: nothing stays held down. Returns the action to run: the
    /// held one, when the release is still inside it (`still_inside`).
    pub fn on_up(&mut self, still_inside: bool) -> (r: Option<usize>)
        ensures
            final(self).pressed is None,
            r == released_action(old(self).pressed, still_inside),
    {
        let p = self.pressed;
        self.pressed = None;
        if still_inside {
            p
        } else {
            None
        }
    }

    /// The pointer left the window: nothing stays held down.
    pub fn on_leave(&mut self)
        ensures
            final(self).pressed is None,
    {
        self.pressed = None;
    }

    /// An action area is drawn hovered when the pointer is over it and
    /// nothing is held down.
    pub fn is_hover(&self, contains_pointer: bool) -> (r: bool)
        ensures
            r == (self.pressed is None && contains_pointer),
    {
        self.pressed.is_none() && contains_pointer
    }

    /// An action area is drawn pressed when it is the one held down.
    pub fn is_press(&self, idx: usize) -> (r: bool)
        ensures
            r == (self.pressed == Some(idx)),
    {
        match self.pressed {
            Some(p) => p == idx,
            None => false,
        }
    }
}

/// The action that runs on a release: the held one, if the release is still
/// inside it.
pub open spec fn released_action(pressed: Option<usize>, still_inside: bool) -> Option<usize> {
    if still_inside { pressed } else { None }
}

/// Only the action that was pressed can run on release; with nothing held
/// down, a release runs nothing.
pub proof fn lemma_release_runs_only_pressed(pressed: Option<usize>, still_inside: bool)
    ensures
        released_action(pressed, still_inside) matches Some(i) ==> pressed == Some(i),
        pressed is None ==> released_action(pressed, still_inside) is None,
{
}

} // verus!
