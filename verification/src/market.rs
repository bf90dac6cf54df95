use vstd::prelude::*;
use crate::plugin::Plugin;
use crate::text::owned;

verus! {

/// Name of the pseudo-category that holds search results.
pub open spec fn search_category() -> Seq<char> {
    "搜索"@
}

/// Name of the category the market opens on.
pub open spec fn recommended_category() -> Seq<char> {
    "推荐"@
}

/// Which category tab of the market is selected, and the state around it.
#[derive(Debug)]
pub struct CategoryNav {
    /// The selected tab.
    pub selected_category: String,
    /// The tab to return to when the search box is cleared.
    pub last_selected_category: String,
    /// Whether the search pseudo-category is shown among the tabs.
    pub show_search_category: bool,
    /// Whether the plugin list has not arrived yet.
    pub is_loading: bool,
}

/// The market's tab state as values.
pub struct NavView {
    pub selected: Seq<char>,
    pub last_selected: Seq<char>,
    pub show_search: bool,
    pub is_loading: bool,
}

impl View for CategoryNav {
    type V = NavView;

    open spec fn view(&self) -> NavView {
        NavView {
            selected: self.selected_category@,
            last_selected: self.last_selected_category@,
            show_search: self.show_search_category,
            is_loading: self.is_loading,
        }
    }
}

/// The tab state after an edit of the search box.
pub open spec fn search_changed(v: NavView, search_is_empty: bool) -> NavView {
    if !search_is_empty {
        if !v.show_search {
            NavView {
                selected: search_category(),
                last_selected: if v.selected != search_category() { v.selected } else { v.last_selected },
                show_search: true,
                is_loading: v.is_loading,
            }
        } else {
            v
        }
    } else if v.show_search {
        NavView { selected: v.last_selected, show_search: false, ..v }
    } else {
        v
    }
}

/// The tab state after a click on the tab named `name`.
pub open spec fn tab_clicked(v: NavView, name: Seq<char>) -> NavView {
    NavView {
        selected: name,
        last_selected: if !v.show_search || name != search_category() { name } else { v.last_selected },
        ..v
    }
}

/// Where the cards of the market list come from.
#[derive(Clone, Copy, Debug, PartialEq, Eq, Structural)]
pub enum ListSource {
    /// The search results for the text in the search box.
    Search,
    /// The plugins of the selected category.
    Category,
    /// Nothing (search tab selected with an empty search box).
    Nothing,
}

impl CategoryNav {
    /// The market before its plugin list arrived: the recommended tab
    /// selected, no search tab.
    pub fn new() -> (r: CategoryNav)
        ensures
            r.selected_category@ == recommended_category(),
            r.last_selected_category@ == recommended_category(),
            !r.show_search_category,
            r.is_loading,
    {
        CategoryNav {
            selected_category: owned("推荐"),
            last_selected_category: owned("推荐"),
            show_search_category: false,
            is_loading: true,
        }
    }

    /// Reacts to an edit of the search box. A non-empty box shows and selects
    /// the search tab (remembering the tab it came from); clearing the box
    /// hides the search tab and goes back to the remembered tab.
    pub fn on_search_changed(&mut self, search_is_empty: bool)
        ensures
            final(self)@ == search_changed(old(self)@, search_is_empty),
    {
        let search = owned("搜索");
        if !search_is_empty {
            if !self.show_search_category {
                self.show_search_category = true;
                if self.selected_category != search {
                    self.last_selected_category = self.selected_category.clone();
                }
                self.selected_category = search;
            }
        } else if self.show_search_category {
            self.show_search_category = false;
            self.selected_category = self.last_selected_category.clone();
        }
    }

    /// A click on the tab named `name`: selects it, and remembers it as the
    /// tab to return to unless it is the search tab while that is shown.
    pub fn on_tab_clicked(&mut self, name: &String)
        ensures
            final(self)@ == tab_clicked(old(self)@, name@),
    {
        self.selected_category = name.clone();
        if !self.show_search_category || *name != owned("搜索") {
            self.last_selected_category = name.clone();
        }
    }

    /// Called on every frame with the category names of the plugin list
    /// received so far: the first time the list is non-empty, loading ends,
    /// and if the list has no recommended category its first category is
    /// selected.
    pub fn on_categories(&mut self, classes: &Vec<String>)
        ensures
            final(self).show_search_category == old(self).show_search_category,
            old(self).is_loading && classes@.len() > 0 ==> {
                &&& !final(self).is_loading
                &&& if exists|k: int| 0 <= k < classes@.len() && #[trigger] classes@[k]@ == recommended_category() {
                    final(self).selected_category@ == old(self).selected_category@
                        && final(self).last_selected_category@ == old(self).last_selected_category@
                } else {
                    final(self).selected_category@ == classes@[0]@
                        && final(self).last_selected_category@ == classes@[0]@
                }
            },
            !(old(self).is_loading && classes@.len() > 0) ==> {
                &&& final(self).is_loading == old(self).is_loading
                &&& final(self).selected_category@ == old(self).selected_category@
                &&& final(self).last_selected_category@ == old(self).last_selected_category@
            },
    {
        if self.is_loading && classes.len() > 0 {
            self.is_loading = false;
            let rec = owned("推荐");
            let mut has_rec = false;
            let mut k: usize = 0;
            while k < classes.len()
                invariant
                    k <= classes@.len(),
                    rec@ == recommended_category(),
                    has_rec == exists|j: int| 0 <= j < k && #[trigger] classes@[j]@ == recommended_category(),
                decreases classes.len() - k,
            {
                if classes[k] == rec {
                    has_rec = true;
                }
                k = k + 1;
            }
            if !has_rec {
                self.selected_category = classes[0].clone();
                self.last_selected_category = classes[0].clone();
            }
        }
    }

    /// The tabs to draw, in order, each with whether it is selected: the
    /// search tab first while it is shown, then one tab per category.
    pub fn tabs(&self, classes: &Vec<String>) -> (r: Vec<(String, bool)>)
        ensures
            r@.len() == classes@.len() + (if self.show_search_category { 1int } else { 0 }),
            self.show_search_category ==> r@[0].0@ == search_category() && r@[0].1
                == (self.selected_category@ == search_category()),
            forall|k: int|
                #![trigger classes@[k]]
                0 <= k < classes@.len() ==> {
                    &&& r@[k + if self.show_search_category { 1int } else { 0 }].0@ == classes@[k]@
                    &&& r@[k + if self.show_search_category { 1int } else { 0 }].1
                        == (self.selected_category@ == classes@[k]@)
                },
    {
        let mut r: Vec<(String, bool)> = Vec::new();
        let off: usize = if self.show_search_category { 1 } else { 0 };
        if self.show_search_category {
            let s = owned("搜索");
            let sel = self.selected_category == s;
            r.push((s, sel));
        }
        let mut k: usize = 0;
        while k < classes.len()
            invariant
                k <= classes@.len(),
                off == (if self.show_search_category { 1usize } else { 0 }),
                r@.len() == k + off,
                self.show_search_category ==> r@[0].0@ == search_category() && r@[0].1
                    == (self.selected_category@ == search_category()),
                forall|m: int|
                    #![trigger classes@[m]]
                    0 <= m < k ==> {
                        &&& r@[m + off].0@ == classes@[m]@
                        &&& r@[m + off].1 == (self.selected_category@ == classes@[m]@)
                    },
            decreases classes.len() - k,
        {
            let sel = self.selected_category == classes[k];
            r.push((classes[k].clone(), sel));
            k = k + 1;
        }
        r
    }

    /// Where the list's cards come from.
    pub fn list_source(&self, search_is_empty: bool) -> (r: ListSource)
        ensures
            r == (if self.selected_category@ == search_category() && !search_is_empty {
                ListSource::Search
            } else if self.selected_category@ != search_category() {
                ListSource::Category
            } else {
                ListSource::Nothing
            }),
    {
        let search = owned("搜索");
        if self.selected_category == search && !search_is_empty {
            ListSource::Search
        } else if self.selected_category != search {
            ListSource::Category
        } else {
            ListSource::Nothing
        }
    }

    /// Index of the first category named like the selected tab.
    pub fn find_selected(&self, classes: &Vec<String>) -> (r: Option<usize>)
        ensures
            r matches Some(k) ==> k < classes@.len() && classes@[k as int]@ == self.selected_category@
                && forall|j: int| 0 <= j < k ==> #[trigger] classes@[j]@ != self.selected_category@,
            r is None ==> forall|j: int| 0 <= j < classes@.len() ==> #[trigger] classes@[j]@ != self.selected_category@,
    {
        let mut k: usize = 0;
        while k < classes.len()
            invariant
                k <= classes@.len(),
                forall|j: int| 0 <= j < k ==> #[trigger] classes@[j]@ != self.selected_category@,
            decreases classes.len() - k,
        {
            if classes[k] == self.selected_category {
                return Some(k);
            }
            k = k + 1;
        }
        None
    }
}

/// Clearing the search box after typing in it returns to the tab that was
/// selected before, and hides the search tab again.
pub proof fn lemma_search_round_trip(v: NavView)
    requires
        !v.show_search,
        v.selected != search_category(),
    ensures
        search_changed(search_changed(v, false), true).selected == v.selected,
        !search_changed(search_changed(v, false), true).show_search,
        search_changed(search_changed(v, false), true).is_loading == v.is_loading,
{
}

/// Typing in the search box selects the search tab; typing more changes
/// nothing else.
pub proof fn lemma_search_typing_idempotent(v: NavView)
    ensures
        search_changed(v, false).show_search,
        !v.show_search ==> search_changed(v, false).selected == search_category(),
        search_changed(search_changed(v, false), false) == search_changed(v, false),
        search_changed(search_changed(v, true), true) == search_changed(v, true),
{
}

/// While searching, clicking a category tab and then clearing the search box
/// lands on that category.
pub proof fn lemma_tab_click_survives_clearing(v: NavView, name: Seq<char>)
    requires
        v.show_search,
        name != search_category(),
    ensures
        search_changed(tab_clicked(v, name), true).selected == name,
{
}

/// A tab click selects that tab and changes nothing else that the tab bar
/// shows: the search tab stays shown (or hidden) and the loading state is
/// kept. The clicked tab becomes the one to return to after a search, unless
/// it is the search tab itself while searching.
pub proof fn lemma_tab_click_selects_only(v: NavView, name: Seq<char>)
    ensures
        tab_clicked(v, name).selected == name,
        tab_clicked(v, name).show_search == v.show_search,
        tab_clicked(v, name).is_loading == v.is_loading,
        name != search_category() ==> tab_clicked(v, name).last_selected == name,
        !v.show_search ==> tab_clicked(v, name).last_selected == name,
        v.show_search && name == search_category() ==> tab_clicked(v, name).last_selected
            == v.last_selected,
{
}

/// After typing a search and then clicking a category, the search tab is
/// still shown (the results stay one click away) and the category is
/// selected; clearing the box then hides the search tab.
pub proof fn lemma_search_tab_outlives_tab_click(v: NavView, name: Seq<char>)
    ensures
        tab_clicked(search_changed(v, false), name).show_search,
        tab_clicked(search_changed(v, false), name).selected == name,
        !search_changed(tab_clicked(search_changed(v, false), name), true).show_search,
{
}

/// The text shown when the market list is empty.
pub fn empty_list_text(searching: bool, module: bool) -> (r: &'static str)
    ensures
        r@ == (if searching {
            if module { "未找到相关模块"@ } else { "未找到相关插件"@ }
        } else if module {
            "该分类暂无模块"@
        } else {
            "该分类暂无插件"@
        }),
{
    if searching {
        if module { "未找到相关模块" } else { "未找到相关插件" }
    } else if module {
        "该分类暂无模块"
    } else {
        "该分类暂无插件"
    }
}

/// Glyph of the empty market list: a magnifier for searches, a folder for
/// categories.
pub fn empty_list_glyph(searching: bool) -> (r: char)
    ensures
        r == (if searching { '\u{E721}' } else { '\u{E8B7}' }),
{
    if searching { '\u{E721}' } else { '\u{E8B7}' }
}

/// The key under which the market list drops repeated plugins.
pub open spec fn plugin_key(p: Plugin) -> Seq<char> {
    p.name@ + seq!['_'] + p.version@ + seq!['_'] + p.author@ + seq!['_'] + p.size@
}

/// The key of a plugin: name, version, author and size joined by `_`.
pub fn plugin_key_of(p: &Plugin) -> (r: String)
    ensures
        r@ == plugin_key(*p),
{
    proof { reveal_strlit("_"); }
    let mut r = owned(p.name.as_str());
    r.append("_");
    r.append(p.version.as_str());
    r.append("_");
    r.append(p.author.as_str());
    r.append("_");
    r.append(p.size.as_str());
    r
}

/// Whether plugin `i` is the first of the list with its key.
pub open spec fn is_first_with_key(ps: Seq<Plugin>, i: int) -> bool {
    forall|j: int| 0 <= j < i ==> plugin_key(#[trigger] ps[j]) != plugin_key(ps[i])
}

/// Whether some listed index holds a plugin with the given key.
pub open spec fn key_listed(ps: Seq<Plugin>, idx: Seq<usize>, key: Seq<char>) -> bool {
    exists|a: int| 0 <= a < idx.len() && plugin_key(ps[#[trigger] idx[a] as int]) == key
}

/// Indices of the plugins the market list shows: of plugins with equal keys
/// only the first, in list order.
pub fn visible_plugins(plugins: &Vec<Plugin>) -> (r: Vec<usize>)
    ensures
        forall|a: int, b: int| 0 <= a < b < r@.len() ==> r@[a] < r@[b],
        forall|a: int| 0 <= a < r@.len() ==> (#[trigger] r@[a]) < plugins@.len(),
        forall|a: int| 0 <= a < r@.len() ==> is_first_with_key(plugins@, #[trigger] r@[a] as int),
        forall|i: int|
            0 <= i < plugins@.len() && is_first_with_key(plugins@, i) ==> r@.contains(i as usize),
{
    let mut r: Vec<usize> = Vec::new();
    let mut i: usize = 0;
    while i < plugins.len()
        invariant
            i <= plugins@.len(),
            forall|a: int, b: int| 0 <= a < b < r@.len() ==> r@[a] < r@[b],
            forall|a: int| 0 <= a < r@.len() ==> (#[trigger] r@[a]) < i,
            forall|a: int| 0 <= a < r@.len() ==> is_first_with_key(plugins@, #[trigger] r@[a] as int),
            forall|j: int| 0 <= j < i ==> key_listed(plugins@, r@, plugin_key(#[trigger] plugins@[j])),
            forall|j: int| 0 <= j < i && is_first_with_key(plugins@, j) ==> r@.contains(j as usize),
        decreases plugins.len() - i,
    {
        let key = plugin_key_of(&plugins[i]);
        let mut found = false;
        let mut s: usize = 0;
        while s < r.len()
            invariant
                s <= r@.len(),
                forall|a: int| 0 <= a < r@.len() ==> (#[trigger] r@[a]) < plugins@.len(),
                found == exists|a: int| 0 <= a < s && plugin_key(plugins@[#[trigger] r@[a] as int]) == key@,
            decreases r.len() - s,
        {
            let other = plugin_key_of(&plugins[r[s]]);
            if other == key {
                found = true;
            }
            s = s + 1;
        }
        let ghost old_r = r@;
        if !found {
            proof {
                assert forall|j: int| 0 <= j < i implies plugin_key(#[trigger] plugins@[j]) != plugin_key(plugins@[i as int]) by {
                    assert(key_listed(plugins@, r@, plugin_key(plugins@[j])));
                }
            }
            r.push(i);
            proof {
                assert(r@[r@.len() - 1] == i);
                assert forall|j: int| 0 <= j < i + 1 implies key_listed(plugins@, r@, plugin_key(#[trigger] plugins@[j])) by {
                    if j < i {
                        assert(key_listed(plugins@, old_r, plugin_key(plugins@[j])));
                        let a = choose|a: int| 0 <= a < old_r.len() && plugin_key(plugins@[#[trigger] old_r[a] as int]) == plugin_key(plugins@[j]);
                        assert(r@[a] == old_r[a]);
                    } else {
                        assert(plugin_key(plugins@[r@[r@.len() - 1] as int]) == plugin_key(plugins@[j]));
                    }
                }
                assert forall|j: int| 0 <= j < i + 1 && is_first_with_key(plugins@, j) implies r@.contains(j as usize) by {
                    if j < i {
                        assert(old_r.contains(j as usize));
                        let a = choose|a: int| 0 <= a < old_r.len() && old_r[a] == j as usize;
                        assert(r@[a] == j as usize);
                    } else {
                        assert(r@[r@.len() - 1] == j as usize);
                    }
                }
            }
        } else {
            proof {
                let a = choose|a: int| 0 <= a < r@.len() && plugin_key(plugins@[#[trigger] r@[a] as int]) == key@;
                assert(r@[a] < i);
                assert(!is_first_with_key(plugins@, i as int)) by {
                    assert(plugin_key(plugins@[r@[a] as int]) == plugin_key(plugins@[i as int]));
                }
                assert(key_listed(plugins@, r@, plugin_key(plugins@[i as int])));
            }
        }
        i = i + 1;
    }
    r
}

/// The market never shows two cards with the same key: the indices kept by
/// `visible_plugins` hold pairwise different keys.
pub proof fn lemma_visible_keys_distinct(ps: Seq<Plugin>, r: Seq<usize>, a: int, b: int)
    requires
        forall|x: int, y: int| 0 <= x < y < r.len() ==> r[x] < r[y],
        forall|x: int| 0 <= x < r.len() ==> (#[trigger] r[x]) < ps.len(),
        forall|x: int| 0 <= x < r.len() ==> is_first_with_key(ps, #[trigger] r[x] as int),
        0 <= a < b < r.len(),
    ensures
        plugin_key(ps[r[a] as int]) != plugin_key(ps[r[b] as int]),
{
    assert(is_first_with_key(ps, r[b] as int));
    assert(r[a] < r[b]);
}

} // verus!

verus! {

/// What the market calls its items: modules for HotPE, plugins otherwise.
pub open spec fn item_word(module: bool) -> Seq<char> {
    if module { "模块"@ } else { "插件"@ }
}

/// The text under the spinner while the plugin list loads.
pub fn loading_list_text(module: bool) -> (r: &'static str)
    ensures
        r@ == (if module { "正在加载模块列表..."@ } else { "正在加载插件列表..."@ }),
{
    if module { "正在加载模块列表..." } else { "正在加载插件列表..." }
}

/// The error shown when the plugin list could not be fetched.
pub fn fetch_failed_message(module: bool) -> (r: String)
    ensures
        r@ == "无法获取"@ + item_word(module) + "列表，请检查网络连接，稍后重新打开重试。"@,
{
    let mut r = owned("无法获取");
    r.append(if module { "模块" } else { "插件" });
    r.append("列表，请检查网络连接，稍后重新打开重试。");
    r
}

/// The error shown by the loading window when the source cannot be reached.
pub fn connection_error_message(server_name: &str) -> (r: String)
    ensures
        r@ == "无法连接至 "@ + server_name@ + " 服务器，请检查网络连接或联系开发人员。"@,
{
    let mut r = owned("无法连接至 ");
    r.append(server_name);
    r.append(" 服务器，请检查网络连接或联系开发人员。");
    r
}

} // verus!
