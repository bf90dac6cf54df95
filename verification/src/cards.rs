use vstd::prelude::*;
use crate::text::owned;

verus! {

/// How an installed plugin's version compares with the market's.
#[derive(Clone, Copy, Debug, PartialEq, Eq, Structural)]
pub enum VersionOrder {
    Older,
    Same,
    Newer,
}

/// Install state of a market plugin on the current boot drive.
#[derive(Clone, Copy, Debug, PartialEq, Eq, Structural)]
pub enum InstallStatus {
    NotInstalled,
    Installed,
    UpdateAvailable,
}

/// The install state of a market plugin, given how the enabled local plugin
/// with the same id compares with it (`None` when there is none): an older
/// local copy can be updated.
pub fn check_status(local: Option<VersionOrder>) -> (r: InstallStatus)
    ensures
        r == (match local {
            None => InstallStatus::NotInstalled,
            Some(VersionOrder::Older) => InstallStatus::UpdateAvailable,
            Some(_) => InstallStatus::Installed,
        }),
{
    match local {
        None => InstallStatus::NotInstalled,
        Some(VersionOrder::Older) => InstallStatus::UpdateAvailable,
        Some(_) => InstallStatus::Installed,
    }
}

/// Whether a local plugin has a newer version on the market (`None` when the
/// market does not list it).
pub fn has_update(market: Option<VersionOrder>) -> (r: bool)
    ensures
        r == (market == Some(VersionOrder::Older)),
{
    match market {
        Some(VersionOrder::Older) => true,
        _ => false,
    }
}

/// The kinds of background work on a plugin.
#[derive(Clone, Copy, Debug, PartialEq, Eq, Structural)]
pub enum TaskKind {
    Install,
    Update,
    Download,
}

/// Suffix that names a kind of background work in a task id.
pub open spec fn task_suffix(kind: TaskKind) -> Seq<char> {
    match kind {
        TaskKind::Install => "_install"@,
        TaskKind::Update => "_update"@,
        TaskKind::Download => "_download"@,
    }
}

/// The id under which background work on a plugin is tracked: the plugin id
/// followed by `_install`, `_update` or `_download`.
pub fn task_id(plugin_id: &str, kind: TaskKind) -> (r: String)
    ensures
        r@ == plugin_id@ + task_suffix(kind),
{
    let mut r = owned(plugin_id);
    match kind {
        TaskKind::Install => r.append("_install"),
        TaskKind::Update => r.append("_update"),
        TaskKind::Download => r.append("_download"),
    }
    r
}

/// Caption of an action button on a plugin card.
#[derive(Clone, Copy, Debug, PartialEq, Eq, Structural)]
pub enum CardLabel {
    Download,
    Install,
    Installed,
    Update,
    Disable,
    Enable,
}

impl CardLabel {
    /// The caption's text.
    pub open spec fn spec_text(self) -> Seq<char> {
        match self {
            CardLabel::Download => "下载"@,
            CardLabel::Install => "安装"@,
            CardLabel::Installed => "已安装"@,
            CardLabel::Update => "更新"@,
            CardLabel::Disable => "禁用"@,
            CardLabel::Enable => "启用"@,
        }
    }

    /// The caption's text.
    pub fn text(&self) -> (r: &'static str)
        ensures
            r@ == self.spec_text(),
    {
        match self {
            CardLabel::Download => "下载",
            CardLabel::Install => "安装",
            CardLabel::Installed => "已安装",
            CardLabel::Update => "更新",
            CardLabel::Disable => "禁用",
            CardLabel::Enable => "启用",
        }
    }

    /// Whether the caption is drawn on an accent button.
    pub open spec fn spec_accent(self) -> bool {
        self == CardLabel::Install || self == CardLabel::Update
    }

    /// Whether the caption is drawn on an accent button.
    pub fn accent(&self) -> (r: bool)
        ensures
            r == self.spec_accent(),
    {
        match self {
            CardLabel::Install | CardLabel::Update => true,
            _ => false,
        }
    }
}

/// One action slot of a plugin card.
#[derive(Clone, Copy, Debug, PartialEq, Eq, Structural)]
pub enum CardButton {
    /// A clickable button that starts the action.
    Action(CardLabel),
    /// The action is running: a disabled button with a spinner.
    Busy(CardLabel),
    /// A disabled button that only informs.
    Inert(CardLabel),
}

/// The action slot for work that may be running.
pub open spec fn slot(label: CardLabel, busy: bool) -> CardButton {
    if busy { CardButton::Busy(label) } else { CardButton::Action(label) }
}

/// The action slots of a market card, from the right edge leftwards: the
/// download slot always, then (only with a boot drive) install, installed or
/// update depending on the install state.
pub open spec fn market_slots(
    is_downloading: bool,
    is_installing: bool,
    is_updating: bool,
    has_drive: bool,
    status: InstallStatus,
) -> Seq<CardButton> {
    let first = seq![slot(CardLabel::Download, is_downloading)];
    if !has_drive {
        first
    } else {
        match status {
            InstallStatus::NotInstalled => first.push(slot(CardLabel::Install, is_installing)),
            InstallStatus::Installed => first.push(CardButton::Inert(CardLabel::Installed)),
            InstallStatus::UpdateAvailable => first.push(slot(CardLabel::Update, is_updating)),
        }
    }
}

/// The action slots of a market card, from the right edge leftwards.
pub fn market_card_buttons(
    is_downloading: bool,
    is_installing: bool,
    is_updating: bool,
    has_drive: bool,
    status: InstallStatus,
) -> (r: Vec<CardButton>)
    ensures
        r@ == market_slots(is_downloading, is_installing, is_updating, has_drive, status),
{
    let mut r: Vec<CardButton> = Vec::new();
    r.push(if is_downloading { CardButton::Busy(CardLabel::Download) } else { CardButton::Action(CardLabel::Download) });
    if has_drive {
        match status {
            InstallStatus::NotInstalled => r.push(
                if is_installing { CardButton::Busy(CardLabel::Install) } else { CardButton::Action(CardLabel::Install) },
            ),
            InstallStatus::Installed => r.push(CardButton::Inert(CardLabel::Installed)),
            InstallStatus::UpdateAvailable => r.push(
                if is_updating { CardButton::Busy(CardLabel::Update) } else { CardButton::Action(CardLabel::Update) },
            ),
        }
    }
    proof {
        assert(r@ =~= market_slots(is_downloading, is_installing, is_updating, has_drive, status));
    }
    r
}

/// The action slots of a card on the manage page, from the right edge
/// leftwards. An enabled plugin offers an update when the market has a newer
/// version, and a disable button unless its update is running; a disabled
/// plugin offers an enable button.
pub open spec fn manage_slots(enabled: bool, update: bool, is_updating: bool) -> Seq<CardButton> {
    if enabled {
        let first: Seq<CardButton> = if update { seq![slot(CardLabel::Update, is_updating)] } else { Seq::empty() };
        if is_updating { first } else { first.push(CardButton::Action(CardLabel::Disable)) }
    } else {
        seq![CardButton::Action(CardLabel::Enable)]
    }
}

/// The action slots of a card on the manage page, from the right edge
/// leftwards.
pub fn manage_card_buttons(enabled: bool, update: bool, is_updating: bool) -> (r: Vec<CardButton>)
    ensures
        r@ == manage_slots(enabled, update, is_updating),
{
    let mut r: Vec<CardButton> = Vec::new();
    if enabled {
        if update {
            r.push(if is_updating { CardButton::Busy(CardLabel::Update) } else { CardButton::Action(CardLabel::Update) });
        }
        if !is_updating {
            r.push(CardButton::Action(CardLabel::Disable));
        }
    } else {
        r.push(CardButton::Action(CardLabel::Enable));
    }
    proof {
        assert(r@ =~= manage_slots(enabled, update, is_updating));
    }
    r
}

/// Every market card offers a download slot, and it comes first (rightmost).
pub proof fn lemma_market_card_always_downloads(
    is_downloading: bool,
    is_installing: bool,
    is_updating: bool,
    has_drive: bool,
    status: InstallStatus,
)
    ensures
        market_slots(is_downloading, is_installing, is_updating, has_drive, status).len() >= 1,
        market_slots(is_downloading, is_installing, is_updating, has_drive, status)[0] == slot(
            CardLabel::Download,
            is_downloading,
        ),
{
}

/// Without a boot drive a market card offers nothing but the download.
pub proof fn lemma_market_card_needs_drive_to_install(
    is_downloading: bool,
    is_installing: bool,
    is_updating: bool,
    status: InstallStatus,
)
    ensures
        market_slots(is_downloading, is_installing, is_updating, false, status) == seq![slot(
            CardLabel::Download,
            is_downloading,
        )],
{
}

/// With a boot drive a market card has exactly two slots: the download, then
/// one chosen by the install state: install (spinning while it runs) for a
/// plugin not installed, a disabled "installed" for an up-to-date one, and
/// update (spinning while it runs) when the market has a newer version.
pub proof fn lemma_market_card_with_drive(
    is_downloading: bool,
    is_installing: bool,
    is_updating: bool,
    status: InstallStatus,
)
    ensures
        market_slots(is_downloading, is_installing, is_updating, true, status).len() == 2,
        market_slots(is_downloading, is_installing, is_updating, true, status)[0] == (if is_downloading {
            CardButton::Busy(CardLabel::Download)
        } else {
            CardButton::Action(CardLabel::Download)
        }),
        market_slots(is_downloading, is_installing, is_updating, true, status)[1] == (match status {
            InstallStatus::NotInstalled => if is_installing {
                CardButton::Busy(CardLabel::Install)
            } else {
                CardButton::Action(CardLabel::Install)
            },
            InstallStatus::Installed => CardButton::Inert(CardLabel::Installed),
            InstallStatus::UpdateAvailable => if is_updating {
                CardButton::Busy(CardLabel::Update)
            } else {
                CardButton::Action(CardLabel::Update)
            },
        }),
{
}

/// A market card offers a clickable install exactly when a boot drive is
/// chosen, the plugin is not installed and no install of it runs.
pub proof fn lemma_install_offered_iff(
    is_downloading: bool,
    is_installing: bool,
    is_updating: bool,
    has_drive: bool,
    status: InstallStatus,
)
    ensures
        market_slots(is_downloading, is_installing, is_updating, has_drive, status).contains(
            CardButton::Action(CardLabel::Install),
        ) <==> (has_drive && status == InstallStatus::NotInstalled && !is_installing),
{
    let s = market_slots(is_downloading, is_installing, is_updating, has_drive, status);
    if has_drive && status == InstallStatus::NotInstalled && !is_installing {
        assert(s[1] == CardButton::Action(CardLabel::Install));
    }
    if s.contains(CardButton::Action(CardLabel::Install)) {
        let k = choose|k: int| 0 <= k < s.len() && s[k] == CardButton::Action(CardLabel::Install);
        assert(s[k] == CardButton::Action(CardLabel::Install));
    }
}

/// While a plugin's update runs, its card offers no disable button, and the
/// update slot (if any) shows the spinner.
pub proof fn lemma_no_disable_while_updating(update: bool)
    ensures
        !manage_slots(true, update, true).contains(CardButton::Action(CardLabel::Disable)),
        update ==> manage_slots(true, update, true) == seq![CardButton::Busy(CardLabel::Update)],
{
    let s = manage_slots(true, update, true);
    if s.contains(CardButton::Action(CardLabel::Disable)) {
        let k = choose|k: int| 0 <= k < s.len() && s[k] == CardButton::Action(CardLabel::Disable);
        assert(s[k] != CardButton::Action(CardLabel::Disable));
    }
}

} // verus!
