use vstd::prelude::*;

verus! {

/// The view of an optional string.
pub open spec fn opt_view(o: Option<String>) -> Option<Seq<char>> {
    match o {
        Some(s) => Some(s@),
        None => None,
    }
}

/// What the main window does about the boot drive when it opens.
#[derive(Debug)]
pub struct StartupPlan {
    /// Ask the user to pick a boot drive (several found, none remembered).
    pub first_launch: bool,
    /// The drive to make current (and to load the local plugins of).
    pub current_drive: Option<String>,
    /// Whether to store the current drive as the remembered default.
    pub save_default: bool,
}

/// Plans the boot drive at start-up from the drive letters found and the
/// remembered default: with several drives and no default the user picks;
/// otherwise a remembered default is used, or the only drive is used and
/// remembered.
pub fn plan_startup(drives: &Vec<String>, default_drive: &Option<String>) -> (r: StartupPlan)
    ensures
        r.first_launch == (drives@.len() > 1 && default_drive is None),
        r.first_launch ==> r.current_drive is None && !r.save_default,
        !r.first_launch && default_drive is Some ==> opt_view(r.current_drive) == opt_view(
            *default_drive,
        ) && !r.save_default,
        !r.first_launch && default_drive is None && drives@.len() == 1 ==> opt_view(
            r.current_drive,
        ) == Some(drives@[0]@) && r.save_default,
        !r.first_launch && default_drive is None && drives@.len() != 1 ==> r.current_drive is None
            && !r.save_default,
{
    let first = drives.len() > 1 && default_drive.is_none();
    if first {
        return StartupPlan { first_launch: true, current_drive: None, save_default: false };
    }
    match default_drive {
        Some(d) => StartupPlan { first_launch: false, current_drive: Some(d.clone()), save_default: false },
        None => {
            if drives.len() == 1 {
                StartupPlan { first_launch: false, current_drive: Some(drives[0].clone()), save_default: true }
            } else {
                StartupPlan { first_launch: false, current_drive: None, save_default: false }
            }
        },
    }
}

/// The drive picked in the start-up dialog, and whether to remember it.
#[derive(Debug)]
pub struct BootChoice {
    pub drive: String,
    pub remember: bool,
}

/// Confirms the start-up dialog: the drive at the selected combo entry (the
/// dialog stays open when there is none), remembered when the check box is
/// ticked.
pub fn confirm_boot_drive(drives: &Vec<String>, selected: usize, remember: bool) -> (r: Option<BootChoice>)
    ensures
        r is Some <==> selected < drives@.len(),
        r matches Some(c) ==> c.drive@ == drives@[selected as int]@ && c.remember == remember,
{
    if selected < drives.len() {
        Some(BootChoice { drive: drives[selected].clone(), remember })
    } else {
        None
    }
}

/// The pages of the main window.
#[derive(Clone, Copy, Debug, PartialEq, Eq, Structural)]
pub enum Page {
    Market,
    Manage,
    Settings,
}

/// The page shown for a navigation entry: 0 market, 1 manage, any other
/// settings.
pub fn page_of(selected: usize) -> (r: Page)
    ensures
        r == (if selected == 0 {
            Page::Market
        } else if selected == 1 {
            Page::Manage
        } else {
            Page::Settings
        }),
{
    if selected == 0 {
        Page::Market
    } else if selected == 1 {
        Page::Manage
    } else {
        Page::Settings
    }
}

/// Navigation state of the main window.
#[derive(Debug)]
pub struct ShellNav {
    /// The selected navigation entry.
    pub selected: usize,
    /// Whether the start-up boot drive dialog is open.
    pub show_boot_dialog: bool,
}

/// What a navigation event asks of the main window.
#[derive(Clone, Copy, Debug, PartialEq, Eq, Structural)]
pub enum NavOutcome {
    /// The selection did not change: the event goes on to the page.
    Unchanged,
    /// The selection changed: redraw, and reload the manage page's list when
    /// it is the new page.
    Switched { refresh_manage: bool },
}

impl ShellNav {
    /// The market page, with the boot dialog open or not.
    pub fn new(show_boot_dialog: bool) -> (r: ShellNav)
        ensures
            r.selected == 0,
            r.show_boot_dialog == show_boot_dialog,
    {
        ShellNav { selected: 0, show_boot_dialog }
    }

    /// Shows page `i` and closes the boot dialog.
    pub fn set_page(&mut self, i: usize)
        ensures
            final(self).selected == i,
            !final(self).show_boot_dialog,
    {
        self.selected = i;
        self.show_boot_dialog = false;
    }

    /// The navigation view moved its selection from `prev` to the current one.
    pub fn navigated(&self, prev: usize) -> (r: NavOutcome)
        ensures
            r == (if self.selected == prev {
                NavOutcome::Unchanged
            } else {
                NavOutcome::Switched { refresh_manage: self.selected == 1 }
            }),
    {
        if self.selected == prev {
            NavOutcome::Unchanged
        } else {
            NavOutcome::Switched { refresh_manage: self.selected == 1 }
        }
    }

    /// Whether text input (cursor shape, caret, IME composition) goes to the
    /// market's search box: only on the market page with no dialog open.
    pub fn text_input_to_market(&self) -> (r: bool)
        ensures
            r == (!self.show_boot_dialog && self.selected == 0),
    {
        !self.show_boot_dialog && self.selected == 0
    }
}

} // verus!
