use vstd::prelude::*;

verus! {

/// A step of installing or updating a plugin on the boot drive. The outside
/// work of each step (creating the plugin folder, deleting the old file,
/// downloading the new one, reloading the local list) is done by the caller,
/// which reports whether it succeeded.
#[derive(Clone, Copy, Debug, PartialEq, Eq, Structural)]
pub enum UpdateStep {
    /// Create the plugin folder on the boot drive.
    MakeDir,
    /// Delete the file of the version being replaced.
    DeleteOld,
    /// Download the new file into the plugin folder.
    Download,
    /// Reload the list of local plugins.
    Reload,
    /// Done: the task is cleared from the busy set.
    Finish,
}

/// The step an install or update starts with: none at all (straight to
/// `Finish`) when it cannot start, because no boot drive is chosen or the
/// plugin is no longer in the market list.
pub open spec fn update_start_spec(ready: bool) -> UpdateStep {
    if ready { UpdateStep::MakeDir } else { UpdateStep::Finish }
}

/// The step after `step`, given whether its work succeeded and whether an
/// old file is to be deleted (an update of an installed plugin) or not (a
/// fresh install). A failed folder, delete or download ends the task; the
/// local list is reloaded only after a successful download, and the task
/// ends after the reload whatever it gave.
pub open spec fn update_next_spec(step: UpdateStep, ok: bool, has_old: bool) -> UpdateStep {
    match step {
        UpdateStep::MakeDir => if !ok {
            UpdateStep::Finish
        } else if has_old {
            UpdateStep::DeleteOld
        } else {
            UpdateStep::Download
        },
        UpdateStep::DeleteOld => if ok { UpdateStep::Download } else { UpdateStep::Finish },
        UpdateStep::Download => if ok { UpdateStep::Reload } else { UpdateStep::Finish },
        UpdateStep::Reload => UpdateStep::Finish,
        UpdateStep::Finish => UpdateStep::Finish,
    }
}

/// The first step of an install or update.
pub fn update_start(ready: bool) -> (r: UpdateStep)
    ensures
        r == update_start_spec(ready),
{
    if ready { UpdateStep::MakeDir } else { UpdateStep::Finish }
}

/// The step that follows `step` once its work has given `ok`.
pub fn update_next(step: UpdateStep, ok: bool, has_old: bool) -> (r: UpdateStep)
    ensures
        r == update_next_spec(step, ok, has_old),
{
    match step {
        UpdateStep::MakeDir => if !ok {
            UpdateStep::Finish
        } else if has_old {
            UpdateStep::DeleteOld
        } else {
            UpdateStep::Download
        },
        UpdateStep::DeleteOld => if ok { UpdateStep::Download } else { UpdateStep::Finish },
        UpdateStep::Download => if ok { UpdateStep::Reload } else { UpdateStep::Finish },
        UpdateStep::Reload => UpdateStep::Finish,
        UpdateStep::Finish => UpdateStep::Finish,
    }
}

/// The step reached from `step` after the outcomes `oks`, one per step.
pub open spec fn update_run(step: UpdateStep, oks: Seq<bool>, has_old: bool) -> UpdateStep
    decreases oks.len(),
{
    if oks.len() == 0 {
        step
    } else {
        update_run(update_next_spec(step, oks[0], has_old), oks.drop_first(), has_old)
    }
}

/// Every install or update ends: whatever each step gives, four steps after
/// the start the task is finished (and it stays finished).
pub proof fn lemma_update_terminates(ready: bool, has_old: bool, oks: Seq<bool>)
    requires
        oks.len() >= 4,
    ensures
        update_run(update_start_spec(ready), oks, has_old) == UpdateStep::Finish,
{
    let o1 = oks.drop_first();
    let o2 = o1.drop_first();
    let o3 = o2.drop_first();
    let o4 = o3.drop_first();
    let s0 = update_start_spec(ready);
    let s1 = update_next_spec(s0, oks[0], has_old);
    let s2 = update_next_spec(s1, o1[0], has_old);
    let s3 = update_next_spec(s2, o2[0], has_old);
    let s4 = update_next_spec(s3, o3[0], has_old);
    assert(s4 == UpdateStep::Finish);
    assert(update_run(s0, oks, has_old) == update_run(s1, o1, has_old));
    assert(update_run(s1, o1, has_old) == update_run(s2, o2, has_old));
    assert(update_run(s2, o2, has_old) == update_run(s3, o3, has_old));
    assert(update_run(s3, o3, has_old) == update_run(s4, o4, has_old));
    lemma_finish_stays(o4, has_old);
}

/// Once finished, a task stays finished.
pub proof fn lemma_finish_stays(oks: Seq<bool>, has_old: bool)
    ensures
        update_run(UpdateStep::Finish, oks, has_old) == UpdateStep::Finish,
    decreases oks.len(),
{
    if oks.len() > 0 {
        lemma_finish_stays(oks.drop_first(), has_old);
    }
}

/// The local list is reloaded only right after a successful download; the
/// old file is deleted only in an update and only after the folder was
/// made; and the download follows a successful delete, or a successful
/// folder when there is no old file.
pub proof fn lemma_update_order(step: UpdateStep, ok: bool, has_old: bool)
    ensures
        update_next_spec(step, ok, has_old) == UpdateStep::Reload ==> step == UpdateStep::Download
            && ok,
        update_next_spec(step, ok, has_old) == UpdateStep::DeleteOld ==> step == UpdateStep::MakeDir
            && ok && has_old,
        update_next_spec(step, ok, has_old) == UpdateStep::Download ==> ok && (step
            == UpdateStep::DeleteOld || (step == UpdateStep::MakeDir && !has_old)),
        update_next_spec(step, ok, has_old) != UpdateStep::MakeDir,
{
}

/// A successful download is always followed by a reload of the local list,
/// for an update and for a fresh install alike; a failed step, whichever it
/// is, ends the task; and when every step succeeds the list is reloaded
/// after two steps of an install (folder, download) or three of an update
/// (folder, delete, download).
pub proof fn lemma_success_reaches_reload(step: UpdateStep, ok: bool, has_old: bool)
    ensures
        update_next_spec(UpdateStep::Download, true, has_old) == UpdateStep::Reload,
        update_next_spec(step, false, has_old) == UpdateStep::Finish,
        update_next_spec(UpdateStep::Reload, ok, has_old) == UpdateStep::Finish,
        update_next_spec(UpdateStep::Finish, ok, has_old) == UpdateStep::Finish,
        update_next_spec(UpdateStep::DeleteOld, true, has_old) == UpdateStep::Download,
        has_old ==> update_next_spec(UpdateStep::MakeDir, true, has_old) == UpdateStep::DeleteOld,
        !has_old ==> update_next_spec(UpdateStep::MakeDir, true, has_old) == UpdateStep::Download,
        update_run(UpdateStep::MakeDir, seq![true, true], false) == UpdateStep::Reload,
        update_run(UpdateStep::MakeDir, seq![true, true, true], true) == UpdateStep::Reload,
        update_run(UpdateStep::MakeDir, seq![true, true, true], false) == UpdateStep::Finish,
        update_run(UpdateStep::MakeDir, seq![true, true, true, true], true) == UpdateStep::Finish,
{
    let t2: Seq<bool> = seq![true, true];
    let t3: Seq<bool> = seq![true, true, true];
    let t4: Seq<bool> = seq![true, true, true, true];
    let t1: Seq<bool> = seq![true];
    let t0: Seq<bool> = Seq::empty();
    assert(t4.drop_first() =~= t3);
    assert(t3.drop_first() =~= t2);
    assert(t2.drop_first() =~= t1);
    assert(t1.drop_first() =~= t0);
    assert(update_run(UpdateStep::Finish, t0, true) == UpdateStep::Finish);
    assert(update_run(UpdateStep::Reload, t0, true) == UpdateStep::Reload);
    assert(update_run(UpdateStep::Reload, t1, true) == UpdateStep::Finish);
    assert(update_run(UpdateStep::Download, t1, true) == UpdateStep::Reload);
    assert(update_run(UpdateStep::Download, t2, true) == UpdateStep::Finish);
    assert(update_run(UpdateStep::Finish, t0, false) == UpdateStep::Finish);
    assert(update_run(UpdateStep::Reload, t0, false) == UpdateStep::Reload);
    assert(update_run(UpdateStep::Reload, t1, false) == UpdateStep::Finish);
    assert(update_run(UpdateStep::Download, t1, false) == UpdateStep::Reload);
    assert(update_run(UpdateStep::Download, t2, false) == UpdateStep::Finish);
    assert(update_run(UpdateStep::DeleteOld, t2, true) == UpdateStep::Reload);
    assert(update_run(UpdateStep::DeleteOld, t3, true) == UpdateStep::Finish);
    assert(update_run(UpdateStep::MakeDir, t2, false) == UpdateStep::Reload);
    assert(update_run(UpdateStep::MakeDir, t3, false) == UpdateStep::Finish);
    assert(update_run(UpdateStep::MakeDir, t3, true) == UpdateStep::Reload);
    assert(update_run(UpdateStep::MakeDir, t4, true) == UpdateStep::Finish);
}

/// What the manage page's rows ask for.
#[derive(Clone, Copy, Debug, PartialEq, Eq, Structural)]
pub enum ManageAct {
    /// Fold or unfold a section.
    ToggleSection,
    /// Enable a disabled plugin.
    Enable,
    /// Disable an enabled plugin.
    Disable,
    /// Update a plugin to the market's newer version.
    Update,
}

/// Whether the manage page carries out an action: a section always folds;
/// enabling, disabling and updating need a chosen boot drive.
pub fn manage_action_allowed(act: ManageAct, has_drive: bool) -> (r: bool)
    ensures
        r == (act == ManageAct::ToggleSection || has_drive),
{
    match act {
        ManageAct::ToggleSection => true,
        _ => has_drive,
    }
}

} // verus!
