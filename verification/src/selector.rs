use vstd::prelude::*;
use crate::mode::PluginMode;
use crate::text::owned;

verus! {

/// Availability of one plugin source.
#[derive(Clone, Copy, Debug, PartialEq, Eq, Structural)]
pub struct SourceStatus {
    /// `None` until a check finished.
    pub available: Option<bool>,
    /// Whether a check is running.
    pub checking: bool,
}

/// Index of a plugin source among the three the selector offers.
pub open spec fn source_slot(mode: PluginMode) -> Option<int> {
    match mode {
        PluginMode::CloudPE => Some(0),
        PluginMode::HotPE => Some(1),
        PluginMode::Edgeless => Some(2),
        PluginMode::Select => None,
    }
}

/// The availability board of the source selector: one status per source, in
/// the order Cloud-PE, HotPE, Edgeless.
#[derive(Debug)]
pub struct SourceBoard {
    pub cloud: SourceStatus,
    pub hotpe: SourceStatus,
    pub edgeless: SourceStatus,
    /// Whether a round of checks is running.
    pub is_checking: bool,
}

/// An icon shown beside a source button.
#[derive(Clone, Copy, Debug, PartialEq, Eq, Structural)]
pub enum StatusIcon {
    Success,
    Error,
}

/// What a round of button clicks asks of the selector.
#[derive(Clone, Copy, Debug, PartialEq, Eq, Structural)]
pub enum SelectorAction {
    /// Restart the program on this source.
    Launch(PluginMode),
    /// Start checking the availability of every source.
    Check,
}

/// The status of the source at a slot.
pub open spec fn slot_status(b: SourceBoard, k: int) -> SourceStatus {
    if k == 0 {
        b.cloud
    } else if k == 1 {
        b.hotpe
    } else {
        b.edgeless
    }
}

/// The availability of a source known to the board.
pub open spec fn availability(b: SourceBoard, mode: PluginMode) -> Option<bool> {
    match source_slot(mode) {
        Some(k) => slot_status(b, k).available,
        None => None,
    }
}

/// Whether every source's check finished.
pub open spec fn all_settled(b: SourceBoard) -> bool {
    forall|k: int| 0 <= k < 3 ==> !(#[trigger] slot_status(b, k)).checking
}

impl SourceBoard {
    /// Nothing known, nothing running.
    pub fn new() -> (r: SourceBoard)
        ensures
            r.cloud == (SourceStatus { available: None, checking: false }),
            r.hotpe == r.cloud && r.edgeless == r.cloud,
            !r.is_checking,
    {
        let s = SourceStatus { available: None, checking: false };
        SourceBoard { cloud: s, hotpe: s, edgeless: s, is_checking: false }
    }

    /// The availability known for a source.
    pub fn available(&self, mode: PluginMode) -> (r: Option<bool>)
        ensures
            r == availability(*self, mode),
    {
        match mode {
            PluginMode::CloudPE => self.cloud.available,
            PluginMode::HotPE => self.hotpe.available,
            PluginMode::Edgeless => self.edgeless.available,
            PluginMode::Select => None,
        }
    }

    /// Caption of a source button: `✓` or `✗` and two spaces before the name
    /// once the source's availability is known.
    pub fn label(&self, mode: PluginMode, name: &str) -> (r: String)
        ensures
            r@ == (match availability(*self, mode) {
                Some(true) => "✓  "@ + name@,
                Some(false) => "✗  "@ + name@,
                None => name@,
            }),
    {
        match self.available(mode) {
            Some(true) => {
                let mut s = owned("✓  ");
                s.append(name);
                s
            },
            Some(false) => {
                let mut s = owned("✗  ");
                s.append(name);
                s
            },
            None => owned(name),
        }
    }

    /// Icon beside a source button, once its availability is known.
    pub fn status_icon(&self, mode: PluginMode) -> (r: Option<StatusIcon>)
        ensures
            r == (match availability(*self, mode) {
                Some(true) => Some(StatusIcon::Success),
                Some(false) => Some(StatusIcon::Error),
                None => None,
            }),
    {
        match self.available(mode) {
            Some(true) => Some(StatusIcon::Success),
            Some(false) => Some(StatusIcon::Error),
            None => None,
        }
    }

    /// A source button can be clicked while no check runs and the source is
    /// not known to be unavailable.
    pub fn source_enabled(&self, mode: PluginMode) -> (r: bool)
        ensures
            r == (!self.is_checking && availability(*self, mode) != Some(false)),
    {
        !self.is_checking && match self.available(mode) {
            Some(false) => false,
            _ => true,
        }
    }

    /// Starts a round of checks unless one runs: every source becomes
    /// checking with unknown availability. Returns whether the round started
    /// (the caller then checks each source).
    pub fn check_availability(&mut self) -> (r: bool)
        ensures
            r == !old(self).is_checking,
            !r ==> *final(self) == *old(self),
            r ==> final(self).is_checking && final(self).cloud == (SourceStatus { available: None, checking: true })
                && final(self).hotpe == final(self).cloud && final(self).edgeless == final(self).cloud,
    {
        if self.is_checking {
            return false;
        }
        self.is_checking = true;
        let s = SourceStatus { available: None, checking: true };
        self.cloud = s;
        self.hotpe = s;
        self.edgeless = s;
        true
    }

    /// Records the outcome of one source's check.
    pub fn record(&mut self, mode: PluginMode, avail: bool)
        ensures
            *final(self) == spec_record(*old(self), mode, avail),
    {
        let st = SourceStatus { available: Some(avail), checking: false };
        match mode {
            PluginMode::CloudPE => self.cloud = st,
            PluginMode::HotPE => self.hotpe = st,
            PluginMode::Edgeless => self.edgeless = st,
            PluginMode::Select => {},
        }
    }

    /// Ends the round once every source's check finished.
    pub fn sweep(&mut self)
        ensures
            *final(self) == spec_sweep(*old(self)),
    {
        if self.is_checking {
            let all_done = !self.cloud.checking && !self.hotpe.checking && !self.edgeless.checking;
            proof {
                assert(all_done == all_settled(*self)) by {
                    if !all_done {
                        if self.cloud.checking {
                            assert(slot_status(*self, 0).checking);
                        } else if self.hotpe.checking {
                            assert(slot_status(*self, 1).checking);
                        } else {
                            assert(slot_status(*self, 2).checking);
                        }
                    }
                }
            }
            if all_done {
                self.is_checking = false;
            }
        }
    }

    /// Caption of the check button.
    pub fn check_button_text(&self) -> (r: &'static str)
        ensures
            r@ == (if self.is_checking { "检测中..."@ } else { "检测可用性"@ }),
    {
        if self.is_checking { "检测中..." } else { "检测可用性" }
    }

    /// The actions asked for by the clicks of one event on the three source
    /// buttons and the check button, in the order they are carried out;
    /// nothing while a check runs.
    pub fn actions(&self, cloud: bool, hotpe: bool, edgeless: bool, check: bool) -> (r: Vec<SelectorAction>)
        ensures
            self.is_checking ==> r@.len() == 0,
            !self.is_checking ==> r@ == {
                let a = if cloud { seq![SelectorAction::Launch(PluginMode::CloudPE)] } else { Seq::empty() };
                let b = if hotpe { a.push(SelectorAction::Launch(PluginMode::HotPE)) } else { a };
                let c = if edgeless { b.push(SelectorAction::Launch(PluginMode::Edgeless)) } else { b };
                if check { c.push(SelectorAction::Check) } else { c }
            },
    {
        let mut r: Vec<SelectorAction> = Vec::new();
        if !self.is_checking {
            if cloud {
                r.push(SelectorAction::Launch(PluginMode::CloudPE));
            }
            if hotpe {
                r.push(SelectorAction::Launch(PluginMode::HotPE));
            }
            if edgeless {
                r.push(SelectorAction::Launch(PluginMode::Edgeless));
            }
            if check {
                r.push(SelectorAction::Check);
            }
        }
        proof {
            if !self.is_checking {
                let a = if cloud { seq![SelectorAction::Launch(PluginMode::CloudPE)] } else { Seq::<SelectorAction>::empty() };
                let b = if hotpe { a.push(SelectorAction::Launch(PluginMode::HotPE)) } else { a };
                let c = if edgeless { b.push(SelectorAction::Launch(PluginMode::Edgeless)) } else { b };
                assert(r@ =~= if check { c.push(SelectorAction::Check) } else { c });
            }
        }
        r
    }
}

/// The command-line argument that restarts the program on a source (`""` for
/// Cloud-PE, which needs none); the selector itself cannot be launched.
pub fn launch_arg(mode: PluginMode) -> (r: Option<&'static str>)
    ensures
        match mode {
            PluginMode::CloudPE => r matches Some(a) && a@ == ""@,
            PluginMode::HotPE => r matches Some(a) && a@ == "--hpm"@,
            PluginMode::Edgeless => r matches Some(a) && a@ == "--edgeless"@,
            PluginMode::Select => r is None,
        },
{
    match mode {
        PluginMode::CloudPE => Some(""),
        PluginMode::HotPE => Some("--hpm"),
        PluginMode::Edgeless => Some("--edgeless"),
        PluginMode::Select => None,
    }
}

/// The board after one source's check reported.
pub open spec fn spec_record(b: SourceBoard, mode: PluginMode, avail: bool) -> SourceBoard {
    match source_slot(mode) {
        Some(k) => {
            let st = SourceStatus { available: Some(avail), checking: false };
            if k == 0 {
                SourceBoard { cloud: st, ..b }
            } else if k == 1 {
                SourceBoard { hotpe: st, ..b }
            } else {
                SourceBoard { edgeless: st, ..b }
            }
        },
        None => b,
    }
}

/// The board after a sweep.
pub open spec fn spec_sweep(b: SourceBoard) -> SourceBoard {
    SourceBoard { is_checking: b.is_checking && !all_settled(b), ..b }
}

/// A round of checks ends at the first sweep after all three sources
/// reported, whatever order they reported in, and then every source's
/// availability is the reported one.
pub proof fn lemma_round_ends_when_all_reported(
    started: SourceBoard,
    m0: PluginMode,
    m1: PluginMode,
    m2: PluginMode,
    a0: bool,
    a1: bool,
    a2: bool,
)
    requires
        m0 != PluginMode::Select && m1 != PluginMode::Select && m2 != PluginMode::Select,
        m0 != m1 && m1 != m2 && m0 != m2,
    ensures
        ({
            let done = spec_sweep(spec_record(spec_record(spec_record(started, m0, a0), m1, a1), m2, a2));
            &&& !done.is_checking
            &&& availability(done, m0) == Some(a0)
            &&& availability(done, m1) == Some(a1)
            &&& availability(done, m2) == Some(a2)
        }),
{
    let b3 = spec_record(spec_record(spec_record(started, m0, a0), m1, a1), m2, a2);
    assert(all_settled(b3)) by {
        assert forall|k: int| 0 <= k < 3 implies !(#[trigger] slot_status(b3, k)).checking by {
            assert(source_slot(m0) == Some(k) || source_slot(m1) == Some(k) || source_slot(m2) == Some(k));
        }
    }
}

/// While any source's check still runs, a sweep keeps the round going.
pub proof fn lemma_round_holds_while_checking(b: SourceBoard, k: int)
    requires
        b.is_checking,
        0 <= k < 3,
        slot_status(b, k).checking,
    ensures
        spec_sweep(b).is_checking,
{
}

} // verus!
