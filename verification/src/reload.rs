//! The hot-reload controller: from file-system changes to one rebuild.
//!
//! A burst of changes to bytecode files is coalesced: the first change arms
//! a timer, and the rebuild is launched once the quiet interval has passed.
//! Changes that arrive in between are absorbed.

use crate::text::same_text;
use vstd::prelude::*;

verus! {

/// The extension that marks a file as a module's bytecode.
pub const BYTECODE_EXTENSION: &'static str = "wasm";

/// How long the controller waits after the first change, in seconds.
pub const QUIET_INTERVAL_SECS: u64 = 1;

/// What kind of change the file-system watcher reports.
#[derive(Clone, Copy, Debug, PartialEq, Eq, Structural)]
pub enum ChangeKind {
    Access,
    Create,
    Modify,
    Remove,
    Any,
    Other,
}

/// Whether a file with the extension `extension` is a module's bytecode.
pub open spec fn is_bytecode(extension: Option<Seq<char>>) -> bool {
    extension == Some(BYTECODE_EXTENSION@)
}

/// Whether a change of kind `kind` to files with the extensions
/// `extensions` calls for a rebuild: a bytecode file is among them, and it
/// was created, modified or removed.
pub open spec fn is_relevant(kind: ChangeKind, extensions: Seq<Option<Seq<char>>>) -> bool {
    &&& exists|i: int| 0 <= i < extensions.len() && is_bytecode(#[trigger] extensions[i])
    &&& (kind is Create || kind is Modify || kind is Remove)
}

/// Decides `is_bytecode`.
pub fn has_bytecode_extension(extension: &Option<String>) -> (b: bool)
    ensures
        b == is_bytecode(extension.deep_view()),
{
    match extension {
        Some(e) => same_text(e.as_str(), BYTECODE_EXTENSION),
        None => false,
    }
}

/// Decides `is_relevant`.
pub fn is_relevant_change(kind: ChangeKind, extensions: &Vec<Option<String>>) -> (b: bool)
    ensures
        b == is_relevant(kind, extensions.deep_view()),
{
    let mut found = false;
    let mut i: usize = 0;
    while i < extensions.len() && !found
        invariant
            i <= extensions.len(),
            found ==> exists|j: int|
                0 <= j < extensions.len() && is_bytecode(#[trigger] extensions.deep_view()[j]),
            !found ==> forall|j: int| 0 <= j < i ==> !is_bytecode(extensions.deep_view()[j]),
        decreases extensions.len() - i + if found { 0int } else { 1int },
    {
        if has_bytecode_extension(&extensions[i]) {
            assert(is_bytecode(extensions.deep_view()[i as int]));
            found = true;
        } else {
            i += 1;
        }
    }
    found && match kind {
        ChangeKind::Create | ChangeKind::Modify | ChangeKind::Remove => true,
        _ => false,
    }
}

/// Where the controller stands.
#[derive(Clone, Copy, Debug, PartialEq, Eq, Structural)]
pub enum ReloadState {
    /// No rebuild is wanted.
    Idle,
    /// A change was seen and the quiet interval is running.
    PendingRebuild,
    /// A rebuild is under way.
    Rebuilding,
}

/// What the controller learns of.
#[derive(Clone, Copy, Debug, PartialEq, Eq, Structural)]
pub enum ReloadEvent {
    /// A relevant change was seen.
    Changed,
    /// The quiet interval has passed.
    QuietElapsed,
    /// The rebuild ended, well or not.
    RebuildFinished,
}

/// What the controller asks for in return.
#[derive(Clone, Copy, Debug, PartialEq, Eq, Structural)]
pub enum ReloadAction {
    /// Nothing: the event was absorbed.
    Nothing,
    /// Start the timer of the quiet interval.
    StartTimer,
    /// Launch a rebuild with the current search paths and configuration.
    LaunchRebuild,
}

impl ReloadState {
    /// The state after `event`, and what is to be done. A change arms the
    /// timer only from `Idle`; the end of the quiet interval launches a
    /// rebuild only from `PendingRebuild`; the end of a rebuild leads back
    /// to `Idle` from anywhere.
    pub open spec fn next(self, event: ReloadEvent) -> (ReloadState, ReloadAction) {
        match (self, event) {
            (ReloadState::Idle, ReloadEvent::Changed) => (
                ReloadState::PendingRebuild,
                ReloadAction::StartTimer,
            ),
            (ReloadState::PendingRebuild, ReloadEvent::QuietElapsed) => (
                ReloadState::Rebuilding,
                ReloadAction::LaunchRebuild,
            ),
            (_, ReloadEvent::RebuildFinished) => (ReloadState::Idle, ReloadAction::Nothing),
            _ => (self, ReloadAction::Nothing),
        }
    }

    /// The reload-pending flag: a rebuild is wanted or under way.
    pub open spec fn is_pending(self) -> bool {
        !(self is Idle)
    }

    /// Computes `next`.
    pub fn on_event(self, event: ReloadEvent) -> (r: (ReloadState, ReloadAction))
        ensures
            r == self.next(event),
    {
        match (self, event) {
            (ReloadState::Idle, ReloadEvent::Changed) => (
                ReloadState::PendingRebuild,
                ReloadAction::StartTimer,
            ),
            (ReloadState::PendingRebuild, ReloadEvent::QuietElapsed) => (
                ReloadState::Rebuilding,
                ReloadAction::LaunchRebuild,
            ),
            (_, ReloadEvent::RebuildFinished) => (ReloadState::Idle, ReloadAction::Nothing),
            _ => (self, ReloadAction::Nothing),
        }
    }

    /// Computes `is_pending`.
    pub fn pending(self) -> (b: bool)
        ensures
            b == self.is_pending(),
    {
        match self {
            ReloadState::Idle => false,
            _ => true,
        }
    }
}

/// The state after the events `events`, in order.
pub open spec fn state_after(s: ReloadState, events: Seq<ReloadEvent>) -> ReloadState
    decreases events.len(),
{
    if events.len() == 0 {
        s
    } else {
        state_after(s, events.drop_last()).next(events.last()).0
    }
}

/// How many rebuilds the events `events` launch, starting in `s`.
pub open spec fn launches(s: ReloadState, events: Seq<ReloadEvent>) -> nat
    decreases events.len(),
{
    if events.len() == 0 {
        0
    } else {
        let before = state_after(s, events.drop_last());
        launches(s, events.drop_last()) + if before.next(events.last()).1 is LaunchRebuild {
            1nat
        } else {
            0nat
        }
    }
}

/// How many timers the events `events` start, starting in `s`.
pub open spec fn timers(s: ReloadState, events: Seq<ReloadEvent>) -> nat
    decreases events.len(),
{
    if events.len() == 0 {
        0
    } else {
        let before = state_after(s, events.drop_last());
        timers(s, events.drop_last()) + if before.next(events.last()).1 is StartTimer {
            1nat
        } else {
            0nat
        }
    }
}

/// How far a state is from a running rebuild.
pub open spec fn distance(s: ReloadState) -> nat {
    match s {
        ReloadState::Idle => 2,
        ReloadState::PendingRebuild => 1,
        ReloadState::Rebuilding => 0,
    }
}

/// As long as no rebuild ends, the controller only moves towards a running
/// rebuild: a timer is started exactly if the controller leaves `Idle`, and
/// a rebuild is launched exactly if the controller enters `Rebuilding`.
/// So at most one timer is started and at most one rebuild is launched,
/// however many changes are seen.
pub proof fn lemma_changes_coalesce(s: ReloadState, events: Seq<ReloadEvent>)
    requires
        forall|i: int| 0 <= i < events.len() ==> !(events[i] is RebuildFinished),
    ensures
        distance(state_after(s, events)) <= distance(s),
        timers(s, events) == if s is Idle && !(state_after(s, events) is Idle) {
            1nat
        } else {
            0nat
        },
        launches(s, events) == if !(s is Rebuilding) && state_after(s, events) is Rebuilding {
            1nat
        } else {
            0nat
        },
        timers(s, events) <= 1,
        launches(s, events) <= 1,
    decreases events.len(),
{
    if events.len() > 0 {
        let before = events.drop_last();
        assert forall|i: int| 0 <= i < before.len() implies !(before[i] is RebuildFinished) by {
            assert(before[i] == events[i]);
        }
        lemma_changes_coalesce(s, before);
        assert(!(events.last() is RebuildFinished));
    }
}

/// `n` changes in a row.
pub open spec fn burst(n: nat) -> Seq<ReloadEvent> {
    Seq::new(n, |i: int| ReloadEvent::Changed)
}

/// From `Idle`, one change or more, followed by the end of the quiet
/// interval, start one timer and launch exactly one rebuild.
pub proof fn lemma_burst_launches_once(n: nat)
    requires
        n >= 1,
    ensures
        timers(ReloadState::Idle, burst(n).push(ReloadEvent::QuietElapsed)) == 1,
        launches(ReloadState::Idle, burst(n).push(ReloadEvent::QuietElapsed)) == 1,
        state_after(ReloadState::Idle, burst(n).push(ReloadEvent::QuietElapsed)) is Rebuilding,
{
    let events = burst(n).push(ReloadEvent::QuietElapsed);
    assert(events.drop_last() =~= burst(n));
    assert(events.last() == ReloadEvent::QuietElapsed);
    lemma_burst_pends(n);
}

/// From `Idle`, one change or more start one timer, launch nothing and
/// leave the controller pending.
pub proof fn lemma_burst_pends(n: nat)
    requires
        n >= 1,
    ensures
        state_after(ReloadState::Idle, burst(n)) is PendingRebuild,
        timers(ReloadState::Idle, burst(n)) == 1,
        launches(ReloadState::Idle, burst(n)) == 0,
    decreases n,
{
    let before = burst((n - 1) as nat);
    assert(burst(n).drop_last() =~= before);
    assert(burst(n).last() == ReloadEvent::Changed);
    if n > 1 {
        lemma_burst_pends((n - 1) as nat);
    } else {
        assert(state_after(ReloadState::Idle, before) is Idle);
        assert(timers(ReloadState::Idle, before) == 0);
        assert(launches(ReloadState::Idle, before) == 0);
    }
}

} // verus!
