//! What holds of the engine over whole runs.
//!
//! The statements are made over the model of the engine: the functions of
//! [`crate::clipboard`] on [`EngineView`], to which the contracts of the
//! executable methods tie every reachable state.

use vstd::prelude::*;
use crate::clipboard::{
    forced, manual_sync, quiet, react, started, takes_local, takes_remote, window_passed,
    EngineView, EventView, Request, StepView,
};
use crate::error::SyncError;

verus! {

/// Anything that can change the state of an engine.
pub enum Transition {
    /// An observation handled by the reconciliation cycle.
    Observed(EventView),
    /// A manual synchronisation, in either direction.
    Forced { outcome: Result<Seq<char>, SyncError>, now: u64 },
    /// The start of monitoring.
    Started { fetched: Result<Seq<char>, SyncError>, now: u64 },
}

impl Transition {
    /// Whether the transition belongs to the periodic cycle, as opposed to a
    /// synchronisation that a caller asked for.
    pub open spec fn automatic(self) -> bool {
        self is Observed
    }

    /// The time that the transition carries. A tick carries none; it counts
    /// as zero and never accepts anything.
    pub open spec fn stamp(self) -> u64 {
        match self {
            Transition::Observed(EventView::Tick { .. }) => 0,
            Transition::Observed(EventView::LocalRead { now, .. }) => now,
            Transition::Observed(EventView::RemoteFetched { now, .. }) => now,
            Transition::Forced { now, .. } => now,
            Transition::Started { now, .. } => now,
        }
    }

    /// The text that the transition offers for acceptance, if it carries one.
    pub open spec fn offered(self) -> Option<Seq<char>> {
        match self {
            Transition::Observed(EventView::Tick { .. }) => None,
            Transition::Observed(EventView::LocalRead { outcome, .. }) => outcome.ok(),
            Transition::Observed(EventView::RemoteFetched { outcome, .. }) => outcome.ok(),
            Transition::Forced { outcome, .. } => outcome.ok(),
            Transition::Started { fetched, .. } => fetched.ok(),
        }
    }

    /// The state after the transition.
    pub open spec fn apply(self, s: EngineView) -> EngineView {
        match self {
            Transition::Observed(e) => react(s, e).0,
            Transition::Forced { outcome, now } => forced(s, outcome, now),
            Transition::Started { fetched, now } => started(s, fetched, now).0,
        }
    }

    /// Whether the transition, taken in state `s`, accepts a value: sets the
    /// synchronised text and its time.
    pub open spec fn accepts(self, s: EngineView) -> bool {
        match self {
            Transition::Observed(EventView::Tick { .. }) => false,
            Transition::Observed(EventView::LocalRead { outcome, now }) => s.awaiting
                == Request::ReadLocal && outcome is Ok && takes_local(s, outcome->Ok_0, now),
            Transition::Observed(EventView::RemoteFetched { outcome, now }) => s.awaiting
                == Request::FetchRemote && outcome is Ok && takes_remote(s, outcome->Ok_0, now),
            Transition::Forced { outcome, .. } => outcome is Ok,
            Transition::Started { fetched, .. } => fetched is Ok,
        }
    }
}

/// The state after the first `n` transitions of `trace`, starting from `s`.
pub open spec fn state_after(s: EngineView, trace: Seq<Transition>, n: int) -> EngineView
    decreases n,
{
    if n <= 0 {
        s
    } else {
        trace[n - 1].apply(state_after(s, trace, n - 1))
    }
}

/// Text and time change together or not at all: a transition either
/// accepts, and then the state holds the text that it offered and its time,
/// or leaves both as they were. It never changes the window. Where the cycle
/// accepts, the text is a new one and more than the window has passed since
/// the last accepted update.
pub proof fn accept_or_keep(s: EngineView, t: Transition)
    ensures
        t.apply(s).window == s.window,
        t.accepts(s) ==> t.offered() == Some(t.apply(s).content) && t.apply(s).updated
            == t.stamp(),
        !t.accepts(s) ==> t.apply(s).content == s.content && t.apply(s).updated == s.updated,
        t.accepts(s) && t.automatic() ==> t.apply(s).content != s.content && t.stamp() - s.updated
            > s.window,
{
}

/// A step of the cycle asks for at most one write in each direction, and
/// each branch writes to the other side only: a tick has no effect, the
/// local branch may push and never writes to the clipboard, the remote
/// branch may write to the clipboard and never pushes. What is written is
/// the text that was just accepted.
pub proof fn one_write_per_direction(s: EngineView, e: EventView)
    ensures
        e is Tick ==> react(s, e).1 == quiet(react(s, e).1.next),
        e is LocalRead ==> react(s, e).1.write_local is None,
        e is RemoteFetched ==> react(s, e).1.push is None,
        react(s, e).1.push matches Some(text) ==> react(s, e).0.content == text && react(
            s,
            e,
        ).0.updated == Transition::Observed(e).stamp(),
        react(s, e).1.write_local matches Some(text) ==> react(s, e).0.content == text && react(
            s,
            e,
        ).0.updated == Transition::Observed(e).stamp(),
        (react(s, e).1.push is Some || react(s, e).1.write_local is Some)
            == Transition::Observed(e).accepts(s),
{
}

/// The window stays what it was over a whole run.
pub proof fn window_is_fixed(s: EngineView, trace: Seq<Transition>, n: int)
    requires
        0 <= n <= trace.len(),
    ensures
        state_after(s, trace, n).window == s.window,
    decreases n,
{
    if n > 0 {
        window_is_fixed(s, trace, n - 1);
        accept_or_keep(state_after(s, trace, n - 1), trace[n - 1]);
    }
}

/// After the transition at `i` accepted, the time of the last update is never
/// before it, as long as no manual synchronisation carries an earlier time.
proof fn last_update_not_before(s: EngineView, trace: Seq<Transition>, i: int, n: int)
    requires
        0 <= i < n <= trace.len(),
        trace[i].accepts(state_after(s, trace, i)),
        forall|k: int| i < k < n && !trace[k].automatic() ==> trace[k].stamp() >= trace[i].stamp(),
    ensures
        state_after(s, trace, n).updated >= trace[i].stamp(),
    decreases n,
{
    let before = state_after(s, trace, n - 1);
    accept_or_keep(before, trace[n - 1]);
    if n - 1 > i {
        last_update_not_before(s, trace, i, n - 1);
        window_is_fixed(s, trace, n - 1);
    }
}

/// Quiescence: in every run, an update that the periodic cycle accepts comes
/// more than the quiescence window after every accepted update before it,
/// the manual ones included.
///
/// A manual synchronisation accepts without regard to the window, so the
/// later of the two updates has to be one of the cycle. The clock must not
/// have gone backwards for a manual synchronisation between the two.
pub proof fn quiescence(s: EngineView, trace: Seq<Transition>, i: int, j: int)
    requires
        0 <= i < j < trace.len(),
        trace[i].accepts(state_after(s, trace, i)),
        trace[j].accepts(state_after(s, trace, j)),
        trace[j].automatic(),
        forall|k: int| i < k < j && !trace[k].automatic() ==> trace[k].stamp() >= trace[i].stamp(),
    ensures
        trace[j].stamp() - trace[i].stamp() > s.window,
{
    last_update_not_before(s, trace, i, j);
    window_is_fixed(s, trace, j);
    accept_or_keep(state_after(s, trace, j), trace[j]);
}

/// An empty value from the server is no change: whatever the engine holds
/// and whenever the value arrives, the cycle writes nothing to the clipboard,
/// pushes nothing, and keeps text and time.
pub proof fn empty_remote_is_ignored(s: EngineView, now: u64)
    ensures
        ({
            let (after, step) = react(
                s,
                EventView::RemoteFetched { outcome: Ok(Seq::<char>::empty()), now },
            );
            &&& step.write_local is None
            &&& step.push is None
            &&& after.content == s.content
            &&& after.updated == s.updated
        }),
{
}

/// The three observations of one tick made online, one after the other.
pub open spec fn tick_online(
    s: EngineView,
    local: Result<Seq<char>, SyncError>,
    local_at: u64,
    remote: Result<Seq<char>, SyncError>,
    remote_at: u64,
) -> (EngineView, StepView, StepView) {
    let (s1, _) = react(s, EventView::Tick { connected: true });
    let (s2, after_local) = react(s1, EventView::LocalRead { outcome: local, now: local_at });
    let (s3, after_remote) = react(s2, EventView::RemoteFetched { outcome: remote, now: remote_at });
    (s3, after_local, after_remote)
}

/// First mover: where the clipboard and the server both differ from the
/// synchronised text and the window has passed, the tick accepts the local
/// text and pushes it; the remote value is written nowhere in that tick.
///
/// The remote branch looks at the clock again. The statement is for a tick
/// whose fetch is answered within the window after the local text was
/// accepted.
pub proof fn local_moves_first(
    s: EngineView,
    local: Seq<char>,
    local_at: u64,
    remote: Seq<char>,
    remote_at: u64,
)
    requires
        local != s.content,
        remote != s.content,
        window_passed(s, local_at),
        remote_at - local_at <= s.window,
    ensures
        ({
            let (after, after_local, after_remote) = tick_online(
                s,
                Ok(local),
                local_at,
                Ok(remote),
                remote_at,
            );
            &&& after.content == local
            &&& after.updated == local_at
            &&& after_local.push == Some(local)
            &&& after_remote.write_local is None
            &&& after.awaiting == Request::AwaitTick
        }),
{
}

/// Idempotence: synchronising from the server a second time, with the value
/// on the server unchanged, leaves the synchronised text as it is, and the
/// text handed out for the clipboard is the same both times.
pub proof fn sync_from_server_twice(s: EngineView, text: Seq<char>, first: u64, second: u64)
    ensures
        ({
            let (once, first_write) = manual_sync(s, Ok(text), first);
            let (twice, second_write) = manual_sync(once, Ok(text), second);
            &&& once.content == text
            &&& twice.content == once.content
            &&& first_write == Ok::<Seq<char>, SyncError>(text)
            &&& second_write == first_write
            &&& twice.window == once.window
            &&& twice.awaiting == once.awaiting
        }),
{
}

/// Offline suppression: a tick that finds the client disconnected asks for
/// nothing, and whatever is read from the clipboard afterwards, before the
/// next tick, is neither accepted nor pushed.
pub proof fn offline_pushes_nothing(s: EngineView, read: Result<Seq<char>, SyncError>, now: u64)
    ensures
        ({
            let (idle, asked) = react(s, EventView::Tick { connected: false });
            let (after, step) = react(idle, EventView::LocalRead { outcome: read, now });
            &&& asked == quiet(Request::AwaitTick)
            &&& idle.content == s.content
            &&& idle.updated == s.updated
            &&& step == quiet(Request::AwaitTick)
            &&& after == idle
        }),
{
}

/// A failed observation never changes the synchronised text or its time. It
/// is handed back for a report, and the cycle goes on: after a failed read it
/// asks the server, after a failed fetch it waits for the next tick.
pub proof fn failure_changes_nothing(s: EngineView, e: SyncError, now: u64)
    ensures
        ({
            let (after, step) = react(s, EventView::LocalRead { outcome: Err(e), now });
            &&& after.content == s.content
            &&& after.updated == s.updated
            &&& step.push is None
            &&& step.write_local is None
            &&& s.awaiting == Request::ReadLocal ==> step.report == Some(e) && step.next
                == Request::FetchRemote
        }),
        ({
            let (after, step) = react(s, EventView::RemoteFetched { outcome: Err(e), now });
            &&& after.content == s.content
            &&& after.updated == s.updated
            &&& step.push is None
            &&& step.write_local is None
            &&& s.awaiting == Request::FetchRemote ==> step.report == Some(e) && step.next
                == Request::AwaitTick
        }),
{
}

} // verus!
