//! The synchronisation engine.
//!
//! The engine remembers the last value that it accepted as synchronised and
//! the time at which it did so. It is driven from outside: the caller waits
//! for the timer, reads the clipboard and asks the server, and hands each
//! outcome to the engine as an [`Event`]. The engine answers with a [`Step`]:
//! what to write to which side, and what to observe next.
//!
//! All times are milliseconds on a clock of the caller's choice.

use vstd::prelude::*;
use crate::error::SyncError;

verus! {

/// Time that has to pass after an accepted update before the periodic cycle
/// accepts another one, unless the engine is told otherwise.
pub const DEFAULT_QUIESCENCE_MS: u64 = 1000;

/// Period of the reconciliation cycle.
pub const DEFAULT_TICK_MS: u64 = 500;

/// What the engine asks its caller to observe next.
#[derive(Clone, Copy, Debug, PartialEq, Eq, Structural)]
pub enum Request {
    /// Sleep until the next tick of the timer.
    AwaitTick,
    /// Read the local clipboard.
    ReadLocal,
    /// Fetch the value of the remote store.
    FetchRemote,
}

/// An observation handed to the engine.
#[derive(Debug)]
pub enum Event {
    /// The timer fired; `connected` is the connection state of the client.
    Tick { connected: bool },
    /// The local clipboard was read at time `now`.
    LocalRead { outcome: Result<String, SyncError>, now: u64 },
    /// The remote store was asked at time `now`.
    RemoteFetched { outcome: Result<String, SyncError>, now: u64 },
}

/// What the caller has to do after an event.
#[derive(Debug)]
pub struct Step {
    /// Text to send to the remote store; a failure of the send is reported by
    /// the caller and changes nothing in the engine.
    pub push: Option<String>,
    /// Text to write to the local clipboard.
    pub write_local: Option<String>,
    /// A failure of the observation, for the caller to report. It ends
    /// nothing: the cycle goes on with `next`.
    pub report: Option<SyncError>,
    /// What to observe next.
    pub next: Request,
}

/// The mathematical value of an observed text or failure.
pub open spec fn outcome_view(outcome: Result<String, SyncError>) -> Result<Seq<char>, SyncError> {
    match outcome {
        Ok(text) => Ok(text@),
        Err(e) => Err(e),
    }
}

/// [`Event`] over mathematical strings.
pub enum EventView {
    Tick { connected: bool },
    LocalRead { outcome: Result<Seq<char>, SyncError>, now: u64 },
    RemoteFetched { outcome: Result<Seq<char>, SyncError>, now: u64 },
}

/// [`Step`] over mathematical strings.
pub struct StepView {
    pub push: Option<Seq<char>>,
    pub write_local: Option<Seq<char>>,
    pub report: Option<SyncError>,
    pub next: Request,
}

impl View for Event {
    type V = EventView;

    open spec fn view(&self) -> EventView {
        match *self {
            Event::Tick { connected } => EventView::Tick { connected },
            Event::LocalRead { outcome, now } => EventView::LocalRead {
                outcome: outcome_view(outcome),
                now,
            },
            Event::RemoteFetched { outcome, now } => EventView::RemoteFetched {
                outcome: outcome_view(outcome),
                now,
            },
        }
    }
}

impl View for Step {
    type V = StepView;

    open spec fn view(&self) -> StepView {
        StepView {
            push: self.push.deep_view(),
            write_local: self.write_local.deep_view(),
            report: self.report,
            next: self.next,
        }
    }
}

/// The state of the engine as a mathematical value.
pub struct EngineView {
    /// The last accepted text.
    pub content: Seq<char>,
    /// When `content` was accepted.
    pub updated: u64,
    /// The quiescence window.
    pub window: u64,
    /// The observation that the cycle waits for.
    pub awaiting: Request,
}

/// Time from `since` to `now`; zero where the clock went backwards.
pub open spec fn elapsed(now: u64, since: u64) -> int {
    if now >= since {
        now - since
    } else {
        0
    }
}

/// Whether more than the quiescence window lies between the last accepted
/// update and `now`.
pub open spec fn window_passed(s: EngineView, now: u64) -> bool {
    elapsed(now, s.updated) > s.window
}

/// The state after `text` was accepted at `now`: text and time change together.
pub open spec fn accepted(s: EngineView, text: Seq<char>, now: u64) -> EngineView {
    EngineView { content: text, updated: now, ..s }
}

/// Whether the cycle accepts `text`, read from the clipboard at `now`.
pub open spec fn takes_local(s: EngineView, text: Seq<char>, now: u64) -> bool {
    text != s.content && window_passed(s, now)
}

/// Whether the cycle accepts `text`, fetched from the server at `now`. An
/// empty remote value is never a change.
pub open spec fn takes_remote(s: EngineView, text: Seq<char>, now: u64) -> bool {
    text.len() > 0 && text != s.content && window_passed(s, now)
}

/// The state after an unconditional synchronisation: a value that was
/// obtained is accepted whatever the window says, a failure changes nothing.
pub open spec fn forced(s: EngineView, outcome: Result<Seq<char>, SyncError>, now: u64)
    -> EngineView {
    match outcome {
        Ok(text) => accepted(s, text, now),
        Err(_) => s,
    }
}

/// A manual synchronisation: the state after it, and what it answers. The
/// answer is the text to carry to the other side, or the failure of the
/// observation.
pub open spec fn manual_sync(s: EngineView, outcome: Result<Seq<char>, SyncError>, now: u64) -> (
    EngineView,
    Result<Seq<char>, SyncError>,
) {
    (forced(s, outcome, now), outcome)
}

/// The local branch of a tick: the new state, the text to push, and the
/// failure to report. A failed read is no change; it does not stand for an
/// empty clipboard.
pub open spec fn local_branch(s: EngineView, read: Result<Seq<char>, SyncError>, now: u64) -> (
    EngineView,
    Option<Seq<char>>,
    Option<SyncError>,
) {
    match read {
        Ok(text) => if takes_local(s, text, now) {
            (accepted(s, text, now), Some(text), None)
        } else {
            (s, None, None)
        },
        Err(e) => (s, None, Some(e)),
    }
}

/// The remote branch of a tick: the new state, the text to write to the
/// clipboard, and the failure to report.
pub open spec fn remote_branch(s: EngineView, fetched: Result<Seq<char>, SyncError>, now: u64)
    -> (EngineView, Option<Seq<char>>, Option<SyncError>) {
    match fetched {
        Ok(text) => if takes_remote(s, text, now) {
            (accepted(s, text, now), Some(text), None)
        } else {
            (s, None, None)
        },
        Err(e) => (s, None, Some(e)),
    }
}

/// A step without effects.
pub open spec fn quiet(next: Request) -> StepView {
    StepView { push: None, write_local: None, report: None, next }
}

/// The reconciliation cycle as a transition function.
///
/// A tick starts a cycle: online it asks for the clipboard, offline it goes
/// back to sleep. The answer to the clipboard read runs the local branch and
/// asks for the remote value; the answer to the fetch runs the remote branch
/// and ends the cycle. An observation that was not asked for is ignored.
pub open spec fn react(s: EngineView, e: EventView) -> (EngineView, StepView) {
    match e {
        EventView::Tick { connected } => {
            let next = if connected {
                Request::ReadLocal
            } else {
                Request::AwaitTick
            };
            (EngineView { awaiting: next, ..s }, quiet(next))
        },
        EventView::LocalRead { outcome, now } => if s.awaiting == Request::ReadLocal {
            let (s1, push, report) = local_branch(s, outcome, now);
            (
                EngineView { awaiting: Request::FetchRemote, ..s1 },
                StepView { push, write_local: None, report, next: Request::FetchRemote },
            )
        } else {
            (s, quiet(s.awaiting))
        },
        EventView::RemoteFetched { outcome, now } => if s.awaiting == Request::FetchRemote {
            let (s1, write_local, report) = remote_branch(s, outcome, now);
            (
                EngineView { awaiting: Request::AwaitTick, ..s1 },
                StepView { push: None, write_local, report, next: Request::AwaitTick },
            )
        } else {
            (s, quiet(s.awaiting))
        },
    }
}

/// The start of monitoring: one unconditional synchronisation from the
/// server, after which the cycle waits for its first tick.
pub open spec fn started(s: EngineView, fetched: Result<Seq<char>, SyncError>, now: u64) -> (
    EngineView,
    StepView,
) {
    (
        EngineView { awaiting: Request::AwaitTick, ..forced(s, fetched, now) },
        StepView {
            push: None,
            write_local: match fetched {
                Ok(text) => Some(text),
                Err(_) => None,
            },
            report: match fetched {
                Ok(_) => None,
                Err(e) => Some(e),
            },
            next: Request::AwaitTick,
        },
    )
}

/// The synchronisation engine: the last synchronised text, the time of its
/// acceptance, the quiescence window and the position in the cycle.
///
/// Text and time are one value. Callers that share an engine between the
/// periodic task and manual synchronisation keep it behind one lock.
#[derive(Debug)]
pub struct ClipboardManager {
    last_content: String,
    last_update: u64,
    window: u64,
    awaiting: Request,
}

impl View for ClipboardManager {
    type V = EngineView;

    closed spec fn view(&self) -> EngineView {
        EngineView {
            content: self.last_content@,
            updated: self.last_update,
            window: self.window,
            awaiting: self.awaiting,
        }
    }
}

impl ClipboardManager {
    /// An engine created at time `now` with the default quiescence window. It
    /// holds the empty text and waits for a tick.
    pub fn new(now: u64) -> (m: Self)
        ensures
            m@ == (EngineView {
                content: Seq::<char>::empty(),
                updated: now,
                window: DEFAULT_QUIESCENCE_MS,
                awaiting: Request::AwaitTick,
            }),
    {
        Self::with_quiescence(now, DEFAULT_QUIESCENCE_MS)
    }

    /// An engine created at time `now` with a quiescence window of `window`
    /// milliseconds.
    pub fn with_quiescence(now: u64, window: u64) -> (m: Self)
        ensures
            m@ == (EngineView {
                content: Seq::<char>::empty(),
                updated: now,
                window,
                awaiting: Request::AwaitTick,
            }),
    {
        ClipboardManager {
            last_content: String::new(),
            last_update: now,
            window,
            awaiting: Request::AwaitTick,
        }
    }

    /// The last synchronised text.
    pub fn get_last_content(&self) -> (text: String)
        ensures
            text@ == self@.content,
    {
        self.last_content.clone()
    }

    /// The time at which the last synchronised text was accepted.
    pub fn last_update(&self) -> (t: u64)
        ensures
            t == self@.updated,
    {
        self.last_update
    }

    /// The quiescence window in milliseconds.
    pub fn quiescence(&self) -> (w: u64)
        ensures
            w == self@.window,
    {
        self.window
    }

    /// The observation that the cycle waits for.
    pub fn awaiting(&self) -> (r: Request)
        ensures
            r == self@.awaiting,
    {
        self.awaiting
    }

    /// Whether more than the quiescence window has passed at `now` since the
    /// last accepted update.
    pub fn window_passed(&self, now: u64) -> (r: bool)
        ensures
            r == window_passed(self@, now),
    {
        now >= self.last_update && now - self.last_update > self.window
    }

    fn accept(&mut self, text: String, now: u64)
        ensures
            final(self)@ == accepted(old(self)@, text@, now),
    {
        self.last_content = text;
        self.last_update = now;
    }

    /// Manual synchronisation towards the server. `read` is the outcome of
    /// reading the clipboard at `now`. A text that was read is accepted
    /// without regard to the window and returned for the caller to push; a
    /// failed read is returned and changes nothing.
    pub fn sync_to_server(&mut self, read: Result<String, SyncError>, now: u64) -> (r: Result<
        String,
        SyncError,
    >)
        ensures
            (final(self)@, outcome_view(r)) == manual_sync(old(self)@, outcome_view(read), now),
    {
        match read {
            Ok(text) => {
                self.accept(text.clone(), now);
                Ok(text)
            },
            Err(e) => Err(e),
        }
    }

    /// Manual synchronisation from the server. `fetched` is the outcome of
    /// asking the server at `now`. A text that was fetched is accepted without
    /// regard to the window, even where it is empty, and returned for the
    /// caller to write to the clipboard; a failed fetch is returned and changes
    /// nothing.
    pub fn sync_from_server(&mut self, fetched: Result<String, SyncError>, now: u64) -> (r: Result<
        String,
        SyncError,
    >)
        ensures
            (final(self)@, outcome_view(r)) == manual_sync(old(self)@, outcome_view(fetched), now),
    {
        match fetched {
            Ok(text) => {
                self.accept(text.clone(), now);
                Ok(text)
            },
            Err(e) => Err(e),
        }
    }

    /// Starts monitoring: synchronises once from the server, as
    /// [`Self::sync_from_server`] does, and puts the cycle at its beginning.
    /// The step holds the text to write to the clipboard or the failure of the
    /// fetch, and asks for the first tick.
    pub fn start_monitoring(&mut self, fetched: Result<String, SyncError>, now: u64) -> (step: Step)
        ensures
            (final(self)@, step@) == started(old(self)@, outcome_view(fetched), now),
    {
        self.awaiting = Request::AwaitTick;
        match self.sync_from_server(fetched, now) {
            Ok(text) => Step {
                push: None,
                write_local: Some(text),
                report: None,
                next: Request::AwaitTick,
            },
            Err(e) => Step {
                push: None,
                write_local: None,
                report: Some(e),
                next: Request::AwaitTick,
            },
        }
    }

    /// The local branch of a tick. `read` is the outcome of reading the
    /// clipboard at `now`. A text that differs from the last synchronised one
    /// is accepted if the window has passed, and returned for the caller to
    /// push. A failed read is no change and is returned for the caller to
    /// report.
    pub fn observe_local(&mut self, read: Result<String, SyncError>, now: u64) -> (r: (
        Option<String>,
        Option<SyncError>,
    ))
        ensures
            (final(self)@, r.0.deep_view(), r.1) == local_branch(
                old(self)@,
                outcome_view(read),
                now,
            ),
    {
        match read {
            Ok(text) => {
                if text != self.last_content && self.window_passed(now) {
                    self.accept(text.clone(), now);
                    (Some(text), None)
                } else {
                    (None, None)
                }
            },
            Err(e) => (None, Some(e)),
        }
    }

    /// The remote branch of a tick. `fetched` is the outcome of asking the
    /// server at `now`. A text that is not empty and differs from the last
    /// synchronised one is accepted if the window has passed, and returned for
    /// the caller to write to the clipboard. A failed fetch is no change and is
    /// returned for the caller to report.
    pub fn observe_remote(&mut self, fetched: Result<String, SyncError>, now: u64) -> (r: (
        Option<String>,
        Option<SyncError>,
    ))
        ensures
            (final(self)@, r.0.deep_view(), r.1) == remote_branch(
                old(self)@,
                outcome_view(fetched),
                now,
            ),
    {
        match fetched {
            Ok(text) => {
                if !text.as_str().is_empty() && text != self.last_content && self.window_passed(now) {
                    self.accept(text.clone(), now);
                    (Some(text), None)
                } else {
                    (None, None)
                }
            },
            Err(e) => (None, Some(e)),
        }
    }

    /// One transition of the reconciliation cycle: takes an observation and
    /// says what to do and what to observe next.
    pub fn step(&mut self, event: Event) -> (step: Step)
        ensures
            (final(self)@, step@) == react(old(self)@, event@),
    {
        match event {
            Event::Tick { connected } => {
                let next = if connected {
                    Request::ReadLocal
                } else {
                    Request::AwaitTick
                };
                self.awaiting = next;
                Step { push: None, write_local: None, report: None, next }
            },
            Event::LocalRead { outcome, now } => {
                if self.awaiting == Request::ReadLocal {
                    let (push, report) = self.observe_local(outcome, now);
                    self.awaiting = Request::FetchRemote;
                    Step { push, write_local: None, report, next: Request::FetchRemote }
                } else {
                    Step { push: None, write_local: None, report: None, next: self.awaiting }
                }
            },
            Event::RemoteFetched { outcome, now } => {
                if self.awaiting == Request::FetchRemote {
                    let (write_local, report) = self.observe_remote(outcome, now);
                    self.awaiting = Request::AwaitTick;
                    Step { push: None, write_local, report, next: Request::AwaitTick }
                } else {
                    Step { push: None, write_local: None, report: None, next: self.awaiting }
                }
            },
        }
    }
}

} // verus!
