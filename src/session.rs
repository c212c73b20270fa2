//! The per-device lifecycle: `Closed`, `Opened`, `Streaming`.
//!
//! A session decides which transport operation comes next; whoever owns the
//! device handle performs it and reports the outcome back. The state is
//! derived from two bits, "control channel open" and "streaming loop
//! running", which only change on a reported success.
use crate::Error;
use vstd::prelude::*;
use vstd::string::StringExecFns;

verus! {

/// Lifecycle state, derived from the two observable bits.
#[derive(Clone, Copy, Debug, PartialEq, Eq, Structural)]
pub enum SessionState {
    Closed,
    Opened,
    Streaming,
}

/// An operation that a caller asks of a session.
#[derive(Clone, Copy, Debug, PartialEq, Eq, Structural)]
pub enum Request {
    Open,
    Close,
    /// Start streaming into a channel of this many buffers.
    StartStreaming(usize),
    StopStreaming,
}

/// A transport operation that the owner of the device handle must perform.
#[derive(Clone, Copy, Debug, PartialEq, Eq, Structural)]
pub enum Action {
    /// Open the control and stream channels.
    OpenControl,
    /// Fetch and parse the device's feature description.
    LoadContext,
    /// Stop the streaming loop and disable streaming on the device.
    StopStreaming,
    /// Close the control and stream channels.
    CloseControl,
    /// Enable streaming into a channel of this many buffers.
    StartStreaming(usize),
}

/// What a session asks for next: a transport operation, or the end of the
/// current request with its result.
#[derive(Debug, PartialEq, Eq)]
pub enum Step {
    Perform(Action),
    Finished(Result<(), Error>),
}

/// The outcome of the transport operation last asked for.
#[derive(Clone, Debug, PartialEq, Eq)]
pub enum Report {
    Succeeded,
    Failed(Error),
}

/// Where a session is within a request.
#[derive(Clone, Debug, PartialEq, Eq)]
pub enum Stage {
    Idle,
    Opening,
    LoadingContext,
    /// The description could not be loaded: the control channel is being
    /// closed again, after which this error is returned.
    RollingBack(Error),
    StoppingForClose,
    Closing,
    Starting,
    Stopping,
}

/// The abstract state of a session.
pub struct SessionView {
    pub control_open: bool,
    pub streaming: bool,
    pub stage: Stage,
}

/// The lifecycle state of a session with these bits.
pub open spec fn state_of(v: SessionView) -> SessionState {
    if v.streaming {
        SessionState::Streaming
    } else if v.control_open {
        SessionState::Opened
    } else {
        SessionState::Closed
    }
}

/// What every reachable session satisfies: it never streams without an open
/// control channel, and each stage holds the bits it was entered with.
pub open spec fn session_wf(v: SessionView) -> bool {
    &&& v.streaming ==> v.control_open
    &&& match v.stage {
        Stage::Idle => true,
        Stage::Opening => !v.control_open,
        Stage::LoadingContext => v.control_open && !v.streaming,
        Stage::RollingBack(_) => v.control_open && !v.streaming,
        Stage::StoppingForClose => v.streaming,
        Stage::Closing => v.control_open && !v.streaming,
        Stage::Starting => v.control_open && !v.streaming,
        Stage::Stopping => v.streaming,
    }
}

/// A session with the given bits and stage.
pub open spec fn sv(control_open: bool, streaming: bool, stage: Stage) -> SessionView {
    SessionView { control_open, streaming, stage }
}

/// `step` is `expected`, where the text of an error that the session itself
/// raises is left open.
pub open spec fn same_outcome(step: Step, expected: Step) -> bool {
    match (step, expected) {
        (Step::Finished(Err(Error::InternalError(_))), Step::Finished(Err(Error::InternalError(_)))) => true,
        (Step::Finished(Err(Error::StreamError(_))), Step::Finished(Err(Error::StreamError(_)))) => true,
        _ => step == expected,
    }
}

/// The next state and step when `req` begins in state `v`.
pub open spec fn begin_spec(v: SessionView, req: Request) -> (SessionView, Step) {
    if !(v.stage is Idle) {
        (v, Step::Finished(Err(Error::InternalError(arbitrary()))))
    } else {
        match req {
            Request::Open => if v.control_open {
                (v, Step::Finished(Ok(())))
            } else {
                (sv(v.control_open, v.streaming, Stage::Opening), Step::Perform(Action::OpenControl))
            },
            Request::Close => if v.streaming {
                (sv(v.control_open, v.streaming, Stage::StoppingForClose), Step::Perform(Action::StopStreaming))
            } else if v.control_open {
                (sv(v.control_open, v.streaming, Stage::Closing), Step::Perform(Action::CloseControl))
            } else {
                (v, Step::Finished(Ok(())))
            },
            Request::StartStreaming(n) => if !v.control_open {
                (v, Step::Finished(Err(Error::NotOpen)))
            } else if v.streaming {
                (v, Step::Finished(Err(Error::StreamError(arbitrary()))))
            } else {
                (sv(v.control_open, v.streaming, Stage::Starting), Step::Perform(Action::StartStreaming(n)))
            },
            Request::StopStreaming => if !v.streaming {
                (v, Step::Finished(Ok(())))
            } else {
                (sv(v.control_open, v.streaming, Stage::Stopping), Step::Perform(Action::StopStreaming))
            },
        }
    }
}

/// The next state and step when the pending operation of `v` reports `rep`.
pub open spec fn advance_spec(v: SessionView, rep: Report) -> (SessionView, Step) {
    let idle = Stage::Idle;
    match (v.stage, rep) {
        (Stage::Idle, _) => (v, Step::Finished(Err(Error::InternalError(arbitrary())))),
        (Stage::Opening, Report::Succeeded) =>
            (sv(true, v.streaming, Stage::LoadingContext), Step::Perform(Action::LoadContext)),
        (Stage::LoadingContext, Report::Succeeded) =>
            (sv(v.control_open, v.streaming, idle), Step::Finished(Ok(()))),
        (Stage::LoadingContext, Report::Failed(e)) =>
            (sv(v.control_open, v.streaming, Stage::RollingBack(e)), Step::Perform(Action::CloseControl)),
        (Stage::RollingBack(e), Report::Succeeded) =>
            (sv(false, v.streaming, idle), Step::Finished(Err(e))),
        (Stage::RollingBack(e), Report::Failed(_)) =>
            (sv(v.control_open, v.streaming, idle), Step::Finished(Err(e))),
        (Stage::StoppingForClose, Report::Succeeded) =>
            (sv(v.control_open, false, Stage::Closing), Step::Perform(Action::CloseControl)),
        (Stage::Closing, Report::Succeeded) =>
            (sv(false, v.streaming, idle), Step::Finished(Ok(()))),
        (Stage::Starting, Report::Succeeded) =>
            (sv(v.control_open, true, idle), Step::Finished(Ok(()))),
        (Stage::Stopping, Report::Succeeded) =>
            (sv(v.control_open, false, idle), Step::Finished(Ok(()))),
        (_, Report::Failed(e)) => (sv(v.control_open, v.streaming, idle), Step::Finished(Err(e))),
    }
}

/// One device's lifecycle.
pub struct Session {
    control_open: bool,
    streaming: bool,
    stage: Stage,
}

impl View for Session {
    type V = SessionView;

    closed spec fn view(&self) -> SessionView {
        SessionView { control_open: self.control_open, streaming: self.streaming, stage: self.stage }
    }
}

impl Session {
    /// A new session: closed, with nothing pending.
    pub fn new() -> (s: Session)
        ensures
            s@ == sv(false, false, Stage::Idle),
            session_wf(s@),
    {
        Session { control_open: false, streaming: false, stage: Stage::Idle }
    }

    /// The lifecycle state.
    pub fn state(&self) -> (r: SessionState)
        ensures
            r == state_of(self@),
    {
        if self.streaming {
            SessionState::Streaming
        } else if self.control_open {
            SessionState::Opened
        } else {
            SessionState::Closed
        }
    }

    /// Whether the control channel is open.
    pub fn is_opened(&self) -> (r: bool)
        ensures
            r == self@.control_open,
    {
        self.control_open
    }

    /// Whether the streaming loop is running.
    pub fn is_streaming(&self) -> (r: bool)
        ensures
            r == self@.streaming,
    {
        self.streaming
    }

    /// Whether no request is in progress.
    pub fn is_idle(&self) -> (r: bool)
        ensures
            r == (self@.stage is Idle),
    {
        match self.stage {
            Stage::Idle => true,
            _ => false,
        }
    }

    /// Starts a request: `open` opens the control channel and then loads the
    /// feature description; `close` stops streaming first when it runs;
    /// `start_streaming` fails with `NotOpen` on a closed session;
    /// `stop_streaming` on a session that is not streaming finishes at once.
    pub fn begin(&mut self, req: Request) -> (step: Step)
        requires
            session_wf(old(self)@),
        ensures
            final(self)@ == begin_spec(old(self)@, req).0,
            same_outcome(step, begin_spec(old(self)@, req).1),
            session_wf(final(self)@),
    {
        if !self.is_idle() {
            return Step::Finished(Err(Error::InternalError(String::from_str("a request is in progress"))));
        }
        match req {
            Request::Open => if self.control_open {
                Step::Finished(Ok(()))
            } else {
                self.stage = Stage::Opening;
                Step::Perform(Action::OpenControl)
            },
            Request::Close => if self.streaming {
                self.stage = Stage::StoppingForClose;
                Step::Perform(Action::StopStreaming)
            } else if self.control_open {
                self.stage = Stage::Closing;
                Step::Perform(Action::CloseControl)
            } else {
                Step::Finished(Ok(()))
            },
            Request::StartStreaming(n) => if !self.control_open {
                Step::Finished(Err(Error::NotOpen))
            } else if self.streaming {
                Step::Finished(Err(Error::StreamError(String::from_str("already streaming"))))
            } else {
                self.stage = Stage::Starting;
                Step::Perform(Action::StartStreaming(n))
            },
            Request::StopStreaming => if !self.streaming {
                Step::Finished(Ok(()))
            } else {
                self.stage = Stage::Stopping;
                Step::Perform(Action::StopStreaming)
            },
        }
    }

    /// Takes the outcome of the operation last asked for and says what comes
    /// next. A success updates the bit the operation changes; a failure leaves
    /// both bits as they were and ends the request with that failure, except
    /// that a failed description load first closes the control channel again.
    pub fn advance(&mut self, rep: Report) -> (step: Step)
        requires
            session_wf(old(self)@),
        ensures
            final(self)@ == advance_spec(old(self)@, rep).0,
            old(self)@.stage is Idle ==> same_outcome(step, advance_spec(old(self)@, rep).1),
            !(old(self)@.stage is Idle) ==> step == advance_spec(old(self)@, rep).1,
            session_wf(final(self)@),
    {
        let mut stage = Stage::Idle;
        std::mem::swap(&mut stage, &mut self.stage);
        match (stage, rep) {
            (Stage::Idle, _) =>
                Step::Finished(Err(Error::InternalError(String::from_str("no operation is pending")))),
            (Stage::Opening, Report::Succeeded) => {
                self.control_open = true;
                self.stage = Stage::LoadingContext;
                Step::Perform(Action::LoadContext)
            },
            (Stage::LoadingContext, Report::Succeeded) => Step::Finished(Ok(())),
            (Stage::LoadingContext, Report::Failed(e)) => {
                self.stage = Stage::RollingBack(e);
                Step::Perform(Action::CloseControl)
            },
            (Stage::RollingBack(e), Report::Succeeded) => {
                self.control_open = false;
                Step::Finished(Err(e))
            },
            (Stage::RollingBack(e), Report::Failed(_)) => Step::Finished(Err(e)),
            (Stage::StoppingForClose, Report::Succeeded) => {
                self.streaming = false;
                self.stage = Stage::Closing;
                Step::Perform(Action::CloseControl)
            },
            (Stage::Closing, Report::Succeeded) => {
                self.control_open = false;
                Step::Finished(Ok(()))
            },
            (Stage::Starting, Report::Succeeded) => {
                self.streaming = true;
                Step::Finished(Ok(()))
            },
            (Stage::Stopping, Report::Succeeded) => {
                self.streaming = false;
                Step::Finished(Ok(()))
            },
            (_, Report::Failed(e)) => Step::Finished(Err(e)),
        }
    }
}

} // verus!

verus! {

/// Which lifecycle operations a user may ask for.
#[derive(Clone, Copy, Debug, PartialEq, Eq, Structural)]
pub struct Controls {
    pub open: bool,
    pub close: bool,
    pub start: bool,
    pub stop: bool,
}

impl Controls {
    /// The operations offered for the selected device's state: none without
    /// a selection; `open` when closed; `close` when open, with `start` when
    /// not streaming and `stop` when streaming.
    pub fn for_state(state: Option<SessionState>) -> (r: Controls)
        ensures
            r.open == (state == Some(SessionState::Closed)),
            r.close == (state == Some(SessionState::Opened) || state == Some(SessionState::Streaming)),
            r.start == (state == Some(SessionState::Opened)),
            r.stop == (state == Some(SessionState::Streaming)),
    {
        match state {
            None => Controls { open: false, close: false, start: false, stop: false },
            Some(SessionState::Closed) => Controls { open: true, close: false, start: false, stop: false },
            Some(SessionState::Opened) => Controls { open: false, close: true, start: true, stop: false },
            Some(SessionState::Streaming) => Controls { open: false, close: true, start: false, stop: true },
        }
    }
}

} // verus!

verus! {

/// Starting to stream before the control channel is open fails with
/// `NotOpen` and leaves the session as it was.
pub proof fn lemma_start_streaming_requires_open(v: SessionView, n: usize)
    requires
        v.stage is Idle,
        !v.control_open,
    ensures
        begin_spec(v, Request::StartStreaming(n)) == (v, Step::Finished(Err(Error::NotOpen))),
{
}

/// Closing a streaming session stops the stream before it closes the control
/// channel, and when both succeed the session is neither streaming nor open.
/// Every intermediate state, and the state after a failure at any point, is
/// well formed, so a session is never streaming with its control channel
/// closed.
pub proof fn lemma_close_while_streaming(v: SessionView, e1: Error, e2: Error)
    requires
        session_wf(v),
        v.stage is Idle,
        v.streaming,
    ensures
        ({
            let (v1, s1) = begin_spec(v, Request::Close);
            let (v2, s2) = advance_spec(v1, Report::Succeeded);
            let (v3, s3) = advance_spec(v2, Report::Succeeded);
            &&& s1 == Step::Perform(Action::StopStreaming)
            &&& s2 == Step::Perform(Action::CloseControl)
            &&& s3 == Step::Finished(Ok(()))
            &&& !v3.streaming && !v3.control_open && v3.stage is Idle
            &&& session_wf(v1) && session_wf(v2) && session_wf(v3)
        }),
        ({
            let (v1, _) = begin_spec(v, Request::Close);
            let (f1, t1) = advance_spec(v1, Report::Failed(e1));
            let (v2, _) = advance_spec(v1, Report::Succeeded);
            let (f2, t2) = advance_spec(v2, Report::Failed(e2));
            &&& t1 == Step::Finished(Err(e1)) && session_wf(f1) && f1.stage is Idle
            &&& t2 == Step::Finished(Err(e2)) && session_wf(f2) && f2.stage is Idle
            &&& !f2.streaming
        }),
{
}

} // verus!
