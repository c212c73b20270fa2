use camctl::session::{Action, Controls, Report, Request, Session, SessionState, Step};
use camctl::Error;

fn open(s: &mut Session) {
    assert_eq!(s.begin(Request::Open), Step::Perform(Action::OpenControl));
    assert_eq!(s.advance(Report::Succeeded), Step::Perform(Action::LoadContext));
    assert_eq!(s.advance(Report::Succeeded), Step::Finished(Ok(())));
}

#[test]
fn start_streaming_before_open_is_not_open() {
    let mut s = Session::new();
    assert_eq!(s.begin(Request::StartStreaming(1)), Step::Finished(Err(Error::NotOpen)));
    assert_eq!(s.state(), SessionState::Closed);
    assert!(s.is_idle());
}

#[test]
fn open_then_stream() {
    let mut s = Session::new();
    open(&mut s);
    assert_eq!(s.state(), SessionState::Opened);
    assert_eq!(s.begin(Request::StartStreaming(3)), Step::Perform(Action::StartStreaming(3)));
    assert_eq!(s.advance(Report::Succeeded), Step::Finished(Ok(())));
    assert_eq!(s.state(), SessionState::Streaming);
    assert!(s.is_streaming() && s.is_opened());
}

#[test]
fn close_while_streaming_ends_closed() {
    let mut s = Session::new();
    open(&mut s);
    s.begin(Request::StartStreaming(1));
    s.advance(Report::Succeeded);
    assert_eq!(s.begin(Request::Close), Step::Perform(Action::StopStreaming));
    assert_eq!(s.advance(Report::Succeeded), Step::Perform(Action::CloseControl));
    assert_eq!(s.advance(Report::Succeeded), Step::Finished(Ok(())));
    assert!(!s.is_streaming());
    assert!(!s.is_opened());
    assert_eq!(s.state(), SessionState::Closed);
}

#[test]
fn close_failing_to_stop_stays_streaming_and_open() {
    let mut s = Session::new();
    open(&mut s);
    s.begin(Request::StartStreaming(1));
    s.advance(Report::Succeeded);
    s.begin(Request::Close);
    let e = Error::StreamError("device gone".to_string());
    assert_eq!(s.advance(Report::Failed(e.clone())), Step::Finished(Err(e)));
    assert_eq!(s.state(), SessionState::Streaming);
    assert!(s.is_opened());
}

#[test]
fn close_failure_leaves_control_open() {
    let mut s = Session::new();
    open(&mut s);
    assert_eq!(s.begin(Request::Close), Step::Perform(Action::CloseControl));
    let e = Error::ControlError("busy".to_string());
    assert_eq!(s.advance(Report::Failed(e.clone())), Step::Finished(Err(e)));
    assert_eq!(s.state(), SessionState::Opened);
}

#[test]
fn open_failure_stays_closed() {
    let mut s = Session::new();
    s.begin(Request::Open);
    let e = Error::ControlError("busy".to_string());
    assert_eq!(s.advance(Report::Failed(e.clone())), Step::Finished(Err(e)));
    assert_eq!(s.state(), SessionState::Closed);
}

#[test]
fn bad_description_rolls_back_to_closed() {
    let mut s = Session::new();
    s.begin(Request::Open);
    s.advance(Report::Succeeded);
    let e = Error::ProtocolError("bad xml".to_string());
    assert_eq!(s.advance(Report::Failed(e.clone())), Step::Perform(Action::CloseControl));
    assert_eq!(s.advance(Report::Succeeded), Step::Finished(Err(e)));
    assert_eq!(s.state(), SessionState::Closed);
}

#[test]
fn stop_streaming_when_not_streaming_is_a_no_op() {
    let mut s = Session::new();
    assert_eq!(s.begin(Request::StopStreaming), Step::Finished(Ok(())));
    open(&mut s);
    assert_eq!(s.begin(Request::StopStreaming), Step::Finished(Ok(())));
    assert_eq!(s.state(), SessionState::Opened);
}

#[test]
fn start_streaming_twice_is_a_stream_error() {
    let mut s = Session::new();
    open(&mut s);
    s.begin(Request::StartStreaming(1));
    s.advance(Report::Succeeded);
    assert!(matches!(s.begin(Request::StartStreaming(1)), Step::Finished(Err(Error::StreamError(_)))));
}

#[test]
fn out_of_order_is_internal_error() {
    let mut s = Session::new();
    assert!(matches!(s.advance(Report::Succeeded), Step::Finished(Err(Error::InternalError(_)))));
    s.begin(Request::Open);
    assert!(matches!(s.begin(Request::Close), Step::Finished(Err(Error::InternalError(_)))));
}

#[test]
fn open_and_close_of_closed_session_finish_at_once() {
    let mut s = Session::new();
    assert_eq!(s.begin(Request::Close), Step::Finished(Ok(())));
    open(&mut s);
    assert_eq!(s.begin(Request::Open), Step::Finished(Ok(())));
}

#[test]
fn controls_follow_state() {
    let none = Controls::for_state(None);
    assert!(!none.open && !none.close && !none.start && !none.stop);
    let closed = Controls::for_state(Some(SessionState::Closed));
    assert!(closed.open && !closed.close && !closed.start && !closed.stop);
    let opened = Controls::for_state(Some(SessionState::Opened));
    assert!(!opened.open && opened.close && opened.start && !opened.stop);
    let streaming = Controls::for_state(Some(SessionState::Streaming));
    assert!(!streaming.open && streaming.close && !streaming.start && streaming.stop);
}
