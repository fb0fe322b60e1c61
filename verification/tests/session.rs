use irc_core::error::Error;
use irc_core::message::Message;
use irc_core::transport::{FrameOutcome, IrcTransport, PING_TIMEOUT_IN_SECONDS};

fn parse(s: &str) -> Message {
    irc_core::parser::parse_message(String::from(s)).unwrap()
}

#[test]
fn timeout_constant_is_ten_minutes() {
    assert_eq!(PING_TIMEOUT_IN_SECONDS, 600);
}

#[test]
fn scenario_ping_is_answered_not_forwarded() {
    let mut t = IrcTransport::new(0);
    let frame = parse(":irc.example.com PING :tungsten");
    match t.process_frame(5, frame).unwrap() {
        FrameOutcome::Reply(reply) => {
            assert_eq!(reply.raw_message(), "PONG tungsten");
        }
        FrameOutcome::Swallowed => panic!("a PING with a host must carry a reply"),
        FrameOutcome::Forward(_) => panic!("a PING must not be forwarded"),
    }
}

#[test]
fn scenario_silent_connection_times_out() {
    let mut t = IrcTransport::new(0);
    assert!(t.begin_poll(599).is_ok());
    assert_eq!(t.begin_poll(600).unwrap_err(), Error::ConnectionReset);
    // Closed for good: later polls fail too, whatever the clock says.
    assert_eq!(t.begin_poll(601).unwrap_err(), Error::ConnectionReset);
    assert_eq!(t.begin_poll(700).unwrap_err(), Error::ConnectionReset);
}

#[test]
fn ping_refreshes_the_timeout() {
    let mut t = IrcTransport::new(0);
    assert!(t.begin_poll(550).is_ok());
    let frame = parse("PING :srv");
    assert!(t.process_frame(550, frame).is_ok());
    assert!(t.begin_poll(1100).is_ok());
    assert_eq!(t.begin_poll(1150).unwrap_err(), Error::ConnectionReset);
}

#[test]
fn other_frames_are_forwarded_unchanged() {
    let mut t = IrcTransport::new(0);
    let frame = parse(":nick!user@host PRIVMSG #chan :Hello world");
    let copy = frame.clone();
    match t.process_frame(10, frame).unwrap() {
        FrameOutcome::Forward(m) => assert_eq!(m, copy),
        _ => panic!("a PRIVMSG must be forwarded"),
    }
    // Forwarding a frame does not refresh the keep-alive clock.
    assert_eq!(t.begin_poll(600).unwrap_err(), Error::ConnectionReset);
}

#[test]
fn pong_is_forwarded_like_any_other_frame() {
    let mut t = IrcTransport::new(0);
    let frame = parse("PONG srv");
    match t.process_frame(10, frame).unwrap() {
        FrameOutcome::Forward(m) => assert_eq!(m.raw_message(), "PONG srv"),
        _ => panic!("a PONG must be forwarded"),
    }
}

#[test]
fn ping_without_arguments_is_swallowed_silently() {
    let mut t = IrcTransport::new(0);
    let frame = parse("PING");
    match t.process_frame(10, frame).unwrap() {
        FrameOutcome::Swallowed => {}
        _ => panic!("a PING without arguments is swallowed without a reply"),
    }
    // The keep-alive clock was still refreshed.
    assert!(t.begin_poll(609).is_ok());
}

#[test]
fn unanswerable_ping_fails_the_session() {
    let mut t = IrcTransport::new(0);
    // The reply line "PONG " is ill-formed, so building the reply fails.
    let frame = parse("PING :");
    assert_eq!(t.process_frame(10, frame).unwrap_err(), Error::UnexpectedEndOfInput);
}
