use nightstand::channel::{CommandSlot, Received};
use nightstand::color::Rgb;
use nightstand::session::{
    FrameKind, Intake, Notice, Outbound, Session, SessionState, Step,
};
use nightstand::validator::{ValidationError, Validator};

fn established() -> Session {
    let mut session = Session::new(Validator::standard());
    assert_eq!(session.on_open(), vec![Outbound::Text(Notice::Ready)]);
    session
}

fn framed(text: &str) -> Vec<u8> {
    let mut raw = text.as_bytes().to_vec();
    raw.push(0);
    raw
}

fn nothing() -> Step {
    Step { intake: Intake::Skip, replies: vec![] }
}

#[test]
fn notices_have_their_wire_text() {
    assert_eq!(Notice::Ready.text(), r#"{"status":"ready"}"#);
    assert_eq!(Notice::Accepted.text(), r#"{"status":"ok"}"#);
    assert_eq!(Notice::BinaryNotSupported.text(), r#"{"error":"binary_not_supported"}"#);
    assert_eq!(Notice::PayloadTooLarge.text(), r#"{"error":"payload_too_large"}"#);
    assert_eq!(Notice::InvalidUtf8.text(), r#"{"error":"invalid_utf8"}"#);
    assert_eq!(Notice::InvalidPayload.text(), r#"{"error":"invalid_payload"}"#);
    assert_eq!(
        Notice::PixelQueueUnavailable.text(),
        r#"{"error":"pixel_queue_unavailable"}"#
    );
}

#[test]
fn opening_session_greets_once() {
    let mut session = Session::new(Validator::standard());
    assert_eq!(session.state(), SessionState::Opening);
    assert_eq!(session.on_open(), vec![Outbound::Text(Notice::Ready)]);
    assert_eq!(session.state(), SessionState::Established);
    assert_eq!(session.on_open(), vec![]);
    assert_eq!(session.state(), SessionState::Established);
}

#[test]
fn frames_before_open_are_ignored() {
    let mut session = Session::new(Validator::standard());
    let mut slot = CommandSlot::new();
    assert_eq!(session.on_frame(FrameKind::Ping, 0), nothing());
    assert_eq!(session.on_frame(FrameKind::Text, 10), nothing());
    assert_eq!(session.on_text(&framed("[]"), &mut slot), vec![]);
    assert_eq!(session.state(), SessionState::Opening);
    assert!(!slot.has_pending());
}

#[test]
fn ping_yields_exactly_one_pong_and_reads_nothing() {
    let mut session = established();
    let step = session.on_frame(FrameKind::Ping, 0);
    assert_eq!(step, Step { intake: Intake::Skip, replies: vec![Outbound::Pong] });
    assert_eq!(session.state(), SessionState::Established);
    let step = session.on_frame(FrameKind::Ping, 17);
    assert_eq!(step, Step { intake: Intake::Skip, replies: vec![Outbound::Pong] });
}

#[test]
fn binary_is_drained_and_refused_and_the_session_stays_open() {
    let mut session = established();
    let step = session.on_frame(FrameKind::Binary, 9);
    assert_eq!(
        step,
        Step {
            intake: Intake::Drain(9),
            replies: vec![Outbound::Text(Notice::BinaryNotSupported)],
        }
    );
    assert_eq!(session.state(), SessionState::Established);
    let step = session.on_frame(FrameKind::Binary, 0);
    assert_eq!(
        step,
        Step { intake: Intake::Skip, replies: vec![Outbound::Text(Notice::BinaryNotSupported)] }
    );
    assert_eq!(session.state(), SessionState::Established);
    assert_eq!(
        session.on_frame(FrameKind::Ping, 0).replies,
        vec![Outbound::Pong]
    );
}

#[test]
fn oversized_text_is_drained_refused_and_closed() {
    let mut session = established();
    // 513 bytes of text and the terminator
    let step = session.on_frame(FrameKind::Text, 514);
    assert_eq!(
        step,
        Step {
            intake: Intake::Drain(514),
            replies: vec![Outbound::Text(Notice::PayloadTooLarge), Outbound::Close],
        }
    );
    assert_eq!(session.state(), SessionState::Closed);
}

#[test]
fn text_at_the_budget_is_read() {
    let mut session = established();
    let step = session.on_frame(FrameKind::Text, 513);
    assert_eq!(step, Step { intake: Intake::Read(513), replies: vec![] });
    assert_eq!(session.state(), SessionState::Established);
    assert_eq!(
        session.on_frame(FrameKind::Text, 1),
        Step { intake: Intake::Read(1), replies: vec![] }
    );
    assert_eq!(session.on_frame(FrameKind::Text, 0), nothing());
    assert_eq!(session.state(), SessionState::Established);
}

#[test]
fn pong_close_and_socket_close_end_the_session_silently() {
    for kind in [FrameKind::Pong, FrameKind::Close, FrameKind::SocketClose] {
        let mut session = established();
        assert_eq!(session.on_frame(kind, 0), nothing());
        assert_eq!(session.state(), SessionState::Closed);
    }
}

#[test]
fn continuation_is_ignored() {
    let mut session = established();
    assert_eq!(session.on_frame(FrameKind::Continue, 40), nothing());
    assert_eq!(session.state(), SessionState::Established);
}

#[test]
fn transport_close_is_terminal() {
    let mut slot = CommandSlot::new();
    let mut session = established();
    session.on_transport_closed();
    assert_eq!(session.state(), SessionState::Closed);
    for kind in [
        FrameKind::Text,
        FrameKind::Binary,
        FrameKind::Ping,
        FrameKind::Pong,
        FrameKind::Close,
        FrameKind::SocketClose,
        FrameKind::Continue,
    ] {
        assert_eq!(session.on_frame(kind, 600), nothing());
        assert_eq!(session.state(), SessionState::Closed);
    }
    assert_eq!(session.on_open(), vec![]);
    assert_eq!(session.on_text(&framed("[]"), &mut slot), vec![]);
    assert_eq!(session.settle(Ok(vec![]), &mut slot), vec![]);
    assert_eq!(session.state(), SessionState::Closed);
    assert!(!slot.has_pending());
}

#[test]
fn valid_text_is_forwarded_and_acknowledged() {
    let mut slot = CommandSlot::new();
    let mut session = established();
    let replies = session.on_text(&framed(r#"[{"r":255,"g":0,"b":0}]"#), &mut slot);
    assert_eq!(replies, vec![Outbound::Text(Notice::Accepted)]);
    assert_eq!(session.state(), SessionState::Established);
    assert_eq!(slot.receive(), Received::Command(vec![Rgb::new(255, 0, 0)]));
}

#[test]
fn terminator_is_no_part_of_the_text() {
    let mut slot = CommandSlot::new();
    let mut session = established();
    // without the terminator the last byte of the text would be cut off
    let replies = session.on_text(b"[]", &mut slot);
    assert_eq!(replies, vec![Outbound::Text(Notice::InvalidPayload)]);
    let replies = session.on_text(b"[]]", &mut slot);
    assert_eq!(replies, vec![Outbound::Text(Notice::Accepted)]);
    assert_eq!(slot.receive(), Received::Command(vec![]));
    assert_eq!(session.on_text(b"", &mut slot), vec![]);
}

#[test]
fn bad_text_is_refused_and_the_client_may_retry() {
    let mut slot = CommandSlot::new();
    let mut session = established();
    let replies = session.on_text(&[b'[', 0xFF, b']', 0], &mut slot);
    assert_eq!(replies, vec![Outbound::Text(Notice::InvalidUtf8)]);
    assert_eq!(session.state(), SessionState::Established);
    let replies = session.on_text(&framed(r#"[{"r":300,"g":0,"b":0}]"#), &mut slot);
    assert_eq!(replies, vec![Outbound::Text(Notice::InvalidPayload)]);
    assert_eq!(session.state(), SessionState::Established);
    assert!(!slot.has_pending());
    let replies = session.on_text(&framed(r#"[{"r":3,"g":0,"b":0}]"#), &mut slot);
    assert_eq!(replies, vec![Outbound::Text(Notice::Accepted)]);
    assert!(slot.has_pending());
}

#[test]
fn oversized_payload_closes_even_when_it_was_read() {
    let mut slot = CommandSlot::new();
    let mut session = established();
    let raw = vec![b' '; 514];
    let replies = session.on_text(&raw, &mut slot);
    assert_eq!(
        replies,
        vec![Outbound::Text(Notice::PayloadTooLarge), Outbound::Close]
    );
    assert_eq!(session.state(), SessionState::Closed);
}

#[test]
fn dead_consumer_closes_the_session() {
    let mut slot = CommandSlot::new();
    slot.close_consumer();
    let mut session = established();
    let replies = session.on_text(&framed("[]"), &mut slot);
    assert_eq!(
        replies,
        vec![Outbound::Text(Notice::PixelQueueUnavailable), Outbound::Close]
    );
    assert_eq!(session.state(), SessionState::Closed);
}

#[test]
fn settle_maps_each_verdict() {
    let mut slot = CommandSlot::new();
    let mut session = established();
    assert_eq!(
        session.settle(Err(ValidationError::MalformedPayload), &mut slot),
        vec![Outbound::Text(Notice::InvalidPayload)]
    );
    assert_eq!(
        session.settle(Err(ValidationError::InvalidEncoding), &mut slot),
        vec![Outbound::Text(Notice::InvalidUtf8)]
    );
    assert_eq!(
        session.settle(Ok(vec![Rgb::new(1, 2, 3)]), &mut slot),
        vec![Outbound::Text(Notice::Accepted)]
    );
    assert_eq!(slot.receive(), Received::Command(vec![Rgb::new(1, 2, 3)]));
    assert_eq!(
        session.settle(Err(ValidationError::PayloadTooLarge), &mut slot),
        vec![Outbound::Text(Notice::PayloadTooLarge), Outbound::Close]
    );
    assert_eq!(session.state(), SessionState::Closed);
}

#[test]
fn smaller_budget_is_honoured() {
    let mut session = Session::new(Validator::new(2));
    session.on_open();
    assert_eq!(
        session.on_frame(FrameKind::Text, 3),
        Step { intake: Intake::Read(3), replies: vec![] }
    );
    assert_eq!(
        session.on_frame(FrameKind::Text, 4).replies,
        vec![Outbound::Text(Notice::PayloadTooLarge), Outbound::Close]
    );
}
