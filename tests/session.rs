use opus_player::session::{
    parse_decimal, AdmissionGuard, Phase, Session, SessionAction, SessionConfig, SessionEvent,
};

fn handshake(values: [&str; 3]) -> (Session, SessionAction) {
    let mut s = Session::new();
    let mut last = SessionAction::Continue;
    for v in values {
        last = s.on_event(SessionEvent::Text(v.as_bytes().to_vec()));
    }
    (s, last)
}

#[test]
fn parse_decimal_values() {
    assert_eq!(parse_decimal(b"48000"), Some(48000));
    assert_eq!(parse_decimal(b"0"), Some(0));
    assert_eq!(parse_decimal(b"007"), Some(7));
    assert_eq!(parse_decimal(b"4294967295"), Some(u32::MAX));
    assert_eq!(parse_decimal(b"4294967296"), None);
    assert_eq!(parse_decimal(b"99999999999999999999"), None);
    assert_eq!(parse_decimal(b""), None);
    assert_eq!(parse_decimal(b"12a"), None);
    assert_eq!(parse_decimal(b"-1"), None);
    assert_eq!(parse_decimal(b" 1"), None);
}

#[test]
fn handshake_yields_config() {
    let (s, last) = handshake(["48000", "1", "960"]);
    let c = SessionConfig { sample_rate: 48000, channels: 1, buffer_size: 960 };
    assert!(matches!(last, SessionAction::Start(x) if x == c));
    assert_eq!(s.phase(), Phase::Streaming);
    assert_eq!(s.config(), Some(c));
    assert_eq!(c.bridge_capacity(), Some(1920));
}

#[test]
fn handshake_in_binary_messages() {
    let mut s = Session::new();
    assert!(matches!(s.on_event(SessionEvent::Binary(b"16000".to_vec())), SessionAction::Continue));
    assert_eq!(s.phase(), Phase::Handshake);
    assert!(matches!(s.on_event(SessionEvent::Binary(b"2".to_vec())), SessionAction::Continue));
    let a = s.on_event(SessionEvent::Binary(b"320".to_vec()));
    assert!(matches!(a, SessionAction::Start(c) if c.sample_rate == 16000 && c.channels == 2 && c.buffer_size == 320));
}

#[test]
fn bad_handshake_value_ends_session() {
    let mut s = Session::new();
    s.on_event(SessionEvent::Text(b"48000".to_vec()));
    assert!(matches!(s.on_event(SessionEvent::Text(b"mono".to_vec())), SessionAction::Fail));
    assert_eq!(s.phase(), Phase::Ended);
    assert!(matches!(s.on_event(SessionEvent::Binary(vec![1])), SessionAction::Continue));
    assert_eq!(s.config(), None);
}

#[test]
fn zero_handshake_value_ends_session() {
    let (s, last) = handshake(["48000", "0", "960"]);
    assert!(matches!(last, SessionAction::Continue));
    assert_eq!(s.phase(), Phase::Ended);
}

#[test]
fn streaming_messages() {
    let (mut s, _) = handshake(["48000", "2", "960"]);
    let a = s.on_event(SessionEvent::Binary(vec![1, 2, 3]));
    assert!(matches!(a, SessionAction::Decode(f) if f == vec![1, 2, 3]));
    assert!(matches!(s.on_event(SessionEvent::Text(b"hello".to_vec())), SessionAction::Continue));
    assert_eq!(s.phase(), Phase::Streaming);
    assert!(matches!(s.on_event(SessionEvent::Close), SessionAction::AckClose));
    assert_eq!(s.phase(), Phase::Ended);
    assert!(matches!(s.on_event(SessionEvent::Close), SessionAction::Continue));
}

#[test]
fn close_during_handshake() {
    let mut s = Session::new();
    s.on_event(SessionEvent::Text(b"48000".to_vec()));
    assert!(matches!(s.on_event(SessionEvent::Close), SessionAction::AckClose));
    assert_eq!(s.phase(), Phase::Ended);
}

#[test]
fn transport_error_ends_session() {
    let (mut s, _) = handshake(["48000", "1", "960"]);
    assert!(matches!(s.on_event(SessionEvent::TransportError), SessionAction::Fail));
    assert_eq!(s.phase(), Phase::Ended);
}

#[test]
fn bridge_capacity_limits() {
    let c = SessionConfig { sample_rate: 48000, channels: 2, buffer_size: 480 };
    assert_eq!(c.bridge_capacity(), Some(1920));
    let wide = SessionConfig { sample_rate: 1, channels: 1, buffer_size: u32::MAX };
    assert_eq!(wide.bridge_capacity(), Some(2 * u32::MAX as usize));
    let big = SessionConfig { sample_rate: 1, channels: u32::MAX, buffer_size: u32::MAX };
    assert_eq!(big.bridge_capacity(), None);
}

#[test]
fn second_connection_is_rejected() {
    let mut guard = AdmissionGuard::new();
    assert!(guard.try_acquire());
    let (first, _) = handshake(["48000", "1", "960"]);
    assert!(!guard.try_acquire());
    assert!(guard.is_held());
    assert_eq!(first.phase(), Phase::Streaming);
    guard.release();
    assert!(!guard.is_held());
    assert!(guard.try_acquire());
}
