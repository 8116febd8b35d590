use glare::command::{AtCommand, Command};
use glare::driver::{byte_to_char, Esp01, TransportError, MAX_RESP_LEN};
use glare::sim::{SimRx, SimTx};

#[test]
fn intake_counts_successful_calls() {
    let tx = SimTx::new();
    let mut rx = SimRx::new();
    for i in 0..(MAX_RESP_LEN + 1) {
        rx.inject((i % 256) as u8);
    }
    rx.raise_idle();
    let mut esp = Esp01::new(tx, rx);
    for _ in 0..MAX_RESP_LEN {
        assert!(esp.read_byte().is_ok());
    }
    // the byte beyond the 256th finds the buffer full
    assert_eq!(esp.read_byte(), Err(TransportError::BufferOverflow));
    // the buffer stayed at 256: the drained reply has exactly 256 characters
    let reply = esp.get_response().unwrap();
    assert_eq!(reply.chars().count(), MAX_RESP_LEN);
}

#[test]
fn drain_returns_buffer_and_resets() {
    let tx = SimTx::new();
    let mut rx = SimRx::new();
    for b in [0x41u8, 0x42, 0x43] {
        rx.inject(b);
    }
    rx.raise_idle();
    let mut esp = Esp01::new(tx, rx);
    for _ in 0..3 {
        assert!(esp.read_byte().is_ok());
    }
    let reply = esp.get_response().unwrap();
    assert_eq!(reply.chars().count(), 3);
    assert_eq!(reply.as_str(), "ABC");
    // the reset is complete: a second drain yields the empty reply
    let again = esp.get_response().unwrap();
    assert_eq!(again.chars().count(), 0);
}

#[test]
fn byte_char_conversion_round_trips() {
    for b in 0..=255u8 {
        let c = byte_to_char(b);
        // the character's ordinal equals the byte value, also above 127
        assert_eq!(c as u32, b as u32);
        assert_eq!(c as u8, b);
    }
    for b in 0..=127u8 {
        // in the ASCII range the mapping is the identity on text
        let c = byte_to_char(b);
        assert!(c.is_ascii());
        assert_eq!(c, b as char);
    }
}

#[test]
fn send_then_never_reply_keeps_system_live() {
    let tx = SimTx::new();
    let rx = SimRx::new();
    let mut esp = Esp01::new(tx, rx);
    assert!(esp.send_command(Command::cw_mode_query()).is_ok());
    // no byte and no idle event ever arrives
    for _ in 0..10 {
        assert!(!esp.is_response_ready());
    }
    // a later independent send still goes through
    assert!(esp.send_command(Command::cw_mode_query()).is_ok());
    let (tx, _rx) = esp.release();
    assert_eq!(tx.written().as_str(), "AT+CWMODE?\r\nAT+CWMODE?\r\n");
}

#[test]
fn end_to_end_mode_query() {
    let tx = SimTx::new();
    let mut rx = SimRx::new();
    for b in [0x4fu8, 0x4b, 0x0d, 0x0a] {
        rx.inject(b);
    }
    rx.raise_idle();
    let mut esp = Esp01::new(tx, rx);
    assert!(esp.send_command(Command::cw_mode_query()).is_ok());
    for _ in 0..4 {
        assert!(esp.read_byte().is_ok());
    }
    assert!(esp.is_response_ready());
    let reply = esp.get_response().unwrap();
    assert_eq!(reply.chars().count(), 4);
    assert_eq!(reply.as_str(), "OK\r\n");
    assert!(!esp.is_response_ready());
    // the buffer is back at length zero
    let empty = esp.get_response().unwrap();
    assert_eq!(empty.chars().count(), 0);
    let (tx, _rx) = esp.release();
    assert_eq!(tx.written().as_str(), "AT+CWMODE?\r\n");
}

#[test]
fn send_appends_payload_and_terminator() {
    let tx = SimTx::new();
    let rx = SimRx::new();
    let mut esp = Esp01::new(tx, rx);
    assert!(esp.send_command(Command::cw_mode_set()).is_ok());
    let (tx, _rx) = esp.release();
    assert_eq!(tx.written().as_str(), "AT+CWMODE=1\r\n");
}

#[test]
fn command_carries_its_data() {
    let mut cmd = Command::new("AT+CWMODE=", None);
    assert_eq!(cmd.cmd(), "AT+CWMODE=");
    assert!(cmd.data().is_none());
    cmd.with_data(Some("2"));
    assert_eq!(cmd.data(), Some("2"));
    let fixed = Command::cw_mode_set();
    assert_eq!(fixed.cmd(), "AT+CWMODE=");
    assert_eq!(fixed.data(), Some("1"));
}
