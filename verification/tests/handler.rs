use glare::channel::ResponseChannel;
use glare::driver::Esp01;
use glare::handler::{on_serial_interrupt, poll_cycle};
use glare::sim::{SimRx, SimTx};

#[test]
fn interrupt_drains_then_takes_one_byte() {
    let tx = SimTx::new();
    let mut rx = SimRx::new();
    rx.inject(0x4f);
    rx.inject(0x4b);
    rx.raise_idle();
    let mut esp = Esp01::new(tx, rx);
    let mut chan = ResponseChannel::new();
    // idle is latched with an empty buffer: the drained reply is empty,
    // and one pending byte is taken in afterwards
    assert!(on_serial_interrupt(&mut esp, &mut chan).is_ok());
    assert_eq!(chan.len(), 1);
    assert_eq!(chan.consume().as_deref(), Some(""));
    // idle was cleared by the drain: the next interrupt only takes a byte
    assert!(on_serial_interrupt(&mut esp, &mut chan).is_ok());
    assert_eq!(chan.len(), 0);
    // both bytes now sit in the buffer
    let reply = esp.get_response().unwrap();
    assert_eq!(reply.as_str(), "OK");
}

#[test]
fn poll_cycle_sends_and_drains() {
    let tx = SimTx::new();
    let rx = SimRx::new();
    let mut esp = Esp01::new(tx, rx);
    let mut chan = ResponseChannel::new();
    assert!(chan.produce("OK\r\n".to_string()).is_ok());
    let (sent, reply) = poll_cycle(&mut esp, &mut chan);
    assert!(sent.is_ok());
    assert_eq!(reply.as_deref(), Some("OK\r\n"));
    let (sent2, reply2) = poll_cycle(&mut esp, &mut chan);
    assert!(sent2.is_ok());
    assert_eq!(reply2, None);
    let (tx, _rx) = esp.release();
    assert_eq!(tx.written().as_str(), "AT+CWMODE?\r\nAT+CWMODE?\r\n");
}
