use glare::channel::ResponseChannel;

#[test]
fn fifo_order_full_depth() {
    let mut chan = ResponseChannel::new();
    let words = ["a", "b", "c", "d", "e", "f", "g", "h"];
    for w in words {
        assert!(chan.produce(w.to_string()).is_ok());
    }
    assert_eq!(chan.len(), 8);
    // the ninth reply does not fit and comes back unchanged
    let bounced = chan.produce("i".to_string());
    assert_eq!(bounced, Err("i".to_string()));
    assert_eq!(chan.len(), 8);
    // nothing was lost and the order is kept
    for w in words {
        assert_eq!(chan.consume().as_deref(), Some(w));
    }
    assert_eq!(chan.consume(), None);
    assert_eq!(chan.len(), 0);
}

#[test]
fn fifo_order_partial_fill() {
    let mut chan = ResponseChannel::new();
    for w in ["first", "second", "third"] {
        assert!(chan.produce(w.to_string()).is_ok());
    }
    assert_eq!(chan.consume().as_deref(), Some("first"));
    assert!(chan.produce("fourth".to_string()).is_ok());
    assert_eq!(chan.consume().as_deref(), Some("second"));
    assert_eq!(chan.consume().as_deref(), Some("third"));
    assert_eq!(chan.consume().as_deref(), Some("fourth"));
    assert_eq!(chan.consume(), None);
}
