use vstd::prelude::*;

use crate::command::{wire_text, AtCommand};

verus! {

/// The accumulation buffer holds at most this many bytes of one reply.
pub const MAX_RESP_LEN: usize = 256;

/// What can go wrong between the driver and the serial line.
#[derive(Clone, Copy, Debug, PartialEq, Eq, Structural)]
pub enum TransportError {
    /// A write to the transmit half failed; the current send is aborted.
    WriteFailed,
    /// The receive half signalled a byte but reading it failed.
    ReadFailed,
    /// A byte arrived while the accumulation buffer was already full.
    BufferOverflow,
    /// A completed reply found every channel slot occupied.
    ChannelFull,
}

/// The character a received byte is decoded to: the one whose code point
/// equals the byte value (one byte per character, not UTF-8 decoding).
pub open spec fn char_of_byte(b: u8) -> char {
    b as char
}

/// The text a finished reply decodes to, one character per accumulated byte.
pub open spec fn reply_chars(bs: Seq<u8>) -> Seq<char> {
    bs.map_values(|b: u8| char_of_byte(b))
}

/// Decode one received byte into the character of the same ordinal.
pub fn byte_to_char(b: u8) -> (c: char)
    ensures
        c == char_of_byte(b),
        c as int == b as int,
{
    b as char
}

/// Law: the byte-to-character conversion is exact and lossless over the
/// whole byte range. Every byte decodes to the character of the same code
/// point, and taking that character's code point back gives the byte again,
/// also for the values 128 to 255, which an actual ASCII or UTF-8 decoder
/// would reject or re-encode.
pub proof fn lemma_byte_char_round_trip(b: u8)
    ensures
        char_of_byte(b) as int == b as int,
        char_of_byte(b) as u8 == b,
{
}

/// Law: a drained reply presents the accumulated bytes one for one: it is
/// exactly as long as the buffer was, and its i-th character's code point
/// is the i-th buffered byte.
pub proof fn lemma_reply_preserves_bytes(bs: Seq<u8>)
    ensures
        reply_chars(bs).len() == bs.len(),
        forall|i: int| 0 <= i < bs.len() ==> #[trigger] reply_chars(bs)[i] as int == bs[i] as int,
{
}

/// The accumulation buffer after a run of byte intakes that all succeed,
/// starting from a given buffer state: the shape `read_byte` gives the
/// buffer one successful call at a time.
pub open spec fn buffer_after_intake(buf: Seq<u8>, bs: Seq<u8>) -> Seq<u8>
    decreases bs.len(),
{
    if bs.len() == 0 {
        buf
    } else {
        buffer_after_intake(buf.push(bs[0]), bs.drop_first())
    }
}

/// Law: any run of intakes whose bytes still fit the 256-byte capacity
/// leaves the buffer holding the old contents followed by exactly those
/// bytes, so its length grows by one per successful intake; a run that
/// fills the buffer leaves it at 256, where `read_byte` reports an overflow
/// for a further waiting byte instead of growing.
pub proof fn lemma_intake_accumulates(buf: Seq<u8>, bs: Seq<u8>)
    requires
        buf.len() + bs.len() <= 256,
    ensures
        buffer_after_intake(buf, bs) == buf + bs,
        buffer_after_intake(buf, bs).len() == buf.len() + bs.len(),
    decreases bs.len(),
{
    if bs.len() == 0 {
        assert(buffer_after_intake(buf, bs) =~= buf + bs);
    } else {
        lemma_intake_accumulates(buf.push(bs[0]), bs.drop_first());
        assert(buf.push(bs[0]) + bs.drop_first() =~= buf + bs);
    }
}

/// The transmit half of the serial peripheral, as the driver sees it: a sink
/// of characters. `sent()` models everything written since start-up.
pub trait TxPort: Sized {
    /// All characters written to the line so far. An implementation outside
    /// the verified world may leave the default model in place.
    open spec fn sent(&self) -> Seq<char> {
        Seq::empty()
    }

    /// Write a whole string, or fail; on failure part of it may be out.
    fn write_str(&mut self, s: &str) -> (r: Result<(), TransportError>)
        ensures
            r is Ok ==> final(self).sent() == old(self).sent() + s@,
            r matches Err(e) ==> e == TransportError::WriteFailed,
    ;
}

/// The receive half of the serial peripheral, as the driver sees it: the
/// bytes the hardware has latched but the driver has not read yet, the
/// idle-line condition, and the enable bits of the two interrupt sources.
pub trait RxPort: Sized {
    /// Received bytes not yet read, oldest first. As with the other model
    /// functions, an implementation outside the verified world may leave
    /// the default in place.
    open spec fn pending(&self) -> Seq<u8> {
        Seq::empty()
    }

    /// Whether the idle-line condition is latched.
    open spec fn idle(&self) -> bool {
        false
    }

    /// Whether the byte-received interrupt is enabled.
    open spec fn listening(&self) -> bool {
        false
    }

    /// Whether the idle-line interrupt is enabled.
    open spec fn listening_idle(&self) -> bool {
        false
    }

    /// Enable the byte-received interrupt.
    fn listen(&mut self)
        ensures
            final(self).listening(),
            final(self).listening_idle() == old(self).listening_idle(),
            final(self).pending() == old(self).pending(),
            final(self).idle() == old(self).idle(),
    ;

    /// Disable the byte-received interrupt.
    fn unlisten(&mut self)
        ensures
            !final(self).listening(),
            final(self).listening_idle() == old(self).listening_idle(),
            final(self).pending() == old(self).pending(),
            final(self).idle() == old(self).idle(),
    ;

    /// Enable the idle-line interrupt.
    fn listen_idle(&mut self)
        ensures
            final(self).listening_idle(),
            final(self).listening() == old(self).listening(),
            final(self).pending() == old(self).pending(),
            final(self).idle() == old(self).idle(),
    ;

    /// Disable the idle-line interrupt.
    fn unlisten_idle(&mut self)
        ensures
            !final(self).listening_idle(),
            final(self).listening() == old(self).listening(),
            final(self).pending() == old(self).pending(),
            final(self).idle() == old(self).idle(),
    ;

    /// Clear the latched idle-line condition.
    fn clear_idle_interrupt(&mut self)
        ensures
            !final(self).idle(),
            final(self).listening() == old(self).listening(),
            final(self).listening_idle() == old(self).listening_idle(),
            final(self).pending() == old(self).pending(),
    ;

    /// Whether at least one received byte is waiting.
    fn is_rx_not_empty(&self) -> (b: bool)
        ensures
            b == (self.pending().len() > 0),
    ;

    /// Whether the idle-line condition is latched.
    fn is_idle(&self) -> (b: bool)
        ensures
            b == self.idle(),
    ;

    /// Read the oldest waiting byte. Reading can fail even when a byte is
    /// waiting, and reading the data register may also clear a latched
    /// idle condition, so nothing is claimed about `idle` afterwards.
    fn read(&mut self) -> (r: Result<u8, TransportError>)
        ensures
            old(self).pending().len() == 0 ==> r is Err,
            r matches Ok(b) ==> old(self).pending().len() > 0 && b == old(self).pending()[0]
                && final(self).pending() == old(self).pending().drop_first(),
            r matches Err(e) ==> e == TransportError::ReadFailed,
            final(self).listening() == old(self).listening(),
            final(self).listening_idle() == old(self).listening_idle(),
    ;
}

// The accumulation buffer is heapless's bounded vector: a fixed 256-byte
// store that refuses, rather than reallocates, when it is full.

#[verifier::external_type_specification]
#[verifier::external_body]
#[verifier::reject_recursive_types(T)]
pub struct ExVec<T, const N: usize>(heapless::Vec<T, N>);

/// The bytes the buffer holds, in arrival order.
pub uninterp spec fn buf_bytes(v: heapless::Vec<u8, 256>) -> Seq<u8>;

/// Relies on heapless::Vec::new: creates an empty vector.
#[verifier::external_body]
fn buf_new() -> (v: heapless::Vec<u8, 256>)
    ensures
        buf_bytes(v) == Seq::<u8>::empty(),
{
    heapless::Vec::new()
}

/// Relies on heapless::Vec::push: appends at the back when fewer than 256
/// bytes are held, and returns the item unchanged when the vector is full.
#[verifier::external_body]
fn buf_push(v: &mut heapless::Vec<u8, 256>, b: u8) -> (r: Result<(), u8>)
    ensures
        r is Ok <==> buf_bytes(*old(v)).len() < 256,
        r is Ok ==> buf_bytes(*final(v)) == buf_bytes(*old(v)).push(b),
        r is Err ==> buf_bytes(*final(v)) == buf_bytes(*old(v)),
{
    v.push(b)
}

/// Relies on heapless::Vec::clear: removes every byte.
#[verifier::external_body]
fn buf_clear(v: &mut heapless::Vec<u8, 256>)
    ensures
        buf_bytes(*final(v)) == Seq::<u8>::empty(),
{
    v.clear()
}

/// Relies on heapless::Vec::as_slice (for its length): how many bytes are held.
#[verifier::external_body]
fn buf_len(v: &heapless::Vec<u8, 256>) -> (n: usize)
    ensures
        n == buf_bytes(*v).len(),
{
    v.as_slice().len()
}

/// Relies on heapless::Vec::as_slice (indexed): the byte at a held position.
#[verifier::external_body]
fn buf_get(v: &heapless::Vec<u8, 256>, i: usize) -> (b: u8)
    requires
        i < buf_bytes(*v).len(),
    ensures
        b == buf_bytes(*v)[i as int],
{
    v.as_slice()[i]
}

/// Relies on String::push: appends exactly the given character.
#[verifier::external_body]
fn push_char(s: &mut String, c: char)
    ensures
        final(s)@ == old(s)@.push(c),
{
    s.push(c);
}

/// The serial transport driver: owns the two halves of the serial peripheral
/// and the bounded buffer that accumulates one reply byte by byte.
pub struct Esp01<TX: TxPort, RX: RxPort> {
    tx: TX,
    rx: RX,
    rx_buf: heapless::Vec<u8, 256>,
}

impl<TX: TxPort, RX: RxPort> Esp01<TX, RX> {
    /// The bytes of the reply accumulated so far.
    pub closed spec fn buffered(&self) -> Seq<u8> {
        buf_bytes(self.rx_buf)
    }

    /// Everything written to the transmit half so far.
    pub closed spec fn sent(&self) -> Seq<char> {
        self.tx.sent()
    }

    /// Received bytes the driver has not taken in yet.
    pub closed spec fn pending(&self) -> Seq<u8> {
        self.rx.pending()
    }

    /// Whether the line has gone idle since the last drain.
    pub closed spec fn line_idle(&self) -> bool {
        self.rx.idle()
    }

    /// Whether the byte-received interrupt is enabled.
    pub closed spec fn listening(&self) -> bool {
        self.rx.listening()
    }

    /// Whether the idle-line interrupt is enabled.
    pub closed spec fn listening_idle(&self) -> bool {
        self.rx.listening_idle()
    }

    /// The accumulation buffer never exceeds its 256-byte capacity.
    pub open spec fn wf(&self) -> bool {
        self.buffered().len() <= 256
    }

    pub fn new(tx: TX, rx: RX) -> (d: Esp01<TX, RX>)
        ensures
            d.wf(),
            d.buffered() == Seq::<u8>::empty(),
            d.sent() == tx.sent(),
            d.pending() == rx.pending(),
            d.line_idle() == rx.idle(),
            d.listening() == rx.listening(),
            d.listening_idle() == rx.listening_idle(),
    {
        Esp01 { tx, rx, rx_buf: buf_new() }
    }

    /// Write a command, then its payload if it has one, then the line
    /// terminator, and re-enable the byte-received interrupt so the reply
    /// can be captured. A failed write aborts the send and is surfaced.
    pub fn send_command<C: AtCommand>(&mut self, cmd: C) -> (r: Result<(), TransportError>)
        requires
            old(self).wf(),
        ensures
            final(self).wf(),
            final(self).buffered() == old(self).buffered(),
            r is Ok ==> final(self).sent() == old(self).sent() + wire_text(
                cmd.name(),
                cmd.payload(),
            ),
            r is Ok ==> final(self).listening() && final(self).pending() == old(self).pending()
                && final(self).line_idle() == old(self).line_idle() && final(self).listening_idle() == old(self).listening_idle(),
            r matches Err(e) ==> e == TransportError::WriteFailed,
            r is Err ==> final(self).pending() == old(self).pending() && final(self).line_idle()
                == old(self).line_idle() && final(self).listening() == old(self).listening()
                && final(self).listening_idle() == old(self).listening_idle(),
    {
        match self.tx.write_str(cmd.cmd()) {
            Ok(()) => {},
            Err(e) => {
                return Err(e);
            },
        }
        match cmd.data() {
            Some(d) => {
                match self.tx.write_str(d) {
                    Ok(()) => {},
                    Err(e) => {
                        return Err(e);
                    },
                }
            },
            None => {},
        }
        match self.tx.write_str("\r\n") {
            Ok(()) => {},
            Err(e) => {
                return Err(e);
            },
        }
        self.rx.listen();
        proof {
            reveal_strlit("\r\n");
            assert("\r\n"@ =~= crate::command::crlf());
            assert(self.tx.sent() =~= old(self).tx.sent() + wire_text(cmd.name(), cmd.payload()));
        }
        Ok(())
    }

    /// Take in one byte from interrupt context: with the byte-received
    /// interrupt bracketed off, read a byte if one is actually waiting and
    /// append it to the accumulation buffer. A byte that arrives on a full
    /// buffer is a defined failure and is left unread, never truncated into
    /// place. The interrupt is re-enabled on every path out.
    pub fn read_byte(&mut self) -> (r: Result<(), TransportError>)
        requires
            old(self).wf(),
        ensures
            final(self).wf(),
            final(self).listening(),
            final(self).sent() == old(self).sent(),
            final(self).listening_idle() == old(self).listening_idle(),
            old(self).pending().len() == 0 ==> r is Ok && final(self).buffered() == old(self).buffered() && final(self).pending() == old(self).pending() && final(self).line_idle()
                == old(self).line_idle(),
            r is Ok && old(self).pending().len() > 0 ==> final(self).buffered() == old(self).buffered().push(old(self).pending()[0]) && final(self).pending() == old(self).pending().drop_first(),
            r == Err::<(), TransportError>(TransportError::BufferOverflow) <==> old(self).pending().len() > 0 && old(self).buffered().len() == 256,
            r is Err ==> final(self).buffered() == old(self).buffered(),
            r == Err::<(), TransportError>(TransportError::BufferOverflow) ==> final(self).pending()
                == old(self).pending() && final(self).line_idle() == old(self).line_idle(),
    {
        self.rx.unlisten();
        let mut result: Result<(), TransportError> = Ok(());
        if self.rx.is_rx_not_empty() {
            if buf_len(&self.rx_buf) == MAX_RESP_LEN {
                result = Err(TransportError::BufferOverflow);
            } else {
                match self.rx.read() {
                    Ok(b) => {
                        let _pushed = buf_push(&mut self.rx_buf, b);
                    },
                    Err(_) => {
                        result = Err(TransportError::ReadFailed);
                    },
                }
            }
        }
        self.rx.listen();
        result
    }

    /// Drain the finished reply: with the idle interrupt bracketed off,
    /// decode the accumulated bytes one character each, clear the buffer,
    /// clear the latched idle condition, and re-enable the idle interrupt.
    /// This is the only place the buffer is reset.
    pub fn get_response(&mut self) -> (r: Result<String, TransportError>)
        requires
            old(self).wf(),
        ensures
            final(self).wf(),
            r is Ok,
            r matches Ok(s) ==> s@ == reply_chars(old(self).buffered()) && s@.len() == old(self).buffered().len(),
            final(self).buffered() == Seq::<u8>::empty(),
            !final(self).line_idle(),
            final(self).listening_idle(),
            final(self).pending() == old(self).pending(),
            final(self).listening() == old(self).listening(),
            final(self).sent() == old(self).sent(),
    {
        self.rx.unlisten_idle();
        let mut response = String::new();
        let n = buf_len(&self.rx_buf);
        let mut i: usize = 0;
        while i < n
            invariant
                n == self.buffered().len(),
                i <= n,
                response@.len() == i,
                forall|j: int| 0 <= j < i ==> response@[j] == char_of_byte(self.buffered()[j]),
            decreases n - i,
        {
            let b = buf_get(&self.rx_buf, i);
            push_char(&mut response, byte_to_char(b));
            i += 1;
        }
        proof {
            assert(response@ =~= reply_chars(old(self).buffered()));
        }
        buf_clear(&mut self.rx_buf);
        self.rx.clear_idle_interrupt();
        self.rx.listen_idle();
        Ok(response)
    }

    /// Whether the line has signalled the idle condition since the last
    /// drain, so a completed reply is waiting in the buffer.
    pub fn is_response_ready(&self) -> (b: bool)
        ensures
            b == self.line_idle(),
    {
        self.rx.is_idle()
    }

    /// Give the two halves of the peripheral back, dropping the buffer.
    pub fn release(self) -> (r: (TX, RX))
        ensures
            r.0.sent() == self.sent(),
            r.1.pending() == self.pending(),
            r.1.idle() == self.line_idle(),
            r.1.listening() == self.listening(),
            r.1.listening_idle() == self.listening_idle(),
    {
        let Esp01 { tx, rx, rx_buf: _ } = self;
        (tx, rx)
    }
}

} // verus!
