use vstd::prelude::*;

use crate::channel::ResponseChannel;
use crate::command::{wire_text, Command};
use crate::driver::{reply_chars, Esp01, RxPort, TransportError, TxPort};

verus! {

/// The serial interrupt's single entry point. If the line has gone idle, the
/// finished reply is drained and handed to the channel; then one waiting byte,
/// if any, is taken into the accumulation buffer. A full channel is surfaced
/// as `ChannelFull`; the drained reply is then lost, a deliberate policy in
/// place of aborting outright.
pub fn on_serial_interrupt<TX: TxPort, RX: RxPort>(
    esp: &mut Esp01<TX, RX>,
    chan: &mut ResponseChannel,
) -> (r: Result<(), TransportError>)
    requires
        old(esp).wf(),
        old(chan).wf(),
    ensures
        final(esp).wf(),
        final(chan).wf(),
        final(esp).sent() == old(esp).sent(),
        old(esp).line_idle() && old(chan).replies().len() < 8 ==> final(chan).replies() == old(chan).replies().push(reply_chars(old(esp).buffered())),
        old(esp).line_idle() && old(chan).replies().len() == 8 ==> r == Err::<
            (),
            TransportError,
        >(TransportError::ChannelFull) && final(chan).replies() == old(chan).replies() && final(esp).buffered() == Seq::<u8>::empty() && final(esp).pending() == old(esp).pending(),
        !old(esp).line_idle() ==> final(chan).replies() == old(chan).replies(),
        old(esp).line_idle() && r is Ok ==> final(esp).buffered().len() <= 1,
        !old(esp).line_idle() && r is Ok && old(esp).pending().len() == 0 ==> final(esp).buffered()
            == old(esp).buffered(),
        !old(esp).line_idle() && r is Ok && old(esp).pending().len() > 0 ==> final(esp).buffered()
            == old(esp).buffered().push(old(esp).pending()[0]),
        !old(esp).line_idle() && r is Err ==> final(esp).buffered() == old(esp).buffered(),
{
    if esp.is_response_ready() {
        let reply = match esp.get_response() {
            Ok(s) => s,
            Err(e) => {
                return Err(e);
            },
        };
        match chan.produce(reply) {
            Ok(()) => {},
            Err(_) => {
                return Err(TransportError::ChannelFull);
            },
        }
    }
    esp.read_byte()
}

/// One turn of the application loop: issue the fixed mode query through the
/// driver, then drain at most one completed reply from the channel. Neither
/// half blocks; a failed send is surfaced and the turn simply ends.
pub fn poll_cycle<TX: TxPort, RX: RxPort>(esp: &mut Esp01<TX, RX>, chan: &mut ResponseChannel) -> (r:
    (Result<(), TransportError>, Option<String>))
    requires
        old(esp).wf(),
        old(chan).wf(),
    ensures
        final(esp).wf(),
        final(chan).wf(),
        final(esp).buffered() == old(esp).buffered(),
        r.0 is Ok ==> final(esp).sent() == old(esp).sent() + wire_text("AT+CWMODE?"@, None)
            && final(esp).listening(),
        r.0 is Err ==> final(esp).line_idle() == old(esp).line_idle(),
        r.1 is Some <==> old(chan).replies().len() > 0,
        r.1 matches Some(v) ==> v@ == old(chan).replies()[0] && final(chan).replies() == old(chan).replies().drop_first(),
        r.1 is None ==> final(chan).replies() == old(chan).replies(),
{
    let sent = esp.send_command(Command::cw_mode_query());
    let reply = chan.consume();
    (sent, reply)
}

} // verus!
