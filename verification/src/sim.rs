use vstd::prelude::*;

use crate::camera::RegisterBus;
use crate::driver::{RxPort, TransportError, TxPort};
use vstd::map::*;

verus! {

/// A transmit half for host-side runs: it only records what is written.
pub struct SimTx {
    log: String,
}

impl SimTx {
    pub fn new() -> (t: SimTx)
        ensures
            t.sent() == Seq::<char>::empty(),
    {
        SimTx { log: String::new() }
    }

    /// Everything written so far, as text.
    pub fn written(&self) -> (s: &String)
        ensures
            s@ == self.sent(),
    {
        &self.log
    }
}

impl TxPort for SimTx {
    closed spec fn sent(&self) -> Seq<char> {
        self.log@
    }

    fn write_str(&mut self, s: &str) -> (r: Result<(), TransportError>) {
        self.log.append(s);
        Ok(())
    }
}

/// A receive half for host-side runs: a hand-fed script of bytes, the
/// latched idle condition, and the two interrupt-enable bits.
pub struct SimRx {
    script: Vec<u8>,
    idle_flag: bool,
    byte_irq: bool,
    idle_irq: bool,
}

impl SimRx {
    pub fn new() -> (x: SimRx)
        ensures
            x.pending() == Seq::<u8>::empty(),
            !x.idle(),
            !x.listening(),
            !x.listening_idle(),
    {
        SimRx { script: Vec::new(), idle_flag: false, byte_irq: false, idle_irq: false }
    }

    /// Hand the line one more received byte.
    pub fn inject(&mut self, b: u8)
        ensures
            final(self).pending() == old(self).pending().push(b),
            final(self).idle() == old(self).idle(),
            final(self).listening() == old(self).listening(),
            final(self).listening_idle() == old(self).listening_idle(),
    {
        self.script.push(b);
    }

    /// Let the line go quiet: latch the idle condition.
    pub fn raise_idle(&mut self)
        ensures
            final(self).idle(),
            final(self).pending() == old(self).pending(),
            final(self).listening() == old(self).listening(),
            final(self).listening_idle() == old(self).listening_idle(),
    {
        self.idle_flag = true;
    }
}

impl RxPort for SimRx {
    closed spec fn pending(&self) -> Seq<u8> {
        self.script@
    }

    closed spec fn idle(&self) -> bool {
        self.idle_flag
    }

    closed spec fn listening(&self) -> bool {
        self.byte_irq
    }

    closed spec fn listening_idle(&self) -> bool {
        self.idle_irq
    }

    fn listen(&mut self) {
        self.byte_irq = true;
    }

    fn unlisten(&mut self) {
        self.byte_irq = false;
    }

    fn listen_idle(&mut self) {
        self.idle_irq = true;
    }

    fn unlisten_idle(&mut self) {
        self.idle_irq = false;
    }

    fn clear_idle_interrupt(&mut self) {
        self.idle_flag = false;
    }

    fn is_rx_not_empty(&self) -> (b: bool) {
        self.script.len() > 0
    }

    fn is_idle(&self) -> (b: bool) {
        self.idle_flag
    }

    fn read(&mut self) -> (r: Result<u8, TransportError>) {
        if self.script.len() > 0 {
            let b = self.script.remove(0);
            proof {
                assert(self.script@ =~= old(self).script@.drop_first());
            }
            Ok(b)
        } else {
            Err(TransportError::ReadFailed)
        }
    }
}

/// A bus fault of the in-memory register bus: raised by reading a register
/// nothing has written yet.
#[derive(Debug)]
pub struct BusFault;

/// An in-memory register device for host-side runs: 256 registers, each
/// known once something has been written to it.
pub struct MemoryBus {
    cells: Vec<Option<u8>>,
}

impl MemoryBus {
    pub fn new() -> (b: MemoryBus)
        ensures
            b.regs() == Map::<u8, u8>::empty(),
    {
        let mut cells: Vec<Option<u8>> = Vec::new();
        let mut i: usize = 0;
        while i < 256
            invariant
                cells@.len() == i,
                i <= 256,
                forall|j: int| 0 <= j < i ==> cells@[j] is None,
            decreases 256 - i,
        {
            cells.push(None);
            i += 1;
        }
        let b = MemoryBus { cells };
        proof {
            assert(b.regs() =~= Map::<u8, u8>::empty());
        }
        b
    }
}

impl RegisterBus for MemoryBus {
    type Fault = BusFault;

    closed spec fn regs(&self) -> Map<u8, u8> {
        Map::new(
            |k: u8| (k as int) < self.cells@.len() && self.cells@[k as int] is Some,
            |k: u8| self.cells@[k as int]->Some_0,
        )
    }

    fn write_reg(&mut self, addr: u8, reg: u8, val: u8) -> (r: Result<(), BusFault>) {
        // the register file always spans the full address space; the guard
        // only keeps the operation total
        if (reg as usize) < self.cells.len() {
            self.cells.set(reg as usize, Some(val));
            proof {
                assert_maps_equal!(self.regs(), old(self).regs().insert(reg, val), k => {
                    if (k as int) < self.cells@.len() && k != reg {
                        assert(self.cells@[k as int] == old(self).cells@[k as int]);
                    }
                });
            }
            Ok(())
        } else {
            Err(BusFault)
        }
    }

    fn read_reg(&mut self, addr: u8, reg: u8) -> (r: Result<u8, BusFault>) {
        if (reg as usize) < self.cells.len() {
            match self.cells[reg as usize] {
                Some(v) => Ok(v),
                None => Err(BusFault),
            }
        } else {
            Err(BusFault)
        }
    }
}

} // verus!
