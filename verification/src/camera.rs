use vstd::prelude::*;

verus! {

/// The camera's bus address: 7-bit form of the 8-bit SCCB address 0x60.
const SCCB_SDDR: u8 = 0x60 >> 1;

pub const OV_PIDH_REG: u8 = 0x0a;
pub const OV_PIDL_REG: u8 = 0x0b;
pub const OV_CTRL0_REG: u8 = 0xc2;
pub const OV_COM2_REG: u8 = 0x09;
pub const OV_COM8_REG: u8 = 0x13;
pub const OV_BANK_SELECT: u8 = 0xff;

pub const OV_PIDH_VAL: u8 = 0x26;
pub const OV_PIDL_VAL: u8 = 0x42;
pub const OV_CTRL0_YUV422: u8 = 0x08;
pub const OV_CTRL0_YUV_EN: u8 = 0x04;
pub const OV_BANK_0: u8 = 0x00;
pub const OV_BANK_1: u8 = 0x01;

pub const OV_COM2_CAPABILITY_X2: u8 = 0x02;

pub const OV_COM8_EXPOSURE: u8 = 0x01;
pub const OV_COM8_AGC: u8 = 0x04;

/// What a sensor operation can fail with: a failed bus transaction, or
/// identity registers that name some other chip.
#[derive(Debug)]
pub enum Error<E> {
    I2c(E),
    UnknownChip,
}

/// The register bus the sensor hangs on: two-phase transactions addressed to
/// one device, modelled by the register values the device would read back.
pub trait RegisterBus: Sized {
    type Fault;

    /// The registers of the addressed device, as far as they are known.
    /// An implementation outside the verified world may leave the default
    /// model in place.
    open spec fn regs(&self) -> Map<u8, u8> {
        Map::empty()
    }

    /// Write one register. A transaction can always fail; after a failure
    /// nothing is claimed about the device's state.
    fn write_reg(&mut self, addr: u8, reg: u8, val: u8) -> (r: Result<(), Self::Fault>)
        ensures
            r is Ok ==> final(self).regs() == old(self).regs().insert(reg, val),
    ;

    /// Read one register back. A successful read returns the known value.
    fn read_reg(&mut self, addr: u8, reg: u8) -> (r: Result<u8, Self::Fault>)
        ensures
            final(self).regs() == old(self).regs(),
            r matches Ok(v) ==> old(self).regs().contains_key(reg) && v == old(self).regs()[reg],
    ;
}

/// Whether a pair of identity register values names the expected chip.
pub open spec fn identity_ok(pidh: u8, pidl: u8) -> bool {
    pidh == OV_PIDH_VAL && pidl == OV_PIDL_VAL
}

/// Whether a pair of identity register values names the expected chip.
pub fn identity_matches(pidh: u8, pidl: u8) -> (b: bool)
    ensures
        b == identity_ok(pidh, pidl),
{
    pidh == OV_PIDH_VAL && pidl == OV_PIDL_VAL
}

/// The fixed bank-selected register sequence `init` writes, in order.
pub open spec fn init_sequence() -> Seq<(u8, u8)> {
    seq![
        (OV_BANK_SELECT, OV_BANK_0),
        (0x2c, 0xff),
        (0x2e, 0xdf),
        (OV_CTRL0_REG, OV_CTRL0_YUV_EN | OV_CTRL0_YUV422),
        (OV_BANK_SELECT, OV_BANK_1),
        (OV_COM2_REG, OV_COM2_CAPABILITY_X2),
        (OV_COM8_REG, OV_COM8_EXPOSURE | OV_COM8_AGC),
    ]
}

/// The register map after a sequence of writes has been applied in order.
pub open spec fn after_writes(m: Map<u8, u8>, ws: Seq<(u8, u8)>) -> Map<u8, u8>
    decreases ws.len(),
{
    if ws.len() == 0 {
        m
    } else {
        after_writes(m.insert(ws[0].0, ws[0].1), ws.drop_first())
    }
}

/// The image sensor behind its register bus.
pub struct OvCam<B: RegisterBus> {
    i2c: B,
    address: u8,
}

impl<B: RegisterBus> OvCam<B> {
    /// The sensor's registers, as the bus models them.
    pub closed spec fn regs(&self) -> Map<u8, u8> {
        self.i2c.regs()
    }

    pub fn new(i2c: B) -> (cam: OvCam<B>)
        ensures
            cam.regs() == i2c.regs(),
    {
        OvCam { i2c, address: SCCB_SDDR }
    }

    /// Read the two identity registers and compare them to the expected
    /// constants. A mismatched pair is `UnknownChip`; a failed bus
    /// transaction is surfaced at once as `I2c`.
    pub fn verify(&mut self) -> (r: Result<(), Error<B::Fault>>)
        ensures
            final(self).regs() == old(self).regs(),
            r is Ok ==> old(self).regs().contains_key(OV_PIDH_REG) && old(
                self,
            ).regs().contains_key(OV_PIDL_REG) && identity_ok(
                old(self).regs()[OV_PIDH_REG],
                old(self).regs()[OV_PIDL_REG],
            ),
            r matches Err(e) ==> (e matches Error::UnknownChip ==> !identity_ok(
                old(self).regs()[OV_PIDH_REG],
                old(self).regs()[OV_PIDL_REG],
            )),
    {
        let pidh = match self.read(OV_PIDH_REG) {
            Ok(v) => v,
            Err(e) => {
                return Err(e);
            },
        };
        let pidl = match self.read(OV_PIDL_REG) {
            Ok(v) => v,
            Err(e) => {
                return Err(e);
            },
        };
        if identity_matches(pidh, pidl) {
            Ok(())
        } else {
            Err(Error::UnknownChip)
        }
    }

    /// Write the fixed initialization sequence, register by register,
    /// aborting at the first failed transaction.
    pub fn init(&mut self) -> (r: Result<(), Error<B::Fault>>)
        ensures
            r is Ok ==> final(self).regs() == after_writes(old(self).regs(), init_sequence()),
            r matches Err(e) ==> e is I2c,
    {
        proof {
            reveal_with_fuel(after_writes, 9);
        }
        match self.write(OV_BANK_SELECT, OV_BANK_0) {
            Ok(()) => {},
            Err(e) => {
                return Err(e);
            },
        }
        match self.write(0x2c, 0xff) {
            Ok(()) => {},
            Err(e) => {
                return Err(e);
            },
        }
        match self.write(0x2e, 0xdf) {
            Ok(()) => {},
            Err(e) => {
                return Err(e);
            },
        }
        match self.write(OV_CTRL0_REG, OV_CTRL0_YUV_EN | OV_CTRL0_YUV422) {
            Ok(()) => {},
            Err(e) => {
                return Err(e);
            },
        }
        match self.write(OV_BANK_SELECT, OV_BANK_1) {
            Ok(()) => {},
            Err(e) => {
                return Err(e);
            },
        }
        match self.write(OV_COM2_REG, OV_COM2_CAPABILITY_X2) {
            Ok(()) => {},
            Err(e) => {
                return Err(e);
            },
        }
        match self.write(OV_COM8_REG, OV_COM8_EXPOSURE | OV_COM8_AGC) {
            Ok(()) => {},
            Err(e) => {
                return Err(e);
            },
        }
        Ok(())
    }

    /// Write one sensor register over the bus.
    pub fn write(&mut self, reg: u8, val: u8) -> (r: Result<(), Error<B::Fault>>)
        ensures
            r is Ok ==> final(self).regs() == old(self).regs().insert(reg, val),
            r matches Err(e) ==> e is I2c,
    {
        match self.i2c.write_reg(self.address, reg, val) {
            Ok(()) => Ok(()),
            Err(e) => Err(Error::I2c(e)),
        }
    }

    /// Read one sensor register back over the bus.
    pub fn read(&mut self, reg: u8) -> (r: Result<u8, Error<B::Fault>>)
        ensures
            final(self).regs() == old(self).regs(),
            r matches Ok(v) ==> old(self).regs().contains_key(reg) && v == old(self).regs()[reg],
            r matches Err(e) ==> e is I2c,
    {
        match self.i2c.read_reg(self.address, reg) {
            Ok(v) => Ok(v),
            Err(e) => Err(Error::I2c(e)),
        }
    }
}

} // verus!
