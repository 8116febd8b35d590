use glare::camera::{Error, OvCam, RegisterBus};
use glare::sim::MemoryBus;

const ADDR: u8 = 0x30;

#[test]
fn verify_accepts_expected_identity() {
    let mut bus = MemoryBus::new();
    bus.write_reg(ADDR, 0x0a, 0x26).unwrap();
    bus.write_reg(ADDR, 0x0b, 0x42).unwrap();
    let mut cam = OvCam::new(bus);
    assert!(cam.verify().is_ok());
}

#[test]
fn verify_rejects_any_other_pair() {
    for (pidh, pidl) in [(0x26u8, 0x43u8), (0x27, 0x42), (0x00, 0x00), (0x42, 0x26)] {
        let mut bus = MemoryBus::new();
        bus.write_reg(ADDR, 0x0a, pidh).unwrap();
        bus.write_reg(ADDR, 0x0b, pidl).unwrap();
        let mut cam = OvCam::new(bus);
        assert!(matches!(cam.verify(), Err(Error::UnknownChip)));
    }
}

#[test]
fn verify_surfaces_bus_error() {
    // nothing was ever written: the identity read itself fails
    let bus = MemoryBus::new();
    let mut cam = OvCam::new(bus);
    assert!(matches!(cam.verify(), Err(Error::I2c(_))));
}

#[test]
fn init_writes_fixed_sequence() {
    let bus = MemoryBus::new();
    let mut cam = OvCam::new(bus);
    assert!(cam.init().is_ok());
    // what init wrote reads back: the last bank selected was bank 1
    assert_eq!(cam.read(0xff).unwrap(), 0x01);
    assert_eq!(cam.read(0x2c).unwrap(), 0xff);
    assert_eq!(cam.read(0x2e).unwrap(), 0xdf);
    assert_eq!(cam.read(0xc2).unwrap(), 0x0c);
    assert_eq!(cam.read(0x09).unwrap(), 0x02);
    assert_eq!(cam.read(0x13).unwrap(), 0x05);
}

#[test]
fn write_then_read_back() {
    let bus = MemoryBus::new();
    let mut cam = OvCam::new(bus);
    cam.write(0x12, 0x80).unwrap();
    assert_eq!(cam.read(0x12).unwrap(), 0x80);
}
