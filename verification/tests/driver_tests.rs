use rover_core::acc::{DataRate as AccRate, LSM303LDHC_ACC, LSM_ACC_I2C_ADDR};
use rover_core::bus::{BusError, MockBus, TransactionRecord};
use rover_core::mag::{DataRate as MagRate, LSM303LDHC_MAG, MagData, LSM_MAG_I2C_ADDR};
use rover_core::sample_buffer::Sample;

#[test]
fn acc_init_writes_rate_and_axis_enable_bits() {
    let mut bus = MockBus::new();
    assert!(LSM303LDHC_ACC::init(&mut bus, AccRate::Rate400Hz).is_ok());
    assert_eq!(bus.log.len(), 1);
    // Control register 0x20: rate 0b0111 in the top nibble, axes enabled
    // in the low bits.
    assert_eq!(
        bus.log[0],
        TransactionRecord::Write { addr: LSM_ACC_I2C_ADDR, bytes: vec![0x20, 0x77] }
    );
}

#[test]
fn acc_init_rate_encodings() {
    let rates = [
        (AccRate::PowerDown, 0x07u8),
        (AccRate::Rate1hz, 0x17),
        (AccRate::Rate10Hz, 0x27),
        (AccRate::Rate25Hz, 0x37),
        (AccRate::Rate50Hz, 0x47),
        (AccRate::Rate100Hz, 0x57),
        (AccRate::Rate200Hz, 0x67),
        (AccRate::Rate400Hz, 0x77),
    ];
    for (rate, byte) in rates {
        let mut bus = MockBus::new();
        assert!(LSM303LDHC_ACC::init(&mut bus, rate).is_ok());
        assert_eq!(
            bus.log[0],
            TransactionRecord::Write { addr: LSM_ACC_I2C_ADDR, bytes: vec![0x20, byte] }
        );
    }
}

#[test]
fn acc_init_surfaces_bus_error() {
    let mut bus = MockBus::new();
    bus.inject_fault(BusError::Timeout);
    assert!(matches!(LSM303LDHC_ACC::init(&mut bus, AccRate::Rate400Hz), Err(BusError::Timeout)));
    assert_eq!(bus.log.len(), 0);
}

#[test]
fn acc_read_sample_decodes_little_endian_xyz() {
    let mut bus = MockBus::new();
    let mut acc = LSM303LDHC_ACC::init(&mut bus, AccRate::Rate400Hz).unwrap();
    bus.log.clear();
    bus.queue_reply(vec![0x10, 0x00, 0xFF, 0xFF, 0x00, 0x80]);
    let sample = acc.read_sample(&mut bus).unwrap();
    assert_eq!(sample, Sample { x: 16, y: -1, z: -32768 });
    // One burst: start register 0x28 with the auto-increment bit (bit 0)
    // set, six bytes back.
    assert_eq!(
        bus.log[0],
        TransactionRecord::WriteRead {
            addr: LSM_ACC_I2C_ADDR,
            sent: vec![0x29],
            received: vec![0x10, 0x00, 0xFF, 0xFF, 0x00, 0x80],
        }
    );
}

#[test]
fn acc_read_sample_surfaces_bus_error() {
    let mut bus = MockBus::new();
    let mut acc = LSM303LDHC_ACC::init(&mut bus, AccRate::Rate100Hz).unwrap();
    assert!(matches!(acc.read_sample(&mut bus), Err(BusError::NoAcknowledge)));
}

#[test]
fn mag_init_selects_continuous_conversion_then_rate() {
    let mut bus = MockBus::new();
    assert!(LSM303LDHC_MAG::init(&mut bus, MagRate::Rate75Hz).is_ok());
    assert_eq!(bus.log.len(), 2);
    assert_eq!(
        bus.log[0],
        TransactionRecord::Write { addr: LSM_MAG_I2C_ADDR, bytes: vec![0x02, 0x00] }
    );
    // Rate register 0x00: rate 0b110 in bits 2-4, bit 7 set.
    assert_eq!(
        bus.log[1],
        TransactionRecord::Write { addr: LSM_MAG_I2C_ADDR, bytes: vec![0x00, 0x98] }
    );
}

#[test]
fn mag_init_stops_after_first_failed_write() {
    let mut bus = MockBus::new();
    bus.inject_fault_after(1, BusError::ArbitrationLoss);
    assert!(matches!(
        LSM303LDHC_MAG::init(&mut bus, MagRate::Rate220Hz),
        Err(BusError::ArbitrationLoss)
    ));
    assert_eq!(bus.log.len(), 1);
    assert_eq!(
        bus.log[0],
        TransactionRecord::Write { addr: LSM_MAG_I2C_ADDR, bytes: vec![0x02, 0x00] }
    );
}

#[test]
fn mag_read_sample_decodes_big_endian_xzy_wire_order() {
    let mut bus = MockBus::new();
    let mut mag = LSM303LDHC_MAG::init(&mut bus, MagRate::Rate75Hz).unwrap();
    bus.log.clear();
    bus.queue_reply(vec![0x01, 0x02, 0x03, 0x04, 0x05, 0x06]);
    let sample = mag.read_sample(&mut bus).unwrap();
    // Wire order is X, Z, Y: bytes [0x01,0x02] are X, [0x03,0x04] are Z,
    // [0x05,0x06] are Y, each big-endian.
    assert_eq!(sample, MagData { x: 258, y: 1286, z: 772 });
    assert_eq!(
        bus.log[0],
        TransactionRecord::WriteRead {
            addr: LSM_MAG_I2C_ADDR,
            sent: vec![0x03],
            received: vec![0x01, 0x02, 0x03, 0x04, 0x05, 0x06],
        }
    );
}

#[test]
fn mag_read_reg_returns_single_byte() {
    let mut bus = MockBus::new();
    let mut mag = LSM303LDHC_MAG::init(&mut bus, MagRate::Rate3Hz).unwrap();
    bus.log.clear();
    bus.queue_reply(vec![0xAB]);
    assert_eq!(mag.read_reg(&mut bus, 0x09), Ok(0xAB));
    assert_eq!(
        bus.log[0],
        TransactionRecord::WriteRead { addr: LSM_MAG_I2C_ADDR, sent: vec![0x09], received: vec![0xAB] }
    );
}

#[test]
fn mag_read_temp_is_not_yet_supported() {
    let mut bus = MockBus::new();
    let mut mag = LSM303LDHC_MAG::init(&mut bus, MagRate::Rate0_75hz).unwrap();
    bus.log.clear();
    assert!(mag.read_temp(&mut bus).is_none());
    // Declared but unsupported: it touches no bus state.
    assert_eq!(bus.log.len(), 0);
}
