use epd_driver::EpdError;
use epd_driver::driver::{EpdDriver, Phase};
use epd_driver::framebuffer::Framebuffer;
use epd_driver::sim::{RecordingBus, ScriptedBusyLine, SimOutputLine, SimTimer};

// The initialization command table, byte for byte: each command followed by
// its parameter block.
const INIT_WIRE: [u8; 27] = [
    0x06, 0x17, 0x17, 0x27, 0x17, // booster soft start
    0x01, 0x07, 0x17, 0x3F, 0x3F, // power setting
    0x04, // power on
    0x00, 0x1F, // panel setting
    0x30, 0x06, // pll control
    0x61, 0x03, 0x20, 0x01, 0xE0, // tcon resolution
    0x15, 0x00, // dual spi
    0x60, 0x22, // tcon setting
    0x50, 0x10, 0x07, // vcom and data interval
];

#[test]
fn operations_before_initialize_fail() {
    let mut bus = RecordingBus::new();
    let mut timer = SimTimer;
    let busy = ScriptedBusyLine::new(Vec::new(), false);
    let mut drv = EpdDriver::new(
        SimOutputLine::new(),
        SimOutputLine::new(),
        SimOutputLine::new(),
        busy,
    );
    let fb = Framebuffer::create(800, 480).unwrap();
    assert_eq!(
        drv.update_frame(&mut bus, &mut timer, &fb).unwrap_err(),
        EpdError::IllegalState
    );
    assert_eq!(
        drv.display_frame(&mut bus, &mut timer).unwrap_err(),
        EpdError::IllegalState
    );
    assert_eq!(drv.sleep(&mut bus, &mut timer).unwrap_err(), EpdError::IllegalState);
    assert_eq!(drv.phase(), Phase::Uninitialized);
    assert!(bus.recorded().is_empty());
}

#[test]
fn sleeping_rejects_everything_but_initialize() {
    let mut bus = RecordingBus::new();
    let mut timer = SimTimer;
    let busy = ScriptedBusyLine::new(Vec::new(), false);
    let mut drv = EpdDriver::new(
        SimOutputLine::new(),
        SimOutputLine::new(),
        SimOutputLine::new(),
        busy,
    );
    drv.initialize(&mut bus, &mut timer).unwrap();
    drv.sleep(&mut bus, &mut timer).unwrap();
    assert_eq!(drv.phase(), Phase::Sleeping);
    // power off, then deep sleep with its check code
    assert_eq!(&bus.recorded()[27..], &[0x02, 0x07, 0xA5]);
    let len_after_sleep = bus.recorded().len();

    let fb = Framebuffer::create(800, 480).unwrap();
    assert_eq!(
        drv.update_frame(&mut bus, &mut timer, &fb).unwrap_err(),
        EpdError::IllegalState
    );
    assert_eq!(
        drv.display_frame(&mut bus, &mut timer).unwrap_err(),
        EpdError::IllegalState
    );
    assert_eq!(drv.sleep(&mut bus, &mut timer).unwrap_err(), EpdError::IllegalState);
    assert_eq!(drv.phase(), Phase::Sleeping);
    assert_eq!(bus.recorded().len(), len_after_sleep);

    // a fresh initialize is still permitted and re-arms the driver
    drv.initialize(&mut bus, &mut timer).unwrap();
    assert_eq!(drv.phase(), Phase::Ready);
}

#[test]
fn full_lifecycle_records_expected_wire() {
    let mut bus = RecordingBus::new();
    let mut timer = SimTimer;
    // busy for exactly 3 poll cycles, then ready
    let busy = ScriptedBusyLine::new(vec![true, true, true], false);
    let mut drv = EpdDriver::new(
        SimOutputLine::new(),
        SimOutputLine::new(),
        SimOutputLine::new(),
        busy,
    );

    drv.initialize(&mut bus, &mut timer).unwrap();
    assert_eq!(drv.phase(), Phase::Ready);
    assert_eq!(bus.recorded().as_slice(), &INIT_WIRE);

    let fb = Framebuffer::create(800, 480).unwrap();
    drv.update_frame(&mut bus, &mut timer, &fb).unwrap();
    assert_eq!(drv.phase(), Phase::Ready);
    {
        let log = bus.recorded();
        // exactly one write-RAM command, then exactly 48000 data bytes
        assert_eq!(log.len(), 27 + 1 + 48000);
        assert_eq!(log[27], 0x13);
        assert!(log[28..].iter().all(|&b| b == 0));
    }

    drv.display_frame(&mut bus, &mut timer).unwrap();
    assert_eq!(drv.phase(), Phase::Ready);
    {
        let log = bus.recorded();
        // then exactly one refresh command
        assert_eq!(log.len(), 27 + 1 + 48000 + 1);
        assert_eq!(log[27 + 1 + 48000], 0x12);
    }
}

#[test]
fn display_frame_times_out_when_busy_never_clears() {
    let mut bus = RecordingBus::new();
    let mut timer = SimTimer;
    // ready during the two initialization waits, then busy forever
    let busy = ScriptedBusyLine::new(vec![false, false], true);
    let mut drv = EpdDriver::new(
        SimOutputLine::new(),
        SimOutputLine::new(),
        SimOutputLine::new(),
        busy,
    );
    drv.initialize(&mut bus, &mut timer).unwrap();
    assert_eq!(
        drv.display_frame(&mut bus, &mut timer).unwrap_err(),
        EpdError::BusyTimeout
    );
    assert_eq!(drv.phase(), Phase::Faulted);
    // the refresh command itself had been accepted before the wait began
    assert_eq!(bus.recorded().len(), 28);
    assert_eq!(bus.recorded()[27], 0x12);
}

#[test]
fn update_frame_times_out_when_busy_never_clears() {
    let mut bus = RecordingBus::new();
    let mut timer = SimTimer;
    let busy = ScriptedBusyLine::new(vec![false, false], true);
    let mut drv = EpdDriver::new(
        SimOutputLine::new(),
        SimOutputLine::new(),
        SimOutputLine::new(),
        busy,
    );
    drv.initialize(&mut bus, &mut timer).unwrap();
    let fb = Framebuffer::create(800, 480).unwrap();
    assert_eq!(
        drv.update_frame(&mut bus, &mut timer, &fb).unwrap_err(),
        EpdError::BusyTimeout
    );
    assert_eq!(drv.phase(), Phase::Faulted);
    // the wait precedes the burst, so nothing more went over the wire
    assert_eq!(bus.recorded().len(), 27);
}

#[test]
fn transfer_fault_mid_update_faults_driver() {
    // the bus faults on the 100th byte of the update burst
    let mut bus = RecordingBus::with_capacity_limit(27 + 99);
    let mut timer = SimTimer;
    let busy = ScriptedBusyLine::new(Vec::new(), false);
    let mut drv = EpdDriver::new(
        SimOutputLine::new(),
        SimOutputLine::new(),
        SimOutputLine::new(),
        busy,
    );
    drv.initialize(&mut bus, &mut timer).unwrap();
    let fb = Framebuffer::create(800, 480).unwrap();
    assert_eq!(
        drv.update_frame(&mut bus, &mut timer, &fb).unwrap_err(),
        EpdError::TransferError
    );
    // faulted and unusable, not silently advanced to ready
    assert_eq!(drv.phase(), Phase::Faulted);
    assert_eq!(
        drv.display_frame(&mut bus, &mut timer).unwrap_err(),
        EpdError::IllegalState
    );
}

#[test]
fn initialize_bus_fault_reports_hardware_init_error() {
    let mut bus = RecordingBus::with_capacity_limit(3);
    let mut timer = SimTimer;
    let busy = ScriptedBusyLine::new(Vec::new(), false);
    let mut drv = EpdDriver::new(
        SimOutputLine::new(),
        SimOutputLine::new(),
        SimOutputLine::new(),
        busy,
    );
    assert_eq!(
        drv.initialize(&mut bus, &mut timer).unwrap_err(),
        EpdError::HardwareInitError
    );
    assert_eq!(drv.phase(), Phase::Faulted);
}

#[test]
fn initialize_times_out_when_busy_never_clears() {
    let mut bus = RecordingBus::new();
    let mut timer = SimTimer;
    let busy = ScriptedBusyLine::new(Vec::new(), true);
    let mut drv = EpdDriver::new(
        SimOutputLine::new(),
        SimOutputLine::new(),
        SimOutputLine::new(),
        busy,
    );
    assert_eq!(
        drv.initialize(&mut bus, &mut timer).unwrap_err(),
        EpdError::BusyTimeout
    );
    assert_eq!(drv.phase(), Phase::Faulted);
    // everything up to and including power-on had been sent
    assert_eq!(bus.recorded().as_slice(), &INIT_WIRE[..11]);
}
