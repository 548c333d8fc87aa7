//! Controller driver for the 800x480 monochrome panel: the state machine
//! that sequences hardware reset, the fixed initialization command table,
//! busy-wait synchronization, framebuffer transfer, refresh triggering and
//! deep sleep.
//!
//! Every command byte and parameter block comes from the panel controller's
//! vendor command table; the named constants keep the steps auditable.

use vstd::prelude::*;

use crate::EpdError;
use crate::framebuffer::Framebuffer;
use crate::hal::{BusFault, InputLine, OutputLine, SerialBus, Timer};

verus! {

/// Panel width in pixels.
pub const PANEL_WIDTH: u32 = 800;

/// Panel height in pixels.
pub const PANEL_HEIGHT: u32 = 480;

/// Booster soft-start configuration.
pub const CMD_BOOSTER_SOFT_START: u8 = 0x06;
/// Internal/external power selection.
pub const CMD_POWER_SETTING: u8 = 0x01;
/// Turns the charge pumps and drivers on; the panel asserts BUSY afterwards.
pub const CMD_POWER_ON: u8 = 0x04;
/// Resolution, LUT selection and scan directions.
pub const CMD_PANEL_SETTING: u8 = 0x00;
/// PLL clock frequency.
pub const CMD_PLL_CONTROL: u8 = 0x30;
/// Alternative resolution setting, higher priority than the panel setting.
pub const CMD_TCON_RESOLUTION: u8 = 0x61;
/// Dual-SPI mode selection.
pub const CMD_DUAL_SPI: u8 = 0x15;
/// Non-overlap period of gate and source.
pub const CMD_TCON_SETTING: u8 = 0x60;
/// Interval of VCOM and data output.
pub const CMD_VCOM_AND_DATA_INTERVAL: u8 = 0x50;
/// Writes the new frame into controller RAM.
pub const CMD_DATA_START_TRANSMISSION_2: u8 = 0x13;
/// Refreshes the physical display from controller RAM.
pub const CMD_DISPLAY_REFRESH: u8 = 0x12;
/// Powers the charge pumps and drivers off.
pub const CMD_POWER_OFF: u8 = 0x02;
/// Enters deep sleep; takes the check code `0xA5` as its one parameter.
pub const CMD_DEEP_SLEEP: u8 = 0x07;

/// How long the reset line is held low during the reset pulse.
pub const RESET_PULSE_MS: u64 = 10;
/// How long the controller is given to leave reset.
pub const RESET_SETTLE_MS: u64 = 20;
/// Pause between two polls of the busy line.
pub const POLL_INTERVAL_MS: u64 = 10;
/// Polls of the busy line before a wait is abandoned; together with the
/// poll interval this bounds a wait at 30 s, well past a worst-case
/// full-panel refresh of several seconds.
pub const MAX_BUSY_POLLS: u32 = 3000;

/// The driver's phase, as seen between operations.
#[derive(Clone, Copy, Debug, PartialEq, Eq, Structural)]
pub enum Phase {
    /// Constructed, hardware not brought up yet.
    Uninitialized,
    /// Bring-up done; frame transfer, refresh and sleep are permitted.
    Ready,
    /// A frame burst is on the wire.
    TransferringFrame,
    /// The panel is physically refreshing.
    Refreshing,
    /// Lowest-power hold state; only a fresh `initialize` leaves it.
    Sleeping,
    /// A hardware operation failed; only a fresh `initialize` leaves it.
    Faulted,
}

/// Every byte the initialization command table puts on the wire, in order:
/// each command byte followed by its fixed parameter block.
pub open spec fn init_wire() -> Seq<u8> {
    seq![
        CMD_BOOSTER_SOFT_START, 0x17u8, 0x17u8, 0x27u8, 0x17u8,
        CMD_POWER_SETTING, 0x07u8, 0x17u8, 0x3Fu8, 0x3Fu8,
        CMD_POWER_ON,
        CMD_PANEL_SETTING, 0x1Fu8,
        CMD_PLL_CONTROL, 0x06u8,
        CMD_TCON_RESOLUTION, 0x03u8, 0x20u8, 0x01u8, 0xE0u8,
        CMD_DUAL_SPI, 0x00u8,
        CMD_TCON_SETTING, 0x22u8,
        CMD_VCOM_AND_DATA_INTERVAL, 0x10u8, 0x07u8,
    ]
}

/// Every byte the deep-sleep sequence puts on the wire: power off, then the
/// deep-sleep command with its check code.
pub open spec fn sleep_wire() -> Seq<u8> {
    seq![CMD_POWER_OFF, CMD_DEEP_SLEEP, 0xA5u8]
}

/// Polls the busy line until the panel reports ready, sleeping between
/// polls, for at most `MAX_BUSY_POLLS` polls.
fn wait_until_idle<BUSY: InputLine, T: Timer>(busy: &mut BUSY, timer: &mut T) -> (r: Result<
    (),
    EpdError,
>)
    ensures
        r is Err ==> r == Err::<(), EpdError>(EpdError::BusyTimeout),
{
    let mut polls: u32 = 0;
    while polls < MAX_BUSY_POLLS
        decreases MAX_BUSY_POLLS - polls,
    {
        if !busy.is_high() {
            return Ok(());
        }
        timer.sleep_millis(POLL_INTERVAL_MS);
        polls = polls + 1;
    }
    Err(EpdError::BusyTimeout)
}

/// The controller driver. It owns the four control lines exclusively for
/// its whole lifetime and borrows the bus and timer for each operation.
pub struct EpdDriver<RST: OutputLine, DC: OutputLine, CS: OutputLine, BUSY: InputLine> {
    rst: RST,
    dc: DC,
    cs: CS,
    busy: BUSY,
    phase: Phase,
}

impl<RST: OutputLine, DC: OutputLine, CS: OutputLine, BUSY: InputLine> EpdDriver<
    RST,
    DC,
    CS,
    BUSY,
> {
    /// The driver's current phase.
    pub closed spec fn spec_phase(self) -> Phase {
        self.phase
    }

    /// The driver's current phase.
    pub fn phase(&self) -> (r: Phase)
        ensures
            r == self.spec_phase(),
    {
        self.phase
    }

    /// Takes exclusive ownership of the four control lines. No hardware is
    /// touched until `initialize`.
    pub fn new(rst: RST, dc: DC, cs: CS, busy: BUSY) -> (r: EpdDriver<RST, DC, CS, BUSY>)
        ensures
            r.spec_phase() == Phase::Uninitialized,
    {
        EpdDriver { rst, dc, cs, busy, phase: Phase::Uninitialized }
    }

    /// Sends one command byte: data/command select low, chip select
    /// asserted around the burst.
    fn send_command<B: SerialBus>(&mut self, bus: &mut B, cmd: u8) -> (r: Result<(), BusFault>)
        ensures
            final(self).spec_phase() == old(self).spec_phase(),
            r is Ok ==> final(bus).wire() == old(bus).wire() + seq![cmd],
            r is Err ==> exists|n: int|
                0 <= n <= 1 && final(bus).wire() == old(bus).wire() + seq![cmd].subrange(0, n),
    {
        self.dc.set_low();
        self.cs.set_low();
        let buf: Vec<u8> = vec![cmd];
        let r = bus.transfer(buf.as_slice());
        self.cs.set_high();
        proof {
            assert(buf@ =~= seq![cmd]);
            if r is Err {
                let k = choose|n: int|
                    0 <= n <= buf@.len() && bus.wire() == old(bus).wire() + buf@.subrange(0, n);
                assert(seq![cmd].subrange(0, k) =~= buf@.subrange(0, k));
                assert(bus.wire() == old(bus).wire() + seq![cmd].subrange(0, k));
            }
        }
        r
    }

    /// Sends a burst of parameter or frame bytes: data/command select high,
    /// chip select asserted for the whole burst.
    fn send_data<B: SerialBus>(&mut self, bus: &mut B, data: &[u8]) -> (r: Result<(), BusFault>)
        ensures
            final(self).spec_phase() == old(self).spec_phase(),
            r is Ok ==> final(bus).wire() == old(bus).wire() + data@,
            r is Err ==> exists|n: int|
                0 <= n <= data@.len() && final(bus).wire() == old(bus).wire() + data@.subrange(
                    0,
                    n,
                ),
    {
        self.dc.set_high();
        self.cs.set_low();
        let r = bus.transfer(data);
        self.cs.set_high();
        r
    }

    /// Sends one command byte followed by its parameter block.
    fn send_cmd_with_data<B: SerialBus>(&mut self, bus: &mut B, cmd: u8, data: &[u8]) -> (r:
        Result<(), BusFault>)
        ensures
            final(self).spec_phase() == old(self).spec_phase(),
            r is Ok ==> final(bus).wire() == old(bus).wire() + seq![cmd] + data@,
            r is Err ==> exists|n: int|
                0 <= n <= 1 + data@.len() && final(bus).wire() == old(bus).wire() + (seq![cmd]
                    + data@).subrange(0, n),
    {
        match self.send_command(bus, cmd) {
            Ok(()) => {
                let ghost mid: Seq<u8> = bus.wire();
                let r = self.send_data(bus, data);
                proof {
                    if r is Err {
                        let k = choose|n: int|
                            0 <= n <= data@.len() && bus.wire() == mid + data@.subrange(0, n);
                        assert((seq![cmd] + data@).subrange(0, 1 + k) =~= seq![cmd]
                            + data@.subrange(0, k));
                        assert(bus.wire() == old(bus).wire() + (seq![cmd] + data@).subrange(
                            0,
                            1 + k,
                        ));
                    }
                }
                r
            },
            Err(f) => {
                proof {
                    let k = choose|n: int|
                        0 <= n <= 1 && bus.wire() == old(bus).wire() + seq![cmd].subrange(0, n);
                    assert((seq![cmd] + data@).subrange(0, k) =~= seq![cmd].subrange(0, k));
                    assert(bus.wire() == old(bus).wire() + (seq![cmd] + data@).subrange(0, k));
                }
                Err(f)
            },
        }
    }

    /// One-time hardware bring-up: deasserts chip select for the session,
    /// pulses the reset line, issues the fixed initialization command table
    /// and busy-waits until the controller reports ready.
    ///
    /// Permitted from any phase; on success the driver is `Ready` and
    /// exactly the initialization table went over the wire. A bus fault
    /// fails with `HardwareInitError`, an overlong busy wait with
    /// `BusyTimeout`; either leaves the driver `Faulted`. Even then nothing
    /// stray went out: on `BusyTimeout` either the table through power-on or
    /// the whole table had been accepted, depending on which wait gave up,
    /// and on `HardwareInitError` some prefix of the table.
    pub fn initialize<B: SerialBus, T: Timer>(&mut self, bus: &mut B, timer: &mut T) -> (r: Result<
        (),
        EpdError,
    >)
        ensures
            r is Ok ==> final(self).spec_phase() == Phase::Ready && final(bus).wire() == old(
                bus,
            ).wire() + init_wire(),
            r is Err ==> final(self).spec_phase() == Phase::Faulted && (r == Err::<(), EpdError>(
                EpdError::HardwareInitError,
            ) || r == Err::<(), EpdError>(EpdError::BusyTimeout)),
            r == Err::<(), EpdError>(EpdError::BusyTimeout) ==> (final(bus).wire() == old(
                bus,
            ).wire() + init_wire().subrange(0, 11) || final(bus).wire() == old(bus).wire()
                + init_wire()),
            r == Err::<(), EpdError>(EpdError::HardwareInitError) ==> exists|n: int|
                0 <= n <= init_wire().len() && final(bus).wire() == old(bus).wire()
                    + init_wire().subrange(0, n),
    {
        self.cs.set_high();
        self.rst.set_low();
        timer.sleep_millis(RESET_PULSE_MS);
        self.rst.set_high();
        timer.sleep_millis(RESET_SETTLE_MS);

        let booster: Vec<u8> = vec![0x17u8, 0x17, 0x27, 0x17];
        let ghost mid_booster: Seq<u8> = bus.wire();
        match self.send_cmd_with_data(bus, CMD_BOOSTER_SOFT_START, booster.as_slice()) {
            Ok(()) => (),
            Err(_) => {
                self.phase = Phase::Faulted;
                proof {
                    let k = choose|n: int|
                        0 <= n <= 1 + booster@.len() && bus.wire() == mid_booster + (seq![CMD_BOOSTER_SOFT_START]
                            + booster@).subrange(0, n);
                    assert(bus.wire() =~= old(bus).wire() + init_wire().subrange(0, 0 + k));
                }
                return Err(EpdError::HardwareInitError);
            },
        }
        let power: Vec<u8> = vec![0x07u8, 0x17, 0x3F, 0x3F];
        let ghost mid_power: Seq<u8> = bus.wire();
        match self.send_cmd_with_data(bus, CMD_POWER_SETTING, power.as_slice()) {
            Ok(()) => (),
            Err(_) => {
                self.phase = Phase::Faulted;
                proof {
                    let k = choose|n: int|
                        0 <= n <= 1 + power@.len() && bus.wire() == mid_power + (seq![CMD_POWER_SETTING]
                            + power@).subrange(0, n);
                    assert(bus.wire() =~= old(bus).wire() + init_wire().subrange(0, 5 + k));
                }
                return Err(EpdError::HardwareInitError);
            },
        }
        let ghost mid_power_on: Seq<u8> = bus.wire();
        match self.send_command(bus, CMD_POWER_ON) {
            Ok(()) => (),
            Err(_) => {
                self.phase = Phase::Faulted;
                proof {
                    let k = choose|n: int|
                        0 <= n <= 1 && bus.wire() == mid_power_on + seq![
                            CMD_POWER_ON,
                        ].subrange(0, n);
                    assert(bus.wire() =~= old(bus).wire() + init_wire().subrange(0, 10 + k));
                }
                return Err(EpdError::HardwareInitError);
            },
        }
        proof {
            assert(bus.wire() =~= old(bus).wire() + init_wire().subrange(0, 11));
        }
        match wait_until_idle(&mut self.busy, timer) {
            Ok(()) => (),
            Err(e) => {
                self.phase = Phase::Faulted;
                return Err(e);
            },
        }
        let panel: Vec<u8> = vec![0x1Fu8];
        let ghost mid_panel: Seq<u8> = bus.wire();
        match self.send_cmd_with_data(bus, CMD_PANEL_SETTING, panel.as_slice()) {
            Ok(()) => (),
            Err(_) => {
                self.phase = Phase::Faulted;
                proof {
                    let k = choose|n: int|
                        0 <= n <= 1 + panel@.len() && bus.wire() == mid_panel + (seq![CMD_PANEL_SETTING]
                            + panel@).subrange(0, n);
                    assert(bus.wire() =~= old(bus).wire() + init_wire().subrange(0, 11 + k));
                }
                return Err(EpdError::HardwareInitError);
            },
        }
        let pll: Vec<u8> = vec![0x06u8];
        let ghost mid_pll: Seq<u8> = bus.wire();
        match self.send_cmd_with_data(bus, CMD_PLL_CONTROL, pll.as_slice()) {
            Ok(()) => (),
            Err(_) => {
                self.phase = Phase::Faulted;
                proof {
                    let k = choose|n: int|
                        0 <= n <= 1 + pll@.len() && bus.wire() == mid_pll + (seq![CMD_PLL_CONTROL]
                            + pll@).subrange(0, n);
                    assert(bus.wire() =~= old(bus).wire() + init_wire().subrange(0, 13 + k));
                }
                return Err(EpdError::HardwareInitError);
            },
        }
        let resolution: Vec<u8> = vec![0x03u8, 0x20, 0x01, 0xE0];
        let ghost mid_resolution: Seq<u8> = bus.wire();
        match self.send_cmd_with_data(bus, CMD_TCON_RESOLUTION, resolution.as_slice()) {
            Ok(()) => (),
            Err(_) => {
                self.phase = Phase::Faulted;
                proof {
                    let k = choose|n: int|
                        0 <= n <= 1 + resolution@.len() && bus.wire() == mid_resolution + (seq![CMD_TCON_RESOLUTION]
                            + resolution@).subrange(0, n);
                    assert(bus.wire() =~= old(bus).wire() + init_wire().subrange(0, 15 + k));
                }
                return Err(EpdError::HardwareInitError);
            },
        }
        let dual_spi: Vec<u8> = vec![0x00u8];
        let ghost mid_dual_spi: Seq<u8> = bus.wire();
        match self.send_cmd_with_data(bus, CMD_DUAL_SPI, dual_spi.as_slice()) {
            Ok(()) => (),
            Err(_) => {
                self.phase = Phase::Faulted;
                proof {
                    let k = choose|n: int|
                        0 <= n <= 1 + dual_spi@.len() && bus.wire() == mid_dual_spi + (seq![CMD_DUAL_SPI]
                            + dual_spi@).subrange(0, n);
                    assert(bus.wire() =~= old(bus).wire() + init_wire().subrange(0, 20 + k));
                }
                return Err(EpdError::HardwareInitError);
            },
        }
        let tcon: Vec<u8> = vec![0x22u8];
        let ghost mid_tcon: Seq<u8> = bus.wire();
        match self.send_cmd_with_data(bus, CMD_TCON_SETTING, tcon.as_slice()) {
            Ok(()) => (),
            Err(_) => {
                self.phase = Phase::Faulted;
                proof {
                    let k = choose|n: int|
                        0 <= n <= 1 + tcon@.len() && bus.wire() == mid_tcon + (seq![CMD_TCON_SETTING]
                            + tcon@).subrange(0, n);
                    assert(bus.wire() =~= old(bus).wire() + init_wire().subrange(0, 22 + k));
                }
                return Err(EpdError::HardwareInitError);
            },
        }
        let vcom: Vec<u8> = vec![0x10u8, 0x07];
        let ghost mid_vcom: Seq<u8> = bus.wire();
        match self.send_cmd_with_data(bus, CMD_VCOM_AND_DATA_INTERVAL, vcom.as_slice()) {
            Ok(()) => (),
            Err(_) => {
                self.phase = Phase::Faulted;
                proof {
                    let k = choose|n: int|
                        0 <= n <= 1 + vcom@.len() && bus.wire() == mid_vcom + (seq![CMD_VCOM_AND_DATA_INTERVAL]
                            + vcom@).subrange(0, n);
                    assert(bus.wire() =~= old(bus).wire() + init_wire().subrange(0, 24 + k));
                }
                return Err(EpdError::HardwareInitError);
            },
        }
        proof {
            assert(bus.wire() =~= old(bus).wire() + init_wire());
        }
        match wait_until_idle(&mut self.busy, timer) {
            Ok(()) => (),
            Err(e) => {
                self.phase = Phase::Faulted;
                return Err(e);
            },
        }
        self.phase = Phase::Ready;
        Ok(())
    }

    /// Loads a full frame into controller RAM: busy-wait, the write-RAM
    /// command, then every framebuffer byte as one data burst.
    ///
    /// Requires the panel geometry the driver was built for. Outside
    /// `Ready` it fails with `IllegalState` and touches nothing. From
    /// `Ready`: on success the driver is `Ready` again and exactly the
    /// write-RAM command followed by the frame bytes went over the wire; a
    /// bus fault fails with `TransferError`, an overlong busy wait with
    /// `BusyTimeout`, either leaving the driver `Faulted`. On `BusyTimeout`
    /// nothing was sent; on `TransferError` some prefix of the intended
    /// burst, and nothing else, had been accepted.
    pub fn update_frame<B: SerialBus, T: Timer>(
        &mut self,
        bus: &mut B,
        timer: &mut T,
        frame: &Framebuffer,
    ) -> (r: Result<(), EpdError>)
        requires
            frame.spec_width() == PANEL_WIDTH,
            frame.spec_height() == PANEL_HEIGHT,
        ensures
            old(self).spec_phase() != Phase::Ready ==> r == Err::<(), EpdError>(
                EpdError::IllegalState,
            ) && *final(self) == *old(self) && final(bus).wire() == old(bus).wire(),
            old(self).spec_phase() == Phase::Ready ==> {
                &&& r is Ok ==> final(self).spec_phase() == Phase::Ready && final(bus).wire()
                    == old(bus).wire() + seq![CMD_DATA_START_TRANSMISSION_2] + frame@
                &&& r is Err ==> final(self).spec_phase() == Phase::Faulted && (r == Err::<
                    (),
                    EpdError,
                >(EpdError::TransferError) || r == Err::<(), EpdError>(EpdError::BusyTimeout))
                &&& r == Err::<(), EpdError>(EpdError::BusyTimeout) ==> final(bus).wire() == old(
                    bus,
                ).wire()
                &&& r == Err::<(), EpdError>(EpdError::TransferError) ==> exists|n: int|
                    0 <= n <= 1 + frame@.len() && final(bus).wire() == old(bus).wire() + (
                    seq![CMD_DATA_START_TRANSMISSION_2] + frame@).subrange(0, n)
            },
    {
        if !matches!(self.phase, Phase::Ready) {
            return Err(EpdError::IllegalState);
        }
        match wait_until_idle(&mut self.busy, timer) {
            Ok(()) => (),
            Err(e) => {
                self.phase = Phase::Faulted;
                return Err(e);
            },
        }
        self.phase = Phase::TransferringFrame;
        match self.send_command(bus, CMD_DATA_START_TRANSMISSION_2) {
            Ok(()) => (),
            Err(_) => {
                self.phase = Phase::Faulted;
                proof {
                    let k = choose|n: int|
                        0 <= n <= 1 && bus.wire() == old(bus).wire() + seq![
                            CMD_DATA_START_TRANSMISSION_2,
                        ].subrange(0, n);
                    assert((seq![CMD_DATA_START_TRANSMISSION_2] + frame@).subrange(0, k) =~= seq![
                        CMD_DATA_START_TRANSMISSION_2,
                    ].subrange(0, k));
                    assert(bus.wire() == old(bus).wire() + (seq![CMD_DATA_START_TRANSMISSION_2]
                        + frame@).subrange(0, k));
                }
                return Err(EpdError::TransferError);
            },
        }
        let ghost mid: Seq<u8> = bus.wire();
        match self.send_data(bus, frame.as_bytes()) {
            Ok(()) => (),
            Err(_) => {
                self.phase = Phase::Faulted;
                proof {
                    let k = choose|n: int|
                        0 <= n <= frame@.len() && bus.wire() == mid + frame@.subrange(0, n);
                    assert((seq![CMD_DATA_START_TRANSMISSION_2] + frame@).subrange(0, 1 + k)
                        =~= seq![CMD_DATA_START_TRANSMISSION_2] + frame@.subrange(0, k));
                    assert(bus.wire() == old(bus).wire() + (seq![CMD_DATA_START_TRANSMISSION_2]
                        + frame@).subrange(0, 1 + k));
                }
                return Err(EpdError::TransferError);
            },
        }
        self.phase = Phase::Ready;
        Ok(())
    }

    /// Triggers the physical refresh of whatever was last loaded: the
    /// refresh command, then a busy-wait spanning the whole refresh.
    ///
    /// Outside `Ready` it fails with `IllegalState` and touches nothing.
    /// From `Ready`: on success the driver is `Ready` again and exactly the
    /// refresh command byte went over the wire; a bus fault fails with
    /// `TransferError`, an overlong refresh with `BusyTimeout`, either
    /// leaving the driver `Faulted`. On `BusyTimeout` the refresh command
    /// itself had been accepted; on `TransferError` at most that byte.
    pub fn display_frame<B: SerialBus, T: Timer>(&mut self, bus: &mut B, timer: &mut T) -> (r:
        Result<(), EpdError>)
        ensures
            old(self).spec_phase() != Phase::Ready ==> r == Err::<(), EpdError>(
                EpdError::IllegalState,
            ) && *final(self) == *old(self) && final(bus).wire() == old(bus).wire(),
            old(self).spec_phase() == Phase::Ready ==> {
                &&& r is Ok ==> final(self).spec_phase() == Phase::Ready && final(bus).wire()
                    == old(bus).wire() + seq![CMD_DISPLAY_REFRESH]
                &&& r is Err ==> final(self).spec_phase() == Phase::Faulted && (r == Err::<
                    (),
                    EpdError,
                >(EpdError::TransferError) || r == Err::<(), EpdError>(EpdError::BusyTimeout))
                &&& r == Err::<(), EpdError>(EpdError::BusyTimeout) ==> final(bus).wire() == old(
                    bus,
                ).wire() + seq![CMD_DISPLAY_REFRESH]
                &&& r == Err::<(), EpdError>(EpdError::TransferError) ==> exists|n: int|
                    0 <= n <= 1 && final(bus).wire() == old(bus).wire() + seq![
                        CMD_DISPLAY_REFRESH,
                    ].subrange(0, n)
            },
    {
        if !matches!(self.phase, Phase::Ready) {
            return Err(EpdError::IllegalState);
        }
        self.phase = Phase::Refreshing;
        match self.send_command(bus, CMD_DISPLAY_REFRESH) {
            Ok(()) => (),
            Err(_) => {
                self.phase = Phase::Faulted;
                return Err(EpdError::TransferError);
            },
        }
        match wait_until_idle(&mut self.busy, timer) {
            Ok(()) => (),
            Err(e) => {
                self.phase = Phase::Faulted;
                return Err(e);
            },
        }
        self.phase = Phase::Ready;
        Ok(())
    }

    /// Commands the panel into its lowest-power hold state: power off, a
    /// busy-wait for the power-off sequence, then the deep-sleep command
    /// with its check code.
    ///
    /// Outside `Ready` it fails with `IllegalState` and touches nothing.
    /// From `Ready`: on success the driver is `Sleeping` — terminal until a
    /// fresh `initialize` — and exactly the deep-sleep sequence went over
    /// the wire; a bus fault fails with `TransferError`, an overlong busy
    /// wait with `BusyTimeout`, either leaving the driver `Faulted` with
    /// some prefix of the sequence, and nothing else, accepted.
    pub fn sleep<B: SerialBus, T: Timer>(&mut self, bus: &mut B, timer: &mut T) -> (r: Result<
        (),
        EpdError,
    >)
        ensures
            old(self).spec_phase() != Phase::Ready ==> r == Err::<(), EpdError>(
                EpdError::IllegalState,
            ) && *final(self) == *old(self) && final(bus).wire() == old(bus).wire(),
            old(self).spec_phase() == Phase::Ready ==> {
                &&& r is Ok ==> final(self).spec_phase() == Phase::Sleeping && final(bus).wire()
                    == old(bus).wire() + sleep_wire()
                &&& r is Err ==> final(self).spec_phase() == Phase::Faulted && (r == Err::<
                    (),
                    EpdError,
                >(EpdError::TransferError) || r == Err::<(), EpdError>(EpdError::BusyTimeout))
                &&& r == Err::<(), EpdError>(EpdError::BusyTimeout) ==> final(bus).wire() == old(
                    bus,
                ).wire() + sleep_wire().subrange(0, 1)
                &&& r == Err::<(), EpdError>(EpdError::TransferError) ==> exists|n: int|
                    0 <= n <= sleep_wire().len() && final(bus).wire() == old(bus).wire()
                        + sleep_wire().subrange(0, n)
            },
    {
        if !matches!(self.phase, Phase::Ready) {
            return Err(EpdError::IllegalState);
        }
        match self.send_command(bus, CMD_POWER_OFF) {
            Ok(()) => (),
            Err(_) => {
                self.phase = Phase::Faulted;
                proof {
                    let k = choose|n: int|
                        0 <= n <= 1 && bus.wire() == old(bus).wire() + seq![
                            CMD_POWER_OFF,
                        ].subrange(0, n);
                    assert(sleep_wire().subrange(0, k) =~= seq![CMD_POWER_OFF].subrange(0, k));
                    assert(bus.wire() == old(bus).wire() + sleep_wire().subrange(0, k));
                }
                return Err(EpdError::TransferError);
            },
        }
        proof {
            assert(bus.wire() =~= old(bus).wire() + sleep_wire().subrange(0, 1));
        }
        match wait_until_idle(&mut self.busy, timer) {
            Ok(()) => (),
            Err(e) => {
                self.phase = Phase::Faulted;
                return Err(e);
            },
        }
        let ghost mid: Seq<u8> = bus.wire();
        let check_code: Vec<u8> = vec![0xA5u8];
        match self.send_cmd_with_data(bus, CMD_DEEP_SLEEP, check_code.as_slice()) {
            Ok(()) => (),
            Err(_) => {
                self.phase = Phase::Faulted;
                proof {
                    let k = choose|n: int|
                        0 <= n <= 1 + check_code@.len() && bus.wire() == mid + (seq![
                            CMD_DEEP_SLEEP,
                        ] + check_code@).subrange(0, n);
                    assert(sleep_wire().subrange(0, 1 + k) =~= seq![CMD_POWER_OFF] + (seq![
                        CMD_DEEP_SLEEP,
                    ] + check_code@).subrange(0, k));
                    assert(bus.wire() == old(bus).wire() + sleep_wire().subrange(0, 1 + k));
                }
                return Err(EpdError::TransferError);
            },
        }
        proof {
            assert(bus.wire() =~= old(bus).wire() + sleep_wire());
        }
        self.phase = Phase::Sleeping;
        Ok(())
    }
}

} // verus!
