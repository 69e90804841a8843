//! DMA transfer engine of the successive-approximation ADC.
//!
//! The peripheral's registers and its autonomous sampling engine are modelled
//! by [`SaadcRegs`]. The driver side ([`Saadc`], [`Transfer`]) programs the
//! registers exactly as the silicon expects — write-1 task triggers, explicit
//! event clears, destination length before the start trigger — and every step
//! the engine takes on its own (latching a buffer, counting a sample, raising
//! the completion event) is a function with a contract, so the full transfer
//! state machine Armed → InFlight → {PendingNext → InFlight | Complete} is
//! checked.
//!
//! A [`Transfer`] owns both the destination buffer and the peripheral handle
//! for the transfer's duration and hands them back on every exit path, so no
//! data or exclusive capability is lost on failure.

use vstd::prelude::*;

use crate::ppi::{Event, EventAddr, Task, TaskAddr};

verus! {

/// Largest number of samples one DMA transfer may move.
pub const EASY_DMA_SIZE: usize = 65535;

// Register-map addresses of the peripheral's task and event registers.
pub const SAADC_TASKS_START_ADDR: u32 = 0x4000_7000;
pub const SAADC_TASKS_SAMPLE_ADDR: u32 = 0x4000_7004;
pub const SAADC_TASKS_STOP_ADDR: u32 = 0x4000_7008;
pub const SAADC_TASKS_CALIBRATEOFFSET_ADDR: u32 = 0x4000_700C;
pub const SAADC_EVENTS_STARTED_ADDR: u32 = 0x4000_7100;
pub const SAADC_EVENTS_END_ADDR: u32 = 0x4000_7104;
pub const SAADC_EVENTS_CALIBRATEDONE_ADDR: u32 = 0x4000_7110;

/// Output resolution in bits.
#[derive(Clone, Copy, PartialEq, Eq, Structural, Debug)]
pub enum Resolution {
    _8BIT,
    _10BIT,
    _12BIT,
    _14BIT,
}

/// Number of input samples averaged before a result is transferred to memory.
#[derive(Clone, Copy, PartialEq, Eq, Structural, Debug)]
pub enum Oversample {
    BYPASS,
    OVER2X,
    OVER4X,
    OVER8X,
    OVER16X,
    OVER32X,
    OVER64X,
    OVER128X,
    OVER256X,
}

/// Reference voltage of the ADC input.
#[derive(Clone, Copy, PartialEq, Eq, Structural, Debug)]
pub enum Reference {
    INTERNAL,
    VDD1_4,
}

/// Gain controlling the effective input range.
#[derive(Clone, Copy, PartialEq, Eq, Structural, Debug)]
pub enum Gain {
    GAIN1_6,
    GAIN1_5,
    GAIN1_4,
    GAIN1_3,
    GAIN1_2,
    GAIN1,
    GAIN2,
    GAIN4,
}

/// Positive channel resistor control.
#[derive(Clone, Copy, PartialEq, Eq, Structural, Debug)]
pub enum Resistor {
    BYPASS,
    PULLDOWN,
    PULLUP,
    VDD1_2,
}

/// Acquisition time in microseconds.
#[derive(Clone, Copy, PartialEq, Eq, Structural, Debug)]
pub enum Time {
    _3US,
    _5US,
    _10US,
    _15US,
    _20US,
    _40US,
}

/// Errors of the transfer engine. Every error path returns the un-consumed
/// buffer and/or handle alongside the error.
#[derive(Clone, Copy, PartialEq, Eq, Structural, Debug)]
pub enum Error {
    /// The buffer exceeds the hardware's maximum DMA transfer length.
    RxBufferTooLong,
    /// DMA can only reach data memory; read-only buffers in flash fail.
    DMABufferNotInDataMemory,
    Transmit,
    /// The hardware-reported transferred amount differed from the request.
    Receive,
    /// A next transfer was already enqueued on this in-flight transfer.
    NextTransferAlreadyEnqueued,
    /// The hardware has not yet latched the current buffer ("started" flag).
    CurrentTransferStillPending,
}

/// The peripheral's register block together with the internal state of its
/// autonomous sampling engine.
///
/// Driver code only ever goes through the methods below, which carry the
/// register semantics the silicon dictates. The fields are exposed so that the
/// hardware's side of the protocol — which on the chip advances on its own —
/// can be inspected and driven by a simulation.
#[derive(Clone, Copy, PartialEq, Eq, Debug)]
pub struct SaadcRegs {
    /// ENABLE register.
    pub enabled: bool,
    /// RESOLUTION register.
    pub resolution: Resolution,
    /// OVERSAMPLE register.
    pub oversample: Oversample,
    /// SAMPLERATE.MODE register: sampling is triggered by the SAMPLE task.
    pub samplerate_task_mode: bool,
    /// CH[0].CONFIG.REFSEL field.
    pub reference: Reference,
    /// CH[0].CONFIG.GAIN field.
    pub gain: Gain,
    /// CH[0].CONFIG.RESP field.
    pub resistor: Resistor,
    /// CH[0].CONFIG.TACQ field.
    pub time: Time,
    /// CH[0].PSELP register: the selected positive input, if any.
    pub pselp: Option<u8>,
    /// EVENTS_CALIBRATEDONE register.
    pub events_calibratedone: bool,
    /// EVENTS_STARTED register: the engine latched the programmed buffer.
    pub events_started: bool,
    /// EVENTS_END register: the engine filled the latched buffer.
    pub events_end: bool,
    /// RESULT.MAXCNT register: requested transfer length, in samples.
    pub result_maxcnt: u32,
    /// RESULT.AMOUNT register: length of the last completed transfer.
    pub result_amount: u32,
    /// Engine state: a transfer is latched and in flight.
    pub active: bool,
    /// Engine state: the length latched from RESULT.MAXCNT at the start
    /// trigger; re-programming MAXCNT does not disturb an in-flight transfer.
    pub latched_maxcnt: u32,
    /// Engine state: samples taken so far in the in-flight transfer.
    pub sample_count: u32,
    /// Engine state: the conversion result the next sample will produce.
    pub sample_value: i16,
}

/// Effect of writing 1 to TASKS_START: with the peripheral enabled, the engine
/// latches the programmed length and begins a transfer.
pub open spec fn start_effect(r: SaadcRegs) -> SaadcRegs {
    if r.enabled {
        SaadcRegs { active: true, sample_count: 0, latched_maxcnt: r.result_maxcnt, ..r }
    } else {
        r
    }
}

/// Effect of the engine latching the buffer: the STARTED event is raised.
pub open spec fn started_effect(r: SaadcRegs) -> SaadcRegs {
    if r.active {
        SaadcRegs { events_started: true, ..r }
    } else {
        r
    }
}

/// Effect of writing 1 to TASKS_SAMPLE: one sample is converted into the
/// latched buffer; when the buffer is full the END event is raised and the
/// transferred amount is reported.
pub open spec fn sample_effect(r: SaadcRegs) -> SaadcRegs {
    if r.enabled && r.active && r.sample_count < r.latched_maxcnt {
        if r.sample_count + 1 == r.latched_maxcnt {
            SaadcRegs {
                sample_count: (r.sample_count + 1) as u32,
                events_end: true,
                result_amount: (r.sample_count + 1) as u32,
                active: false,
                ..r
            }
        } else {
            SaadcRegs { sample_count: (r.sample_count + 1) as u32, ..r }
        }
    } else {
        r
    }
}

/// Effect of writing 1 to TASKS_STOP: an in-flight transfer ends early; the
/// END event is raised with the partial amount.
pub open spec fn stop_effect(r: SaadcRegs) -> SaadcRegs {
    if r.enabled && r.active {
        SaadcRegs { events_end: true, result_amount: r.sample_count, active: false, ..r }
    } else {
        r
    }
}

/// Effect of writing 1 to TASKS_CALIBRATEOFFSET. The calibration interval is
/// not observable through this interface, so the model collapses it: the done
/// event is already raised when the task write returns.
pub open spec fn calibrate_effect(r: SaadcRegs) -> SaadcRegs {
    if r.enabled {
        SaadcRegs { events_calibratedone: true, ..r }
    } else {
        r
    }
}

/// The register state after arming a transfer of `n` samples: length
/// programmed, completion event cleared, start trigger written.
pub open spec fn arm_effect(r: SaadcRegs, n: u32) -> SaadcRegs {
    start_effect(SaadcRegs { result_maxcnt: n, events_end: false, ..r })
}

/// The register state after the engine has taken `k` further samples.
pub open spec fn samples_effect(r: SaadcRegs, k: nat) -> SaadcRegs
    decreases k,
{
    if k == 0 {
        r
    } else {
        sample_effect(samples_effect(r, (k - 1) as nat))
    }
}

impl SaadcRegs {
    /// The power-on reset state of the register block.
    pub open spec fn power_on() -> SaadcRegs {
        SaadcRegs {
            enabled: false,
            resolution: Resolution::_8BIT,
            oversample: Oversample::BYPASS,
            samplerate_task_mode: false,
            reference: Reference::INTERNAL,
            gain: Gain::GAIN1_6,
            resistor: Resistor::BYPASS,
            time: Time::_3US,
            pselp: None,
            events_calibratedone: false,
            events_started: false,
            events_end: false,
            result_maxcnt: 0,
            result_amount: 0,
            active: false,
            latched_maxcnt: 0,
            sample_count: 0,
            sample_value: 0,
        }
    }

    /// The register block in its power-on state.
    pub fn new() -> (r: SaadcRegs)
        ensures
            r == SaadcRegs::power_on(),
    {
        SaadcRegs {
            enabled: false,
            resolution: Resolution::_8BIT,
            oversample: Oversample::BYPASS,
            samplerate_task_mode: false,
            reference: Reference::INTERNAL,
            gain: Gain::GAIN1_6,
            resistor: Resistor::BYPASS,
            time: Time::_3US,
            pselp: None,
            events_calibratedone: false,
            events_started: false,
            events_end: false,
            result_maxcnt: 0,
            result_amount: 0,
            active: false,
            latched_maxcnt: 0,
            sample_count: 0,
            sample_value: 0,
        }
    }

    /// TASKS_START: writing 1 starts a transfer of the programmed length.
    pub fn tasks_start_write(&mut self)
        ensures
            *final(self) == start_effect(*old(self)),
    {
        if self.enabled {
            self.active = true;
            self.sample_count = 0;
            self.latched_maxcnt = self.result_maxcnt;
        }
    }

    /// TASKS_SAMPLE: writing 1 converts one sample into the latched buffer.
    pub fn tasks_sample_write(&mut self)
        ensures
            *final(self) == sample_effect(*old(self)),
    {
        if self.enabled && self.active && self.sample_count < self.latched_maxcnt {
            self.sample_count = self.sample_count + 1;
            if self.sample_count == self.latched_maxcnt {
                self.events_end = true;
                self.result_amount = self.sample_count;
                self.active = false;
            }
        }
    }

    /// TASKS_STOP: writing 1 ends an in-flight transfer early.
    pub fn tasks_stop_write(&mut self)
        ensures
            *final(self) == stop_effect(*old(self)),
    {
        if self.enabled && self.active {
            self.events_end = true;
            self.result_amount = self.sample_count;
            self.active = false;
        }
    }

    /// TASKS_CALIBRATEOFFSET: writing 1 runs the offset calibration.
    pub fn tasks_calibrateoffset_write(&mut self)
        ensures
            *final(self) == calibrate_effect(*old(self)),
    {
        if self.enabled {
            self.events_calibratedone = true;
        }
    }

    /// Models the engine latching the programmed buffer: the silicon raises
    /// the STARTED event shortly after the start trigger, on its own.
    pub fn hw_mark_started(&mut self)
        ensures
            *final(self) == started_effect(*old(self)),
    {
        if self.active {
            self.events_started = true;
        }
    }

    /// Models a write of 1 arriving at task register `addr` over the bus —
    /// for instance from an interconnect channel firing. Returns whether the
    /// address belongs to this peripheral's task registers.
    pub fn hw_bus_task_write(&mut self, addr: u32) -> (handled: bool)
        ensures
            addr == SAADC_TASKS_START_ADDR ==> handled && *final(self) == start_effect(*old(self)),
            addr == SAADC_TASKS_SAMPLE_ADDR ==> handled && *final(self) == sample_effect(
                *old(self),
            ),
            addr == SAADC_TASKS_STOP_ADDR ==> handled && *final(self) == stop_effect(*old(self)),
            addr == SAADC_TASKS_CALIBRATEOFFSET_ADDR ==> handled && *final(self)
                == calibrate_effect(*old(self)),
            addr != SAADC_TASKS_START_ADDR && addr != SAADC_TASKS_SAMPLE_ADDR && addr
                != SAADC_TASKS_STOP_ADDR && addr != SAADC_TASKS_CALIBRATEOFFSET_ADDR ==> !handled
                && *final(self) == *old(self),
    {
        if addr == SAADC_TASKS_START_ADDR {
            self.tasks_start_write();
            true
        } else if addr == SAADC_TASKS_SAMPLE_ADDR {
            self.tasks_sample_write();
            true
        } else if addr == SAADC_TASKS_STOP_ADDR {
            self.tasks_stop_write();
            true
        } else if addr == SAADC_TASKS_CALIBRATEOFFSET_ADDR {
            self.tasks_calibrateoffset_write();
            true
        } else {
            false
        }
    }
}

/// Relies on core::sync::atomic::compiler_fence: a compiler-ordering side
/// effect only — it keeps the processor's accesses to a DMA buffer from being
/// reordered across the hardware's, computes nothing and changes no value.
#[verifier::external_body]
fn dma_fence() {
    core::sync::atomic::compiler_fence(core::sync::atomic::Ordering::SeqCst);
}

/// Used to configure the peripheral.
///
/// See the documentation of the `Default` impl for suitable default values.
pub struct SaadcConfig {
    /// Output resolution in bits.
    pub resolution: Resolution,
    /// Average 2^`oversample` input samples before transferring the result.
    pub oversample: Oversample,
    /// Reference voltage of the ADC input.
    pub reference: Reference,
    /// Gain used to control the effective input range.
    pub gain: Gain,
    /// Positive channel resistor control.
    pub resistor: Resistor,
    /// Acquisition time in microseconds.
    pub time: Time,
}

/// Default configuration: 14-bit resolution, 8x oversampling, VDD/4 reference,
/// 1/4 gain, resistor bypassed, 20 µs acquisition — 0 volts reads as 0 and VDD
/// volts as the full scale.
impl Default for SaadcConfig {
    fn default() -> (r: Self)
        ensures
            r.resolution == Resolution::_14BIT,
            r.oversample == Oversample::OVER8X,
            r.reference == Reference::VDD1_4,
            r.gain == Gain::GAIN1_4,
            r.resistor == Resistor::BYPASS,
            r.time == Time::_20US,
    {
        SaadcConfig {
            resolution: Resolution::_14BIT,
            oversample: Oversample::OVER8X,
            reference: Reference::VDD1_4,
            gain: Gain::GAIN1_4,
            resistor: Resistor::BYPASS,
            time: Time::_20US,
        }
    }
}

/// Interface for the ADC peripheral.
///
/// External analog channels are selected by index; use of only one channel at
/// a time is supported.
pub struct Saadc1(pub SaadcRegs);

/// Exclusive handle to the configured, calibrated peripheral.
pub struct Saadc {
    /// The owned register block.
    pub regs: SaadcRegs,
}

/// An in-flight DMA transfer: owns the destination buffer and the peripheral
/// handle until completion, eliminating aliasing for the transfer's duration.
///
/// The fields are the hardware-visible state of the transfer; between arming
/// and completion only the silicon — here, its simulation via the `hw_`
/// methods — advances them.
pub struct Transfer {
    /// The destination buffer the engine fills.
    pub rx_buffer: Vec<i16>,
    /// The owned peripheral.
    pub saadc: Saadc,
    /// Whether a next buffer has already been enqueued (double buffering).
    pub next_queued: bool,
}

/// A buffer enqueued to follow the current transfer without a gap.
pub struct PendingTransfer {
    /// The buffer the engine will fill next.
    pub rx_buffer: Vec<i16>,
}

/// The error, if any, with which `enqueue_next_transfer` rejects a buffer of
/// `len` samples on transfer `t`: the buffer may exceed the hardware limit, a
/// next transfer may already be enqueued, or the engine may not yet have
/// latched the current buffer.
pub open spec fn enqueue_error(t: Transfer, len: nat) -> Option<Error> {
    if len > EASY_DMA_SIZE {
        Some(Error::RxBufferTooLong)
    } else if t.next_queued {
        Some(Error::NextTransferAlreadyEnqueued)
    } else if !t.saadc.regs.events_started {
        Some(Error::CurrentTransferStillPending)
    } else {
        None
    }
}

/// The transfer state a successful `enqueue_next_transfer` of `n` samples
/// leaves behind: the STARTED event is consumed, the next length is
/// programmed, and the slot is marked taken.
pub open spec fn enqueue_ok_state(t: Transfer, n: u32) -> Transfer {
    Transfer {
        rx_buffer: t.rx_buffer,
        saadc: Saadc {
            regs: SaadcRegs { events_started: false, result_maxcnt: n, ..t.saadc.regs },
        },
        next_queued: true,
    }
}

/// True when the engine's reported amount matches the requested length, so
/// `wait` returns successfully.
pub open spec fn wait_succeeds(t: Transfer) -> bool {
    t.saadc.regs.result_amount == t.rx_buffer.len()
}

impl Saadc {
    /// Configures and enables the peripheral, then performs the blocking
    /// offset calibration, and returns the handle that exclusively owns the
    /// register block.
    pub fn new(regs: SaadcRegs, config: SaadcConfig) -> (s: Saadc)
        ensures
            s.regs == (SaadcRegs {
                enabled: true,
                resolution: config.resolution,
                oversample: config.oversample,
                samplerate_task_mode: true,
                reference: config.reference,
                gain: config.gain,
                resistor: config.resistor,
                time: config.time,
                events_calibratedone: true,
                ..regs
            }),
    {
        let SaadcConfig { resolution, oversample, reference, gain, resistor, time } = config;
        let mut regs = regs;
        regs.enabled = true;
        regs.resolution = resolution;
        regs.oversample = oversample;
        regs.samplerate_task_mode = true;
        regs.reference = reference;
        regs.gain = gain;
        regs.resistor = resistor;
        regs.time = time;

        // Calibrate, polling the done flag as the silicon requires. The
        // model's calibration completes by the time the task write returns,
        // so the poll provably exits on its first check.
        regs.tasks_calibrateoffset_write();
        while !regs.events_calibratedone
            invariant
                regs.events_calibratedone,
            decreases 0int,
        {
        }

        Saadc { regs }
    }

    /// Arms a one-shot DMA transfer filling `rx_buffer`. A buffer beyond the
    /// hardware's DMA limit is rejected with `RxBufferTooLong`, handing back
    /// the handle and the buffer unmodified; otherwise the destination length
    /// is programmed, the completion event cleared and the start trigger
    /// written, all bracketed by fences, and the returned [`Transfer`] owns
    /// both buffer and handle.
    pub fn dma_transfer(self, rx_buffer: Vec<i16>) -> (r: Result<
        Transfer,
        (Saadc, Vec<i16>, Error),
    >)
        ensures
            rx_buffer.len() > EASY_DMA_SIZE ==> (r matches Err(e) && e.0 == self && e.1@
                == rx_buffer@ && e.2 == Error::RxBufferTooLong),
            rx_buffer.len() <= EASY_DMA_SIZE ==> (r matches Ok(t) && t.rx_buffer@ == rx_buffer@
                && t.saadc.regs == arm_effect(self.regs, rx_buffer.len() as u32) && !t.next_queued),
    {
        if rx_buffer.len() > EASY_DMA_SIZE {
            return Err((self, rx_buffer, Error::RxBufferTooLong));
        }
        let mut s = self;
        let n: u32 = rx_buffer.len() as u32;
        s.start_adc_dma_transfer(n);
        Ok(Transfer { rx_buffer, saadc: s, next_queued: false })
    }

    /// Arms the engine: programs the length, clears the completion event and
    /// writes the start trigger, fenced on both sides so no access to the
    /// buffer is reordered across the hardware's.
    fn start_adc_dma_transfer(&mut self, n: u32)
        ensures
            final(self).regs == arm_effect(old(self).regs, n),
    {
        // Fence before any DMA action has started.
        dma_fence();

        self.set_dma_values(n);

        self.regs.events_end = false;
        self.regs.tasks_start_write();

        // Fence after all possible DMA actions have been set in motion.
        dma_fence();
    }

    /// Observes completion: clears the completion event, fences, and checks
    /// the hardware-reported transferred amount against the requested length.
    pub fn complete_adc_dma_transfer(&mut self, rx_len: usize) -> (r: Result<usize, Error>)
        ensures
            final(self).regs == (SaadcRegs { events_end: false, ..old(self).regs }),
            old(self).regs.result_amount == rx_len ==> r == Ok::<usize, Error>(rx_len),
            old(self).regs.result_amount != rx_len ==> r == Err::<usize, Error>(Error::Receive),
    {
        // Reset the event, otherwise it would read as raised from now on.
        self.regs.events_end = false;

        // Fence after all possible DMA actions have completed.
        dma_fence();

        let rx_amt: u32 = self.regs.result_amount;

        if rx_amt as usize != rx_len {
            return Err(Error::Receive);
        }

        Ok(rx_len)
    }

    /// Programs the destination length register, fenced on both sides.
    fn set_dma_values(&mut self, n: u32)
        ensures
            final(self).regs == (SaadcRegs { result_maxcnt: n, ..old(self).regs }),
    {
        dma_fence();
        self.regs.result_maxcnt = n;
        dma_fence();
    }

    /// Whether the engine has raised the completion event.
    pub fn is_adc_dma_transfer_complete(&mut self) -> (r: bool)
        ensures
            *final(self) == *old(self),
            r == old(self).regs.events_end,
    {
        self.regs.events_end
    }

    /// Samples input channel `channel` once (8 selects the internal supply
    /// voltage), blocking for the configured acquisition time: a one-sample
    /// transfer is armed, started and sampled, and its result returned.
    pub fn read(&mut self, channel: u8) -> (r: Result<i16, Error>)
        requires
            old(self).regs.enabled,
            channel <= 8,
        ensures
            r == Ok::<i16, Error>(old(self).regs.sample_value),
            final(self).regs == (SaadcRegs {
                pselp: Some(channel),
                result_maxcnt: 1,
                latched_maxcnt: 1,
                active: false,
                sample_count: 1,
                events_end: false,
                result_amount: 1,
                ..old(self).regs
            }),
    {
        self.regs.pselp = Some(channel);
        self.regs.result_maxcnt = 1;

        // Fence so the ADC cannot start before length and destination are set.
        dma_fence();

        self.regs.tasks_start_write();
        self.regs.tasks_sample_write();

        // Poll for completion; a one-sample transfer is complete as soon as
        // the sample task has run, so the poll provably exits at once.
        while !self.regs.events_end
            invariant
                self.regs.events_end,
            decreases 0int,
        {
        }
        self.regs.events_end = false;

        // Would only fail if more than one channel were enabled.
        if self.regs.result_amount != 1 {
            return Err(Error::Receive);
        }

        // Second fence so the DMA-written result is read only after the end
        // event has been observed.
        dma_fence();

        Ok(self.regs.sample_value)
    }
}

impl Transfer {
    /// Polls until the engine reports completion, then returns the filled
    /// buffer and the peripheral handle, releasing the exclusivity lock on
    /// both. A hardware-reported amount different from the requested length is
    /// a `Receive` error, which still hands buffer and handle back.
    ///
    /// On the chip this busy-waits for the silicon to raise the END event
    /// concurrently. The model has no concurrent engine, so the event must
    /// already have been raised — by the sampling the interconnect paced, by
    /// [`Transfer::hw_sample`] runs, or by a stop — before calling; entered
    /// earlier, the poll would spin forever by the same single-threaded
    /// reading.
    pub fn wait(self) -> (r: Result<(Vec<i16>, Saadc), (Vec<i16>, Saadc, Error)>)
        requires
            self.saadc.regs.events_end,
        ensures
            wait_succeeds(self) ==> (r matches Ok(p) && p.0@ == self.rx_buffer@ && p.1.regs == (
            SaadcRegs { events_end: false, ..self.saadc.regs })),
            !wait_succeeds(self) ==> (r matches Err(p) && p.0@ == self.rx_buffer@ && p.1.regs == (
            SaadcRegs { events_end: false, ..self.saadc.regs }) && p.2 == Error::Receive),
    {
        dma_fence();

        let Transfer { rx_buffer, saadc, .. } = self;
        let mut saadc = saadc;

        while !saadc.regs.events_end
            invariant
                saadc.regs.events_end,
            decreases 0int,
        {
        }

        match saadc.complete_adc_dma_transfer(rx_buffer.len()) {
            Ok(_) => Ok((rx_buffer, saadc)),
            Err(e) => Err((rx_buffer, saadc, e)),
        }
    }

    /// Waits for the current transfer and immediately re-arms the engine's
    /// bookkeeping around the buffer enqueued earlier, so back-to-back
    /// transfers have no gap. Either way the drained buffer comes back first
    /// and the new [`Transfer`] takes over the pending buffer and the handle.
    pub fn exchange_transfer_wait(self, pending: PendingTransfer) -> (r: Result<
        (Vec<i16>, Transfer),
        (Vec<i16>, Transfer, Error),
    >)
        requires
            self.saadc.regs.events_end,
        ensures
            wait_succeeds(self) ==> (r matches Ok(p) && p.0@ == self.rx_buffer@ && p.1.rx_buffer@
                == pending.rx_buffer@ && p.1.saadc.regs == (SaadcRegs {
                events_end: false,
                ..self.saadc.regs
            }) && !p.1.next_queued),
            !wait_succeeds(self) ==> (r matches Err(p) && p.0@ == self.rx_buffer@ && p.1.rx_buffer@
                == pending.rx_buffer@ && p.1.saadc.regs == (SaadcRegs {
                events_end: false,
                ..self.saadc.regs
            }) && !p.1.next_queued && p.2 == Error::Receive),
    {
        match self.wait() {
            Ok((old_rxb, saadc)) => Ok(
                (old_rxb, Transfer { rx_buffer: pending.rx_buffer, saadc, next_queued: false }),
            ),
            Err((old_rxb, saadc, e)) => Err(
                (old_rxb, Transfer { rx_buffer: pending.rx_buffer, saadc, next_queued: false }, e),
            ),
        }
    }

    /// Enqueues `rx_buffer` to follow the current transfer without a gap.
    /// Legal only once per in-flight transfer, and only after the hardware has
    /// signalled that it latched the current buffer; every rejection hands the
    /// buffer back and leaves the transfer untouched.
    pub fn enqueue_next_transfer(&mut self, rx_buffer: Vec<i16>) -> (r: Result<
        PendingTransfer,
        (Vec<i16>, Error),
    >)
        ensures
            enqueue_error(*old(self), rx_buffer.len() as nat) matches Some(e) ==> (r matches Err(p)
                && p.0@ == rx_buffer@ && p.1 == e && *final(self) == *old(self)),
            enqueue_error(*old(self), rx_buffer.len() as nat) is None ==> (r matches Ok(p)
                && p.rx_buffer@ == rx_buffer@ && *final(self) == enqueue_ok_state(
                *old(self),
                rx_buffer.len() as u32,
            )),
    {
        if rx_buffer.len() > EASY_DMA_SIZE {
            return Err((rx_buffer, Error::RxBufferTooLong));
        }

        if self.next_queued {
            return Err((rx_buffer, Error::NextTransferAlreadyEnqueued));
        }

        if !self.saadc.regs.events_started {
            return Err((rx_buffer, Error::CurrentTransferStillPending));
        }
        // Consume the STARTED event: it must be observed anew for the next slot.
        self.saadc.regs.events_started = false;

        self.next_queued = true;
        let n: u32 = rx_buffer.len() as u32;
        self.saadc.set_dma_values(n);

        Ok(PendingTransfer { rx_buffer })
    }

    /// Whether the granted transfer is done.
    pub fn is_done(&mut self) -> (r: bool)
        ensures
            *final(self) == *old(self),
            r == old(self).saadc.regs.events_end,
    {
        self.saadc.is_adc_dma_transfer_complete()
    }

    /// Cancels the transfer without waiting: fences and disables the
    /// peripheral. The buffer comes back only so its storage can be reused —
    /// any partially transferred data in it is undefined and must not be read.
    pub fn discard(self) -> (r: (Vec<i16>, Saadc))
        ensures
            r.0@ == self.rx_buffer@,
            r.1.regs == (SaadcRegs { enabled: false, ..self.saadc.regs }),
    {
        dma_fence();
        let Transfer { rx_buffer, saadc, .. } = self;
        let mut saadc = saadc;
        saadc.regs.enabled = false;
        (rx_buffer, saadc)
    }

    /// Models the engine latching the programmed buffer (STARTED event).
    pub fn hw_mark_started(&mut self)
        ensures
            final(self).saadc.regs == started_effect(old(self).saadc.regs),
            final(self).rx_buffer@ == old(self).rx_buffer@,
            final(self).next_queued == old(self).next_queued,
    {
        self.saadc.regs.hw_mark_started();
    }

    /// Models the engine converting one sample — on the chip this is paced by
    /// the SAMPLE task, typically fired over an interconnect channel.
    pub fn hw_sample(&mut self)
        ensures
            final(self).saadc.regs == sample_effect(old(self).saadc.regs),
            final(self).rx_buffer@ == old(self).rx_buffer@,
            final(self).next_queued == old(self).next_queued,
    {
        self.saadc.regs.tasks_sample_write();
    }

    /// Models an early stop of the engine (STOP task).
    pub fn hw_stop(&mut self)
        ensures
            final(self).saadc.regs == stop_effect(old(self).saadc.regs),
            final(self).rx_buffer@ == old(self).rx_buffer@,
            final(self).next_queued == old(self).next_queued,
    {
        self.saadc.regs.tasks_stop_write();
    }
}

/// Channel that doesn't sample a pin, but the internal supply voltage.
pub struct InternalVdd;

impl InternalVdd {
    /// The input index the internal supply voltage is sampled on.
    pub fn channel() -> (c: u8)
        ensures
            c == 8,
    {
        8
    }
}

// Task and event endpoints of this peripheral, for wiring into interconnect
// channels.

/// The START task register as a wirable endpoint.
pub struct SaadcTasksStart;

/// The SAMPLE task register as a wirable endpoint.
pub struct SaadcTasksSample;

/// The STOP task register as a wirable endpoint.
pub struct SaadcTasksStop;

/// The STARTED event register as a wirable endpoint.
pub struct SaadcEventsStarted;

/// The END event register as a wirable endpoint.
pub struct SaadcEventsEnd;

impl Task for SaadcTasksStart {
    open spec fn task_addr_spec(&self) -> u32 {
        SAADC_TASKS_START_ADDR
    }

    fn task_addr(&self) -> (a: TaskAddr) {
        TaskAddr::from_addr(SAADC_TASKS_START_ADDR)
    }
}

impl Task for SaadcTasksSample {
    open spec fn task_addr_spec(&self) -> u32 {
        SAADC_TASKS_SAMPLE_ADDR
    }

    fn task_addr(&self) -> (a: TaskAddr) {
        TaskAddr::from_addr(SAADC_TASKS_SAMPLE_ADDR)
    }
}

impl Task for SaadcTasksStop {
    open spec fn task_addr_spec(&self) -> u32 {
        SAADC_TASKS_STOP_ADDR
    }

    fn task_addr(&self) -> (a: TaskAddr) {
        TaskAddr::from_addr(SAADC_TASKS_STOP_ADDR)
    }
}

impl Event for SaadcEventsStarted {
    open spec fn event_addr_spec(&self) -> u32 {
        SAADC_EVENTS_STARTED_ADDR
    }

    fn event_addr(&self) -> (a: EventAddr) {
        EventAddr::from_addr(SAADC_EVENTS_STARTED_ADDR)
    }
}

impl Event for SaadcEventsEnd {
    open spec fn event_addr_spec(&self) -> u32 {
        SAADC_EVENTS_END_ADDR
    }

    fn event_addr(&self) -> (a: EventAddr) {
        EventAddr::from_addr(SAADC_EVENTS_END_ADDR)
    }
}

/// Law: once a next transfer is enqueued, enqueueing again before either
/// transfer completes is rejected with `NextTransferAlreadyEnqueued`, whatever
/// buffer is offered.
pub proof fn lemma_second_enqueue_rejected(t: Transfer, len1: nat, len2: nat)
    requires
        enqueue_error(t, len1) is None,
        len2 <= EASY_DMA_SIZE,
    ensures
        enqueue_error(enqueue_ok_state(t, len1 as u32), len2) == Some(
            Error::NextTransferAlreadyEnqueued,
        ),
{
}

/// Law: enqueueing before the hardware has signalled that it latched the
/// current buffer (the "started" flag) is rejected with
/// `CurrentTransferStillPending`.
pub proof fn lemma_enqueue_before_started_rejected(t: Transfer, len: nat)
    requires
        len <= EASY_DMA_SIZE,
        !t.next_queued,
        !t.saadc.regs.events_started,
    ensures
        enqueue_error(t, len) == Some(Error::CurrentTransferStillPending),
{
}

/// After `k` of the `latched_maxcnt` samples of a freshly started transfer,
/// the engine has counted exactly `k`; on the last one it raises the END event
/// and reports the full amount.
proof fn lemma_samples_progress(r: SaadcRegs, k: nat)
    requires
        r.enabled,
        r.active,
        r.sample_count == 0,
        0 < r.latched_maxcnt,
        k <= r.latched_maxcnt,
    ensures
        k < r.latched_maxcnt ==> samples_effect(r, k) == (SaadcRegs {
            sample_count: k as u32,
            ..r
        }),
        k == r.latched_maxcnt ==> samples_effect(r, k) == (SaadcRegs {
            sample_count: k as u32,
            events_end: true,
            result_amount: k as u32,
            active: false,
            ..r
        }),
    decreases k,
{
    if k > 0 {
        lemma_samples_progress(r, (k - 1) as nat);
    }
}

/// Law (round trip): arming a transfer of `L` samples on an enabled peripheral
/// and letting the engine take exactly `L` samples raises the completion event
/// with a reported amount of `L`, so `wait` succeeds and returns the buffer of
/// length `L` together with the reusable handle.
pub proof fn lemma_round_trip(s: Saadc, buf: Vec<i16>)
    requires
        s.regs.enabled,
        0 < buf.len() <= EASY_DMA_SIZE,
    ensures
        ({
            let armed = Transfer {
                rx_buffer: buf,
                saadc: Saadc { regs: arm_effect(s.regs, buf.len() as u32) },
                next_queued: false,
            };
            let done = Transfer {
                rx_buffer: buf,
                saadc: Saadc {
                    regs: samples_effect(armed.saadc.regs, buf.len() as nat),
                },
                next_queued: false,
            };
            done.saadc.regs.events_end && done.saadc.regs.result_amount == buf.len()
                && wait_succeeds(done)
        }),
{
    let armed = arm_effect(s.regs, buf.len() as u32);
    lemma_samples_progress(armed, buf.len() as nat);
}

} // verus!
