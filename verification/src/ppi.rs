//! Channel interconnect manager.
//!
//! A fixed hardware bank of 32 routing channels wires peripheral events to
//! peripheral tasks with no processor mediation. Splitting the bank yields one
//! movable-only token per channel; a token is the sole capability to enable,
//! disable or re-wire its channel. Channels below [`FIRST_FIXED_CHANNEL`] are
//! fully configurable; the rest carry a preset routing fixed in silicon, and
//! only their fork task endpoint is programmable.
//!
//! The bank's registers are modelled by [`PpiRegs`]: an enable bitmask driven
//! through write-1-to-set / write-1-to-clear operations (never
//! read-modify-write, so operations on different channels cannot race), and
//! per-channel event, task and fork-task endpoint address registers.

use vstd::prelude::*;

verus! {

/// Number of routing channels in the bank.
pub const CHANNEL_COUNT: u32 = 32;

/// Channels `0..FIRST_FIXED_CHANNEL` are fully configurable; channels
/// `FIRST_FIXED_CHANNEL..CHANNEL_COUNT` have a routing fixed in silicon.
pub const FIRST_FIXED_CHANNEL: u32 = 20;

// Register-map addresses of the task and event registers that the fixed
// channels are hardwired to, and of the endpoints offered for wiring. The map
// is fixed by the silicon; a task register triggers its action when 1 is
// written to it, an event register becomes nonzero when its condition fires.
pub const TIMER0_TASKS_START_ADDR: u32 = 0x4000_8000;
pub const TIMER0_TASKS_CLEAR_ADDR: u32 = 0x4000_800C;
pub const TIMER0_TASKS_CAPTURE1_ADDR: u32 = 0x4000_8044;
pub const TIMER0_TASKS_CAPTURE2_ADDR: u32 = 0x4000_8048;
pub const TIMER0_EVENTS_COMPARE0_ADDR: u32 = 0x4000_8140;
pub const TIMER0_EVENTS_COMPARE1_ADDR: u32 = 0x4000_8144;
pub const RADIO_TASKS_TXEN_ADDR: u32 = 0x4000_1000;
pub const RADIO_TASKS_RXEN_ADDR: u32 = 0x4000_1004;
pub const RADIO_TASKS_DISABLE_ADDR: u32 = 0x4000_1010;
pub const RADIO_EVENTS_READY_ADDR: u32 = 0x4000_1100;
pub const RADIO_EVENTS_ADDRESS_ADDR: u32 = 0x4000_1104;
pub const RADIO_EVENTS_END_ADDR: u32 = 0x4000_110C;
pub const RADIO_EVENTS_BCMATCH_ADDR: u32 = 0x4000_1128;
pub const RTC0_EVENTS_COMPARE0_ADDR: u32 = 0x4000_B140;
pub const AAR_TASKS_START_ADDR: u32 = 0x4000_F000;
pub const CCM_TASKS_KSGEN_ADDR: u32 = 0x4000_F000;
pub const CCM_TASKS_CRYPT_ADDR: u32 = 0x4000_F004;

/// The address of a task register, as wired into a channel's task endpoint.
///
/// Values of this type are only handed out by [`Task::task_addr`], so only
/// addresses of real task registers of enumerated peripherals can be wired.
#[derive(Clone, Copy, PartialEq, Eq, Structural, Debug)]
pub struct TaskAddr(pub(crate) u32);

/// The address of an event register, as wired into a channel's event endpoint.
///
/// Values of this type are only handed out by [`Event::event_addr`], so only
/// addresses of real event registers of enumerated peripherals can be wired.
#[derive(Clone, Copy, PartialEq, Eq, Structural, Debug)]
pub struct EventAddr(pub(crate) u32);

impl TaskAddr {
    /// The raw register-map address.
    pub closed spec fn addr_spec(self) -> u32 {
        self.0
    }

    /// Wraps the address of an enumerated task register.
    pub(crate) fn from_addr(addr: u32) -> (a: TaskAddr)
        ensures
            a.addr_spec() == addr,
    {
        TaskAddr(addr)
    }

    /// The raw register-map address.
    pub fn addr(&self) -> (a: u32)
        ensures
            a == self.addr_spec(),
    {
        self.0
    }
}

impl EventAddr {
    /// The raw register-map address.
    pub closed spec fn addr_spec(self) -> u32 {
        self.0
    }

    /// Wraps the address of an enumerated event register.
    pub(crate) fn from_addr(addr: u32) -> (a: EventAddr)
        ensures
            a.addr_spec() == addr,
    {
        EventAddr(addr)
    }

    /// The raw register-map address.
    pub fn addr(&self) -> (a: u32)
        ensures
            a == self.addr_spec(),
    {
        self.0
    }
}

/// A peripheral register that starts an action when the hardware writes 1 to
/// it. Implemented only by the enumerated task registers of the register map.
pub trait Task {
    /// The register address that this endpoint stands for.
    spec fn task_addr_spec(&self) -> u32;

    /// The address of the task register, for wiring into an endpoint.
    fn task_addr(&self) -> (a: TaskAddr)
        ensures
            a.addr_spec() == self.task_addr_spec(),
    ;
}

/// A peripheral register that becomes nonzero when its condition fires.
/// Implemented only by the enumerated event registers of the register map.
pub trait Event {
    /// The register address that this endpoint stands for.
    spec fn event_addr_spec(&self) -> u32;

    /// The address of the event register, for wiring into an endpoint.
    fn event_addr(&self) -> (a: EventAddr)
        ensures
            a.addr_spec() == self.event_addr_spec(),
    ;
}

/// Compare event 0 of the first timer; the classic source for paced sampling.
pub struct Timer0EventsCompare0;

impl Event for Timer0EventsCompare0 {
    open spec fn event_addr_spec(&self) -> u32 {
        TIMER0_EVENTS_COMPARE0_ADDR
    }

    fn event_addr(&self) -> (a: EventAddr) {
        EventAddr::from_addr(TIMER0_EVENTS_COMPARE0_ADDR)
    }
}

/// The interconnect bank's register block: the shared enable bitmask and the
/// per-channel endpoint address registers.
pub struct PpiRegs {
    chen: u32,
    eep: Vec<u32>,
    tep: Vec<u32>,
    fork_tep: Vec<u32>,
}

/// The preset event endpoint of a fixed channel (0 for configurable channels,
/// which come out of reset unwired).
pub open spec fn fixed_eep(ch: u32) -> u32 {
    if ch == 20 || ch == 21 {
        TIMER0_EVENTS_COMPARE0_ADDR
    } else if ch == 22 {
        TIMER0_EVENTS_COMPARE1_ADDR
    } else if ch == 23 {
        RADIO_EVENTS_BCMATCH_ADDR
    } else if ch == 24 {
        RADIO_EVENTS_READY_ADDR
    } else if ch == 25 || ch == 26 {
        RADIO_EVENTS_ADDRESS_ADDR
    } else if ch == 27 {
        RADIO_EVENTS_END_ADDR
    } else if 28 <= ch && ch <= 31 {
        RTC0_EVENTS_COMPARE0_ADDR
    } else {
        0
    }
}

/// The preset task endpoint of a fixed channel (0 for configurable channels).
pub open spec fn fixed_tep(ch: u32) -> u32 {
    if ch == 20 || ch == 28 {
        RADIO_TASKS_TXEN_ADDR
    } else if ch == 21 || ch == 29 {
        RADIO_TASKS_RXEN_ADDR
    } else if ch == 22 {
        RADIO_TASKS_DISABLE_ADDR
    } else if ch == 23 {
        AAR_TASKS_START_ADDR
    } else if ch == 24 {
        CCM_TASKS_KSGEN_ADDR
    } else if ch == 25 {
        CCM_TASKS_CRYPT_ADDR
    } else if ch == 26 {
        TIMER0_TASKS_CAPTURE1_ADDR
    } else if ch == 27 {
        TIMER0_TASKS_CAPTURE2_ADDR
    } else if ch == 30 {
        TIMER0_TASKS_CLEAR_ADDR
    } else if ch == 31 {
        TIMER0_TASKS_START_ADDR
    } else {
        0
    }
}

/// True when `a` and `b` hold the same endpoint wiring on every channel.
pub open spec fn same_endpoints(a: PpiRegs, b: PpiRegs) -> bool {
    forall|ch: int|
        #![trigger a.eep_spec(ch)]
        #![trigger a.tep_spec(ch)]
        #![trigger a.fork_spec(ch)]
        0 <= ch < CHANNEL_COUNT ==> a.eep_spec(ch) == b.eep_spec(ch) && a.tep_spec(ch)
            == b.tep_spec(ch) && a.fork_spec(ch) == b.fork_spec(ch)
}

impl PpiRegs {
    #[verifier::type_invariant]
    spec fn wf(self) -> bool {
        &&& self.eep.len() == CHANNEL_COUNT
        &&& self.tep.len() == CHANNEL_COUNT
        &&& self.fork_tep.len() == CHANNEL_COUNT
    }

    /// The channel enable bitmask (bit `n` is channel `n`).
    pub closed spec fn chen_spec(self) -> u32 {
        self.chen
    }

    /// The event endpoint address register of channel `ch`.
    pub closed spec fn eep_spec(self, ch: int) -> u32 {
        self.eep@[ch]
    }

    /// The task endpoint address register of channel `ch`.
    pub closed spec fn tep_spec(self, ch: int) -> u32 {
        self.tep@[ch]
    }

    /// The fork task endpoint address register of channel `ch`.
    pub closed spec fn fork_spec(self, ch: int) -> u32 {
        self.fork_tep@[ch]
    }

    /// Whether channel `ch`'s enable bit is set.
    pub open spec fn enabled_spec(self, ch: u32) -> bool {
        self.chen_spec() & (1u32 << ch) != 0
    }

    /// The bank in its power-on state: every channel disabled, configurable
    /// channels unwired, fixed channels holding their silicon-preset routing,
    /// no fork task wired anywhere.
    pub fn new() -> (r: PpiRegs)
        ensures
            r.chen_spec() == 0,
            forall|ch: int|
                0 <= ch < CHANNEL_COUNT ==> #[trigger] r.eep_spec(ch) == fixed_eep(ch as u32),
            forall|ch: int|
                0 <= ch < CHANNEL_COUNT ==> #[trigger] r.tep_spec(ch) == fixed_tep(ch as u32),
            forall|ch: int| 0 <= ch < CHANNEL_COUNT ==> #[trigger] r.fork_spec(ch) == 0,
    {
        let mut eep: Vec<u32> = Vec::new();
        let mut tep: Vec<u32> = Vec::new();
        let mut fork_tep: Vec<u32> = Vec::new();
        let mut ch: u32 = 0;
        while ch < CHANNEL_COUNT
            invariant
                ch <= CHANNEL_COUNT,
                eep.len() == ch,
                tep.len() == ch,
                fork_tep.len() == ch,
                forall|i: int| 0 <= i < ch ==> #[trigger] eep@[i] == fixed_eep(i as u32),
                forall|i: int| 0 <= i < ch ==> #[trigger] tep@[i] == fixed_tep(i as u32),
                forall|i: int| 0 <= i < ch ==> #[trigger] fork_tep@[i] == 0,
            decreases CHANNEL_COUNT - ch,
        {
            let route: (u32, u32) = Self::fixed_route(ch);
            eep.push(route.0);
            tep.push(route.1);
            fork_tep.push(0);
            ch = ch + 1;
        }
        PpiRegs { chen: 0, eep, tep, fork_tep }
    }

    /// The silicon-preset routing of channel `ch`, as (event, task) addresses.
    fn fixed_route(ch: u32) -> (r: (u32, u32))
        ensures
            r.0 == fixed_eep(ch),
            r.1 == fixed_tep(ch),
    {
        if ch == 20 {
            (TIMER0_EVENTS_COMPARE0_ADDR, RADIO_TASKS_TXEN_ADDR)
        } else if ch == 21 {
            (TIMER0_EVENTS_COMPARE0_ADDR, RADIO_TASKS_RXEN_ADDR)
        } else if ch == 22 {
            (TIMER0_EVENTS_COMPARE1_ADDR, RADIO_TASKS_DISABLE_ADDR)
        } else if ch == 23 {
            (RADIO_EVENTS_BCMATCH_ADDR, AAR_TASKS_START_ADDR)
        } else if ch == 24 {
            (RADIO_EVENTS_READY_ADDR, CCM_TASKS_KSGEN_ADDR)
        } else if ch == 25 {
            (RADIO_EVENTS_ADDRESS_ADDR, CCM_TASKS_CRYPT_ADDR)
        } else if ch == 26 {
            (RADIO_EVENTS_ADDRESS_ADDR, TIMER0_TASKS_CAPTURE1_ADDR)
        } else if ch == 27 {
            (RADIO_EVENTS_END_ADDR, TIMER0_TASKS_CAPTURE2_ADDR)
        } else if ch == 28 {
            (RTC0_EVENTS_COMPARE0_ADDR, RADIO_TASKS_TXEN_ADDR)
        } else if ch == 29 {
            (RTC0_EVENTS_COMPARE0_ADDR, RADIO_TASKS_RXEN_ADDR)
        } else if ch == 30 {
            (RTC0_EVENTS_COMPARE0_ADDR, TIMER0_TASKS_CLEAR_ADDR)
        } else if ch == 31 {
            (RTC0_EVENTS_COMPARE0_ADDR, TIMER0_TASKS_START_ADDR)
        } else {
            (0, 0)
        }
    }

    /// CHEN: reads the channel enable bitmask.
    pub fn chen_read(&self) -> (r: u32)
        ensures
            r == self.chen_spec(),
    {
        self.chen
    }

    /// CHENSET: write-1-to-set. Every bit set in `mask` becomes set in the
    /// enable bitmask; all other bits, and all endpoints, are untouched.
    pub fn chenset_write(&mut self, mask: u32)
        ensures
            final(self).chen_spec() == old(self).chen_spec() | mask,
            same_endpoints(*old(self), *final(self)),
    {
        proof {
            use_type_invariant(&*self);
        }
        self.chen = self.chen | mask;
    }

    /// CHENCLR: write-1-to-clear. Every bit set in `mask` becomes clear in the
    /// enable bitmask; all other bits, and all endpoints, are untouched.
    pub fn chenclr_write(&mut self, mask: u32)
        ensures
            final(self).chen_spec() == old(self).chen_spec() & !mask,
            same_endpoints(*old(self), *final(self)),
    {
        proof {
            use_type_invariant(&*self);
        }
        self.chen = self.chen & !mask;
    }

    /// CH[ch].EEP: programs the event endpoint of a configurable channel.
    pub fn eep_write(&mut self, ch: u32, addr: u32)
        requires
            ch < FIRST_FIXED_CHANNEL,
        ensures
            final(self).chen_spec() == old(self).chen_spec(),
            final(self).eep_spec(ch as int) == addr,
            forall|i: int|
                0 <= i < CHANNEL_COUNT && i != ch ==> final(self).eep_spec(i) == old(self).eep_spec(
                    i,
                ),
            forall|i: int| 0 <= i < CHANNEL_COUNT ==> final(self).tep_spec(i) == old(self).tep_spec(i),
            forall|i: int|
                0 <= i < CHANNEL_COUNT ==> final(self).fork_spec(i) == old(self).fork_spec(i),
    {
        proof {
            use_type_invariant(&*self);
        }
        self.eep[ch as usize] = addr;
    }

    /// CH[ch].TEP: programs the task endpoint of a configurable channel.
    pub fn tep_write(&mut self, ch: u32, addr: u32)
        requires
            ch < FIRST_FIXED_CHANNEL,
        ensures
            final(self).chen_spec() == old(self).chen_spec(),
            final(self).tep_spec(ch as int) == addr,
            forall|i: int|
                0 <= i < CHANNEL_COUNT && i != ch ==> final(self).tep_spec(i) == old(self).tep_spec(
                    i,
                ),
            forall|i: int| 0 <= i < CHANNEL_COUNT ==> final(self).eep_spec(i) == old(self).eep_spec(i),
            forall|i: int|
                0 <= i < CHANNEL_COUNT ==> final(self).fork_spec(i) == old(self).fork_spec(i),
    {
        proof {
            use_type_invariant(&*self);
        }
        self.tep[ch as usize] = addr;
    }

    /// FORK[ch].TEP: programs the fork task endpoint; present on every channel.
    pub fn fork_tep_write(&mut self, ch: u32, addr: u32)
        requires
            ch < CHANNEL_COUNT,
        ensures
            final(self).chen_spec() == old(self).chen_spec(),
            final(self).fork_spec(ch as int) == addr,
            forall|i: int|
                0 <= i < CHANNEL_COUNT && i != ch ==> final(self).fork_spec(i) == old(
                    self,
                ).fork_spec(i),
            forall|i: int| 0 <= i < CHANNEL_COUNT ==> final(self).eep_spec(i) == old(self).eep_spec(i),
            forall|i: int| 0 <= i < CHANNEL_COUNT ==> final(self).tep_spec(i) == old(self).tep_spec(i),
    {
        proof {
            use_type_invariant(&*self);
        }
        self.fork_tep[ch as usize] = addr;
    }

    /// The task endpoints channel `ch` contributes when the event register at
    /// `addr` fires: nothing unless the channel is enabled and wired to `addr`;
    /// otherwise its task endpoint and then its fork endpoint, an address of 0
    /// meaning "not wired".
    pub open spec fn channel_contribution(self, addr: u32, ch: int) -> Seq<u32> {
        if self.enabled_spec(ch as u32) && self.eep_spec(ch) == addr {
            let first = if self.tep_spec(ch) != 0 {
                seq![self.tep_spec(ch)]
            } else {
                Seq::<u32>::empty()
            };
            let second = if self.fork_spec(ch) != 0 {
                seq![self.fork_spec(ch)]
            } else {
                Seq::<u32>::empty()
            };
            first + second
        } else {
            Seq::<u32>::empty()
        }
    }

    /// The task endpoints triggered by the event at `addr`, over channels
    /// `0..upto`, in channel order.
    pub open spec fn triggered_spec(self, addr: u32, upto: int) -> Seq<u32>
        decreases upto,
    {
        if upto <= 0 {
            Seq::<u32>::empty()
        } else {
            self.triggered_spec(addr, upto - 1) + self.channel_contribution(addr, upto - 1)
        }
    }

    /// Models the silicon's autonomous reaction to the event register at
    /// `event` firing: with no processor involvement, every enabled channel
    /// whose event endpoint matches triggers its task endpoint and its fork
    /// task endpoint. Returns the triggered task addresses in channel order.
    pub fn hw_fire_event(&self, event: EventAddr) -> (tasks: Vec<u32>)
        ensures
            tasks@ == self.triggered_spec(event.addr_spec(), CHANNEL_COUNT as int),
    {
        proof {
            use_type_invariant(&*self);
        }
        let addr: u32 = event.addr();
        let mut tasks: Vec<u32> = Vec::new();
        let mut ch: usize = 0;
        while ch < CHANNEL_COUNT as usize
            invariant
                ch <= CHANNEL_COUNT,
                addr == event.addr_spec(),
                self.wf(),
                tasks@ == self.triggered_spec(addr, ch as int),
            decreases CHANNEL_COUNT - ch,
        {
            let enabled: bool = self.chen & (1u32 << (ch as u32)) != 0;
            if enabled && self.eep[ch] == addr {
                let tep: u32 = self.tep[ch];
                if tep != 0 {
                    tasks.push(tep);
                }
                let fork: u32 = self.fork_tep[ch];
                if fork != 0 {
                    tasks.push(fork);
                }
            }
            ch = ch + 1;
            proof {
                assert(tasks@ =~= self.triggered_spec(addr, ch as int));
            }
        }
        tasks
    }
}

/// A routing channel of the bank: every token can be enabled and disabled, and
/// can wire a second ("fork") task to its event.
pub trait Channel: Sized {
    /// The index of this channel in the bank.
    spec fn ch_spec(&self) -> u32;

    /// The index of this channel in the bank; always within the bank.
    fn ch(&self) -> (c: u32)
        ensures
            c == self.ch_spec(),
            c < CHANNEL_COUNT,
    ;
}

/// Marker for channels whose event and task endpoints are freely programmable.
pub trait NotFixed: Channel {

}

/// Operations available on every channel token.
///
/// Enable and disable go through the write-1-to-set / write-1-to-clear mask
/// registers, never read-modify-write, so concurrent calls on different
/// channels cannot race. All operations are infallible register writes; the
/// documented precondition that an endpoint stays valid while the channel is
/// enabled is the caller's obligation, not a checked condition.
pub trait Ppi: Channel {
    /// Enables the channel.
    fn enable(&mut self, regs: &mut PpiRegs)
        ensures
            *final(self) == *old(self),
            final(regs).chen_spec() == old(regs).chen_spec() | (1u32 << old(self).ch_spec()),
            same_endpoints(*old(regs), *final(regs)),
    ;

    /// Disables the channel.
    fn disable(&mut self, regs: &mut PpiRegs)
        ensures
            *final(self) == *old(self),
            final(regs).chen_spec() == old(regs).chen_spec() & !(1u32 << old(self).ch_spec()),
            same_endpoints(*old(regs), *final(regs)),
    ;

    /// Wires a second task to be triggered by the channel's event.
    fn set_fork_task_endpoint<T: Task>(&mut self, regs: &mut PpiRegs, task: &T)
        ensures
            *final(self) == *old(self),
            final(regs).chen_spec() == old(regs).chen_spec(),
            final(regs).fork_spec(old(self).ch_spec() as int) == task.task_addr_spec(),
            forall|i: int|
                0 <= i < CHANNEL_COUNT && i != old(self).ch_spec() ==> final(regs).fork_spec(i)
                    == old(regs).fork_spec(i),
            forall|i: int| 0 <= i < CHANNEL_COUNT ==> final(regs).eep_spec(i) == old(regs).eep_spec(i),
            forall|i: int| 0 <= i < CHANNEL_COUNT ==> final(regs).tep_spec(i) == old(regs).tep_spec(i),
    ;
}

/// Operations available only on fully configurable channel tokens. Fixed
/// channels simply lack these, so misconfiguration is rejected before the
/// program runs.
pub trait ConfigurablePpi: NotFixed {
    /// Wires the task that the channel's event triggers.
    fn set_task_endpoint<T: Task>(&mut self, regs: &mut PpiRegs, task: &T)
        ensures
            *final(self) == *old(self),
            final(regs).chen_spec() == old(regs).chen_spec(),
            final(regs).tep_spec(old(self).ch_spec() as int) == task.task_addr_spec(),
            forall|i: int|
                0 <= i < CHANNEL_COUNT && i != old(self).ch_spec() ==> final(regs).tep_spec(i)
                    == old(regs).tep_spec(i),
            forall|i: int| 0 <= i < CHANNEL_COUNT ==> final(regs).eep_spec(i) == old(regs).eep_spec(i),
            forall|i: int|
                0 <= i < CHANNEL_COUNT ==> final(regs).fork_spec(i) == old(regs).fork_spec(i),
    ;

    /// Wires the event that triggers the channel's task(s).
    fn set_event_endpoint<E: Event>(&mut self, regs: &mut PpiRegs, event: &E)
        ensures
            *final(self) == *old(self),
            final(regs).chen_spec() == old(regs).chen_spec(),
            final(regs).eep_spec(old(self).ch_spec() as int) == event.event_addr_spec(),
            forall|i: int|
                0 <= i < CHANNEL_COUNT && i != old(self).ch_spec() ==> final(regs).eep_spec(i)
                    == old(regs).eep_spec(i),
            forall|i: int| 0 <= i < CHANNEL_COUNT ==> final(regs).tep_spec(i) == old(regs).tep_spec(i),
            forall|i: int|
                0 <= i < CHANNEL_COUNT ==> final(regs).fork_spec(i) == old(regs).fork_spec(i),
    ;
}

/// Token for one fully configurable channel. Tokens are produced exactly once,
/// by [`Parts::new`], and can only be moved, never copied, so at most one live
/// token exists per channel index for a given bank.
pub struct ConfigurableChannel {
    ch: u32,
}

impl ConfigurableChannel {
    #[verifier::type_invariant]
    spec fn wf(self) -> bool {
        self.ch < FIRST_FIXED_CHANNEL
    }
}

impl Channel for ConfigurableChannel {
    closed spec fn ch_spec(&self) -> u32 {
        self.ch
    }

    fn ch(&self) -> (c: u32) {
        proof {
            use_type_invariant(&*self);
        }
        self.ch
    }
}

impl NotFixed for ConfigurableChannel {

}

/// Token for one fixed channel: its event-to-task routing is preset in
/// silicon, and only its fork task endpoint is programmable.
pub struct FixedChannel {
    ch: u32,
}

impl FixedChannel {
    #[verifier::type_invariant]
    spec fn wf(self) -> bool {
        FIRST_FIXED_CHANNEL <= self.ch < CHANNEL_COUNT
    }
}

impl Channel for FixedChannel {
    closed spec fn ch_spec(&self) -> u32 {
        self.ch
    }

    fn ch(&self) -> (c: u32) {
        proof {
            use_type_invariant(&*self);
        }
        self.ch
    }
}

impl Ppi for ConfigurableChannel {
    fn enable(&mut self, regs: &mut PpiRegs) {
        let c: u32 = self.ch();
        regs.chenset_write(1u32 << c);
    }

    fn disable(&mut self, regs: &mut PpiRegs) {
        let c: u32 = self.ch();
        regs.chenclr_write(1u32 << c);
    }

    fn set_fork_task_endpoint<T: Task>(&mut self, regs: &mut PpiRegs, task: &T) {
        let c: u32 = self.ch();
        regs.fork_tep_write(c, task.task_addr().addr());
    }
}

impl Ppi for FixedChannel {
    fn enable(&mut self, regs: &mut PpiRegs) {
        let c: u32 = self.ch();
        regs.chenset_write(1u32 << c);
    }

    fn disable(&mut self, regs: &mut PpiRegs) {
        let c: u32 = self.ch();
        regs.chenclr_write(1u32 << c);
    }

    fn set_fork_task_endpoint<T: Task>(&mut self, regs: &mut PpiRegs, task: &T) {
        let c: u32 = self.ch();
        regs.fork_tep_write(c, task.task_addr().addr());
    }
}

impl ConfigurablePpi for ConfigurableChannel {
    fn set_task_endpoint<T: Task>(&mut self, regs: &mut PpiRegs, task: &T) {
        proof {
            use_type_invariant(&*self);
        }
        let c: u32 = self.ch();
        regs.tep_write(c, task.task_addr().addr());
    }

    fn set_event_endpoint<E: Event>(&mut self, regs: &mut PpiRegs, event: &E) {
        proof {
            use_type_invariant(&*self);
        }
        let c: u32 = self.ch();
        regs.eep_write(c, event.event_addr().addr());
    }
}

/// The split channel bank: the register block plus one token per channel.
pub struct Parts {
    pub regs: PpiRegs,
    pub ppi0: ConfigurableChannel,
    pub ppi1: ConfigurableChannel,
    pub ppi2: ConfigurableChannel,
    pub ppi3: ConfigurableChannel,
    pub ppi4: ConfigurableChannel,
    pub ppi5: ConfigurableChannel,
    pub ppi6: ConfigurableChannel,
    pub ppi7: ConfigurableChannel,
    pub ppi8: ConfigurableChannel,
    pub ppi9: ConfigurableChannel,
    pub ppi10: ConfigurableChannel,
    pub ppi11: ConfigurableChannel,
    pub ppi12: ConfigurableChannel,
    pub ppi13: ConfigurableChannel,
    pub ppi14: ConfigurableChannel,
    pub ppi15: ConfigurableChannel,
    pub ppi16: ConfigurableChannel,
    pub ppi17: ConfigurableChannel,
    pub ppi18: ConfigurableChannel,
    pub ppi19: ConfigurableChannel,
    pub ppi20: FixedChannel,
    pub ppi21: FixedChannel,
    pub ppi22: FixedChannel,
    pub ppi23: FixedChannel,
    pub ppi24: FixedChannel,
    pub ppi25: FixedChannel,
    pub ppi26: FixedChannel,
    pub ppi27: FixedChannel,
    pub ppi28: FixedChannel,
    pub ppi29: FixedChannel,
    pub ppi30: FixedChannel,
    pub ppi31: FixedChannel,
}

/// True when `parts` carries the canonical split: token `ppiN` holds index `N`.
pub open spec fn one_token_per_index(parts: Parts) -> bool {
    &&& parts.ppi0.ch_spec() == 0
    &&& parts.ppi1.ch_spec() == 1
    &&& parts.ppi2.ch_spec() == 2
    &&& parts.ppi3.ch_spec() == 3
    &&& parts.ppi4.ch_spec() == 4
    &&& parts.ppi5.ch_spec() == 5
    &&& parts.ppi6.ch_spec() == 6
    &&& parts.ppi7.ch_spec() == 7
    &&& parts.ppi8.ch_spec() == 8
    &&& parts.ppi9.ch_spec() == 9
    &&& parts.ppi10.ch_spec() == 10
    &&& parts.ppi11.ch_spec() == 11
    &&& parts.ppi12.ch_spec() == 12
    &&& parts.ppi13.ch_spec() == 13
    &&& parts.ppi14.ch_spec() == 14
    &&& parts.ppi15.ch_spec() == 15
    &&& parts.ppi16.ch_spec() == 16
    &&& parts.ppi17.ch_spec() == 17
    &&& parts.ppi18.ch_spec() == 18
    &&& parts.ppi19.ch_spec() == 19
    &&& parts.ppi20.ch_spec() == 20
    &&& parts.ppi21.ch_spec() == 21
    &&& parts.ppi22.ch_spec() == 22
    &&& parts.ppi23.ch_spec() == 23
    &&& parts.ppi24.ch_spec() == 24
    &&& parts.ppi25.ch_spec() == 25
    &&& parts.ppi26.ch_spec() == 26
    &&& parts.ppi27.ch_spec() == 27
    &&& parts.ppi28.ch_spec() == 28
    &&& parts.ppi29.ch_spec() == 29
    &&& parts.ppi30.ch_spec() == 30
    &&& parts.ppi31.ch_spec() == 31
}

/// The indices of the 32 tokens of a split, in field order.
pub open spec fn token_indices(parts: Parts) -> Seq<u32> {
    seq![
        parts.ppi0.ch_spec(),
        parts.ppi1.ch_spec(),
        parts.ppi2.ch_spec(),
        parts.ppi3.ch_spec(),
        parts.ppi4.ch_spec(),
        parts.ppi5.ch_spec(),
        parts.ppi6.ch_spec(),
        parts.ppi7.ch_spec(),
        parts.ppi8.ch_spec(),
        parts.ppi9.ch_spec(),
        parts.ppi10.ch_spec(),
        parts.ppi11.ch_spec(),
        parts.ppi12.ch_spec(),
        parts.ppi13.ch_spec(),
        parts.ppi14.ch_spec(),
        parts.ppi15.ch_spec(),
        parts.ppi16.ch_spec(),
        parts.ppi17.ch_spec(),
        parts.ppi18.ch_spec(),
        parts.ppi19.ch_spec(),
        parts.ppi20.ch_spec(),
        parts.ppi21.ch_spec(),
        parts.ppi22.ch_spec(),
        parts.ppi23.ch_spec(),
        parts.ppi24.ch_spec(),
        parts.ppi25.ch_spec(),
        parts.ppi26.ch_spec(),
        parts.ppi27.ch_spec(),
        parts.ppi28.ch_spec(),
        parts.ppi29.ch_spec(),
        parts.ppi30.ch_spec(),
        parts.ppi31.ch_spec(),
    ]
}

impl Parts {
    /// Splits the channel bank into one token per channel. The register block
    /// handle is consumed, so a bank can be split only once per acquisition of
    /// the block; the tokens are movable-only and cannot be re-made.
    pub fn new(regs: PpiRegs) -> (parts: Parts)
        ensures
            parts.regs == regs,
            one_token_per_index(parts),
    {
        Parts {
            regs,
            ppi0: ConfigurableChannel { ch: 0 },
            ppi1: ConfigurableChannel { ch: 1 },
            ppi2: ConfigurableChannel { ch: 2 },
            ppi3: ConfigurableChannel { ch: 3 },
            ppi4: ConfigurableChannel { ch: 4 },
            ppi5: ConfigurableChannel { ch: 5 },
            ppi6: ConfigurableChannel { ch: 6 },
            ppi7: ConfigurableChannel { ch: 7 },
            ppi8: ConfigurableChannel { ch: 8 },
            ppi9: ConfigurableChannel { ch: 9 },
            ppi10: ConfigurableChannel { ch: 10 },
            ppi11: ConfigurableChannel { ch: 11 },
            ppi12: ConfigurableChannel { ch: 12 },
            ppi13: ConfigurableChannel { ch: 13 },
            ppi14: ConfigurableChannel { ch: 14 },
            ppi15: ConfigurableChannel { ch: 15 },
            ppi16: ConfigurableChannel { ch: 16 },
            ppi17: ConfigurableChannel { ch: 17 },
            ppi18: ConfigurableChannel { ch: 18 },
            ppi19: ConfigurableChannel { ch: 19 },
            ppi20: FixedChannel { ch: 20 },
            ppi21: FixedChannel { ch: 21 },
            ppi22: FixedChannel { ch: 22 },
            ppi23: FixedChannel { ch: 23 },
            ppi24: FixedChannel { ch: 24 },
            ppi25: FixedChannel { ch: 25 },
            ppi26: FixedChannel { ch: 26 },
            ppi27: FixedChannel { ch: 27 },
            ppi28: FixedChannel { ch: 28 },
            ppi29: FixedChannel { ch: 29 },
            ppi30: FixedChannel { ch: 30 },
            ppi31: FixedChannel { ch: 31 },
        }
    }
}

/// Law: a split of the bank yields exactly one token per channel index — the
/// 32 tokens carry the indices `0..32` in order, and no two tokens share an
/// index.
pub proof fn lemma_one_token_per_index(parts: Parts)
    requires
        one_token_per_index(parts),
    ensures
        token_indices(parts).len() == CHANNEL_COUNT,
        forall|i: int| 0 <= i < CHANNEL_COUNT ==> #[trigger] token_indices(parts)[i] == i,
        forall|i: int, j: int|
            0 <= i < CHANNEL_COUNT && 0 <= j < CHANNEL_COUNT && i != j ==> token_indices(parts)[i]
                != token_indices(parts)[j],
{
}

/// Law: a write-1-to-set of channel `n`'s bit leaves the channel enabled, and
/// a write-1-to-clear leaves it disabled, whatever the mask held before.
pub proof fn lemma_set_clear_own_bit(chen: u32, n: u32)
    requires
        n < CHANNEL_COUNT,
    ensures
        (chen | (1u32 << n)) & (1u32 << n) != 0,
        (chen & !(1u32 << n)) & (1u32 << n) == 0,
{
    assert((chen | (1u32 << n)) & (1u32 << n) != 0 && (chen & !(1u32 << n)) & (1u32 << n) == 0)
        by (bit_vector)
        requires
            n < 32u32,
    ;
}

/// Law: a write-1-to-set or write-1-to-clear of channel `n`'s bit leaves every
/// other channel's enable bit exactly as it was — the mask operations never
/// read-modify-write neighbouring channels.
pub proof fn lemma_set_clear_other_bits(chen: u32, n: u32, m: u32)
    requires
        n < CHANNEL_COUNT,
        m < CHANNEL_COUNT,
        m != n,
    ensures
        ((chen | (1u32 << n)) & (1u32 << m) != 0) == (chen & (1u32 << m) != 0),
        ((chen & !(1u32 << n)) & (1u32 << m) != 0) == (chen & (1u32 << m) != 0),
{
    assert(((chen | (1u32 << n)) & (1u32 << m)) == (chen & (1u32 << m)) && ((chen & !(1u32 << n))
        & (1u32 << m)) == (chen & (1u32 << m))) by (bit_vector)
        requires
            n < 32u32,
            m < 32u32,
            m != n,
    ;
}

/// Law: enabling channel `n` and then disabling it leaves every other
/// channel's enable bit exactly as it was.
pub proof fn lemma_enable_disable_preserves_others(chen: u32, n: u32, m: u32)
    requires
        n < CHANNEL_COUNT,
        m < CHANNEL_COUNT,
        m != n,
    ensures
        ((((chen | (1u32 << n)) & !(1u32 << n)) & (1u32 << m)) != 0) == ((chen & (1u32 << m)) != 0),
{
    assert((((chen | (1u32 << n)) & !(1u32 << n)) & (1u32 << m)) == (chen & (1u32 << m)))
        by (bit_vector)
        requires
            n < 32u32,
            m < 32u32,
            m != n,
    ;
}

} // verus!
