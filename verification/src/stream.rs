//! Streaming buffer bridge.
//!
//! Layers continuous, interrupt-driven duplex transport with backpressure on
//! top of a DMA-capable serial peripheral: a transmit ring and a receive ring
//! are each split between the application side and the peripheral-facing
//! [`StreamContext`], which the interrupt handler owns exclusively. The
//! application writes through [`TxHandle`] and reads through [`RxHandle`]; a
//! full producer half rejects writes at once and an empty consumer half
//! rejects reads at once — nothing blocks and nothing is overwritten.
//!
//! Rather than stretching short-lived borrows to the interrupt's lifetime,
//! the context is the statically allocated arena itself: starting a stream
//! merely partitions it into producer and consumer views, and the handles are
//! the application's capabilities onto those views.

use vstd::prelude::*;

use crate::ring::{RingBuffer, push_result};

verus! {

/// Minimal model of the serial peripheral's DMA registers that the bridge
/// programs on each interrupt.
#[derive(Clone, Copy, PartialEq, Eq, Debug)]
pub struct UarteRegs {
    /// TXD.MAXCNT: number of scratch bytes handed to the transmit DMA.
    pub txd_maxcnt: u32,
    /// The transmit start task was triggered for the current scratch.
    pub tx_started: bool,
}

/// The application's write path into the transmit ring (the producer half).
pub struct TxHandle {
    _private: (),
}

/// The application's read path out of the receive ring (the consumer half).
pub struct RxHandle {
    _private: (),
}

/// Bundles a transmit ring, a receive ring, two raw scratch buffers and the
/// peripheral handle, ready to be split for streaming.
pub struct UarteStreamer {
    /// The owned peripheral.
    pub periph: UarteRegs,
    /// Ring the application fills and the interrupt drains.
    pub tx_ring: RingBuffer,
    /// Ring the interrupt fills and the application drains.
    pub rx_ring: RingBuffer,
    /// Scratch region the transmit DMA sends from.
    pub tx_buf: Vec<u8>,
    /// Scratch region the receive DMA deposits into.
    pub rx_buf: Vec<u8>,
}

/// Process-wide streaming state, held for the interrupt handler's exclusive
/// use: the peripheral-facing halves of both rings, the raw scratch buffers
/// and the peripheral handle. Written once at setup; only one streaming
/// context should exist at a time.
pub struct StreamContext {
    /// The owned peripheral.
    pub periph: UarteRegs,
    /// Transmit ring; the context holds its consumer half.
    pub tx_ring: RingBuffer,
    /// Receive ring; the context holds its producer half.
    pub rx_ring: RingBuffer,
    /// Scratch region the transmit DMA sends from.
    pub tx_buf: Vec<u8>,
    /// Scratch region the receive DMA deposits into.
    pub rx_buf: Vec<u8>,
    /// Bytes the receive DMA has deposited in `rx_buf` since the last service.
    pub rx_pending: usize,
}

/// A vector of `n` zero bytes.
fn zeroed(n: usize) -> (v: Vec<u8>)
    ensures
        v@.len() == n,
        forall|i: int| 0 <= i < n ==> v@[i] == 0,
{
    let mut v: Vec<u8> = Vec::new();
    while v.len() < n
        invariant
            v@.len() <= n,
            forall|i: int| 0 <= i < v@.len() ==> v@[i] == 0,
        decreases n - v@.len(),
    {
        v.push(0);
    }
    v
}

impl UarteStreamer {
    /// Allocates the arena: two empty rings of the given capacities and two
    /// zeroed scratch regions of the given sizes, bound to the peripheral.
    pub fn new(
        periph: UarteRegs,
        tx_capacity: usize,
        rx_capacity: usize,
        tx_scratch: usize,
        rx_scratch: usize,
    ) -> (r: UarteStreamer)
        ensures
            r.periph == periph,
            r.tx_ring@ == Seq::<u8>::empty(),
            r.tx_ring.capacity_spec() == tx_capacity,
            r.rx_ring@ == Seq::<u8>::empty(),
            r.rx_ring.capacity_spec() == rx_capacity,
            r.tx_buf@.len() == tx_scratch,
            r.rx_buf@.len() == rx_scratch,
    {
        UarteStreamer {
            periph,
            tx_ring: RingBuffer::with_capacity(tx_capacity),
            rx_ring: RingBuffer::with_capacity(rx_capacity),
            tx_buf: zeroed(tx_scratch),
            rx_buf: zeroed(rx_scratch),
        }
    }

    /// Splits each ring into its two halves and retains the peripheral-facing
    /// halves, the scratch buffers and the peripheral inside the streaming
    /// context, returning the application-facing write path and read path.
    pub fn rip_and_grip(self) -> (r: (TxHandle, RxHandle, StreamContext))
        ensures
            r.2.periph == self.periph,
            r.2.tx_ring == self.tx_ring,
            r.2.rx_ring == self.rx_ring,
            r.2.tx_buf@ == self.tx_buf@,
            r.2.rx_buf@ == self.rx_buf@,
            r.2.rx_pending == 0,
    {
        let UarteStreamer { periph, tx_ring, rx_ring, tx_buf, rx_buf } = self;
        let context = StreamContext { periph, tx_ring, rx_ring, tx_buf, rx_buf, rx_pending: 0 };
        (TxHandle { _private: () }, RxHandle { _private: () }, context)
    }
}

impl TxHandle {
    /// Queues a byte for transmission. A full ring rejects the byte at once —
    /// backpressure; the caller must retry later. Touches only the transmit
    /// ring's head.
    pub fn push(&self, ctx: &mut StreamContext, byte: u8) -> (r: Result<(), u8>)
        ensures
            final(ctx).tx_ring@ == push_result(
                old(ctx).tx_ring@,
                old(ctx).tx_ring.capacity_spec(),
                byte,
            ),
            old(ctx).tx_ring@.len() < old(ctx).tx_ring.capacity_spec() ==> r == Ok::<(), u8>(()),
            old(ctx).tx_ring@.len() == old(ctx).tx_ring.capacity_spec() ==> r == Err::<(), u8>(
                byte,
            ),
            final(ctx).tx_ring.capacity_spec() == old(ctx).tx_ring.capacity_spec(),
            final(ctx).rx_ring == old(ctx).rx_ring,
            final(ctx).periph == old(ctx).periph,
            final(ctx).tx_buf@ == old(ctx).tx_buf@,
            final(ctx).rx_buf@ == old(ctx).rx_buf@,
            final(ctx).rx_pending == old(ctx).rx_pending,
    {
        ctx.tx_ring.push(byte)
    }
}

impl RxHandle {
    /// Takes the oldest received byte, or `None` at once when nothing is
    /// queued. Touches only the receive ring's tail.
    pub fn pop(&self, ctx: &mut StreamContext) -> (r: Option<u8>)
        ensures
            old(ctx).rx_ring@.len() == 0 ==> r is None && final(ctx).rx_ring@ == old(ctx).rx_ring@,
            old(ctx).rx_ring@.len() > 0 ==> r == Some(old(ctx).rx_ring@[0]) && final(ctx).rx_ring@
                == old(ctx).rx_ring@.skip(1),
            final(ctx).rx_ring.capacity_spec() == old(ctx).rx_ring.capacity_spec(),
            final(ctx).tx_ring == old(ctx).tx_ring,
            final(ctx).periph == old(ctx).periph,
            final(ctx).tx_buf@ == old(ctx).tx_buf@,
            final(ctx).rx_buf@ == old(ctx).rx_buf@,
            final(ctx).rx_pending == old(ctx).rx_pending,
    {
        ctx.rx_ring.pop()
    }
}

impl StreamContext {
    /// Models the receive DMA depositing `bytes` at the start of the receive
    /// scratch. Bytes of an earlier deposit not yet moved into the receive
    /// ring are overwritten — a receive overrun, as on the wire.
    pub fn hw_receive(&mut self, bytes: &Vec<u8>)
        requires
            bytes@.len() <= old(self).rx_buf@.len(),
        ensures
            final(self).rx_pending == bytes@.len(),
            final(self).rx_buf@.len() == old(self).rx_buf@.len(),
            forall|i: int| 0 <= i < bytes@.len() ==> final(self).rx_buf@[i] == bytes@[i],
            forall|i: int|
                bytes@.len() <= i < old(self).rx_buf@.len() ==> final(self).rx_buf@[i] == old(
                    self,
                ).rx_buf@[i],
            final(self).tx_ring == old(self).tx_ring,
            final(self).rx_ring == old(self).rx_ring,
            final(self).periph == old(self).periph,
            final(self).tx_buf@ == old(self).tx_buf@,
    {
        let mut i: usize = 0;
        while i < bytes.len()
            invariant
                i <= bytes@.len(),
                bytes@.len() <= self.rx_buf@.len(),
                self.rx_buf@.len() == old(self).rx_buf@.len(),
                forall|j: int| 0 <= j < i ==> self.rx_buf@[j] == bytes@[j],
                forall|j: int|
                    i <= j < old(self).rx_buf@.len() ==> self.rx_buf@[j] == old(self).rx_buf@[j],
                self.tx_ring == old(self).tx_ring,
                self.rx_ring == old(self).rx_ring,
                self.periph == old(self).periph,
                self.tx_buf@ == old(self).tx_buf@,
                self.rx_pending == old(self).rx_pending,
            decreases bytes@.len() - i,
        {
            self.rx_buf[i] = bytes[i];
            i = i + 1;
        }
        self.rx_pending = bytes.len();
    }

    /// One run of the interrupt handler: run-to-completion, never blocking.
    ///
    /// Drains the transmit ring into the transmit scratch — stopping when the
    /// ring is empty or the scratch is full — and programs the transmit DMA
    /// with the count; then moves the deposited receive-scratch bytes into
    /// the receive ring — a full ring rejects the remainder, which is lost as
    /// receive overrun. Returns `(accepted, sent)`: the received bytes queued
    /// and the transmit bytes drained.
    pub fn service(&mut self) -> (r: (usize, usize))
        requires
            old(self).rx_pending <= old(self).rx_buf@.len(),
            old(self).tx_buf@.len() <= 0xFFFF,
        ensures
            r.0 <= old(self).rx_pending,
            final(self).rx_ring@ == old(self).rx_ring@ + old(self).rx_buf@.take(r.0 as int),
            r.0 == old(self).rx_pending || final(self).rx_ring@.len() == final(self)
                .rx_ring.capacity_spec(),
            final(self).rx_pending == 0,
            r.1 <= old(self).tx_ring@.len(),
            r.1 <= old(self).tx_buf@.len(),
            r.1 == old(self).tx_ring@.len() || r.1 == old(self).tx_buf@.len(),
            final(self).tx_ring@ == old(self).tx_ring@.skip(r.1 as int),
            final(self).tx_buf@.len() == old(self).tx_buf@.len(),
            forall|i: int| 0 <= i < r.1 ==> final(self).tx_buf@[i] == old(self).tx_ring@[i],
            forall|i: int|
                r.1 <= i < old(self).tx_buf@.len() ==> final(self).tx_buf@[i] == old(
                    self,
                ).tx_buf@[i],
            final(self).periph.txd_maxcnt == r.1 as u32,
            final(self).periph.tx_started == (r.1 > 0),
            final(self).rx_buf@ == old(self).rx_buf@,
            final(self).tx_ring.capacity_spec() == old(self).tx_ring.capacity_spec(),
            final(self).rx_ring.capacity_spec() == old(self).rx_ring.capacity_spec(),
    {
        // Drain the transmit ring into the transmit scratch.
        let mut sent: usize = 0;
        let mut ring_empty: bool = false;
        while !ring_empty && sent < self.tx_buf.len()
            invariant
                sent <= self.tx_buf@.len(),
                sent <= old(self).tx_ring@.len(),
                self.tx_buf@.len() == old(self).tx_buf@.len(),
                self.tx_ring@ == old(self).tx_ring@.skip(sent as int),
                self.tx_ring.capacity_spec() == old(self).tx_ring.capacity_spec(),
                ring_empty ==> self.tx_ring@.len() == 0,
                forall|i: int| 0 <= i < sent ==> self.tx_buf@[i] == old(self).tx_ring@[i],
                forall|i: int|
                    sent <= i < old(self).tx_buf@.len() ==> self.tx_buf@[i] == old(
                        self,
                    ).tx_buf@[i],
                self.rx_ring == old(self).rx_ring,
                self.rx_buf@ == old(self).rx_buf@,
                self.rx_pending == old(self).rx_pending,
                self.periph == old(self).periph,
            decreases self.tx_buf@.len() - sent, (if ring_empty { 0int } else { 1int }),
        {
            match self.tx_ring.pop() {
                Some(b) => {
                    proof {
                        assert(old(self).tx_ring@.skip(sent as int).skip(1) =~= old(
                            self,
                        ).tx_ring@.skip(sent as int + 1));
                    }
                    self.tx_buf[sent] = b;
                    sent = sent + 1;
                },
                None => {
                    ring_empty = true;
                },
            }
        }
        self.periph.txd_maxcnt = sent as u32;
        self.periph.tx_started = sent > 0;

        // Refill the receive ring from the receive scratch.
        let mut accepted: usize = 0;
        let mut ring_full: bool = false;
        while !ring_full && accepted < self.rx_pending
            invariant
                accepted <= self.rx_pending,
                self.rx_pending <= self.rx_buf@.len(),
                self.rx_pending == old(self).rx_pending,
                self.rx_buf@ == old(self).rx_buf@,
                self.rx_ring@ == old(self).rx_ring@ + old(self).rx_buf@.take(accepted as int),
                self.rx_ring.capacity_spec() == old(self).rx_ring.capacity_spec(),
                ring_full ==> self.rx_ring@.len() == self.rx_ring.capacity_spec(),
                self.tx_ring@ == old(self).tx_ring@.skip(sent as int),
                self.tx_ring.capacity_spec() == old(self).tx_ring.capacity_spec(),
                self.tx_buf@.len() == old(self).tx_buf@.len(),
                forall|i: int| 0 <= i < sent ==> self.tx_buf@[i] == old(self).tx_ring@[i],
                forall|i: int|
                    sent <= i < old(self).tx_buf@.len() ==> self.tx_buf@[i] == old(
                        self,
                    ).tx_buf@[i],
                self.periph.txd_maxcnt == sent as u32,
                self.periph.tx_started == (sent > 0),
            decreases self.rx_pending - accepted, (if ring_full { 0int } else { 1int }),
        {
            let b: u8 = self.rx_buf[accepted];
            match self.rx_ring.push(b) {
                Ok(_) => {
                    proof {
                        assert(old(self).rx_ring@ + old(self).rx_buf@.take(accepted as int + 1)
                            =~= (old(self).rx_ring@ + old(self).rx_buf@.take(
                            accepted as int,
                        )).push(b));
                    }
                    accepted = accepted + 1;
                },
                Err(_) => {
                    ring_full = true;
                },
            }
        }
        self.rx_pending = 0;

        (accepted, sent)
    }
}

} // verus!
