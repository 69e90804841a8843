use nrf_hal_common::ring::RingBuffer;
use nrf_hal_common::stream::{UarteRegs, UarteStreamer};

fn fresh_periph() -> UarteRegs {
    UarteRegs { txd_maxcnt: 0, tx_started: false }
}

#[test]
fn ring_accepts_capacity_then_rejects_then_recovers() {
    let mut rb = RingBuffer::with_capacity(4);
    assert_eq!(rb.capacity(), 4);
    for i in 0..4u8 {
        assert_eq!(rb.push(i), Ok(()));
    }
    assert!(rb.is_full());

    // The fifth push is rejected and the queue is unchanged.
    assert_eq!(rb.push(99), Err(99));
    assert_eq!(rb.len(), 4);

    // Draining one byte makes room again.
    assert_eq!(rb.pop(), Some(0));
    assert_eq!(rb.push(99), Ok(()));

    // Order is preserved throughout.
    assert_eq!(rb.pop(), Some(1));
    assert_eq!(rb.pop(), Some(2));
    assert_eq!(rb.pop(), Some(3));
    assert_eq!(rb.pop(), Some(99));
    assert_eq!(rb.pop(), None);
    assert!(rb.is_empty());
}

#[test]
fn ring_wraps_around_its_storage() {
    let mut rb = RingBuffer::with_capacity(3);
    assert_eq!(rb.push(1), Ok(()));
    assert_eq!(rb.push(2), Ok(()));
    assert_eq!(rb.pop(), Some(1));
    assert_eq!(rb.push(3), Ok(()));
    assert_eq!(rb.push(4), Ok(())); // wraps into the freed slot
    assert_eq!(rb.pop(), Some(2));
    assert_eq!(rb.pop(), Some(3));
    assert_eq!(rb.pop(), Some(4));
    assert_eq!(rb.pop(), None);
}

#[test]
fn service_drains_tx_ring_into_scratch() {
    let streamer = UarteStreamer::new(fresh_periph(), 8, 8, 4, 4);
    let (tx, _rx, mut ctx) = streamer.rip_and_grip();

    for b in [1u8, 2, 3, 4, 5, 6] {
        assert_eq!(tx.push(&mut ctx, b), Ok(()));
    }

    // One interrupt: the scratch takes 4 bytes, the DMA is programmed.
    let (accepted, sent) = ctx.service();
    assert_eq!(accepted, 0);
    assert_eq!(sent, 4);
    assert_eq!(ctx.periph.txd_maxcnt, 4);
    assert!(ctx.periph.tx_started);
    assert_eq!(&ctx.tx_buf[..4], &[1, 2, 3, 4]);

    // The next interrupt drains the remainder.
    let (_, sent2) = ctx.service();
    assert_eq!(sent2, 2);
    assert_eq!(&ctx.tx_buf[..2], &[5, 6]);
    assert_eq!(ctx.periph.txd_maxcnt, 2);

    // Nothing left: the DMA is not started for an empty scratch.
    let (_, sent3) = ctx.service();
    assert_eq!(sent3, 0);
    assert!(!ctx.periph.tx_started);
}

#[test]
fn service_moves_received_bytes_into_rx_ring_with_backpressure() {
    // Receive ring of capacity 3, scratch of 4 bytes.
    let streamer = UarteStreamer::new(fresh_periph(), 8, 3, 4, 4);
    let (_tx, rx, mut ctx) = streamer.rip_and_grip();

    ctx.hw_receive(&vec![10u8, 11, 12, 13]);
    let (accepted, _sent) = ctx.service();

    // The full producer half rejected the fourth byte (receive overrun).
    assert_eq!(accepted, 3);
    assert_eq!(rx.pop(&mut ctx), Some(10));
    assert_eq!(rx.pop(&mut ctx), Some(11));
    assert_eq!(rx.pop(&mut ctx), Some(12));
    assert_eq!(rx.pop(&mut ctx), None);

    // After draining, the next deposit goes through in full.
    ctx.hw_receive(&vec![20u8, 21]);
    let (accepted2, _) = ctx.service();
    assert_eq!(accepted2, 2);
    assert_eq!(rx.pop(&mut ctx), Some(20));
    assert_eq!(rx.pop(&mut ctx), Some(21));
    assert_eq!(rx.pop(&mut ctx), None);
}

#[test]
fn tx_backpressure_rejects_writes_when_full() {
    let streamer = UarteStreamer::new(fresh_periph(), 2, 2, 2, 2);
    let (tx, _rx, mut ctx) = streamer.rip_and_grip();
    assert_eq!(tx.push(&mut ctx, 1), Ok(()));
    assert_eq!(tx.push(&mut ctx, 2), Ok(()));
    assert_eq!(tx.push(&mut ctx, 3), Err(3));
    // After a service drains the ring, pushes are accepted again.
    let (_, sent) = ctx.service();
    assert_eq!(sent, 2);
    assert_eq!(tx.push(&mut ctx, 3), Ok(()));
}

#[test]
fn duplex_round_trip_through_the_bridge() {
    let streamer = UarteStreamer::new(fresh_periph(), 16, 16, 8, 8);
    let (tx, rx, mut ctx) = streamer.rip_and_grip();

    for b in b"hello" {
        assert_eq!(tx.push(&mut ctx, *b), Ok(()));
    }
    ctx.hw_receive(&vec![b'o', b'k']);
    let (accepted, sent) = ctx.service();
    assert_eq!((accepted, sent), (2, 5));
    assert_eq!(&ctx.tx_buf[..5], b"hello");
    assert_eq!(rx.pop(&mut ctx), Some(b'o'));
    assert_eq!(rx.pop(&mut ctx), Some(b'k'));
    assert_eq!(rx.pop(&mut ctx), None);
}
