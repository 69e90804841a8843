use nrf_hal_common::saadc::{
    Error, Gain, InternalVdd, Oversample, PendingTransfer, Reference, Resistor, Resolution, Saadc,
    SaadcConfig, SaadcRegs, Time, EASY_DMA_SIZE,
};

fn fresh_saadc() -> Saadc {
    Saadc::new(SaadcRegs::new(), SaadcConfig::default())
}

#[test]
fn default_config_values() {
    let c = SaadcConfig::default();
    assert_eq!(c.resolution, Resolution::_14BIT);
    assert_eq!(c.oversample, Oversample::OVER8X);
    assert_eq!(c.reference, Reference::VDD1_4);
    assert_eq!(c.gain, Gain::GAIN1_4);
    assert_eq!(c.resistor, Resistor::BYPASS);
    assert_eq!(c.time, Time::_20US);
}

#[test]
fn new_enables_configures_and_calibrates() {
    let s = fresh_saadc();
    assert!(s.regs.enabled);
    assert!(s.regs.samplerate_task_mode);
    assert!(s.regs.events_calibratedone);
    assert_eq!(s.regs.resolution, Resolution::_14BIT);
}

#[test]
fn oversized_buffer_rejected_with_buffer_and_handle_unmodified() {
    let s = fresh_saadc();
    let regs_before = s.regs;
    let buf = vec![7i16; EASY_DMA_SIZE + 1];
    match s.dma_transfer(buf) {
        Ok(_) => panic!("expected rejection"),
        Err((handle, buf_back, e)) => {
            assert_eq!(e, Error::RxBufferTooLong);
            assert_eq!(buf_back.len(), EASY_DMA_SIZE + 1);
            assert!(buf_back.iter().all(|&x| x == 7));
            assert_eq!(handle.regs, regs_before);
        }
    }
}

#[test]
fn enqueue_before_started_then_double_enqueue() {
    let s = fresh_saadc();
    let mut t = match s.dma_transfer(vec![0i16; 4]) {
        Ok(t) => t,
        Err(_) => panic!("arming failed"),
    };

    // The hardware has not signalled that it latched the buffer yet.
    match t.enqueue_next_transfer(vec![0i16; 4]) {
        Err((buf_back, e)) => {
            assert_eq!(e, Error::CurrentTransferStillPending);
            assert_eq!(buf_back.len(), 4);
        }
        Ok(_) => panic!("expected CurrentTransferStillPending"),
    }

    t.hw_mark_started();
    let _pending: PendingTransfer = match t.enqueue_next_transfer(vec![0i16; 4]) {
        Ok(p) => p,
        Err(_) => panic!("first enqueue should succeed"),
    };

    // A second enqueue before either transfer completes.
    match t.enqueue_next_transfer(vec![0i16; 4]) {
        Err((_buf_back, e)) => assert_eq!(e, Error::NextTransferAlreadyEnqueued),
        Ok(_) => panic!("expected NextTransferAlreadyEnqueued"),
    }
}

#[test]
fn oversized_enqueue_rejected() {
    let s = fresh_saadc();
    let mut t = match s.dma_transfer(vec![0i16; 2]) {
        Ok(t) => t,
        Err(_) => panic!("arming failed"),
    };
    t.hw_mark_started();
    match t.enqueue_next_transfer(vec![0i16; EASY_DMA_SIZE + 1]) {
        Err((buf_back, e)) => {
            assert_eq!(e, Error::RxBufferTooLong);
            assert_eq!(buf_back.len(), EASY_DMA_SIZE + 1);
        }
        Ok(_) => panic!("expected RxBufferTooLong"),
    }
}

#[test]
fn amount_mismatch_returns_receive_error_with_resources() {
    let s = fresh_saadc();
    let mut t = match s.dma_transfer(vec![0i16; 4]) {
        Ok(t) => t,
        Err(_) => panic!("arming failed"),
    };
    t.hw_sample();
    t.hw_sample();
    t.hw_stop(); // the engine stops early: amount = 2, requested 4
    assert!(t.is_done());
    match t.wait() {
        Err((buf, handle, e)) => {
            assert_eq!(e, Error::Receive);
            assert_eq!(buf.len(), 4);
            assert!(handle.regs.enabled);
        }
        Ok(_) => panic!("expected Receive error"),
    }
}

#[test]
fn round_trip_returns_buffer_and_reusable_handle() {
    let s = fresh_saadc();
    let mut t = match s.dma_transfer(vec![0i16; 3]) {
        Ok(t) => t,
        Err(_) => panic!("arming failed"),
    };
    assert!(!t.is_done());
    t.hw_sample();
    t.hw_sample();
    t.hw_sample();
    assert!(t.is_done());
    let (buf, handle) = match t.wait() {
        Ok(p) => p,
        Err(_) => panic!("wait failed"),
    };
    assert_eq!(buf.len(), 3);

    // The handle is reusable: arm and complete a second transfer.
    let mut t2 = match handle.dma_transfer(buf) {
        Ok(t) => t,
        Err(_) => panic!("re-arming failed"),
    };
    t2.hw_sample();
    t2.hw_sample();
    t2.hw_sample();
    assert!(match t2.wait() {
        Ok((buf2, _)) => buf2.len() == 3,
        Err(_) => false,
    });
}

#[test]
fn exchange_transfer_wait_swaps_buffers() {
    let s = fresh_saadc();
    let mut t = match s.dma_transfer(vec![0i16; 2]) {
        Ok(t) => t,
        Err(_) => panic!("arming failed"),
    };
    t.hw_mark_started();
    let pending = match t.enqueue_next_transfer(vec![1i16; 2]) {
        Ok(p) => p,
        Err(_) => panic!("enqueue failed"),
    };
    t.hw_sample();
    t.hw_sample();
    assert!(t.is_done());
    let (done_buf, t2) = match t.exchange_transfer_wait(pending) {
        Ok(p) => p,
        Err(_) => panic!("exchange failed"),
    };
    assert_eq!(done_buf.len(), 2);
    assert_eq!(t2.rx_buffer, vec![1i16; 2]);
    assert!(!t2.next_queued);
}

#[test]
fn discard_disables_peripheral_and_returns_resources() {
    let s = fresh_saadc();
    let t = match s.dma_transfer(vec![0i16; 2]) {
        Ok(t) => t,
        Err(_) => panic!("arming failed"),
    };
    let (buf, handle) = t.discard();
    assert_eq!(buf.len(), 2);
    assert!(!handle.regs.enabled);
}

#[test]
fn one_shot_read_returns_sample_value() {
    let mut s = fresh_saadc();
    s.regs.sample_value = -1234;
    assert_eq!(s.read(3), Ok(-1234));
    assert_eq!(s.regs.pselp, Some(3));

    s.regs.sample_value = 99;
    assert_eq!(s.read(InternalVdd::channel()), Ok(99));
    assert_eq!(s.regs.pselp, Some(8));
}
