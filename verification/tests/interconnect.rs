use nrf_hal_common::ppi::{
    Channel, ConfigurablePpi, Event, Parts, Ppi, PpiRegs, Task, Timer0EventsCompare0,
    RADIO_TASKS_RXEN_ADDR, RADIO_TASKS_TXEN_ADDR,
};
use nrf_hal_common::saadc::{
    Saadc, SaadcConfig, SaadcRegs, SaadcTasksSample, SaadcTasksStart, SAADC_TASKS_SAMPLE_ADDR,
    SAADC_TASKS_START_ADDR,
};

#[test]
fn split_yields_one_token_per_index() {
    let parts = Parts::new(PpiRegs::new());
    let indices = vec![
        parts.ppi0.ch(),
        parts.ppi1.ch(),
        parts.ppi2.ch(),
        parts.ppi3.ch(),
        parts.ppi4.ch(),
        parts.ppi5.ch(),
        parts.ppi6.ch(),
        parts.ppi7.ch(),
        parts.ppi8.ch(),
        parts.ppi9.ch(),
        parts.ppi10.ch(),
        parts.ppi11.ch(),
        parts.ppi12.ch(),
        parts.ppi13.ch(),
        parts.ppi14.ch(),
        parts.ppi15.ch(),
        parts.ppi16.ch(),
        parts.ppi17.ch(),
        parts.ppi18.ch(),
        parts.ppi19.ch(),
        parts.ppi20.ch(),
        parts.ppi21.ch(),
        parts.ppi22.ch(),
        parts.ppi23.ch(),
        parts.ppi24.ch(),
        parts.ppi25.ch(),
        parts.ppi26.ch(),
        parts.ppi27.ch(),
        parts.ppi28.ch(),
        parts.ppi29.ch(),
        parts.ppi30.ch(),
        parts.ppi31.ch(),
    ];
    assert_eq!(indices.len(), 32);
    for (i, &c) in indices.iter().enumerate() {
        assert_eq!(c, i as u32);
    }
    // every index appears exactly once
    for i in 0..32 {
        assert_eq!(indices.iter().filter(|&&c| c == i).count(), 1);
    }
}

#[test]
fn enable_disable_leaves_other_channels_unchanged() {
    let mut parts = Parts::new(PpiRegs::new());
    let mut regs = parts.regs;
    parts.ppi1.enable(&mut regs);
    parts.ppi2.enable(&mut regs);
    parts.ppi31.enable(&mut regs);
    let before = regs.chen_read();

    parts.ppi5.enable(&mut regs);
    parts.ppi5.disable(&mut regs);
    let after = regs.chen_read();

    for m in 0..32u32 {
        if m != 5 {
            assert_eq!(before & (1 << m) != 0, after & (1 << m) != 0);
        }
    }
    assert_eq!(after & (1 << 5), 0);
}

#[test]
fn wired_channel_fires_task_with_no_foreground_code() {
    // Wire configurable channel 3: timer compare event -> ADC sample task.
    let parts = Parts::new(PpiRegs::new());
    let mut regs = parts.regs;
    let mut ch3 = parts.ppi3;
    ch3.set_event_endpoint(&mut regs, &Timer0EventsCompare0);
    ch3.set_task_endpoint(&mut regs, &SaadcTasksSample);
    ch3.enable(&mut regs);

    // Driver side: a one-sample transfer is armed and waiting for SAMPLE.
    let saadc = Saadc::new(SaadcRegs::new(), SaadcConfig::default());
    let mut t = match saadc.dma_transfer(vec![0i16; 1]) {
        Ok(t) => t,
        Err(_) => panic!("arming failed"),
    };
    assert!(!t.is_done());

    // The event fires; the interconnect alone routes it to the task.
    let tasks = regs.hw_fire_event(Timer0EventsCompare0.event_addr());
    assert_eq!(tasks, vec![SaadcTasksSample.task_addr().addr()]);
    for addr in tasks {
        assert!(t.saadc.regs.hw_bus_task_write(addr));
    }

    // The task's effect was applied: the one-sample transfer completed.
    assert!(t.is_done());
    match t.wait() {
        Ok((buf, _handle)) => assert_eq!(buf.len(), 1),
        Err(_) => panic!("wait failed"),
    }
}

#[test]
fn fixed_channels_use_preset_routing() {
    let mut parts = Parts::new(PpiRegs::new());
    let mut regs = parts.regs;
    parts.ppi20.enable(&mut regs);
    parts.ppi21.enable(&mut regs);
    let tasks = regs.hw_fire_event(Timer0EventsCompare0.event_addr());
    assert_eq!(tasks, vec![RADIO_TASKS_TXEN_ADDR, RADIO_TASKS_RXEN_ADDR]);
}

#[test]
fn fork_task_triggers_second_task_on_same_event() {
    let parts = Parts::new(PpiRegs::new());
    let mut regs = parts.regs;
    let mut ch4 = parts.ppi4;
    ch4.set_event_endpoint(&mut regs, &Timer0EventsCompare0);
    ch4.set_task_endpoint(&mut regs, &SaadcTasksSample);
    ch4.set_fork_task_endpoint(&mut regs, &SaadcTasksStart);
    ch4.enable(&mut regs);
    let tasks = regs.hw_fire_event(Timer0EventsCompare0.event_addr());
    assert_eq!(tasks, vec![SAADC_TASKS_SAMPLE_ADDR, SAADC_TASKS_START_ADDR]);
}

#[test]
fn disabled_channel_does_not_fire() {
    let parts = Parts::new(PpiRegs::new());
    let mut regs = parts.regs;
    let mut ch6 = parts.ppi6;
    ch6.set_event_endpoint(&mut regs, &Timer0EventsCompare0);
    ch6.set_task_endpoint(&mut regs, &SaadcTasksSample);
    // never enabled
    let tasks = regs.hw_fire_event(Timer0EventsCompare0.event_addr());
    assert_eq!(tasks, Vec::<u32>::new());
}
