use rust_sdr_lib::control::{
    lifecycle, sdrlib_close, sdrlib_filter, sdrlib_freq, sdrlib_init, sdrlib_mode, sdrlib_run,
    InitData, Lifecycle, LifecycleError,
};
use rust_sdr_lib::messages::AppMsg;
use rust_sdr_lib::worker::{dispatch, EngineCommand, Worker};

/// Runs a worker to the end of its loop, recording every engine call it makes.
fn drain(mut w: Worker, applied: &mut Vec<EngineCommand>) -> bool {
    while let Some(cmd) = w.next_command() {
        applied.push(cmd);
    }
    !w.is_running()
}

#[test]
fn scenario_freq_then_close() {
    let mut applied: Vec<EngineCommand> = Vec::new();
    let mut slot: Option<InitData<Worker>> = None;
    sdrlib_init(&mut slot);
    assert_eq!(sdrlib_run(&mut slot, Worker::new), Ok(()));
    assert_eq!(lifecycle(&slot), Lifecycle::Running);
    assert_eq!(sdrlib_freq(&mut slot, 7100000), Ok(()));
    assert_eq!(sdrlib_close(&mut slot, |w: Worker| drain(w, &mut applied)), Ok(()));
    assert_eq!(lifecycle(&slot), Lifecycle::Terminated);
    assert_eq!(applied, vec![EngineCommand::SetFrequency(7100000)]);
}

#[test]
fn run_without_init_spawns_nothing() {
    let mut spawned: u32 = 0;
    let mut slot: Option<InitData<u32>> = None;
    let r = sdrlib_run(&mut slot, |_rx: crossbeam_channel::Receiver<AppMsg>| {
        spawned += 1;
        7u32
    });
    assert_eq!(r, Err(LifecycleError::NotInitialized));
    assert_eq!(spawned, 0);
    assert!(slot.is_none());
}

#[test]
fn close_without_run_is_not_running() {
    let mut slot: Option<InitData<u32>> = None;
    sdrlib_init(&mut slot);
    let r = sdrlib_close(&mut slot, |_h: u32| -> bool { panic!("nothing to join") });
    assert_eq!(r, Err(LifecycleError::NotRunning));
    assert_eq!(lifecycle(&slot), Lifecycle::Initialized);
}

#[test]
fn close_before_init_is_not_initialized() {
    let mut slot: Option<InitData<u32>> = None;
    assert_eq!(sdrlib_close(&mut slot, |_h: u32| true), Err(LifecycleError::NotInitialized));
    assert_eq!(lifecycle(&slot), Lifecycle::Uninitialized);
}

#[test]
fn close_twice_joins_once() {
    let mut joins: u32 = 0;
    let mut applied: Vec<EngineCommand> = Vec::new();
    let mut slot: Option<InitData<Worker>> = None;
    sdrlib_init(&mut slot);
    sdrlib_run(&mut slot, Worker::new).unwrap();
    let first = sdrlib_close(&mut slot, |w: Worker| {
        joins += 1;
        drain(w, &mut applied)
    });
    assert_eq!(first, Ok(()));
    let second = sdrlib_close(&mut slot, |w: Worker| {
        joins += 1;
        drain(w, &mut applied)
    });
    assert_eq!(second, Err(LifecycleError::NotRunning));
    assert_eq!(joins, 1);
    assert!(applied.is_empty());
}

#[test]
fn commands_after_close_are_channel_closed() {
    let mut applied: Vec<EngineCommand> = Vec::new();
    let mut slot: Option<InitData<Worker>> = None;
    sdrlib_init(&mut slot);
    sdrlib_run(&mut slot, Worker::new).unwrap();
    sdrlib_close(&mut slot, |w: Worker| drain(w, &mut applied)).unwrap();
    assert_eq!(sdrlib_freq(&mut slot, 14074000), Err(LifecycleError::ChannelClosed));
    assert_eq!(sdrlib_mode(&mut slot, 1), Err(LifecycleError::ChannelClosed));
    assert_eq!(sdrlib_filter(&mut slot, 2), Err(LifecycleError::ChannelClosed));
}

#[test]
fn commands_before_init_are_not_initialized() {
    let mut slot: Option<InitData<u32>> = None;
    assert_eq!(sdrlib_freq(&mut slot, 7000000), Err(LifecycleError::NotInitialized));
    assert_eq!(sdrlib_mode(&mut slot, 0), Err(LifecycleError::NotInitialized));
    assert_eq!(sdrlib_filter(&mut slot, 0), Err(LifecycleError::NotInitialized));
}

#[test]
fn commands_reach_the_worker_in_order() {
    let mut applied: Vec<EngineCommand> = Vec::new();
    let mut slot: Option<InitData<Worker>> = None;
    sdrlib_init(&mut slot);
    // queued before the worker exists, delivered once it starts
    assert_eq!(sdrlib_freq(&mut slot, 3500000), Ok(()));
    sdrlib_run(&mut slot, Worker::new).unwrap();
    assert_eq!(sdrlib_mode(&mut slot, 6), Ok(()));
    assert_eq!(sdrlib_freq(&mut slot, 7100000), Ok(()));
    assert_eq!(sdrlib_filter(&mut slot, 4), Ok(()));
    assert_eq!(sdrlib_freq(&mut slot, 14200000), Ok(()));
    sdrlib_close(&mut slot, |w: Worker| drain(w, &mut applied)).unwrap();
    assert_eq!(
        applied,
        vec![
            EngineCommand::SetFrequency(3500000),
            EngineCommand::SetMode(6),
            EngineCommand::SetFrequency(7100000),
            EngineCommand::SetFilter(4),
            EngineCommand::SetFrequency(14200000),
        ]
    );
}

#[test]
fn run_twice_is_already_running() {
    let mut slot: Option<InitData<u32>> = None;
    sdrlib_init(&mut slot);
    assert_eq!(sdrlib_run(&mut slot, |_rx: crossbeam_channel::Receiver<AppMsg>| 1u32), Ok(()));
    let r = sdrlib_run(&mut slot, |_rx: crossbeam_channel::Receiver<AppMsg>| -> u32 {
        panic!("must not spawn twice")
    });
    assert_eq!(r, Err(LifecycleError::AlreadyRunning));
    assert_eq!(lifecycle(&slot), Lifecycle::Running);
}

#[test]
fn run_after_close_is_refused() {
    let mut applied: Vec<EngineCommand> = Vec::new();
    let mut slot: Option<InitData<Worker>> = None;
    sdrlib_init(&mut slot);
    sdrlib_run(&mut slot, Worker::new).unwrap();
    assert_eq!(sdrlib_close(&mut slot, |w: Worker| drain(w, &mut applied)), Ok(()));
    let r = sdrlib_run(&mut slot, |rx: crossbeam_channel::Receiver<AppMsg>| -> Worker {
        let _ = rx;
        panic!("must not spawn after close")
    });
    assert_eq!(r, Err(LifecycleError::AlreadyRunning));
    assert_eq!(lifecycle(&slot), Lifecycle::Terminated);
}

#[test]
fn failed_join_is_reported() {
    let mut slot: Option<InitData<u32>> = None;
    sdrlib_init(&mut slot);
    sdrlib_run(&mut slot, |_rx: crossbeam_channel::Receiver<AppMsg>| 5u32).unwrap();
    assert_eq!(sdrlib_close(&mut slot, |_h: u32| false), Err(LifecycleError::JoinFailure));
    assert_eq!(lifecycle(&slot), Lifecycle::Terminated);
    assert_eq!(sdrlib_close(&mut slot, |_h: u32| true), Err(LifecycleError::NotRunning));
}

#[test]
fn join_gets_the_spawned_handle() {
    let mut slot: Option<InitData<(u32, crossbeam_channel::Receiver<AppMsg>)>> = None;
    sdrlib_init(&mut slot);
    sdrlib_run(&mut slot, |rx: crossbeam_channel::Receiver<AppMsg>| (41u32, rx)).unwrap();
    let mut seen: u32 = 0;
    sdrlib_close(&mut slot, |h: (u32, crossbeam_channel::Receiver<AppMsg>)| {
        seen = h.0;
        true
    })
    .unwrap();
    assert_eq!(seen, 41);
}

#[test]
fn close_queues_terminate() {
    let mut slot: Option<InitData<crossbeam_channel::Receiver<AppMsg>>> = None;
    sdrlib_init(&mut slot);
    sdrlib_run(&mut slot, |r: crossbeam_channel::Receiver<AppMsg>| r).unwrap();
    sdrlib_freq(&mut slot, 10).unwrap();
    let mut kept: Option<crossbeam_channel::Receiver<AppMsg>> = None;
    sdrlib_close(&mut slot, |r: crossbeam_channel::Receiver<AppMsg>| {
        kept = Some(r);
        true
    })
    .unwrap();
    let r = kept.unwrap();
    assert_eq!(r.try_recv(), Ok(AppMsg::Frequency(10)));
    assert_eq!(r.try_recv(), Ok(AppMsg::Terminate));
}

#[test]
fn init_again_replaces_state() {
    let mut slot: Option<InitData<u32>> = None;
    sdrlib_init(&mut slot);
    sdrlib_run(&mut slot, |_rx: crossbeam_channel::Receiver<AppMsg>| 1u32).unwrap();
    sdrlib_init(&mut slot);
    assert_eq!(lifecycle(&slot), Lifecycle::Initialized);
}

#[test]
fn dispatch_maps_each_command() {
    assert_eq!(dispatch(AppMsg::Terminate), None);
    assert_eq!(dispatch(AppMsg::Frequency(7100000)), Some(EngineCommand::SetFrequency(7100000)));
    assert_eq!(dispatch(AppMsg::Mode(-3)), Some(EngineCommand::SetMode(-3)));
    assert_eq!(dispatch(AppMsg::Filter(9)), Some(EngineCommand::SetFilter(9)));
}

#[test]
fn worker_discards_backlog_after_terminate() {
    let (s, r) = crossbeam_channel::unbounded();
    s.send(AppMsg::Frequency(1)).unwrap();
    s.send(AppMsg::Terminate).unwrap();
    s.send(AppMsg::Frequency(2)).unwrap();
    let mut w = Worker::new(r);
    assert!(w.is_running());
    assert_eq!(w.next_command(), Some(EngineCommand::SetFrequency(1)));
    assert_eq!(w.next_command(), None);
    assert!(!w.is_running());
    assert_eq!(w.next_command(), None);
}

#[test]
fn worker_stops_when_senders_are_gone() {
    let (s, r) = crossbeam_channel::unbounded();
    s.send(AppMsg::Mode(2)).unwrap();
    drop(s);
    let mut w = Worker::new(r);
    assert_eq!(w.next_command(), Some(EngineCommand::SetMode(2)));
    assert_eq!(w.next_command(), None);
    assert!(!w.is_running());
}

#[test]
fn close_after_worker_vanished_is_channel_closed() {
    // the "worker" drops its receiver at once, so `Terminate` cannot be queued
    let mut slot: Option<InitData<u32>> = None;
    sdrlib_init(&mut slot);
    sdrlib_run(&mut slot, |_rx: crossbeam_channel::Receiver<AppMsg>| 1u32).unwrap();
    let mut joined: u32 = 0;
    let r = sdrlib_close(&mut slot, |h: u32| {
        joined = h;
        true
    });
    assert_eq!(r, Err(LifecycleError::ChannelClosed));
    assert_eq!(joined, 1);
    assert_eq!(lifecycle(&slot), Lifecycle::Terminated);
}

#[test]
fn send_to_vanished_worker_is_channel_closed() {
    let mut slot: Option<InitData<u32>> = None;
    sdrlib_init(&mut slot);
    sdrlib_run(&mut slot, |_rx: crossbeam_channel::Receiver<AppMsg>| 1u32).unwrap();
    assert_eq!(sdrlib_freq(&mut slot, 7100000), Err(LifecycleError::ChannelClosed));
    assert_eq!(sdrlib_mode(&mut slot, 1), Err(LifecycleError::ChannelClosed));
    assert_eq!(sdrlib_filter(&mut slot, 1), Err(LifecycleError::ChannelClosed));
    assert_eq!(lifecycle(&slot), Lifecycle::Running);
}

#[test]
fn worker_applies_each_command_until_terminate() {
    let (s, r) = crossbeam_channel::unbounded();
    s.send(AppMsg::Frequency(5)).unwrap();
    s.send(AppMsg::Filter(3)).unwrap();
    let mut first = Worker::new(r);
    assert_eq!(first.next_command(), Some(EngineCommand::SetFrequency(5)));
    assert_eq!(first.next_command(), Some(EngineCommand::SetFilter(3)));
    s.send(AppMsg::Terminate).unwrap();
    assert_eq!(first.next_command(), None);
}
