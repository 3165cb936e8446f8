//! The control-plane state: the sending end of the command channel, the
//! receiving end until the worker takes it, and the worker's handle while it
//! runs. Every host entry point is a transition of this state.
//!
//! The state lives in a slot (`Option<InitData<H>>`) that is empty until
//! `sdrlib_init`. The thread machinery stays with the caller: `sdrlib_run`
//! hands the receiver to a `spawn` function that returns the worker's handle
//! `H`, and `sdrlib_close` hands that handle to a `join` function that blocks
//! until the worker has exited. Mode and filter changes travel through the
//! channel like frequency changes, so the engine is only touched by the worker.
use vstd::prelude::*;

use crate::channel::{accepted, new_channel, send_msg};
use crate::messages::AppMsg;

verus! {

/// Where a control-plane slot stands in its life.
#[derive(Clone, Copy, Debug, PartialEq, Eq, Structural)]
pub enum Lifecycle {
    /// `sdrlib_init` has not been called.
    Uninitialized,
    /// The channel exists; the worker has not been started.
    Initialized,
    /// The worker owns the receiving end and its handle is held here.
    Running,
    /// The worker has been told to stop and has been joined.
    Terminated,
}

/// A lifecycle call made in the wrong state, or a command that can no longer
/// reach the worker.
#[derive(Clone, Copy, Debug, PartialEq, Eq, Structural)]
pub enum LifecycleError {
    /// The slot holds no state: `sdrlib_init` was never called.
    NotInitialized,
    /// The receiver has already been handed to a worker.
    AlreadyRunning,
    /// There is no running worker to stop.
    NotRunning,
    /// The worker is gone, so the command cannot be delivered.
    ChannelClosed,
    /// The worker thread ended abnormally.
    JoinFailure,
}

enum Stage<H> {
    Ready(crossbeam_channel::Receiver<AppMsg>),
    Running(H),
    Stopped,
}

/// The state created by `sdrlib_init`.
pub struct InitData<H> {
    sender: crossbeam_channel::Sender<AppMsg>,
    stage: Stage<H>,
}

impl<H> InitData<H> {
    /// Where this state stands: its receiver still here, its worker running,
    /// or its worker stopped.
    pub closed spec fn stage_phase(&self) -> Lifecycle {
        match self.stage {
            Stage::Ready(_) => Lifecycle::Initialized,
            Stage::Running(_) => Lifecycle::Running,
            Stage::Stopped => Lifecycle::Terminated,
        }
    }

    /// The commands the channel has accepted through this state's sender, in
    /// the order it accepted them.
    pub closed spec fn sent(&self) -> Seq<AppMsg> {
        accepted(self.sender)
    }
}

/// Where the slot stands in its life.
pub open spec fn phase<H>(slot: Option<InitData<H>>) -> Lifecycle {
    match slot {
        None => Lifecycle::Uninitialized,
        Some(d) => d.stage_phase(),
    }
}

/// The commands the slot's current channel has accepted, in order; nothing
/// for an empty slot.
pub open spec fn sent_log<H>(slot: Option<InitData<H>>) -> Seq<AppMsg> {
    match slot {
        None => Seq::empty(),
        Some(d) => d.sent(),
    }
}

/// The receiving end held by an initialised slot.
pub closed spec fn ready_receiver<H>(slot: Option<InitData<H>>) -> crossbeam_channel::Receiver<
    AppMsg,
> {
    match slot {
        Some(InitData { stage: Stage::Ready(rx), .. }) => rx,
        _ => arbitrary(),
    }
}

/// The worker handle held by a running slot.
pub closed spec fn running_handle<H>(slot: Option<InitData<H>>) -> H {
    match slot {
        Some(InitData { stage: Stage::Running(h), .. }) => h,
        _ => arbitrary(),
    }
}

/// Why `sdrlib_run` refuses to start a worker in a given state, if it does.
pub open spec fn run_refusal(p: Lifecycle) -> Option<LifecycleError> {
    match p {
        Lifecycle::Uninitialized => Some(LifecycleError::NotInitialized),
        Lifecycle::Initialized => None,
        Lifecycle::Running | Lifecycle::Terminated => Some(LifecycleError::AlreadyRunning),
    }
}

/// Why `sdrlib_close` refuses to shut down in a given state, if it does.
pub open spec fn close_refusal(p: Lifecycle) -> Option<LifecycleError> {
    match p {
        Lifecycle::Uninitialized => Some(LifecycleError::NotInitialized),
        Lifecycle::Running => None,
        Lifecycle::Initialized | Lifecycle::Terminated => Some(LifecycleError::NotRunning),
    }
}

/// Why a command cannot be queued in a given state, if it cannot.
pub open spec fn send_refusal(p: Lifecycle) -> Option<LifecycleError> {
    match p {
        Lifecycle::Uninitialized => Some(LifecycleError::NotInitialized),
        Lifecycle::Terminated => Some(LifecycleError::ChannelClosed),
        Lifecycle::Initialized | Lifecycle::Running => None,
    }
}

/// The state `sdrlib_close` leaves behind.
pub open spec fn phase_after_close(p: Lifecycle) -> Lifecycle {
    if p == Lifecycle::Running {
        Lifecycle::Terminated
    } else {
        p
    }
}

/// Reports where the slot stands.
pub fn lifecycle<H>(slot: &Option<InitData<H>>) -> (r: Lifecycle)
    ensures
        r == phase(*slot),
{
    match slot {
        None => Lifecycle::Uninitialized,
        Some(d) => match &d.stage {
            Stage::Ready(_) => Lifecycle::Initialized,
            Stage::Running(_) => Lifecycle::Running,
            Stage::Stopped => Lifecycle::Terminated,
        },
    }
}

/// Creates a fresh channel and stores it in the slot, replacing whatever
/// state was there.
pub fn sdrlib_init<H>(slot: &mut Option<InitData<H>>)
    ensures
        phase(*final(slot)) == Lifecycle::Initialized,
        sent_log(*final(slot)) == Seq::<AppMsg>::empty(),
{
    let (s, r) = new_channel();
    *slot = Some(InitData { sender: s, stage: Stage::Ready(r) });
}

/// Starts the worker: hands the receiving end to `spawn`, which starts the
/// worker thread on it and returns its handle, and keeps that handle. Only an
/// initialised slot whose receiver is still here can start a worker; in any
/// other state nothing is spawned and the slot is left as it was.
pub fn sdrlib_run<H, F: FnOnce(crossbeam_channel::Receiver<AppMsg>) -> H>(
    slot: &mut Option<InitData<H>>,
    spawn: F,
) -> (r: Result<(), LifecycleError>)
    requires
        forall|rx: crossbeam_channel::Receiver<AppMsg>| spawn.requires((rx,)),
    ensures
        run_refusal(phase(*old(slot))) is Some ==> r == Err::<(), LifecycleError>(
            run_refusal(phase(*old(slot)))->Some_0,
        ) && *final(slot) == *old(slot),
        run_refusal(phase(*old(slot))) is None ==> {
            &&& r is Ok
            &&& phase(*final(slot)) == Lifecycle::Running
            &&& sent_log(*final(slot)) == sent_log(*old(slot))
            &&& spawn.ensures((ready_receiver(*old(slot)),), running_handle(*final(slot)))
        },
{
    match slot {
        None => Err(LifecycleError::NotInitialized),
        Some(d) => {
            let mut stage = Stage::Stopped;
            core::mem::swap(&mut d.stage, &mut stage);
            match stage {
                Stage::Ready(rx) => {
                    let h = spawn(rx);
                    d.stage = Stage::Running(h);
                    Ok(())
                },
                other => {
                    d.stage = other;
                    Err(LifecycleError::AlreadyRunning)
                },
            }
        },
    }
}

/// Shuts the worker down: queues `Terminate`, takes the worker's handle and
/// hands it to `join`, which blocks until the worker thread has exited and
/// tells whether it exited normally. A worker that ended abnormally gives
/// `JoinFailure`; one that was gone before `Terminate` could be queued gives
/// `ChannelClosed`. The handle is taken exactly once: once
/// this returns the slot holds no running worker, so a second call is refused
/// with `NotRunning` and joins nothing.
pub fn sdrlib_close<H, J: FnOnce(H) -> bool>(slot: &mut Option<InitData<H>>, join: J) -> (r:
    Result<(), LifecycleError>)
    requires
        forall|h: H| join.requires((h,)),
    ensures
        phase(*final(slot)) == phase_after_close(phase(*old(slot))),
        close_refusal(phase(*old(slot))) is Some ==> r == Err::<(), LifecycleError>(
            close_refusal(phase(*old(slot)))->Some_0,
        ) && *final(slot) == *old(slot),
        close_refusal(phase(*old(slot))) is None ==> {
            &&& r is Ok ==> join.ensures((running_handle(*old(slot)),), true) && sent_log(
                *final(slot),
            ) == sent_log(*old(slot)).push(AppMsg::Terminate)
            &&& r == Err::<(), LifecycleError>(LifecycleError::ChannelClosed) ==> join.ensures(
                (running_handle(*old(slot)),),
                true,
            ) && sent_log(*final(slot)) == sent_log(*old(slot))
            &&& r == Err::<(), LifecycleError>(LifecycleError::JoinFailure) ==> join.ensures(
                (running_handle(*old(slot)),),
                false,
            ) && (sent_log(*final(slot)) == sent_log(*old(slot)).push(AppMsg::Terminate)
                || sent_log(*final(slot)) == sent_log(*old(slot)))
            &&& r is Ok || r == Err::<(), LifecycleError>(LifecycleError::ChannelClosed) || r
                == Err::<(), LifecycleError>(LifecycleError::JoinFailure)
        },
{
    match slot {
        None => Err(LifecycleError::NotInitialized),
        Some(d) => {
            let mut stage = Stage::Stopped;
            core::mem::swap(&mut d.stage, &mut stage);
            match stage {
                Stage::Running(h) => {
                    let queued = send_msg(&mut d.sender, AppMsg::Terminate);
                    if !join(h) {
                        Err(LifecycleError::JoinFailure)
                    } else if !queued {
                        Err(LifecycleError::ChannelClosed)
                    } else {
                        Ok(())
                    }
                },
                other => {
                    d.stage = other;
                    Err(LifecycleError::NotRunning)
                },
            }
        },
    }
}

/// What queuing `m` did, from the slot before and after and the result: in a
/// state that refuses commands, the refusal and no change; otherwise either
/// `Ok` with `m` accepted by the channel behind everything accepted before,
/// or `ChannelClosed` with nothing accepted. The state and the worker handle
/// never change.
pub open spec fn send_outcome<H>(
    before: Option<InitData<H>>,
    after: Option<InitData<H>>,
    m: AppMsg,
    r: Result<(), LifecycleError>,
) -> bool {
    &&& phase(after) == phase(before)
    &&& running_handle(after) == running_handle(before)
    &&& match send_refusal(phase(before)) {
        Some(e) => r == Err::<(), LifecycleError>(e) && after == before,
        None => match r {
            Ok(()) => sent_log(after) == sent_log(before).push(m),
            Err(e) => e == LifecycleError::ChannelClosed && sent_log(after) == sent_log(before),
        },
    }
}

/// Queues one command for the worker. A worker that has been shut down
/// drains nothing more, so after `sdrlib_close` the command is refused with
/// `ChannelClosed` without touching the channel.
fn send_command<H>(slot: &mut Option<InitData<H>>, m: AppMsg) -> (r: Result<(), LifecycleError>)
    ensures
        send_outcome(*old(slot), *final(slot), m, r),
{
    match slot {
        None => Err(LifecycleError::NotInitialized),
        Some(d) => {
            if matches!(d.stage, Stage::Stopped) {
                return Err(LifecycleError::ChannelClosed);
            }
            if send_msg(&mut d.sender, m) {
                Ok(())
            } else {
                Err(LifecycleError::ChannelClosed)
            }
        },
    }
}

/// Queues a frequency change (Hz) for the worker and returns at once.
pub fn sdrlib_freq<H>(slot: &mut Option<InitData<H>>, freq: u32) -> (r: Result<(), LifecycleError>)
    ensures
        send_outcome(*old(slot), *final(slot), AppMsg::Frequency(freq), r),
{
    send_command(slot, AppMsg::Frequency(freq))
}

/// Queues a receive-mode change for the worker and returns at once.
pub fn sdrlib_mode<H>(slot: &mut Option<InitData<H>>, mode: i32) -> (r: Result<(), LifecycleError>)
    ensures
        send_outcome(*old(slot), *final(slot), AppMsg::Mode(mode), r),
{
    send_command(slot, AppMsg::Mode(mode))
}

/// Queues a receive-filter change for the worker and returns at once.
pub fn sdrlib_filter<H>(slot: &mut Option<InitData<H>>, filter: i32) -> (r: Result<(), LifecycleError>)
    ensures
        send_outcome(*old(slot), *final(slot), AppMsg::Filter(filter), r),
{
    send_command(slot, AppMsg::Filter(filter))
}

/// Closing twice is harmless: whatever state the first `sdrlib_close` left,
/// a second one is refused, leaving the slot as it is and joining nothing;
/// after a slot was initialised the refusal is `NotRunning`.
pub proof fn lemma_close_twice(p: Lifecycle)
    ensures
        close_refusal(phase_after_close(p)) == if p == Lifecycle::Uninitialized {
            Some(LifecycleError::NotInitialized)
        } else {
            Some(LifecycleError::NotRunning)
        },
{
}

/// Once a shutdown has gone through, every command sent afterwards is
/// refused with `ChannelClosed`.
pub proof fn lemma_send_after_close(p: Lifecycle)
    requires
        close_refusal(p) is None,
    ensures
        send_refusal(phase_after_close(p)) == Some(LifecycleError::ChannelClosed),
{
}

} // verus!
