//! The worker side of the command stream: which engine call each command
//! becomes, and a worker that pulls commands one at a time until it stops.
use vstd::prelude::*;

use crate::channel::{delivered, recv_msg};
use crate::messages::AppMsg;

verus! {

/// A synchronous call into the DSP engine, issued by the worker thread only.
#[derive(Clone, Copy, Debug, PartialEq, Eq, Structural)]
pub enum EngineCommand {
    SetFrequency(u32),
    SetMode(i32),
    SetFilter(i32),
}

/// The engine call a command asks for; `None` for `Terminate`.
pub open spec fn command_of(m: AppMsg) -> Option<EngineCommand> {
    match m {
        AppMsg::Terminate => None,
        AppMsg::Frequency(f) => Some(EngineCommand::SetFrequency(f)),
        AppMsg::Mode(v) => Some(EngineCommand::SetMode(v)),
        AppMsg::Filter(v) => Some(EngineCommand::SetFilter(v)),
    }
}

/// The engine calls a worker makes for a stream of commands: one per command,
/// in stream order, up to the first `Terminate`; nothing after it.
pub open spec fn commands_of(msgs: Seq<AppMsg>) -> Seq<EngineCommand>
    decreases msgs.len(),
{
    if msgs.len() == 0 {
        Seq::empty()
    } else {
        match command_of(msgs[0]) {
            None => Seq::empty(),
            Some(c) => seq![c] + commands_of(msgs.drop_first()),
        }
    }
}

/// The `Frequency` commands for a sequence of frequencies, in the same order.
pub open spec fn frequency_msgs(freqs: Seq<u32>) -> Seq<AppMsg> {
    freqs.map_values(|f: u32| AppMsg::Frequency(f))
}

/// Decides what the worker does with one command.
pub fn dispatch(m: AppMsg) -> (r: Option<EngineCommand>)
    ensures
        r == command_of(m),
{
    match m {
        AppMsg::Terminate => None,
        AppMsg::Frequency(f) => Some(EngineCommand::SetFrequency(f)),
        AppMsg::Mode(v) => Some(EngineCommand::SetMode(v)),
        AppMsg::Filter(v) => Some(EngineCommand::SetFilter(v)),
    }
}

/// Appending a command to a stream without `Terminate` appends its engine
/// call, if it has one.
pub proof fn lemma_commands_of_push(msgs: Seq<AppMsg>, m: AppMsg)
    requires
        !msgs.contains(AppMsg::Terminate),
    ensures
        commands_of(msgs.push(m)) == match command_of(m) {
            None => commands_of(msgs),
            Some(c) => commands_of(msgs).push(c),
        },
    decreases msgs.len(),
{
    if msgs.len() == 0 {
        assert(msgs.push(m).drop_first() =~= Seq::<AppMsg>::empty());
        assert(commands_of(Seq::<AppMsg>::empty()) == Seq::<EngineCommand>::empty());
        if let Some(c) = command_of(m) {
            assert(seq![c] + Seq::<EngineCommand>::empty() =~= Seq::<EngineCommand>::empty().push(c));
        }
    } else {
        let rest = msgs.drop_first();
        assert(msgs[0] != AppMsg::Terminate) by {
            assert(msgs.contains(msgs[0]) ==> msgs[0] != AppMsg::Terminate);
        }
        assert(!rest.contains(AppMsg::Terminate)) by {
            if rest.contains(AppMsg::Terminate) {
                let i = choose|i: int| 0 <= i < rest.len() && rest[i] == AppMsg::Terminate;
                assert(msgs[i + 1] == AppMsg::Terminate);
            }
        }
        lemma_commands_of_push(rest, m);
        assert(msgs.push(m).drop_first() =~= rest.push(m));
        let c0 = command_of(msgs[0])->Some_0;
        if let Some(c) = command_of(m) {
            assert(seq![c0] + commands_of(rest).push(c) =~= (seq![c0] + commands_of(rest)).push(c));
        }
    }
}

/// Of a command stream made of frequency changes, then `Terminate`, then any
/// backlog, the engine calls are exactly those frequency changes in stream
/// order; nothing queued behind the `Terminate` is applied.
pub proof fn lemma_frequencies_applied_in_order(freqs: Seq<u32>, backlog: Seq<AppMsg>)
    ensures
        commands_of(frequency_msgs(freqs).push(AppMsg::Terminate) + backlog)
            == freqs.map_values(|f: u32| EngineCommand::SetFrequency(f)),
    decreases freqs.len(),
{
    let msgs = frequency_msgs(freqs).push(AppMsg::Terminate) + backlog;
    let expected = freqs.map_values(|f: u32| EngineCommand::SetFrequency(f));
    if freqs.len() == 0 {
        assert(msgs[0] == AppMsg::Terminate);
        assert(expected =~= Seq::<EngineCommand>::empty());
    } else {
        let rest = freqs.drop_first();
        lemma_frequencies_applied_in_order(rest, backlog);
        assert(msgs.drop_first() =~= frequency_msgs(rest).push(AppMsg::Terminate) + backlog);
        assert(msgs[0] == AppMsg::Frequency(freqs[0]));
        assert(expected =~= seq![EngineCommand::SetFrequency(freqs[0])]
            + rest.map_values(|f: u32| EngineCommand::SetFrequency(f)));
    }
}

/// The application loop's state: the single consumer of the command channel,
/// and whether it is still listening.
pub struct Worker {
    rx: crossbeam_channel::Receiver<AppMsg>,
    stopped: bool,
    before: Ghost<Seq<AppMsg>>,
}

impl Worker {
    /// The commands the receiver has handed to this worker, in arrival order.
    pub closed spec fn observed(&self) -> Seq<AppMsg> {
        delivered(self.rx).subrange(self.before@.len() as int, delivered(self.rx).len() as int)
    }

    /// The engine calls this worker has handed out, in order.
    pub open spec fn applied(&self) -> Seq<EngineCommand> {
        commands_of(self.observed())
    }

    pub closed spec fn is_listening(&self) -> bool {
        !self.stopped
    }

    pub closed spec fn wf(&self) -> bool {
        &&& self.before@.len() <= delivered(self.rx).len()
        &&& delivered(self.rx).subrange(0, self.before@.len() as int) == self.before@
        &&& !self.stopped ==> !self.observed().contains(AppMsg::Terminate)
    }

    /// A listening worker that owns the channel's receiving end.
    pub fn new(rx: crossbeam_channel::Receiver<AppMsg>) -> (w: Worker)
        ensures
            w.wf(),
            w.is_listening(),
            w.observed() == Seq::<AppMsg>::empty(),
    {
        let ghost before = delivered(rx);
        let w = Worker { rx, stopped: false, before: Ghost(before) };
        assert(delivered(w.rx).subrange(0, before.len() as int) =~= before);
        assert(w.observed() =~= Seq::<AppMsg>::empty());
        w
    }

    pub fn is_running(&self) -> (r: bool)
        ensures
            r == self.is_listening(),
    {
        !self.stopped
    }

    /// Blocks until the next command arrives and returns the engine call it
    /// asks for. Returns `None`, and stops listening for good, on `Terminate`
    /// or once every sender is gone; a stopped worker receives nothing more.
    pub fn next_command(&mut self) -> (r: Option<EngineCommand>)
        requires
            old(self).wf(),
        ensures
            final(self).wf(),
            !old(self).is_listening() ==> r is None && *final(self) == *old(self),
            old(self).is_listening() ==> match r {
                Some(c) => {
                    &&& final(self).is_listening()
                    &&& final(self).applied() == old(self).applied().push(c)
                    &&& exists|m: AppMsg|
                        command_of(m) == Some(c) && final(self).observed()
                            == old(self).observed().push(m)
                },
                None => {
                    &&& !final(self).is_listening()
                    &&& final(self).applied() == old(self).applied()
                    &&& final(self).observed() == old(self).observed().push(AppMsg::Terminate)
                        || final(self).observed() == old(self).observed()
                },
            },
    {
        if self.stopped {
            return None;
        }
        let ghost old_observed = self.observed();
        let ghost old_delivered = delivered(self.rx);
        let ghost n = self.before@.len() as int;
        match recv_msg(&mut self.rx) {
            None => {
                self.stopped = true;
                assert(self.observed() =~= old_observed);
                None
            },
            Some(m) => {
                let r = dispatch(m);
                proof {
                    lemma_commands_of_push(old_observed, m);
                    assert(self.observed() =~= old_observed.push(m));
                    assert(delivered(self.rx).subrange(0, n) =~= old_delivered.subrange(0, n));
                }
                match r {
                    None => {
                        self.stopped = true;
                    },
                    Some(c) => {
                        assert(!self.observed().contains(AppMsg::Terminate)) by {
                            if self.observed().contains(AppMsg::Terminate) {
                                let i = choose|i: int|
                                    0 <= i < self.observed().len() && self.observed()[i]
                                        == AppMsg::Terminate;
                                if i < old_observed.len() {
                                    assert(old_observed[i] == AppMsg::Terminate);
                                }
                            }
                        }
                    },
                }
                r
            },
        }
    }
}

} // verus!
