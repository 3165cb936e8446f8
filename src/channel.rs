//! The unbounded multi-producer, single-consumer command channel, provided by
//! crossbeam-channel.
use vstd::prelude::*;

use crate::messages::AppMsg;

verus! {

#[verifier::external_type_specification]
#[verifier::external_body]
#[verifier::reject_recursive_types(T)]
pub struct ExSender<T>(crossbeam_channel::Sender<T>);

#[verifier::external_type_specification]
#[verifier::external_body]
#[verifier::reject_recursive_types(T)]
pub struct ExReceiver<T>(crossbeam_channel::Receiver<T>);

/// The messages the channel has accepted through this sender, in order.
pub uninterp spec fn accepted(s: crossbeam_channel::Sender<AppMsg>) -> Seq<AppMsg>;

/// The messages this receiver has handed out, in order.
pub uninterp spec fn delivered(r: crossbeam_channel::Receiver<AppMsg>) -> Seq<AppMsg>;

/// Relies on crossbeam_channel::unbounded: a fresh connected sender and
/// receiver, through which nothing has passed yet.
#[verifier::external_body]
pub(crate) fn new_channel() -> (r: (crossbeam_channel::Sender<AppMsg>, crossbeam_channel::Receiver<AppMsg>))
    ensures
        accepted(r.0) == Seq::<AppMsg>::empty(),
        delivered(r.1) == Seq::<AppMsg>::empty(),
{
    crossbeam_channel::unbounded()
}

/// Relies on crossbeam_channel::Sender::send: `true` when the channel queued
/// the message behind those accepted before, `false` when every receiver is
/// gone and nothing was queued. Which one comes back depends on the other side
/// of the channel.
#[verifier::external_body]
pub(crate) fn send_msg(s: &mut crossbeam_channel::Sender<AppMsg>, msg: AppMsg) -> (r: bool)
    ensures
        r ==> accepted(*final(s)) == accepted(*old(s)).push(msg),
        !r ==> accepted(*final(s)) == accepted(*old(s)),
{
    s.send(msg).is_ok()
}

/// Relies on crossbeam_channel::Receiver::recv: the next queued message, or
/// `None` once the channel is empty and every sender is gone. What arrives
/// depends on the producers.
#[verifier::external_body]
pub(crate) fn recv_msg(r: &mut crossbeam_channel::Receiver<AppMsg>) -> (m: Option<AppMsg>)
    ensures
        m matches Some(x) ==> delivered(*final(r)) == delivered(*old(r)).push(x),
        m is None ==> delivered(*final(r)) == delivered(*old(r)),
{
    r.recv().ok()
}

} // verus!
