use vstd::prelude::*;
use futures::future::AbortHandle;
use std::sync::mpsc::Sender;

verus! {

#[verifier::external_type_specification]
#[verifier::external_body]
pub struct ExAbortHandle(AbortHandle);

#[verifier::external_type_specification]
#[verifier::external_body]
#[verifier::reject_recursive_types(T)]
pub struct ExSender<T>(Sender<T>);

/// How many times the paired decode task has been told to abort through
/// this handle.
pub uninterp spec fn aborts_of(h: AbortHandle) -> nat;

/// How many flush requests have been sent through this endpoint of the
/// device's channel.
pub uninterp spec fn requests_of(s: Sender<()>) -> nat;

/// Relies on futures' `AbortHandle::abort`: marks the paired decode task as
/// aborted and wakes it, without blocking.
#[verifier::external_body]
pub(crate) fn fire_cancel(handle: &mut AbortHandle)
    ensures
        aborts_of(*final(handle)) == aborts_of(*old(handle)) + 1,
{
    handle.abort()
}

/// Relies on std's `Sender::send`: queues one flush request for the device
/// callback, without blocking. A device that has gone away is ignored.
#[verifier::external_body]
pub(crate) fn send_flush(channel: &mut Sender<()>)
    ensures
        requests_of(*final(channel)) == requests_of(*old(channel)) + 1,
{
    let _ = channel.send(());
}

} // verus!
