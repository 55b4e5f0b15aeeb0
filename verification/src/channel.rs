//! The one-shot completion channel between a background prehandle job and the
//! apply that consumes its result.

use vstd::prelude::*;

verus! {

#[verifier::external_type_specification]
#[verifier::external_body]
#[verifier::reject_recursive_types(T)]
pub struct ExReceiver<T>(std::sync::mpsc::Receiver<T>);

#[verifier::external_type_specification]
#[verifier::external_body]
#[verifier::reject_recursive_types(T)]
pub struct ExSender<T>(std::sync::mpsc::Sender<T>);

/// `std::sync::mpsc::channel`: a fresh sending half and the receiving half
/// that it feeds. Nothing is claimed of either.
#[verifier::external_body]
pub(crate) fn completion_channel<T>() -> (pair: (
    std::sync::mpsc::Sender<T>,
    std::sync::mpsc::Receiver<T>,
)) {
    std::sync::mpsc::channel()
}

/// `std::sync::mpsc::Receiver::recv`: waits until a value arrives or every
/// sending half is gone. The outcome depends on what the other side did, so
/// nothing is claimed of it; `None` stands for a closed channel.
#[verifier::external_body]
pub(crate) fn wait_for_completion<T>(recv: &std::sync::mpsc::Receiver<T>) -> (got: Option<T>) {
    match recv.recv() {
        Ok(v) => Some(v),
        Err(_) => None,
    }
}

} // verus!
