//! Trusted access to the std channels and the shared flag that connect the
//! library's handles with the worker threads run by the application.

use vstd::prelude::*;

verus! {

#[verifier::external_type_specification]
#[verifier::external_body]
#[verifier::reject_recursive_types(T)]
pub struct ExSender<T>(std::sync::mpsc::Sender<T>);

#[verifier::external_type_specification]
#[verifier::external_body]
#[verifier::reject_recursive_types(T)]
pub struct ExReceiver<T>(std::sync::mpsc::Receiver<T>);

#[verifier::external_type_specification]
#[verifier::external_body]
pub struct ExTryRecvError(std::sync::mpsc::TryRecvError);

#[verifier::external_type_specification]
#[verifier::external_body]
#[verifier::reject_recursive_types(T)]
pub struct ExMutex<T: ?Sized>(std::sync::Mutex<T>);

/// Calls `std::sync::mpsc::Sender::send` and discards its outcome. Whether the message
/// reaches the other side depends on whether the receiving thread is still alive, so
/// nothing is claimed about delivery.
#[verifier::external_body]
pub(crate) fn send_message<T>(tx: &std::sync::mpsc::Sender<T>, msg: T) {
    let _ = tx.send(msg);
}

/// Calls `std::sync::mpsc::Receiver::try_recv`. What comes back depends on what other
/// threads have sent so far, so nothing is claimed about the result.
#[verifier::external_body]
pub(crate) fn try_receive<T>(
    rx: &std::sync::mpsc::Receiver<T>,
) -> Result<T, std::sync::mpsc::TryRecvError> {
    rx.try_recv()
}

/// Calls `std::sync::Mutex::lock` on the shared flag and, when the lock is not
/// poisoned, stores `value` in it. The flag is read by other threads through its own
/// lock, so nothing is claimed about what they observe.
#[verifier::external_body]
pub(crate) fn store_flag(flag: &std::sync::Arc<std::sync::Mutex<bool>>, value: bool) {
    if let Ok(mut c) = flag.lock() {
        *c = value;
    }
}

} // verus!
