//! The channel fabric the dispatcher's feedback runs on: flume's unbounded
//! multi-producer channels, taken on trust behind a small wrapper.

use vstd::prelude::*;

verus! {

#[verifier::external_type_specification]
#[verifier::external_body]
#[verifier::reject_recursive_types(T)]
pub struct ExSender<T>(flume::Sender<T>);

/// Relies on `flume::Sender::send` on an unbounded channel: it never
/// blocks; `true` when the value was accepted, `false` when every receiver
/// is gone.
#[verifier::external_body]
pub(crate) fn channel_send<T>(tx: &flume::Sender<T>, value: T) -> (accepted: bool) {
    tx.send(value).is_ok()
}

} // verus!
