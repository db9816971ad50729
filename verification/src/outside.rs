//! Types of outside crates that values of this library carry through.
use vstd::prelude::*;

verus! {

/// The sending half of a bounded `futures` channel; opaque here.
#[verifier::external_type_specification]
#[verifier::external_body]
#[verifier::reject_recursive_types(T)]
pub struct ExSender<T>(futures::channel::mpsc::Sender<T>);

/// The receiving half of a bounded `futures` channel; opaque here.
#[verifier::external_type_specification]
#[verifier::external_body]
#[verifier::reject_recursive_types(T)]
pub struct ExReceiver<T>(futures::channel::mpsc::Receiver<T>);

/// A set of streams polled as one (`futures::stream::SelectAll`); opaque here.
#[verifier::external_type_specification]
#[verifier::external_body]
#[verifier::reject_recursive_types(St)]
pub struct ExSelectAll<St>(futures::stream::SelectAll<St>);

} // verus!
