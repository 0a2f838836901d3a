//! The future, its pin and its waker, as far as the poll loop uses them.
//!
//! Nothing in this module is proved. Each item says what the documentation of
//! the standard library says, and no more.

use crate::signal::CondvarWake;
use std::future::Future;
use std::pin::Pin;
use std::sync::Arc;
use std::task::Context;
use std::task::Poll;
use std::task::Waker;
use vstd::future::FutureAdditionalSpecFns;
use vstd::prelude::*;

verus! {

/// `std::pin::Pin`, opaque.
#[verifier::external_type_specification]
#[verifier::external_body]
#[verifier::reject_recursive_types(Ptr)]
pub struct ExPin<Ptr>(Pin<Ptr>);

/// `std::task::Waker`, opaque.
#[verifier::external_type_specification]
#[verifier::external_body]
pub struct ExWaker(Waker);

/// `std::task::Context`, opaque.
#[verifier::external_type_specification]
#[verifier::external_body]
pub struct ExContext<'a>(Context<'a>);

/// The signal that `waker` was made from: the one whose `wake` and
/// `wake_by_ref` the waker calls.
pub uninterp spec fn signal_behind(waker: Waker) -> Arc<CondvarWake>;

/// The waker that `context` hands to a future.
pub uninterp spec fn waker_in(context: Context) -> Waker;

/// `Context::from_waker`: the context that hands `waker` to a future.
pub assume_specification<'a>[ Context::<'a>::from_waker ](waker: &'a Waker) -> (context: Context<
    'a,
>)
    ensures
        waker_in(context) == *waker,
;

/// `Waker::from`: a handle whose `wake` and `wake_by_ref` are those of `signal`.
/// It can be cloned and sent to other threads.
#[verifier::external_body]
pub(crate) fn waker_of(signal: Arc<CondvarWake>) -> (waker: Waker)
    ensures
        signal_behind(waker) == signal,
{
    Waker::from(signal)
}

/// `Box::pin`: moves `future` to the heap, where it stays until it is dropped.
/// The pinned future is a future with the same output.
#[verifier::external_body]
pub(crate) fn pin_boxed<T, F: Future<Output = T>>(future: F) -> (pinned: Pin<Box<F>>)
    ensures
        pinned@ == future@,
{
    Box::pin(future)
}

/// `Future::poll`, once. A future that is ready gives its output, which is the
/// value that `@` foretells of it, and is dropped: it cannot be polled again.
/// One that is not ready yet is handed back, the same future as before. Nothing
/// is claimed of the context afterwards: the future may write to it.
#[verifier::external_body]
pub(crate) fn poll_once<T, F: Future<Output = T>>(
    future: Pin<Box<F>>,
    context: &mut Context<'_>,
) -> (answer: Result<T, Pin<Box<F>>>)
    ensures
        answer matches Ok(value) ==> value == future@,
        answer matches Err(pending) ==> pending@ == future@,
{
    let mut future = future;
    match future.as_mut().poll(context) {
        Poll::Ready(value) => Ok(value),
        Poll::Pending => Err(future),
    }
}

} // verus!
