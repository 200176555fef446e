//! Scheduled jobs.
use std::sync::mpsc::Receiver;
use std::time::Duration;
use vstd::prelude::*;

verus! {

/// The receiving end of a channel of the standard library.
#[verifier::external_type_specification]
#[verifier::external_body]
#[verifier::reject_recursive_types(T)]
pub struct ExReceiver<T>(Receiver<T>);

/// A piece of work, run once or again after every `repeat`.
pub struct Job<F> {
    pub repeat: Option<Duration>,
    pub action: F,
}

/// What can be sent to a scheduler.
pub enum Message<F> {
    NewJob(Job<F>),
}

/// Jobs, and the channel that brings new ones.
#[verifier::reject_recursive_types(F)]
pub struct Scheduler<F> {
    pub reciever: Receiver<Message<F>>,
    pub jobs: Vec<Job<F>>,
}

} // verus!
