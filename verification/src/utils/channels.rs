use vstd::prelude::*;

verus! {

#[verifier::external_type_specification]
#[verifier::external_body]
#[verifier::reject_recursive_types(T)]
/// The sending side of a crossbeam channel, used for playback control
/// messages and status events. The channel's contents are not modeled:
/// other threads drain it concurrently.
pub struct ExSender<T>(crossbeam_channel::Sender<T>);

#[verifier::external_type_specification]
#[verifier::external_body]
#[verifier::reject_recursive_types(T)]
/// The receiving side of a crossbeam channel.
pub struct ExReceiver<T>(crossbeam_channel::Receiver<T>);

#[verifier::external_type_specification]
#[verifier::external_body]
#[verifier::reject_recursive_types(T)]
/// A bounded lock-free queue, used as the mixer's event queue: producers
/// push control events from any thread, the audio thread pops them.
pub struct ExArrayQueue<T>(crossbeam_queue::ArrayQueue<T>);

/// Relies on crossbeam_channel::unbounded: creates a channel of unbounded
/// capacity and returns its two endpoints.
#[verifier::external_body]
pub fn channel_unbounded<T>() -> (crossbeam_channel::Sender<T>, crossbeam_channel::Receiver<T>) {
    crossbeam_channel::unbounded()
}

/// Relies on crossbeam_channel::Sender's Clone: a clone sends into the
/// same channel. Nothing is assumed about the returned handle.
pub assume_specification<T>[ <crossbeam_channel::Sender<T> as Clone>::clone ](
    sender: &crossbeam_channel::Sender<T>,
) -> crossbeam_channel::Sender<T>;

/// Relies on crossbeam_channel::Sender::try_send: attempts to send without
/// blocking, failing when the channel is full or disconnected. Returns
/// whether the message was accepted; the message itself is dropped on
/// failure.
#[verifier::external_body]
pub fn try_send<T>(sender: &crossbeam_channel::Sender<T>, message: T) -> bool {
    sender.try_send(message).is_ok()
}

/// Relies on crossbeam_channel::Sender::send: blocks until the message can
/// be sent (never, for an unbounded channel), failing only when the channel
/// is disconnected. Returns whether the message was accepted.
#[verifier::external_body]
pub fn send<T>(sender: &crossbeam_channel::Sender<T>, message: T) -> bool {
    sender.send(message).is_ok()
}

/// Relies on crossbeam_channel::Receiver::try_recv: takes a pending message
/// without blocking, or returns nothing when the channel is empty or
/// disconnected.
#[verifier::external_body]
pub fn try_recv<T>(receiver: &crossbeam_channel::Receiver<T>) -> Option<T> {
    receiver.try_recv().ok()
}

/// Relies on crossbeam_queue::ArrayQueue::new, which panics on a capacity
/// of zero and otherwise returns an empty queue of that capacity.
#[verifier::external_body]
pub fn queue_with_capacity<T>(capacity: usize) -> crossbeam_queue::ArrayQueue<T>
    requires
        capacity >= 1,
{
    crossbeam_queue::ArrayQueue::new(capacity)
}

/// Relies on crossbeam_queue::ArrayQueue::push: enqueues the value unless
/// the queue is full. Returns whether the value was accepted; it is dropped
/// otherwise.
#[verifier::external_body]
pub fn queue_push<T>(queue: &crossbeam_queue::ArrayQueue<T>, value: T) -> bool {
    queue.push(value).is_ok()
}

/// Relies on crossbeam_queue::ArrayQueue::pop: dequeues the oldest value,
/// or returns nothing when the queue is empty. Other threads push
/// concurrently, so nothing is assumed about the outcome.
#[verifier::external_body]
pub fn queue_pop<T>(queue: &crossbeam_queue::ArrayQueue<T>) -> Option<T> {
    queue.pop()
}

/// Relies on alloc::sync::Arc's Clone: a clone of the handle refers to the
/// same value.
#[verifier::external_body]
pub fn arc_clone<T>(value: &std::sync::Arc<T>) -> (r: std::sync::Arc<T>)
    ensures
        r == *value,
{
    std::sync::Arc::clone(value)
}

} // verus!
