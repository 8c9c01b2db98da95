//! Policies of the consuming end of the snapshot queue: drain to the latest
//! entry, and notice when the producer is getting ahead.
//!
//! The contracts here speak of one cycle of the consumer, in which the
//! producer does not run: the consumer is the task of higher priority.

use vstd::prelude::*;
use heapless::spsc::Consumer;
use crate::control_input::ControlInputSnapshot;

verus! {

/// The capacity that the snapshot queue is declared with. Occupancy is
/// held against this number.
pub const DECLARED_CAPACITY: usize = 8;

/// The consuming end of a single-producer, single-consumer ring buffer.
#[verifier::external_type_specification]
#[verifier::external_body]
#[verifier::reject_recursive_types(T)]
pub struct ExConsumer<'a, T, const N: usize>(heapless::spsc::Consumer<'a, T, N>);

/// The snapshots waiting in the queue that `consumer` reads from, oldest
/// first. The producer is the lower-priority task: it is taken not to run
/// between the calls that one cycle of the consumer makes, so that what
/// waits changes only by what the consumer takes.
pub uninterp spec fn pending(consumer: Consumer<'static, ControlInputSnapshot, 8>) -> Seq<
    ControlInputSnapshot,
>;

/// What the consumer reports when the queue is filling up.
#[derive(Clone, Copy, Debug, PartialEq, Eq)]
pub struct CapacityWarning<'a> {
    /// The name the queue goes by in the report.
    pub name: &'a str,
    /// Entries waiting at the time of the check.
    pub len: usize,
    /// The declared capacity of the queue.
    pub capacity: usize,
}

/// `heapless::spsc::Consumer::dequeue`: hands out the entry at the front of
/// the queue and removes it, or returns `None` and leaves the queue as it is
/// when nothing waits.
#[verifier::external_body]
fn take_front(consumer: &mut Consumer<'static, ControlInputSnapshot, 8>) -> (front: Option<
    ControlInputSnapshot,
>)
    ensures
        pending(*old(consumer)).len() == 0 ==> front is None && pending(*final(consumer))
            == pending(*old(consumer)),
        pending(*old(consumer)).len() > 0 ==> front == Some(pending(*old(consumer))[0])
            && pending(*final(consumer)) == pending(*old(consumer)).drop_first(),
{
    consumer.dequeue()
}

/// `heapless::spsc::Consumer::len`: the number of entries waiting.
#[verifier::external_body]
fn occupancy(consumer: &Consumer<'static, ControlInputSnapshot, 8>) -> (len: usize)
    ensures
        len == pending(*consumer).len(),
{
    consumer.len()
}

/// Empties the queue and returns the entry that was enqueued last, or
/// `None` if nothing was waiting. This holds of a drain during which the
/// producer does not run.
pub fn dequeue_last(consumer: &mut Consumer<'static, ControlInputSnapshot, 8>) -> (last: Option<
    ControlInputSnapshot,
>)
    ensures
        pending(*final(consumer)).len() == 0,
        pending(*old(consumer)).len() == 0 ==> last is None,
        pending(*old(consumer)).len() > 0 ==> last == Some(pending(*old(consumer)).last()),
{
    let ghost waiting = pending(*consumer);
    let ghost mut taken: int = 0;
    let mut last_item: Option<ControlInputSnapshot> = None;
    loop
        invariant
            waiting == pending(*old(consumer)),
            0 <= taken <= waiting.len(),
            pending(*consumer) == waiting.subrange(taken, waiting.len() as int),
            taken == 0 ==> last_item is None,
            taken > 0 ==> last_item == Some(waiting[taken - 1]),
        ensures
            taken == waiting.len(),
        decreases waiting.len() - taken,
    {
        match take_front(consumer) {
            Some(item) => {
                proof {
                    assert(waiting.subrange(taken, waiting.len() as int).drop_first()
                        =~= waiting.subrange(taken + 1, waiting.len() as int));
                    taken = taken + 1;
                }
                last_item = Some(item);
            },
            None => {
                break ;
            },
        }
    }
    last_item
}

/// Whether `len` entries are strictly more than half of `capacity`.
pub fn above_half(len: usize, capacity: usize) -> (above: bool)
    ensures
        above <==> 2 * len > capacity,
{
    len > capacity / 2
}

/// Checks how full the queue is, and returns a warning to report exactly when
/// strictly more than half of its declared capacity is in use. The queue is
/// left as it is. This holds of a check during which the producer does not
/// run.
pub fn warn_about_capacity<'a>(
    name: &'a str,
    consumer: &mut Consumer<'static, ControlInputSnapshot, 8>,
) -> (warning: Option<CapacityWarning<'a>>)
    ensures
        pending(*final(consumer)) == pending(*old(consumer)),
        warning is Some <==> 2 * pending(*old(consumer)).len() > DECLARED_CAPACITY,
        warning is Some ==> warning == Some(
            (CapacityWarning {
                name,
                len: pending(*old(consumer)).len() as usize,
                capacity: DECLARED_CAPACITY,
            }),
        ),
{
    let len = occupancy(consumer);
    if above_half(len, DECLARED_CAPACITY) {
        Some(CapacityWarning { name, len, capacity: DECLARED_CAPACITY })
    } else {
        None
    }
}

/// What the control task takes from the queue in one cycle.
#[derive(Clone, Copy, Debug, PartialEq, Eq)]
pub struct Received<'a> {
    /// The warning to report, if strictly more than half of the declared
    /// capacity was in use.
    pub warning: Option<CapacityWarning<'a>>,
    /// The newest snapshot, if any was waiting.
    pub snapshot: Option<ControlInputSnapshot>,
}

/// One cycle's reading of the queue: the occupancy is checked as the cycle
/// finds it, and only then is the queue drained to its newest entry. This
/// holds of a cycle during which the producer does not run.
pub fn receive<'a>(
    name: &'a str,
    consumer: &mut Consumer<'static, ControlInputSnapshot, 8>,
) -> (received: Received<'a>)
    ensures
        pending(*final(consumer)).len() == 0,
        received.warning is Some <==> 2 * pending(*old(consumer)).len() > DECLARED_CAPACITY,
        received.warning is Some ==> received.warning == Some(
            (CapacityWarning {
                name,
                len: pending(*old(consumer)).len() as usize,
                capacity: DECLARED_CAPACITY,
            }),
        ),
        pending(*old(consumer)).len() == 0 ==> received.snapshot is None,
        pending(*old(consumer)).len() > 0 ==> received.snapshot == Some(
            pending(*old(consumer)).last(),
        ),
{
    let warning = warn_about_capacity(name, consumer);
    let snapshot = dequeue_last(consumer);
    Received { warning, snapshot }
}

} // verus!
