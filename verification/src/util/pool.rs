//! A pool of cleared `String` buffers for reuse, held in a bounded queue.

use crossbeam::queue::ArrayQueue;
use vstd::prelude::*;

verus! {

/// The number of buffers the pool keeps.
pub const DEFAULT_POOL_SIZE: usize = 16384;

#[verifier::external_type_specification]
#[verifier::external_body]
#[verifier::reject_recursive_types(T)]
pub struct ExArrayQueue<T>(ArrayQueue<T>);

/// The texts of the strings in a queue, from the front (the next to pop) to the back.
pub uninterp spec fn queue_contents(q: ArrayQueue<String>) -> Seq<Seq<char>>;

/// The capacity a queue was made with.
pub uninterp spec fn queue_capacity(q: ArrayQueue<String>) -> nat;

/// Calls `crossbeam::queue::ArrayQueue::new`. Trusted: the new queue is empty and has the
/// given capacity; the crate's source panics on a capacity of zero.
#[verifier::external_body]
fn new_queue(cap: usize) -> (q: ArrayQueue<String>)
    requires
        cap > 0,
    ensures
        queue_contents(q) == Seq::<Seq<char>>::empty(),
        queue_capacity(q) == cap,
{
    ArrayQueue::new(cap)
}

/// Calls `crossbeam::queue::ArrayQueue::pop_mut`. Trusted: on an empty queue it gives `None`
/// and leaves the queue as it was; otherwise it takes and gives the front string. It does not
/// panic.
#[verifier::external_body]
fn queue_pop(q: &mut ArrayQueue<String>) -> (r: Option<String>)
    ensures
        queue_capacity(*final(q)) == queue_capacity(*old(q)),
        queue_contents(*old(q)).len() == 0 ==> r is None && queue_contents(*final(q))
            == queue_contents(*old(q)),
        queue_contents(*old(q)).len() > 0 ==> (r matches Some(s) && s@ == queue_contents(*old(q))[0]
            && queue_contents(*final(q)) == queue_contents(*old(q)).drop_first()),
    no_unwind
{
    q.pop_mut()
}

/// Calls `crossbeam::queue::ArrayQueue::push_mut`. Trusted: when the queue holds fewer strings
/// than its capacity, the string goes to the back; otherwise it is handed back and the queue
/// is unchanged. It does not panic.
#[verifier::external_body]
fn queue_push(q: &mut ArrayQueue<String>, value: String) -> (r: Result<(), String>)
    ensures
        queue_capacity(*final(q)) == queue_capacity(*old(q)),
        queue_contents(*old(q)).len() < queue_capacity(*old(q)) ==> (r is Ok && queue_contents(
            *final(q),
        ) == queue_contents(*old(q)).push(value@)),
        queue_contents(*old(q)).len() >= queue_capacity(*old(q)) ==> (r matches Err(v) && v@
            == value@ && queue_contents(*final(q)) == queue_contents(*old(q))),
    no_unwind
{
    q.push_mut(value)
}

/// Calls `String::with_capacity`: an empty string.
#[verifier::external_body]
fn string_with_capacity(cap: usize) -> (s: String)
    ensures
        s@ == Seq::<char>::empty(),
{
    String::with_capacity(cap)
}

/// Calls `String::clear`: the string becomes empty.
#[verifier::external_body]
pub(crate) fn string_clear(s: &mut String)
    ensures
        final(s)@ == Seq::<char>::empty(),
{
    s.clear()
}

/// A bounded pool of `String` buffers; every buffer in it is empty.
pub struct ObjectPool {
    strings: ArrayQueue<String>,
}

impl ObjectPool {
    #[verifier::type_invariant]
    spec fn all_cleared(&self) -> bool {
        &&& forall|i: int| 0 <= i < queue_contents(self.strings).len()
            ==> (#[trigger] queue_contents(self.strings)[i]).len() == 0
        &&& queue_contents(self.strings).len() <= queue_capacity(self.strings)
    }

    /// The number of buffers in the pool.
    pub closed spec fn spec_len(&self) -> nat {
        queue_contents(self.strings).len()
    }

    /// The number of buffers the pool keeps at most.
    pub closed spec fn spec_capacity(&self) -> nat {
        queue_capacity(self.strings)
    }

    /// An empty pool that keeps up to [`DEFAULT_POOL_SIZE`] buffers.
    pub fn new() -> (p: Self)
        ensures
            p.spec_len() == 0,
            p.spec_capacity() == DEFAULT_POOL_SIZE,
            p.spec_len() <= p.spec_capacity(),
    {
        ObjectPool { strings: new_queue(DEFAULT_POOL_SIZE) }
    }

    /// Takes a buffer from the pool, or makes a new one when the pool is empty. The buffer is
    /// always empty.
    pub fn acquire_string(&mut self) -> (s: String)
        ensures
            s@ == Seq::<char>::empty(),
            old(self).spec_len() > 0 ==> final(self).spec_len() == old(self).spec_len() - 1,
            old(self).spec_len() == 0 ==> final(self).spec_len() == 0,
            final(self).spec_capacity() == old(self).spec_capacity(),
            final(self).spec_len() <= final(self).spec_capacity(),
    {
        proof {
            use_type_invariant(&*self);
        }
        let ghost before = queue_contents(self.strings);
        let r = queue_pop(&mut self.strings);
        proof {
            assert forall|i: int| 0 <= i < queue_contents(self.strings).len()
                implies (#[trigger] queue_contents(self.strings)[i]).len() == 0 by {
                assert(queue_contents(self.strings)[i] == before[i + 1]);
            }
        }
        match r {
            Some(s) => s,
            None => string_with_capacity(512),
        }
    }

    /// Clears a buffer and puts it back in the pool; when the pool is full the buffer is dropped.
    pub fn release_string(&mut self, rel: String)
        ensures
            old(self).spec_len() < old(self).spec_capacity() ==> final(self).spec_len() == old(self).spec_len() + 1,
            old(self).spec_len() >= old(self).spec_capacity() ==> final(self).spec_len() == old(self).spec_len(),
            final(self).spec_capacity() == old(self).spec_capacity(),
            final(self).spec_len() <= final(self).spec_capacity(),
    {
        proof {
            use_type_invariant(&*self);
        }
        let mut rel = rel;
        string_clear(&mut rel);
        let ghost before = queue_contents(self.strings);
        let _ = queue_push(&mut self.strings, rel);
        proof {
            assert forall|i: int| 0 <= i < queue_contents(self.strings).len()
                implies (#[trigger] queue_contents(self.strings)[i]).len() == 0 by {
                if i < before.len() {
                    assert(queue_contents(self.strings)[i] == before[i]);
                }
            }
        }
    }
}

} // verus!
