//! A bounded free-list of reusable byte buffers, for leases that outlive the
//! in-order discipline of the arena.
//!
//! The free-list is a `crossbeam::queue::ArrayQueue`. Taking a buffer pops
//! the oldest free one, or makes a new one when none is free; handing a
//! buffer back queues it unless the list is full, in which case the buffer
//! is dropped.

use vstd::prelude::*;

verus! {

/// `crossbeam::queue::ArrayQueue`, a bounded first-in first-out queue; what
/// it holds is known to the verifier by [`queue_contents`] and
/// [`queue_capacity`] alone.
#[verifier::external_type_specification]
#[verifier::external_body]
#[verifier::reject_recursive_types(T)]
pub struct ExArrayQueue<T>(crossbeam::queue::ArrayQueue<T>);

/// The buffers a queue holds, oldest first, each by its bytes.
pub uninterp spec fn queue_contents(q: crossbeam::queue::ArrayQueue<Vec<u8>>) -> Seq<Seq<u8>>;

/// The number of buffers a queue was made to hold at most.
pub uninterp spec fn queue_capacity(q: crossbeam::queue::ArrayQueue<Vec<u8>>) -> nat;

/// Largest free-list a pool can be made with on this machine: as many
/// slots as fit in one allocation, a slot of the queue taking no more than
/// 32 bytes.
pub const MAX_POOL_BUFFERS: usize = usize::MAX / 64;

/// Taken on trust of `ArrayQueue::new`: it gives an empty queue for at most
/// `cap` buffers. The call panics on a capacity of zero and on one too large
/// to allocate, which the precondition excludes.
#[verifier::external_body]
fn queue_new(cap: usize) -> (q: crossbeam::queue::ArrayQueue<Vec<u8>>)
    requires
        0 < cap <= MAX_POOL_BUFFERS,
    ensures
        queue_contents(q) == Seq::<Seq<u8>>::empty(),
        queue_capacity(q) == cap,
{
    crossbeam::queue::ArrayQueue::new(cap)
}

/// Taken on trust of `ArrayQueue::push` on a queue nobody else uses: the
/// buffer goes to the back if the queue holds fewer buffers than its
/// capacity, and comes back as the error otherwise.
#[verifier::external_body]
fn queue_push(
    q: &mut crossbeam::queue::ArrayQueue<Vec<u8>>,
    value: Vec<u8>,
) -> (r: Result<(), Vec<u8>>)
    ensures
        queue_capacity(*final(q)) == queue_capacity(*old(q)),
        r is Ok <==> queue_contents(*old(q)).len() < queue_capacity(*old(q)),
        r is Ok ==> queue_contents(*final(q)) == queue_contents(*old(q)).push(value@),
        r is Err ==> r->Err_0 == value && queue_contents(*final(q)) == queue_contents(*old(q)),
{
    q.push(value)
}

/// Taken on trust of `ArrayQueue::pop` on a queue nobody else uses: the
/// oldest buffer leaves the queue and is returned, or nothing is if the queue
/// is empty.
#[verifier::external_body]
fn queue_pop(q: &mut crossbeam::queue::ArrayQueue<Vec<u8>>) -> (r: Option<Vec<u8>>)
    ensures
        queue_capacity(*final(q)) == queue_capacity(*old(q)),
        queue_contents(*old(q)).len() == 0 ==> r is None && queue_contents(*final(q))
            == queue_contents(*old(q)),
        queue_contents(*old(q)).len() > 0 ==> r is Some && r->0@ == queue_contents(*old(q))[0]
            && queue_contents(*final(q)) == queue_contents(*old(q)).drop_first(),
{
    q.pop()
}

/// Taken on trust of `Vec::capacity`: it gives how many bytes the buffer has
/// room for, which is never less than it holds and otherwise up to the
/// allocator.
#[verifier::external_body]
fn vec_capacity(v: &Vec<u8>) -> (c: usize)
    ensures
        c >= v@.len(),
{
    v.capacity()
}

/// What a pool is to its users: the free buffers, oldest first, and the
/// most it will keep.
pub struct PoolModel {
    pub free: Seq<Seq<u8>>,
    pub capacity: nat,
}

impl PoolModel {
    /// The free-list after a buffer holding `bytes` was handed back: queued
    /// if there was room, unchanged if not.
    pub open spec fn after_release(self, bytes: Seq<u8>) -> PoolModel {
        if self.free.len() < self.capacity {
            PoolModel { free: self.free.push(bytes), capacity: self.capacity }
        } else {
            self
        }
    }

    /// The free-list after a buffer was taken: without its oldest buffer if
    /// it had one.
    pub open spec fn after_take(self) -> PoolModel {
        if self.free.len() > 0 {
            PoolModel { free: self.free.drop_first(), capacity: self.capacity }
        } else {
            self
        }
    }
}

/// What a buffer with room for `capacity` bytes holds once it has been made
/// fit for `size` bytes: nothing if it had to be reallocated, else what it
/// held.
pub open spec fn fitted(bytes: Seq<u8>, capacity: nat, size: nat) -> Seq<u8> {
    if capacity < size {
        Seq::<u8>::empty()
    } else {
        bytes
    }
}

/// The pool of reusable buffers.
pub struct BufferPool {
    buffers: crossbeam::queue::ArrayQueue<Vec<u8>>,
}

/// A buffer taken from a pool, owned by whoever holds the value.
pub struct PooledBuffer {
    data: Vec<u8>,
}

impl View for BufferPool {
    type V = PoolModel;

    closed spec fn view(&self) -> PoolModel {
        PoolModel { free: queue_contents(self.buffers), capacity: queue_capacity(self.buffers) }
    }
}

impl View for PooledBuffer {
    type V = Seq<u8>;

    closed spec fn view(&self) -> Seq<u8> {
        self.data@
    }
}

/// Makes `vec`, which has room for `capacity` bytes, fit for `size` bytes:
/// a buffer with too little room is emptied and given room for `size`. The
/// room is the allocator's to give, so `size` has to be a size it accepts.
pub fn fit_to_size(vec: Vec<u8>, capacity: usize, size: usize) -> (out: Vec<u8>)
    requires
        size <= isize::MAX,
    ensures
        out@ == fitted(vec@, capacity as nat, size as nat),
{
    let mut vec = vec;
    if capacity < size {
        vec.clear();
        vec.reserve(size - vec.len());
    }
    vec
}

impl BufferPool {
    /// The free-list is never longer than the pool was made for.
    pub open spec fn wf(&self) -> bool {
        0 < self@.capacity && self@.free.len() <= self@.capacity
    }

    /// An empty pool that keeps at most `max_buffers` free buffers.
    pub fn init(max_buffers: usize) -> (pool: BufferPool)
        requires
            0 < max_buffers <= MAX_POOL_BUFFERS,
        ensures
            pool.wf(),
            pool@ == (PoolModel { free: Seq::<Seq<u8>>::empty(), capacity: max_buffers as nat }),
    {
        BufferPool { buffers: queue_new(max_buffers) }
    }

    /// Takes the oldest free buffer, or a new empty one if none is free, and
    /// gives it room for `size` bytes. A reused buffer keeps its bytes unless
    /// it had to be reallocated to make room, which empties it; one that
    /// already holds `size` bytes or more is never reallocated.
    pub fn get_or_create(&mut self, size: usize) -> (buffer: PooledBuffer)
        requires
            old(self).wf(),
            size <= isize::MAX,
        ensures
            final(self).wf(),
            final(self)@ == old(self)@.after_take(),
            old(self)@.free.len() == 0 ==> buffer@ == Seq::<u8>::empty(),
            old(self)@.free.len() > 0 ==> buffer@ == old(self)@.free[0]
                || buffer@ == Seq::<u8>::empty(),
            old(self)@.free.len() > 0 && size <= old(self)@.free[0].len()
                ==> buffer@ == old(self)@.free[0],
    {
        let vec = match queue_pop(&mut self.buffers) {
            Some(vec) => vec,
            None => Vec::with_capacity(size),
        };
        let capacity = vec_capacity(&vec);
        PooledBuffer { data: fit_to_size(vec, capacity, size) }
    }

    /// Takes a buffer back: it joins the free-list if the list has room and
    /// is dropped if not.
    pub fn release(&mut self, buffer: PooledBuffer)
        requires
            old(self).wf(),
        ensures
            final(self).wf(),
            final(self)@ == old(self)@.after_release(buffer@),
    {
        let _ = queue_push(&mut self.buffers, buffer.data);
    }

    /// Number of free buffers.
    pub fn free_count(&self) -> (n: usize)
        ensures
            n == self@.free.len(),
    {
        queue_len(&self.buffers)
    }
}

/// Taken on trust of `ArrayQueue::len` on a queue nobody else uses: it gives
/// the number of buffers held.
#[verifier::external_body]
fn queue_len(q: &crossbeam::queue::ArrayQueue<Vec<u8>>) -> (n: usize)
    ensures
        n == queue_contents(*q).len(),
{
    q.len()
}

impl PooledBuffer {
    /// Wraps `data` as a pooled buffer.
    pub fn new(data: Vec<u8>) -> (buffer: PooledBuffer)
        ensures
            buffer@ == data@,
    {
        PooledBuffer { data }
    }

    /// Gives the bytes out for good; the buffer will not go back to a pool.
    pub fn take(self) -> (data: Vec<u8>)
        ensures
            data@ == self@,
    {
        self.data
    }

    /// The bytes held.
    pub fn as_vec(&self) -> (data: &Vec<u8>)
        ensures
            data@ == self@,
    {
        &self.data
    }

    /// The bytes held, for writing.
    pub fn as_mut_vec(&mut self) -> (data: &mut Vec<u8>)
        ensures
            data@ == old(self)@,
            final(data)@ == final(self)@,
    {
        &mut self.data
    }
}

} // verus!
