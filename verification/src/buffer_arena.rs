//! A growable byte region from which frame buffers are leased and to which
//! they are handed back, so that steady-state capture allocates nothing.
//!
//! The region is a `bytes::BytesMut`. A lease is the front part split off
//! it; giving a lease back appends its bytes to the region again; freezing a
//! lease turns it into an immutable `bytes::Bytes` that never comes back.

use vstd::prelude::*;

verus! {

/// `bytes::BytesMut`, a growable byte buffer; what it holds is known to the
/// verifier by [`bytes_mut_contents`] alone.
#[verifier::external_type_specification]
#[verifier::external_body]
pub struct ExBytesMut(bytes::BytesMut);

/// `bytes::Bytes`, an immutable byte buffer; what it holds is known to the
/// verifier by [`bytes_contents`] alone.
#[verifier::external_type_specification]
#[verifier::external_body]
pub struct ExBytes(bytes::Bytes);

/// The bytes a `BytesMut` holds, first to last.
pub uninterp spec fn bytes_mut_contents(b: bytes::BytesMut) -> Seq<u8>;

/// The bytes a `Bytes` holds, first to last.
pub uninterp spec fn bytes_contents(b: bytes::Bytes) -> Seq<u8>;

/// `n` bytes of value `fill`.
pub open spec fn filled(n: nat, fill: u8) -> Seq<u8> {
    Seq::new(n, |i: int| fill)
}

/// `n` zero bytes.
pub open spec fn zeros(n: nat) -> Seq<u8> {
    filled(n, 0)
}

/// Taken on trust of `BytesMut::zeroed`: it gives a buffer of `len` zero
/// bytes. The call allocates, so `len` has to be a size the allocator
/// accepts.
#[verifier::external_body]
fn bytes_zeroed(len: usize) -> (b: bytes::BytesMut)
    requires
        len <= isize::MAX,
    ensures
        bytes_mut_contents(b) == zeros(len as nat),
{
    bytes::BytesMut::zeroed(len)
}

/// Taken on trust of `BytesMut::len`: it gives the number of bytes held.
#[verifier::external_body]
fn bytes_len(b: &bytes::BytesMut) -> (n: usize)
    ensures
        n == bytes_mut_contents(*b).len(),
{
    b.len()
}

/// Taken on trust of `BytesMut::resize`, used to lengthen: the buffer keeps
/// its bytes and gains bytes of value `fill` up to `new_len`. The call may
/// reallocate, so `new_len` has to be a size the allocator accepts.
#[verifier::external_body]
fn bytes_lengthen(b: &mut bytes::BytesMut, new_len: usize, fill: u8)
    requires
        bytes_mut_contents(*old(b)).len() <= new_len <= isize::MAX,
    ensures
        bytes_mut_contents(*final(b)) == bytes_mut_contents(*old(b)) + filled(
            (new_len - bytes_mut_contents(*old(b)).len()) as nat,
            fill,
        ),
{
    b.resize(new_len, fill)
}

/// Taken on trust of `BytesMut::split_to`: the first `at` bytes leave the
/// buffer and are returned; the buffer keeps the rest. The call panics when
/// `at` is past the end, which the precondition excludes.
#[verifier::external_body]
fn bytes_split_to(b: &mut bytes::BytesMut, at: usize) -> (front: bytes::BytesMut)
    requires
        at <= bytes_mut_contents(*old(b)).len(),
    ensures
        bytes_mut_contents(front) == bytes_mut_contents(*old(b)).subrange(0, at as int),
        bytes_mut_contents(*final(b)) == bytes_mut_contents(*old(b)).subrange(
            at as int,
            bytes_mut_contents(*old(b)).len() as int,
        ),
{
    b.split_to(at)
}

/// Taken on trust of `BytesMut::unsplit`: the bytes of `other` are appended
/// to the buffer, whether by joining adjacent memory or by copying. Copying
/// may reallocate, so the combined length has to be a size the allocator
/// accepts.
#[verifier::external_body]
fn bytes_unsplit(b: &mut bytes::BytesMut, other: bytes::BytesMut)
    requires
        bytes_mut_contents(*old(b)).len() + bytes_mut_contents(other).len() <= isize::MAX,
    ensures
        bytes_mut_contents(*final(b)) == bytes_mut_contents(*old(b)) + bytes_mut_contents(other),
{
    b.unsplit(other)
}

/// Taken on trust of `BytesMut::freeze`: it gives the same bytes as an
/// immutable `Bytes`.
#[verifier::external_body]
fn bytes_freeze(b: bytes::BytesMut) -> (frozen: bytes::Bytes)
    ensures
        bytes_contents(frozen) == bytes_mut_contents(b),
{
    b.freeze()
}

/// Taken on trust of `BytesMut` dereferenced to a slice: the slice is the
/// bytes held.
#[verifier::external_body]
fn bytes_as_slice(b: &bytes::BytesMut) -> (s: &[u8])
    ensures
        s@ == bytes_mut_contents(*b),
{
    &b[..]
}

/// Taken on trust of `BytesMut` dereferenced to a mutable slice: the slice
/// is the bytes held, and what is written through it is what the buffer
/// holds afterwards.
#[verifier::external_body]
fn bytes_as_mut_slice(b: &mut bytes::BytesMut) -> (s: &mut [u8])
    ensures
        s@ == bytes_mut_contents(*old(b)),
        final(s)@ == bytes_mut_contents(*final(b)),
{
    &mut b[..]
}

/// Increment of a counter that stops at the largest `u64`.
pub open spec fn bumped(count: nat) -> nat {
    if count < u64::MAX {
        count + 1
    } else {
        count
    }
}

/// What an arena is to its users: the bytes it can still hand out and how
/// often it had to be lengthened to serve a request.
pub struct ArenaModel {
    pub bytes: Seq<u8>,
    pub growths: nat,
}

impl ArenaModel {
    /// Number of bytes that can be leased without lengthening the region.
    pub open spec fn available(self) -> nat {
        self.bytes.len()
    }

    /// A request for `size` bytes does not fit in what is available.
    pub open spec fn must_grow(self, size: nat) -> bool {
        self.available() < size
    }

    /// The region as it stands when a request for `size` bytes is carved:
    /// lengthened with zero bytes to `size` if it was shorter.
    pub open spec fn grown(self, size: nat) -> Seq<u8> {
        if self.must_grow(size) {
            self.bytes + zeros((size - self.available()) as nat)
        } else {
            self.bytes
        }
    }

    /// The bytes a lease of `size` bytes starts out with.
    pub open spec fn leased(self, size: nat) -> Seq<u8> {
        self.grown(size).subrange(0, size as int)
    }

    /// The arena after a lease of `size` bytes has been carved off.
    pub open spec fn after_get(self, size: nat) -> ArenaModel {
        ArenaModel {
            bytes: self.grown(size).subrange(size as int, self.grown(size).len() as int),
            growths: if self.must_grow(size) {
                bumped(self.growths)
            } else {
                self.growths
            },
        }
    }

    /// The arena after a lease holding `lease` has been handed back.
    pub open spec fn after_release(self, lease: Seq<u8>) -> ArenaModel {
        ArenaModel { bytes: self.bytes + lease, growths: self.growths }
    }

    /// The arena after a lease of `size` bytes was taken and handed back
    /// with the bytes it was given.
    pub open spec fn after_cycle(self, size: nat) -> ArenaModel {
        self.after_get(size).after_release(self.leased(size))
    }

    /// The arena after one take-and-hand-back cycle for each of `sizes`, in
    /// order.
    pub open spec fn after_cycles(self, sizes: Seq<nat>) -> ArenaModel
        decreases sizes.len(),
    {
        if sizes.len() == 0 {
            self
        } else {
            self.after_cycle(sizes[0]).after_cycles(sizes.drop_first())
        }
    }
}

impl ArenaModel {
    /// The sizes, among the cycles for `sizes`, for which the region had to
    /// be lengthened, in order.
    pub open spec fn growth_sizes(self, sizes: Seq<nat>) -> Seq<nat>
        decreases sizes.len(),
    {
        if sizes.len() == 0 {
            Seq::empty()
        } else {
            let later = self.after_cycle(sizes[0]).growth_sizes(sizes.drop_first());
            if self.must_grow(sizes[0]) {
                seq![sizes[0]] + later
            } else {
                later
            }
        }
    }
}

/// The distinct values among `sizes` that are larger than `capacity`.
pub open spec fn sizes_exceeding(capacity: nat, sizes: Seq<nat>) -> Set<nat> {
    sizes.to_set().filter(|s: nat| s > capacity)
}

/// One take-and-hand-back cycle leaves the region as long as the larger of
/// its length before and the size asked for, and counts a lengthening exactly
/// when the request did not fit.
pub proof fn lemma_cycle(m: ArenaModel, size: nat)
    ensures
        m.after_cycle(size).available() == if m.must_grow(size) {
            size
        } else {
            m.available()
        },
        m.after_cycle(size).growths == if m.must_grow(size) {
            bumped(m.growths)
        } else {
            m.growths
        },
{
}

/// Arena reuse. When every lease is handed back before the next one is
/// taken, the region is lengthened at most once for each distinct size that
/// exceeds the length the region started with, however many leases are
/// taken; and it ends as long as the largest size asked for, or as it was.
pub proof fn lemma_arena_reuse(m: ArenaModel, sizes: Seq<nat>)
    ensures
        m.after_cycles(sizes).growths >= m.growths,
        m.after_cycles(sizes).growths - m.growths <= sizes_exceeding(m.available(), sizes).len(),
        m.after_cycles(sizes).available() >= m.available(),
        forall|i: int| 0 <= i < sizes.len() ==> m.after_cycles(sizes).available() >= sizes[i],
        m.after_cycles(sizes).available() == m.available() || sizes.contains(
            m.after_cycles(sizes).available(),
        ),
    decreases sizes.len(),
{
    let capacity = m.available();
    let all = sizes_exceeding(capacity, sizes);
    vstd::seq_lib::seq_to_set_is_finite(sizes);
    sizes.to_set().lemma_len_filter(|s: nat| s > capacity);
    if sizes.len() == 0 {
    } else {
        let first = sizes[0];
        let rest = sizes.drop_first();
        let next = m.after_cycle(first);
        lemma_cycle(m, first);
        lemma_arena_reuse(next, rest);
        let later = sizes_exceeding(next.available(), rest);
        vstd::seq_lib::seq_to_set_is_finite(rest);
        rest.to_set().lemma_len_filter(|s: nat| s > next.available());
        assert forall|x: nat| rest.to_set().contains(x) implies sizes.to_set().contains(x) by {
            let i = choose|i: int| 0 <= i < rest.len() && rest[i] == x;
            assert(sizes[i + 1] == x);
        }
        assert(sizes.to_set().contains(first));
        if m.must_grow(first) {
            assert(!later.contains(first));
            assert(later.insert(first).subset_of(all));
            vstd::set_lib::lemma_len_subset(later.insert(first), all);
        } else {
            assert(later.subset_of(all));
            vstd::set_lib::lemma_len_subset(later, all);
        }
        let end = m.after_cycles(sizes).available();
        assert forall|i: int| 0 <= i < sizes.len() implies end >= sizes[i] by {
            if i > 0 {
                assert(rest[i - 1] == sizes[i]);
            }
        }
        if end != capacity {
            if end == next.available() {
                assert(sizes[0] == end);
            } else {
                let i = choose|i: int| 0 <= i < rest.len() && rest[i] == end;
                assert(sizes[i + 1] == end);
            }
        }
    }
}

/// Every lengthening in a run of cycles is for a size larger than the region
/// was at the start and larger than the size of every lengthening before it,
/// so no size makes the region grow twice; and the lengthenings are what is
/// counted.
pub proof fn lemma_growths_are_records(m: ArenaModel, sizes: Seq<nat>)
    ensures
        forall|i: int|
            0 <= i < m.growth_sizes(sizes).len() ==> #[trigger] m.growth_sizes(sizes)[i]
                > m.available(),
        forall|i: int, j: int|
            0 <= i < j < m.growth_sizes(sizes).len() ==> #[trigger] m.growth_sizes(sizes)[i]
                < #[trigger] m.growth_sizes(sizes)[j],
        forall|i: int|
            0 <= i < m.growth_sizes(sizes).len() ==> sizes.contains(
                #[trigger] m.growth_sizes(sizes)[i],
            ),
        m.after_cycles(sizes).growths <= m.growths + m.growth_sizes(sizes).len(),
        m.growths + m.growth_sizes(sizes).len() <= u64::MAX ==> m.after_cycles(sizes).growths
            == m.growths + m.growth_sizes(sizes).len(),
    decreases sizes.len(),
{
    if sizes.len() > 0 {
        let first = sizes[0];
        let rest = sizes.drop_first();
        let next = m.after_cycle(first);
        lemma_cycle(m, first);
        lemma_growths_are_records(next, rest);
        let later = next.growth_sizes(rest);
        let all = m.growth_sizes(sizes);
        assert forall|i: int| 0 <= i < later.len() implies sizes.contains(#[trigger] later[i]) by {
            let k = choose|k: int| 0 <= k < rest.len() && rest[k] == later[i];
            assert(sizes[k + 1] == later[i]);
        }
        if m.must_grow(first) {
            assert(all =~= seq![first] + later);
            assert forall|i: int| 0 <= i < all.len() implies #[trigger] all[i] > m.available() by {
                if i > 0 {
                    assert(all[i] == later[i - 1]);
                }
            }
            assert forall|i: int, j: int| 0 <= i < j < all.len() implies #[trigger] all[i]
                < #[trigger] all[j] by {
                assert(all[j] == later[j - 1]);
                if i > 0 {
                    assert(all[i] == later[i - 1]);
                }
            }
            assert forall|i: int| 0 <= i < all.len() implies sizes.contains(#[trigger] all[i]) by {
                if i > 0 {
                    assert(all[i] == later[i - 1]);
                }
            }
        } else {
            assert(all == later);
        }
    }
}

/// The number of sizes among `sizes` that exceed both `capacity` and every
/// size before them.
pub open spec fn record_count(capacity: nat, sizes: Seq<nat>) -> nat
    decreases sizes.len(),
{
    if sizes.len() == 0 {
        0
    } else if sizes[0] > capacity {
        1 + record_count(sizes[0], sizes.drop_first())
    } else {
        record_count(capacity, sizes.drop_first())
    }
}

/// Arena reuse, counted. When every lease is handed back before the next
/// one is taken, the region is lengthened exactly as often as a size exceeds
/// the length the region started with and every size asked for before it,
/// however many leases are taken. The counter shows that number as long as
/// it has not reached its largest value.
pub proof fn lemma_growths_count_records(m: ArenaModel, sizes: Seq<nat>)
    ensures
        m.growth_sizes(sizes).len() == record_count(m.available(), sizes),
        m.after_cycles(sizes).growths <= m.growths + record_count(m.available(), sizes),
        m.growths + record_count(m.available(), sizes) <= u64::MAX ==> m.after_cycles(
            sizes,
        ).growths == m.growths + record_count(m.available(), sizes),
    decreases sizes.len(),
{
    lemma_growths_are_records(m, sizes);
    if sizes.len() > 0 {
        lemma_cycle(m, sizes[0]);
        lemma_growths_count_records(m.after_cycle(sizes[0]), sizes.drop_first());
    }
}

/// Asking for one size again and again lengthens the region once if the
/// size exceeds the region, and never if it does not, however often it is
/// asked for.
pub proof fn lemma_repeated_size_grows_at_most_once(capacity: nat, size: nat, times: nat)
    ensures
        record_count(capacity, Seq::new(times, |i: int| size)) == if times > 0 && size
            > capacity {
            1nat
        } else {
            0nat
        },
    decreases times,
{
    let sizes = Seq::new(times, |i: int| size);
    if times > 0 {
        let rest = Seq::new((times - 1) as nat, |i: int| size);
        assert(sizes.drop_first() =~= rest);
        if size > capacity {
            lemma_repeated_size_grows_at_most_once(size, size, (times - 1) as nat);
        } else {
            lemma_repeated_size_grows_at_most_once(capacity, size, (times - 1) as nat);
        }
    }
}

/// Freezing is terminal. Carving a lease splits the region into the lease
/// and what stays; a lease that is frozen instead of handed back leaves the
/// region at what stayed, so whatever is leased next is made of bytes that
/// stayed and of fresh zero bytes, never of the frozen ones, and a request
/// that would have fitted had the lease come back may not fit any more.
pub proof fn lemma_freeze_is_terminal(m: ArenaModel, size: nat, next: nat)
    ensures
        m.grown(size) == m.leased(size) + m.after_get(size).bytes,
        m.after_get(size).available() + size == m.grown(size).len(),
        m.after_get(size).leased(next) == (m.after_get(size).bytes + zeros(
            if next > m.after_get(size).available() {
                (next - m.after_get(size).available()) as nat
            } else {
                0
            },
        )).subrange(0, next as int),
        m.after_get(size).must_grow(next) <==> next + size > m.grown(size).len(),
        m.after_cycle(size).must_grow(next) <==> next > m.grown(size).len(),
{
    let rest = m.after_get(size);
    assert(m.grown(size) =~= m.leased(size) + rest.bytes);
    assert(rest.bytes + zeros(0) =~= rest.bytes);
}

/// The arena: a byte region and the count of its lengthenings.
pub struct BufferArena {
    arena: bytes::BytesMut,
    growths: u64,
}

/// A lease: bytes carved from an arena, owned by whoever holds the value.
pub struct BufferRef {
    data: bytes::BytesMut,
}

impl View for BufferArena {
    type V = ArenaModel;

    closed spec fn view(&self) -> ArenaModel {
        ArenaModel { bytes: bytes_mut_contents(self.arena), growths: self.growths as nat }
    }
}

impl View for BufferRef {
    type V = Seq<u8>;

    closed spec fn view(&self) -> Seq<u8> {
        bytes_mut_contents(self.data)
    }
}

impl BufferArena {
    /// The region never holds more bytes than one allocation can.
    pub open spec fn wf(&self) -> bool {
        self@.available() <= isize::MAX
    }

    /// An arena of `capacity` zero bytes that has never grown.
    pub fn init(capacity: usize) -> (arena: BufferArena)
        requires
            capacity <= isize::MAX,
        ensures
            arena.wf(),
            arena@ == (ArenaModel { bytes: zeros(capacity as nat), growths: 0 }),
    {
        BufferArena { arena: bytes_zeroed(capacity), growths: 0 }
    }

    /// Number of bytes that can be leased without lengthening the region.
    pub fn available(&self) -> (n: usize)
        ensures
            n == self@.available(),
    {
        bytes_len(&self.arena)
    }

    /// How often a request found the region too short, counted up to the
    /// largest `u64`.
    pub fn growths(&self) -> (n: u64)
        ensures
            n == self@.growths,
    {
        self.growths
    }

    /// Leases `size` bytes from the front of the region, lengthening the
    /// region first if it is shorter than `size`. The lease may hold bytes a
    /// previous tenant wrote.
    pub fn get(&mut self, size: usize) -> (lease: BufferRef)
        requires
            old(self).wf(),
            size <= isize::MAX,
        ensures
            final(self).wf(),
            final(self)@ == old(self)@.after_get(size as nat),
            lease@ == old(self)@.leased(size as nat),
            lease@.len() == size,
    {
        let current_len = bytes_len(&self.arena);
        if current_len < size {
            bytes_lengthen(&mut self.arena, size, 0);
            if self.growths < u64::MAX {
                self.growths = self.growths + 1;
            }
        }
        let chunk = bytes_split_to(&mut self.arena, size);
        BufferRef { data: chunk }
    }

    /// The region can take a lease holding `lease` back without outgrowing
    /// one allocation.
    pub open spec fn can_take_back(&self, lease: Seq<u8>) -> bool {
        self@.available() + lease.len() <= isize::MAX
    }

    /// Takes a lease back if the region can hold its bytes as well, and
    /// hands it back to the caller untouched if it cannot.
    pub fn try_release(&mut self, lease: BufferRef) -> (rejected: Option<BufferRef>)
        requires
            old(self).wf(),
        ensures
            final(self).wf(),
            old(self).can_take_back(lease@) ==> rejected is None
                && final(self)@ == old(self)@.after_release(lease@),
            !old(self).can_take_back(lease@) ==> rejected == Some(lease)
                && final(self)@ == old(self)@,
    {
        let limit = usize::MAX / 2;
        assert(limit == isize::MAX);
        if lease.len() <= limit - self.available() {
            self.release(lease);
            None
        } else {
            Some(lease)
        }
    }

    /// Takes a lease back: its bytes are appended to the region and can be
    /// leased again.
    pub fn release(&mut self, lease: BufferRef)
        requires
            old(self).wf(),
            old(self).can_take_back(lease@),
        ensures
            final(self).wf(),
            final(self)@ == old(self)@.after_release(lease@),
    {
        bytes_unsplit(&mut self.arena, lease.data);
    }
}

impl BufferRef {
    /// Number of bytes leased.
    pub fn len(&self) -> (n: usize)
        ensures
            n == self@.len(),
    {
        bytes_len(&self.data)
    }

    /// The leased bytes.
    pub fn as_slice(&self) -> (s: &[u8])
        ensures
            s@ == self@,
    {
        bytes_as_slice(&self.data)
    }

    /// The leased bytes, for writing.
    pub fn as_mut_slice(&mut self) -> (s: &mut [u8])
        ensures
            s@ == old(self)@,
            final(s)@ == final(self)@,
    {
        bytes_as_mut_slice(&mut self.data)
    }

    /// Turns the lease into an immutable byte sequence that is detached from
    /// the arena for good. The lease is used up, so nothing is left that
    /// could be handed back.
    pub fn freeze(self) -> (frozen: bytes::Bytes)
        ensures
            bytes_contents(frozen) == self@,
    {
        bytes_freeze(self.data)
    }
}

} // verus!
