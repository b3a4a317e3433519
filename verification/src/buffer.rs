//! A byte ring buffer that keeps one slot free to tell "full" from "empty".
//!
//! The buffer owns its backing storage. Only the first `size` bytes of the
//! storage take part in the ring; the rest is left alone.
use vstd::prelude::*;

verus! {

// ---------------------------------------------------------------------------
// The abstract queue model
// ---------------------------------------------------------------------------

/// The smaller of two naturals.
pub open spec fn min_nat(a: nat, b: nat) -> nat {
    if a < b {
        a
    } else {
        b
    }
}

/// How many bytes a write of `data` stores into a queue holding `contents`
/// that can hold at most `capacity` bytes.
pub open spec fn write_count(contents: Seq<u8>, capacity: nat, data: Seq<u8>) -> nat {
    min_nat(data.len(), (capacity - contents.len()) as nat)
}

/// The queue after a write of `data`: the accepted prefix of `data` is
/// appended at the back.
pub open spec fn after_write(contents: Seq<u8>, capacity: nat, data: Seq<u8>) -> Seq<u8> {
    contents + data.take(write_count(contents, capacity, data) as int)
}

/// How many bytes a read into a destination of `dest_len` bytes takes out.
pub open spec fn read_count(contents: Seq<u8>, dest_len: nat) -> nat {
    min_nat(dest_len, contents.len())
}

/// The bytes a read into a destination of `dest_len` bytes hands out: the
/// front of the queue.
pub open spec fn read_out(contents: Seq<u8>, dest_len: nat) -> Seq<u8> {
    contents.take(read_count(contents, dest_len) as int)
}

/// The queue after a read into a destination of `dest_len` bytes.
pub open spec fn after_read(contents: Seq<u8>, dest_len: nat) -> Seq<u8> {
    contents.skip(read_count(contents, dest_len) as int)
}

/// The physical slot `k` places after slot `start` in a ring of `size`
/// slots (for `start < size` and `k <= size`).
pub open spec fn ring_slot(start: int, k: int, size: int) -> int {
    if start + k < size {
        start + k
    } else {
        start + k - size
    }
}

/// Whether physical slot `j` of a ring of `size` slots lies among the `n`
/// slots that start at `start` and wrap around at `size`.
pub open spec fn in_window(start: int, n: int, size: int, j: int) -> bool {
    &&& 0 <= j < size
    &&& if j >= start {
        j - start < n
    } else {
        j + size - start < n
    }
}

// ---------------------------------------------------------------------------
// The ring buffer
// ---------------------------------------------------------------------------

/// A shared ring buffer for audio data.
pub struct RingBuffer {
    buffer: Vec<u8>,
    size: usize,
    write_pos: usize,
    read_pos: usize,
}

impl RingBuffer {
    /// The internal invariant: the ring fits in the storage and both
    /// positions lie inside the ring (or are zero for an empty ring).
    pub closed spec fn wf(&self) -> bool {
        &&& self.size <= self.buffer@.len()
        &&& self.size == 0 ==> self.write_pos == 0 && self.read_pos == 0
        &&& self.size > 0 ==> self.write_pos < self.size && self.read_pos < self.size
    }

    /// The number of slots of the ring.
    pub closed spec fn ring_size(&self) -> nat {
        self.size as nat
    }

    /// The whole backing storage, ring slots and the rest.
    pub closed spec fn storage(&self) -> Seq<u8> {
        self.buffer@
    }

    /// How many bytes the ring can hold at once: one slot stays free.
    pub open spec fn capacity(&self) -> nat {
        if self.ring_size() > 0 {
            (self.ring_size() - 1) as nat
        } else {
            0
        }
    }

    /// The physical slot where the write position stands.
    pub closed spec fn write_slot(&self) -> int {
        self.write_pos as int
    }

    /// The physical slot where the read position stands.
    pub closed spec fn read_slot(&self) -> int {
        self.read_pos as int
    }

    /// The number of queued bytes.
    pub closed spec fn queued(&self) -> nat {
        if self.write_pos >= self.read_pos {
            (self.write_pos - self.read_pos) as nat
        } else {
            (self.size - (self.read_pos - self.write_pos)) as nat
        }
    }

    /// The physical slot of the `i`-th queued byte.
    pub closed spec fn phys(&self, i: int) -> int {
        if self.read_pos + i < self.size {
            self.read_pos + i
        } else {
            self.read_pos + i - self.size
        }
    }

    /// The queued bytes, oldest first.
    pub closed spec fn contents(&self) -> Seq<u8> {
        Seq::new(self.queued(), |i: int| self.buffer@[self.phys(i)])
    }

    /// Returns the backing storage.
    pub fn get_ptr(&self) -> (storage: &[u8])
        ensures
            storage@ == self.storage(),
    {
        self.buffer.as_slice()
    }

    /// Returns the number of slots of the ring.
    pub fn get_size(&self) -> (size: usize)
        ensures
            size == self.ring_size(),
    {
        self.size
    }

    /// Makes an empty ring over the first `size` bytes of `buffer`.
    pub fn new(buffer: Vec<u8>, size: usize) -> (rb: Self)
        requires
            size <= buffer@.len(),
        ensures
            rb.wf(),
            rb@ == Seq::<u8>::empty(),
            rb.ring_size() == size,
            rb.storage() == buffer@,
            rb.write_slot() == 0,
            rb.read_slot() == 0,
    {
        let rb = RingBuffer { buffer, size, write_pos: 0, read_pos: 0 };
        assert(rb.contents() =~= Seq::<u8>::empty());
        rb
    }

    /// Moves the ring onto the first `size` bytes of `buffer` and empties it.
    pub fn rebase(&mut self, buffer: Vec<u8>, size: usize)
        requires
            size <= buffer@.len(),
        ensures
            final(self).wf(),
            final(self)@ == Seq::<u8>::empty(),
            final(self).ring_size() == size,
            final(self).storage() == buffer@,
            final(self).write_slot() == 0,
            final(self).read_slot() == 0,
    {
        *self = RingBuffer { buffer, size, write_pos: 0, read_pos: 0 };
        assert(self.contents() =~= Seq::<u8>::empty());
    }

    /// Empties the ring; the storage is left as it is.
    pub fn reset(&mut self)
        requires
            old(self).wf(),
        ensures
            final(self).wf(),
            final(self)@ == Seq::<u8>::empty(),
            final(self).ring_size() == old(self).ring_size(),
            final(self).storage() == old(self).storage(),
            final(self).write_slot() == 0,
            final(self).read_slot() == 0,
    {
        self.write_pos = 0;
        self.read_pos = 0;
        assert(self.contents() =~= Seq::<u8>::empty());
    }

    /// Returns how many more bytes the ring can take.
    pub fn available_write(&self) -> (free: usize)
        requires
            self.wf(),
            self.ring_size() > 0,
        ensures
            free == self.capacity() - self@.len(),
    {
        if self.write_pos >= self.read_pos {
            self.size - (self.write_pos - self.read_pos) - 1
        } else {
            self.read_pos - self.write_pos - 1
        }
    }

    /// Returns how many bytes are queued.
    pub fn available_read(&self) -> (queued: usize)
        requires
            self.wf(),
        ensures
            queued == self@.len(),
    {
        if self.write_pos >= self.read_pos {
            self.write_pos - self.read_pos
        } else {
            self.size - (self.read_pos - self.write_pos)
        }
    }

    /// The queue is shorter than the ring: one slot always stays free.
    proof fn lemma_queued_below_size(&self)
        requires
            self.wf(),
            self.size > 0,
        ensures
            self.queued() < self.size,
            self.read_pos + self.queued() < self.size ==> self.write_pos == self.read_pos
                + self.queued(),
            self.read_pos + self.queued() >= self.size ==> self.write_pos == self.read_pos
                + self.queued() - self.size,
    {
    }

    /// Writes as much of `data` as fits and returns how many bytes were
    /// written. The accepted bytes join the back of the queue.
    pub fn write(&mut self, data: &[u8]) -> (written: usize)
        requires
            old(self).wf(),
            old(self).ring_size() > 0,
        ensures
            final(self).wf(),
            written == write_count(old(self)@, old(self).capacity(), data@),
            final(self)@ == after_write(old(self)@, old(self).capacity(), data@),
            final(self).ring_size() == old(self).ring_size(),
            final(self).read_slot() == old(self).read_slot(),
            final(self).write_slot() == ring_slot(
                old(self).write_slot(),
                written as int,
                old(self).ring_size() as int,
            ),
            final(self).storage().len() == old(self).storage().len(),
            forall|k: int|
                0 <= k < written ==> #[trigger] final(self).storage()[ring_slot(
                    old(self).write_slot(),
                    k,
                    old(self).ring_size() as int,
                )] == data@[k],
            forall|j: int|
                0 <= j < old(self).storage().len() && !in_window(
                    old(self).write_slot(),
                    written as int,
                    old(self).ring_size() as int,
                    j,
                ) ==> #[trigger] final(self).storage()[j] == old(self).storage()[j],
    {
        let available = self.available_write();
        let to_write = if data.len() < available {
            data.len()
        } else {
            available
        };
        proof {
            self.lemma_queued_below_size();
        }
        if to_write == 0 {
            assert(self@ =~= after_write(old(self)@, old(self).capacity(), data@));
            return 0;
        }
        let room = self.size - self.write_pos;
        let first_part = if to_write < room {
            to_write
        } else {
            room
        };
        let wp = self.write_pos;
        let ghost old_buf = self.buffer@;
        let mut k: usize = 0;
        while k < first_part
            invariant
                self.size == old(self).size,
                self.write_pos == wp,
                self.read_pos == old(self).read_pos,
                wp == old(self).write_pos,
                old_buf == old(self).buffer@,
                first_part <= room,
                room == self.size - wp,
                first_part <= to_write,
                to_write <= data@.len(),
                k <= first_part,
                self.buffer@.len() == old_buf.len(),
                self.size <= old_buf.len(),
                forall|j: int|
                    0 <= j < old_buf.len() ==> #[trigger] self.buffer@[j] == if wp <= j < wp + k {
                        data@[j - wp]
                    } else {
                        old_buf[j]
                    },
            decreases first_part - k,
        {
            let idx = wp + k;
            self.buffer.set(idx, data[k]);
            k = k + 1;
        }
        if first_part < to_write {
            let second_part = to_write - first_part;
            let mut k2: usize = 0;
            while k2 < second_part
                invariant
                    self.size == old(self).size,
                    self.write_pos == wp,
                    self.read_pos == old(self).read_pos,
                    wp == old(self).write_pos,
                    old_buf == old(self).buffer@,
                    first_part == room,
                    room == self.size - wp,
                    second_part == to_write - first_part,
                    to_write <= data@.len(),
                    k2 <= second_part,
                    second_part < wp,
                    self.buffer@.len() == old_buf.len(),
                    self.size <= old_buf.len(),
                    forall|j: int|
                        0 <= j < old_buf.len() ==> #[trigger] self.buffer@[j] == if j < k2 {
                            data@[first_part + j]
                        } else if wp <= j < self.size {
                            data@[j - wp]
                        } else {
                            old_buf[j]
                        },
                decreases second_part - k2,
            {
                self.buffer.set(k2, data[first_part + k2]);
                k2 = k2 + 1;
            }
        }
        self.write_pos = if to_write < room {
            wp + to_write
        } else {
            to_write - room
        };
        proof {
            let old_q = old(self)@;
            let new_c = after_write(old_q, old(self).capacity(), data@);
            assert(self.queued() == old(self).queued() + to_write);
            assert forall|i: int| 0 <= i < new_c.len() implies #[trigger] self@[i] == new_c[i] by {
                if i < old_q.len() {
                    assert(self.phys(i) == old(self).phys(i));
                    assert(!in_window(wp as int, to_write as int, self.size as int, self.phys(i)));
                } else {
                    let t = i - old_q.len();
                    assert(new_c[i] == data@[t]);
                }
            }
            assert(self@ =~= new_c);
        }
        to_write
    }

    /// Moves as many queued bytes as fit into the front of `data` and
    /// returns how many were moved. The rest of `data` is left as it is.
    pub fn read(&mut self, data: &mut [u8]) -> (count: usize)
        requires
            old(self).wf(),
        ensures
            final(self).wf(),
            count == read_count(old(self)@, old(data)@.len()),
            final(data)@ == read_out(old(self)@, old(data)@.len()) + old(data)@.skip(count as int),
            final(self)@ == after_read(old(self)@, old(data)@.len()),
            final(self).ring_size() == old(self).ring_size(),
            final(self).write_slot() == old(self).write_slot(),
            final(self).read_slot() == ring_slot(
                old(self).read_slot(),
                count as int,
                old(self).ring_size() as int,
            ),
            final(self).storage() == old(self).storage(),
    {
        let available = self.available_read();
        let to_read = if data.len() < available {
            data.len()
        } else {
            available
        };
        if to_read == 0 {
            assert(data@ =~= read_out(old(self)@, old(data)@.len()) + old(data)@.skip(0));
            assert(self@ =~= after_read(old(self)@, old(data)@.len()));
            return 0;
        }
        proof {
            self.lemma_queued_below_size();
        }
        let room = self.size - self.read_pos;
        let first_part = if to_read < room {
            to_read
        } else {
            room
        };
        let rp = self.read_pos;
        let ghost old_data = data@;
        let mut k: usize = 0;
        while k < first_part
            invariant
                self.wf(),
                *self == *old(self),
                rp == self.read_pos,
                first_part <= room,
                room == self.size - rp,
                first_part <= to_read,
                to_read <= old_data.len(),
                to_read <= self.queued(),
                k <= first_part,
                old_data == old(data)@,
                data@.len() == old_data.len(),
                forall|j: int|
                    0 <= j < old_data.len() ==> #[trigger] data@[j] == if j < k {
                        self@[j]
                    } else {
                        old_data[j]
                    },
            decreases first_part - k,
        {
            let idx = rp + k;
            data[k] = self.buffer[idx];
            k = k + 1;
        }
        if first_part < to_read {
            let second_part = to_read - first_part;
            let mut k2: usize = 0;
            while k2 < second_part
                invariant
                    self.wf(),
                    *self == *old(self),
                    rp == self.read_pos,
                    first_part == room,
                    room == self.size - rp,
                    second_part == to_read - first_part,
                    to_read <= old_data.len(),
                    to_read <= self.queued(),
                    k2 <= second_part,
                    old_data == old(data)@,
                    data@.len() == old_data.len(),
                    forall|j: int|
                        0 <= j < old_data.len() ==> #[trigger] data@[j] == if j < first_part
                            + k2 {
                            self@[j]
                        } else {
                            old_data[j]
                        },
                decreases second_part - k2,
            {
                data[first_part + k2] = self.buffer[k2];
                k2 = k2 + 1;
            }
        }
        self.read_pos = if to_read < room {
            rp + to_read
        } else {
            to_read - room
        };
        proof {
            let old_q = old(self)@;
            assert(data@ =~= read_out(old_q, old_data.len()) + old_data.skip(to_read as int));
            let new_c = after_read(old_q, old_data.len());
            assert(self.queued() == old(self).queued() - to_read);
            assert forall|i: int| 0 <= i < new_c.len() implies #[trigger] self@[i] == new_c[i] by {
                assert(new_c[i] == old_q[i + to_read]);
            }
            assert(self@ =~= new_c);
        }
        to_read
    }
}

// ---------------------------------------------------------------------------
// Laws of the ring buffer
// ---------------------------------------------------------------------------

/// The queue never holds more than the ring's capacity, so the queued bytes
/// and the free room always add up to one less than the number of slots.
pub proof fn law_queue_within_capacity(rb: &RingBuffer)
    requires
        rb.wf(),
    ensures
        rb@.len() <= rb.capacity(),
        rb.ring_size() > 0 ==> rb@.len() + (rb.capacity() - rb@.len()) == rb.ring_size() - 1,
{
    if rb.size > 0 {
        rb.lemma_queued_below_size();
    }
}

/// Writing into a queue that respects its capacity keeps it within that
/// capacity.
pub proof fn law_write_respects_capacity(contents: Seq<u8>, capacity: nat, data: Seq<u8>)
    requires
        contents.len() <= capacity,
    ensures
        after_write(contents, capacity, data).len() <= capacity,
        after_write(contents, capacity, data).len() == contents.len() + write_count(
            contents,
            capacity,
            data,
        ),
{
}

/// Into an empty ring, a write of at most `capacity` bytes is taken whole,
/// and a read with room for all of them gives back exactly those bytes and
/// leaves the ring empty.
pub proof fn law_write_then_read_roundtrip(data: Seq<u8>, capacity: nat, dest_len: nat)
    requires
        data.len() <= capacity,
        data.len() <= dest_len,
    ensures
        write_count(Seq::empty(), capacity, data) == data.len(),
        read_out(after_write(Seq::empty(), capacity, data), dest_len) == data,
        after_read(after_write(Seq::empty(), capacity, data), dest_len) == Seq::<u8>::empty(),
{
    let q = after_write(Seq::empty(), capacity, data);
    assert(q =~= data);
    assert(read_out(q, dest_len) =~= data);
    assert(after_read(q, dest_len) =~= Seq::<u8>::empty());
}

/// Bytes leave in the order they came: what a read hands out after a write
/// is the front of the old contents followed by the written bytes.
pub proof fn law_first_in_first_out(
    contents: Seq<u8>,
    capacity: nat,
    data: Seq<u8>,
    dest_len: nat,
)
    requires
        contents.len() <= capacity,
    ensures
        read_out(after_write(contents, capacity, data), dest_len) == (contents + data).take(
            read_count(after_write(contents, capacity, data), dest_len) as int,
        ),
        dest_len <= contents.len() ==> read_out(after_write(contents, capacity, data), dest_len)
            == read_out(contents, dest_len),
{
    let q = after_write(contents, capacity, data);
    let n = read_count(q, dest_len) as int;
    assert(read_out(q, dest_len) =~= (contents + data).take(n));
    if dest_len <= contents.len() {
        assert(read_out(q, dest_len) =~= read_out(contents, dest_len));
    }
}

/// A read loses nothing: the bytes handed out followed by the bytes that
/// stay make up the queue as it was.
pub proof fn law_read_conserves(contents: Seq<u8>, dest_len: nat)
    ensures
        read_out(contents, dest_len) + after_read(contents, dest_len) == contents,
        read_out(contents, dest_len).len() == read_count(contents, dest_len),
{
    assert(read_out(contents, dest_len) + after_read(contents, dest_len) =~= contents);
}

/// A full ring takes no bytes, and an empty ring hands none out.
pub proof fn law_full_and_empty(contents: Seq<u8>, capacity: nat, data: Seq<u8>, dest_len: nat)
    ensures
        contents.len() == capacity ==> write_count(contents, capacity, data) == 0
            && after_write(contents, capacity, data) == contents,
        contents.len() == 0 ==> read_count(contents, dest_len) == 0 && read_out(
            contents,
            dest_len,
        ) == Seq::<u8>::empty(),
{
    if contents.len() == capacity {
        assert(after_write(contents, capacity, data) =~= contents);
    }
    if contents.len() == 0 {
        assert(read_out(contents, dest_len) =~= Seq::<u8>::empty());
    }
}

impl View for RingBuffer {
    type V = Seq<u8>;

    open spec fn view(&self) -> Seq<u8> {
        self.contents()
    }
}

} // verus!
