use vstd::prelude::*;

verus! {

/// What a channel holds, as the contracts speak of it: its slots, its
/// write and read positions (which run over twice the capacity, so that a
/// full buffer and an empty one can be told apart) and its capacity.
pub struct ChannelView<T> {
    pub slots: Seq<Option<T>>,
    pub write_pos: int,
    pub read_pos: int,
    pub capacity: int,
}

impl<T> ChannelView<T> {
    /// The slot that position `p` denotes.
    pub open spec fn slot_of(self, p: int) -> int {
        if p < self.capacity {
            p
        } else {
            p - self.capacity
        }
    }

    /// Position `p` moved `k` places forward.
    pub open spec fn advance(self, p: int, k: int) -> int {
        if p + k < 2 * self.capacity {
            p + k
        } else {
            p + k - 2 * self.capacity
        }
    }

    /// The number of items written and not yet read.
    pub open spec fn pending(self) -> int {
        if self.write_pos >= self.read_pos {
            self.write_pos - self.read_pos
        } else {
            self.write_pos + 2 * self.capacity - self.read_pos
        }
    }

    /// Slots and positions are in range.
    pub open spec fn in_range(self) -> bool {
        &&& self.slots.len() == self.capacity
        &&& self.capacity > 0
        &&& 0 <= self.write_pos < 2 * self.capacity
        &&& 0 <= self.read_pos < 2 * self.capacity
    }

    /// The channel holds a queue: the pending items fill the slots from the
    /// read position on, and every other slot is empty.
    pub open spec fn well_formed(self) -> bool {
        &&& self.in_range()
        &&& self.pending() <= self.capacity
        &&& forall|i: int|
            0 <= i < self.capacity ==> (#[trigger] self.slots[self.slot_of(
                self.advance(self.read_pos, i),
            )] is Some <==> i < self.pending())
    }

    /// The pending items, oldest first.
    pub open spec fn queue(self) -> Seq<T> {
        Seq::new(
            self.pending() as nat,
            |i: int| self.slots[self.slot_of(self.advance(self.read_pos, i))]->0,
        )
    }

    /// The channel after `data` is written: it goes in the slot of the write
    /// position, which then moves forward.
    pub open spec fn after_send(self, data: T) -> ChannelView<T> {
        ChannelView {
            slots: self.slots.update(self.slot_of(self.write_pos), Some(data)),
            write_pos: self.advance(self.write_pos, 1),
            ..self
        }
    }

    /// The channel after a read attempt, and what was read: the slot of the
    /// read position is emptied and, when it held an item, the read position
    /// moves forward.
    pub open spec fn after_recv(self) -> (ChannelView<T>, Option<T>) {
        let s = self.slot_of(self.read_pos);
        match self.slots[s] {
            Some(data) => (
                ChannelView {
                    slots: self.slots.update(s, None),
                    read_pos: self.advance(self.read_pos, 1),
                    ..self
                },
                Some(data),
            ),
            None => (self, None),
        }
    }
}

/// A bounded ring buffer of messages, written by one side and read by the
/// other.
pub struct LockFreeChannel<T> {
    buffer: Vec<Option<T>>,
    write_pos: usize,
    read_pos: usize,
    capacity: usize,
}

impl<T> View for LockFreeChannel<T> {
    type V = ChannelView<T>;

    closed spec fn view(&self) -> ChannelView<T> {
        ChannelView {
            slots: self.buffer@,
            write_pos: self.write_pos as int,
            read_pos: self.read_pos as int,
            capacity: self.capacity as int,
        }
    }
}

impl<T> LockFreeChannel<T> {
    /// Every channel is either untouched since it was made (both positions
    /// at the start) or has both positions below twice a positive capacity
    /// whose double fits in a `usize`: only such channels are written and
    /// read.
    #[verifier::type_invariant]
    spec fn positions_valid(self) -> bool {
        ||| (self.write_pos == 0 && self.read_pos == 0)
        ||| {
            &&& 0 < self.capacity
            &&& 2 * self.capacity <= usize::MAX
            &&& self.write_pos < 2 * self.capacity
            &&& self.read_pos < 2 * self.capacity
        }
    }
    /// A channel of `capacity` empty slots with both positions at the start.
    pub fn new(capacity: usize) -> (c: Self)
        ensures
            c@.slots == Seq::new(capacity as nat, |i: int| None::<T>),
            c@.write_pos == 0,
            c@.read_pos == 0,
            c@.capacity == capacity,
            capacity > 0 ==> c@.well_formed(),
            capacity > 0 ==> c@.queue() == Seq::<T>::empty(),
    {
        let mut buffer: Vec<Option<T>> = Vec::with_capacity(capacity);
        let mut i: usize = 0;
        while i < capacity
            invariant
                i <= capacity,
                buffer@ == Seq::new(i as nat, |j: int| None::<T>),
            decreases capacity - i,
        {
            buffer.push(None);
            assert(buffer@ =~= Seq::new((i + 1) as nat, |j: int| None::<T>));
            i = i + 1;
        }
        let c = LockFreeChannel { buffer, write_pos: 0, read_pos: 0, capacity };
        proof {
            if capacity > 0 {
                assert(c@.queue() =~= Seq::<T>::empty());
            }
        }
        c
    }

    /// The position `p` moved one place forward.
    fn next_pos(&self, p: usize) -> (q: usize)
        requires
            self@.in_range(),
            2 * self.capacity <= usize::MAX,
            p < 2 * self.capacity,
        ensures
            q == self@.advance(p as int, 1),
            q == (p + 1) % (2 * self.capacity as int),
    {
        let m = self.capacity * 2;
        let q = (p + 1) % m;
        proof {
            if p + 1 < m {
                assert((p + 1) % (m as int) == p + 1) by (nonlinear_arith)
                    requires
                        0 <= p + 1 < m,
                ;
            } else {
                assert((p + 1) % (m as int) == 0) by (nonlinear_arith)
                    requires
                        p + 1 == m,
                        m > 0,
                ;
            }
        }
        q
    }

    /// The slot that position `p` denotes.
    fn slot_index(&self, p: usize) -> (s: usize)
        requires
            self@.in_range(),
            p < 2 * self.capacity,
        ensures
            s == self@.slot_of(p as int),
            s == p % self.capacity,
            s < self@.slots.len(),
    {
        let c = self.capacity;
        let s = p % c;
        proof {
            if p < c {
                assert(p % c == p) by (nonlinear_arith)
                    requires
                        0 <= p < c,
                ;
            } else {
                assert(p % c == p - c) by (nonlinear_arith)
                    requires
                        c <= p < 2 * c,
                ;
            }
        }
        s
    }

    /// Writes `data` into the slot of the write position and moves the
    /// write position forward. With one writer the slot is always free to
    /// take, so the write always succeeds.
    pub fn send(&mut self, data: T) -> (r: Result<(), T>)
        requires
            old(self)@.in_range(),
            2 * old(self)@.capacity <= usize::MAX,
        ensures
            r is Ok,
            final(self)@ == old(self)@.after_send(data),
            final(self)@.in_range(),
    {
        let idx = self.slot_index(self.write_pos);
        let next = self.next_pos(self.write_pos);
        let mut buffer: Vec<Option<T>> = Vec::new();
        std::mem::swap(&mut buffer, &mut self.buffer);
        buffer.set(idx, Some(data));
        self.buffer = buffer;
        self.write_pos = next;
        Ok(())
    }

    /// Takes the item in the slot of the read position, if there is one,
    /// and then moves the read position forward.
    pub fn try_recv(&mut self) -> (r: Option<T>)
        requires
            old(self)@.in_range(),
            2 * old(self)@.capacity <= usize::MAX,
        ensures
            (final(self)@, r) == old(self)@.after_recv(),
            final(self)@.in_range(),
    {
        let ghost before = self@;
        let idx = self.slot_index(self.read_pos);
        let mut buffer: Vec<Option<T>> = Vec::new();
        std::mem::swap(&mut buffer, &mut self.buffer);
        let taken = buffer[idx].take();
        self.buffer = buffer;
        match taken {
            Some(data) => {
                let next = self.next_pos(self.read_pos);
                self.read_pos = next;
                assert(self@.slots =~= before.slots.update(idx as int, None));
                Some(data)
            },
            None => {
                assert(self@.slots =~= before.slots);
                None
            },
        }
    }

    /// Reads up to `max_items` items, stopping at the first empty slot.
    pub fn recv_batch(&mut self, max_items: usize) -> (r: Vec<T>)
        requires
            old(self)@.in_range(),
            2 * old(self)@.capacity <= usize::MAX,
        ensures
            r@.len() <= max_items,
            final(self)@.in_range(),
            old(self)@.well_formed() ==> final(self)@.well_formed() && r@.len() == (
            if old(self)@.pending() < max_items {
                old(self)@.pending()
            } else {
                max_items as int
            }) && r@ + final(self)@.queue() == old(self)@.queue(),
    {
        let mut results: Vec<T> = Vec::new();
        let mut n: usize = 0;
        let ghost start = self@;
        while n < max_items
            invariant
                n <= max_items,
                start == old(self)@,
                results@.len() == n,
                self@.in_range(),
                self@.capacity == start.capacity,
                2 * self@.capacity <= usize::MAX,
                start.well_formed() ==> self@.well_formed() && n <= start.pending()
                    && self@.pending() == start.pending() - n && results@ + self@.queue()
                    == start.queue(),
            decreases max_items - n,
        {
            let ghost before = self@;
            proof {
                if before.well_formed() {
                    lemma_recv(before);
                }
            }
            match self.try_recv() {
                Some(data) => {
                    proof {
                        if start.well_formed() {
                            assert(results@.push(data) + self@.queue() =~= results@ + before.queue());
                        }
                    }
                    results.push(data);
                },
                None => {
                    proof {
                        if start.well_formed() {
                            assert(before.queue().len() == 0);
                            assert(self@ == before);
                        }
                    }
                    return results;
                },
            }
            n = n + 1;
        }
        results
    }

    /// Whether something was written that has not been read.
    pub fn has_pending(&self) -> (b: bool)
        ensures
            b == (self@.write_pos != self@.read_pos),
            self@.well_formed() ==> (b <==> self@.pending() > 0),
    {
        self.write_pos != self.read_pos
    }

    /// The number of items written and not yet read: the queue depth.
    pub fn depth(&self) -> (d: usize)
        ensures
            d == self@.pending(),
    {
        proof {
            use_type_invariant(self);
        }
        if self.write_pos >= self.read_pos {
            self.write_pos - self.read_pos
        } else {
            self.write_pos + (2 * self.capacity - self.read_pos)
        }
    }

    /// The number of slots.
    pub fn capacity(&self) -> (c: usize)
        ensures
            c == self@.capacity,
    {
        self.capacity
    }
}

/// Distinct places from the read position denote distinct slots.
proof fn lemma_slots_distinct<T>(v: ChannelView<T>, i: int, j: int)
    requires
        v.in_range(),
        0 <= i < v.capacity,
        0 <= j < v.capacity,
        i != j,
    ensures
        v.slot_of(v.advance(v.read_pos, i)) != v.slot_of(v.advance(v.read_pos, j)),
        0 <= v.slot_of(v.advance(v.read_pos, i)) < v.capacity,
{
}

/// Writing to a channel with room left appends the item to its queue.
pub proof fn lemma_send<T>(v: ChannelView<T>, data: T)
    requires
        v.well_formed(),
        v.pending() < v.capacity,
    ensures
        v.after_send(data).well_formed(),
        v.after_send(data).queue() == v.queue().push(data),
        v.after_send(data).pending() == v.pending() + 1,
{
    let w = v.after_send(data);
    let n = v.pending();
    assert(v.advance(v.read_pos, n) == v.write_pos);
    assert(w.pending() == n + 1);
    assert forall|i: int| 0 <= i < v.capacity implies (#[trigger] w.slots[w.slot_of(
        w.advance(w.read_pos, i),
    )] is Some <==> i < w.pending()) by {
        if i != n {
            lemma_slots_distinct(v, i, n);
        }
    }
    assert forall|i: int| 0 <= i < w.pending() implies w.queue()[i] == v.queue().push(data)[i] by {
        if i != n {
            lemma_slots_distinct(v, i, n);
        }
    }
    assert(w.queue() =~= v.queue().push(data));
}

/// Reading from a channel gives its oldest item and removes it from the
/// queue; reading from an empty channel gives nothing and changes nothing.
pub proof fn lemma_recv<T>(v: ChannelView<T>)
    requires
        v.well_formed(),
    ensures
        v.pending() == 0 ==> v.after_recv() == (v, None::<T>),
        v.pending() > 0 ==> {
            let (w, r) = v.after_recv();
            &&& r == Some(v.queue()[0])
            &&& w.well_formed()
            &&& w.queue() == v.queue().drop_first()
            &&& w.pending() == v.pending() - 1
        },
        v.after_recv().0.in_range(),
        v.after_recv().0.capacity == v.capacity,
{
    let n = v.pending();
    assert(v.slot_of(v.advance(v.read_pos, 0)) == v.slot_of(v.read_pos));
    if n > 0 {
        let (w, r) = v.after_recv();
        let s = v.slot_of(v.read_pos);
        assert(w.pending() == n - 1);
        assert forall|i: int| 0 <= i < v.capacity implies (#[trigger] w.slots[w.slot_of(
            w.advance(w.read_pos, i),
        )] is Some <==> i < w.pending()) by {
            if i + 1 < v.capacity {
                assert(w.advance(w.read_pos, i) == v.advance(v.read_pos, i + 1));
                lemma_slots_distinct(v, i + 1, 0);
            } else {
                assert(w.slot_of(w.advance(w.read_pos, i)) == s);
            }
        }
        assert forall|i: int| 0 <= i < w.pending() implies w.queue()[i] == v.queue().drop_first()[i] by {
            assert(w.advance(w.read_pos, i) == v.advance(v.read_pos, i + 1));
            lemma_slots_distinct(v, i + 1, 0);
        }
        assert(w.queue() =~= v.queue().drop_first());
    }
}

} // verus!
