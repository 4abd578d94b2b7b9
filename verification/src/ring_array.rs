//! A fixed-capacity ring buffer that keeps the `N` most recently pushed items.
use vstd::prelude::*;

verus! {

/// A ring buffer of capacity `N`. Once full, each push overwrites the oldest item.
pub struct RingArray<T, const N: usize> {
    buffer: [T; N],
    index: usize,
    full: bool,
}

/// The items of a ring buffer with slots `buffer`, write position `index` and fill state `full`,
/// oldest first.
pub open spec fn ring_items<T>(buffer: Seq<T>, index: int, full: bool) -> Seq<T> {
    if full {
        buffer.subrange(index, buffer.len() as int) + buffer.subrange(0, index)
    } else {
        buffer.subrange(0, index)
    }
}

/// The `count` items of `buffer` read circularly from slot `pos`.
pub open spec fn circular_items<T>(buffer: Seq<T>, pos: int, count: nat) -> Seq<T> {
    Seq::new(count, |k: int| buffer[(pos + k) % (buffer.len() as int)])
}

/// The items of a ring buffer are the slots read circularly from the oldest one.
proof fn lemma_ring_items_circular<T>(buffer: Seq<T>, index: int, full: bool)
    requires
        0 <= index < buffer.len(),
    ensures
        ring_items(buffer, index, full) == circular_items(
            buffer,
            if full { index } else { 0 },
            if full { buffer.len() } else { index as nat },
        ),
{
    let n = buffer.len() as int;
    let start = if full { index } else { 0 };
    let items = ring_items(buffer, index, full);
    let circ = circular_items(buffer, start, if full { buffer.len() } else { index as nat });
    assert forall|k: int| 0 <= k < items.len() implies items[k] == circ[k] by {
        if start + k < n {
            vstd::arithmetic::div_mod::lemma_small_mod((start + k) as nat, n as nat);
        } else {
            vstd::arithmetic::div_mod::lemma_small_mod((start + k - n) as nat, n as nat);
            vstd::arithmetic::div_mod::lemma_mod_add_multiples_vanish(start + k - n, n);
        }
    }
    assert(items =~= circ);
}

/// One operation on a ring buffer: a push of an item, or an emptying (`new`, `clear`, `drain`).
pub enum RingOp<T> {
    Push(T),
    Empty,
}

/// The items after pushing `item` onto `items` in a buffer of capacity `n`: appended, the oldest
/// dropped where the buffer was full.
pub open spec fn ring_pushed<T>(items: Seq<T>, item: T, n: nat) -> Seq<T> {
    if items.len() < n {
        items.push(item)
    } else {
        items.drop_first().push(item)
    }
}

/// The items of a buffer of capacity `n` after the operations `ops`, from empty.
pub open spec fn ring_run<T>(ops: Seq<RingOp<T>>, n: nat) -> Seq<T>
    decreases ops.len(),
{
    if ops.len() == 0 {
        Seq::empty()
    } else {
        match ops.last() {
            RingOp::Push(x) => ring_pushed(ring_run(ops.drop_last(), n), x, n),
            RingOp::Empty => Seq::empty(),
        }
    }
}

/// The number of pushes among `ops` since the last emptying.
pub open spec fn pushes_since_empty<T>(ops: Seq<RingOp<T>>) -> nat
    decreases ops.len(),
{
    if ops.len() == 0 {
        0
    } else {
        match ops.last() {
            RingOp::Push(_) => pushes_since_empty(ops.drop_last()) + 1,
            RingOp::Empty => 0,
        }
    }
}

/// A ring buffer holds as many items as were pushed since it was last emptied, at most its
/// capacity: full exactly when that many pushes reached the capacity.
pub proof fn lemma_ring_len_counts_pushes<T>(ops: Seq<RingOp<T>>, n: nat)
    requires
        n > 0,
    ensures
        ring_run(ops, n).len() == if pushes_since_empty(ops) < n {
            pushes_since_empty(ops)
        } else {
            n
        },
    decreases ops.len(),
{
    if ops.len() > 0 {
        lemma_ring_len_counts_pushes(ops.drop_last(), n);
    }
}

impl<T, const N: usize> RingArray<T, N> {
    #[verifier::type_invariant]
    spec fn inv(self) -> bool {
        &&& N > 0 ==> self.index < N
        &&& N == 0 ==> self.index == 0 && !self.full
    }

    /// The items held, oldest first.
    pub closed spec fn view(&self) -> Seq<T> {
        ring_items(self.buffer@, self.index as int, self.full)
    }
}

impl<T: Copy + Default, const N: usize> RingArray<T, N> {
    /// An empty ring buffer whose slots all hold `fill_value`.
    pub fn new(fill_value: T) -> (r: Self)
        ensures
            r@ == Seq::<T>::empty(),
    {
        let r = Self { buffer: [fill_value; N], index: 0, full: false };
        assert(r@ =~= Seq::<T>::empty());
        r
    }

    /// Appends `item`; when the buffer is full the oldest item is dropped.
    pub fn push(&mut self, item: T)
        requires
            N > 0,
        ensures
            final(self)@ == if old(self)@.len() < N {
                old(self)@.push(item)
            } else {
                old(self)@.drop_first().push(item)
            },
            final(self)@ == ring_pushed(old(self)@, item, N as nat),
            final(self)@.len() <= N,
    {
        proof {
            use_type_invariant(&*self);
        }
        let ghost prev = self@;
        let ghost prev_index = self.index as int;
        let ghost prev_buffer = self.buffer@;
        self.buffer[self.index] = item;
        // (index + 1) % N
        self.index = if self.index + 1 == N {
            0
        } else {
            self.index + 1
        };

        if self.full {
            assert(self@ =~= prev.drop_first().push(item));
            return;
        }
        self.full = self.index == 0;
        assert(self@ =~= prev.push(item));
    }

    /// Empties the buffer (the slots keep their stale values).
    pub fn clear(&mut self)
        ensures
            final(self)@ == Seq::<T>::empty(),
    {
        proof {
            use_type_invariant(&*self);
        }
        // Note: the slots are not reset, for performance reasons.
        self.full = false;
        self.index = 0;
        assert(self@ =~= Seq::<T>::empty());
    }

    /// An iterator over the items, oldest first.
    pub fn iter(&self) -> (it: RingArrayIter<'_, T, N>)
        ensures
            it@ == self@,
    {
        proof {
            use_type_invariant(self);
            if N > 0 {
                lemma_ring_items_circular(self.buffer@, self.index as int, self.full);
            }
        }
        let it = RingArrayIter {
            buffer: &self.buffer,
            pos: if self.full {
                self.index
            } else {
                0
            },
            count: self.len(),
        };
        assert(it@ =~= self@);
        it
    }

    /// Moves the oldest items into `dst`, as many as fit, and empties the buffer; returns how
    /// many were moved. Entries of `dst` past that count are left unchanged.
    pub fn drain(&mut self, dst: &mut [T]) -> (n: usize)
        ensures
            n == if old(self)@.len() < old(dst)@.len() {
                old(self)@.len()
            } else {
                old(dst)@.len() as nat
            },
            final(dst)@ == old(self)@.take(n as int) + old(dst)@.skip(n as int),
            final(self)@ == Seq::<T>::empty(),
    {
        proof {
            use_type_invariant(&*self);
            if N > 0 {
                lemma_ring_items_circular(self.buffer@, self.index as int, self.full);
            }
        }
        let ghost items = self@;
        let ghost orig_dst = dst@;
        let self_len = self.len();
        let len = if self_len < dst.len() {
            self_len
        } else {
            dst.len()
        };
        let start = if self.full {
            self.index
        } else {
            0
        };

        let mut i: usize = 0;
        while i < len
            invariant
                0 <= i <= len,
                len <= items.len(),
                len <= orig_dst.len(),
                dst@.len() == orig_dst.len(),
                items.len() <= N,
                self.buffer@.len() == N,
                N > 0 ==> start < N,
                items.len() > 0 ==> N > 0,
                items.len() > 0 ==> items == circular_items(self.buffer@, start as int, items.len()),
                forall|k: int| 0 <= k < i ==> dst@[k] == items[k],
                forall|k: int| i <= k < dst@.len() ==> dst@[k] == orig_dst[k],
            decreases len - i,
        {
            // (start + i) % N
            let pos = if i < N - start {
                start + i
            } else {
                i - (N - start)
            };
            proof {
                if i < N - start {
                    vstd::arithmetic::div_mod::lemma_small_mod((start + i) as nat, N as nat);
                } else {
                    vstd::arithmetic::div_mod::lemma_small_mod(pos as nat, N as nat);
                    vstd::arithmetic::div_mod::lemma_mod_add_multiples_vanish(pos as int, N as int);
                }
                assert(items[i as int] == self.buffer@[pos as int]);
            }
            dst[i] = self.buffer[pos];
            i += 1;
        }

        self.clear();
        assert(dst@ =~= items.take(len as int) + orig_dst.skip(len as int));
        len
    }

    /// The number of items held.
    pub fn len(&self) -> (n: usize)
        ensures
            n == self@.len(),
            n <= N,
    {
        proof {
            use_type_invariant(self);
        }
        if self.full {
            N
        } else {
            self.index
        }
    }

    pub fn is_empty(&self) -> (b: bool)
        ensures
            b <==> self@.len() == 0,
    {
        proof {
            use_type_invariant(self);
        }
        !self.full && self.index == 0
    }

    pub fn is_full(&self) -> (b: bool)
        ensures
            b <==> (N > 0 && self@.len() == N),
    {
        proof {
            use_type_invariant(self);
        }
        self.full
    }
}

/// An iterator over the items of a [`RingArray`], oldest first.
pub struct RingArrayIter<'a, T, const N: usize> {
    buffer: &'a [T; N],
    pos: usize,
    count: usize,
}

impl<'a, T, const N: usize> RingArrayIter<'a, T, N> {
    #[verifier::type_invariant]
    spec fn inv(self) -> bool {
        &&& self.count > 0 ==> self.pos < N
        &&& self.count <= N
    }

    /// The items not yet returned, in order.
    pub closed spec fn view(&self) -> Seq<T> {
        circular_items(self.buffer@, self.pos as int, self.count as nat)
    }

    /// The next item, if any.
    pub fn next(&mut self) -> (r: Option<&'a T>)
        ensures
            old(self)@.len() == 0 ==> r is None && final(self)@ == old(self)@,
            old(self)@.len() > 0 ==> r == Some(&old(self)@[0]) && final(self)@
                == old(self)@.drop_first(),
    {
        proof {
            use_type_invariant(&*self);
        }
        if self.count == 0 {
            return None;
        }
        let ghost prev = self@;
        let item = &self.buffer[self.pos];
        // (pos + 1) % N
        let next = if self.pos + 1 == N {
            0
        } else {
            self.pos + 1
        };
        proof {
            let n = N as int;
            vstd::arithmetic::div_mod::lemma_small_mod(self.pos as nat, N as nat);
            assert forall|k: int| 0 <= k < self.count - 1 implies
                #[trigger] self.buffer@[(next + k) % n] == self.buffer@[(self.pos + 1 + k) % n] by {
                if self.pos + 1 == n {
                    vstd::arithmetic::div_mod::lemma_mod_add_multiples_vanish(k, n);
                }
            }
        }
        self.pos = next;
        self.count -= 1;
        assert(self@ =~= prev.drop_first());
        Some(item)
    }
}

} // verus!
