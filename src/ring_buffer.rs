use vstd::prelude::*;

verus! {

/// The last `n` elements of `s`, or all of `s` when it holds fewer.
pub open spec fn last_n<T>(s: Seq<T>, n: nat) -> Seq<T> {
    if s.len() <= n {
        s
    } else {
        s.subrange(s.len() - n, s.len() as int)
    }
}

/// Keeping the last `n` of a prefix and then appending is the same as keeping
/// the last `n` of the whole sequence.
pub proof fn lemma_last_n_append<T>(a: Seq<T>, b: Seq<T>, n: nat)
    ensures
        last_n(last_n(a, n) + b, n) =~= last_n(a + b, n),
{
    if a.len() > n {
        let k = a.len() - n;
        assert(last_n(a, n) + b =~= (a + b).subrange(k, (a + b).len() as int));
    }
}

/// All batches of `batches` joined in order.
pub open spec fn concat_all<T>(batches: Seq<Seq<T>>) -> Seq<T>
    decreases batches.len(),
{
    if batches.len() == 0 {
        Seq::empty()
    } else {
        concat_all(batches.drop_last()) + batches.last()
    }
}

/// The contents of a buffer of capacity `n` that started empty and was then
/// given each batch of `batches` in turn, as `append` states it one call at a
/// time.
pub open spec fn after_appends<T>(batches: Seq<Seq<T>>, n: nat) -> Seq<T>
    decreases batches.len(),
{
    if batches.len() == 0 {
        Seq::empty()
    } else {
        last_n(after_appends(batches.drop_last(), n) + batches.last(), n)
    }
}

/// However the appended values were split into calls, an initially empty
/// buffer holds exactly the last `n` of them (all of them when fewer), in
/// append order, and never more than `n`.
pub proof fn lemma_window_after_appends<T>(batches: Seq<Seq<T>>, n: nat)
    ensures
        after_appends(batches, n) == last_n(concat_all(batches), n),
        after_appends(batches, n).len() <= n,
    decreases batches.len(),
{
    if batches.len() == 0 {
        assert(last_n(Seq::<T>::empty(), n) =~= Seq::<T>::empty());
    } else {
        lemma_window_after_appends(batches.drop_last(), n);
        lemma_last_n_append(concat_all(batches.drop_last()), batches.last(), n);
    }
}

/// A fixed length buffer that reuses old element memory to insert new elements.
#[derive(Debug)]
pub struct RingBuffer<T: Copy> {
    buffer: Vec<T>,
    size: usize,
    index: usize,
}

impl<T: Copy> View for RingBuffer<T> {
    type V = Seq<T>;

    /// The held elements, oldest first.
    closed spec fn view(&self) -> Seq<T> {
        self.buffer@.subrange(self.index as int, self.buffer@.len() as int)
            + self.buffer@.subrange(0, self.index as int)
    }
}

impl<T: Copy> RingBuffer<T> {
    /// The fixed number of elements the buffer can hold.
    pub closed spec fn capacity(&self) -> nat {
        self.size as nat
    }

    /// Storage never exceeds the capacity; until it is full, the write cursor
    /// sits at its end; once full, the cursor marks the oldest element.
    pub closed spec fn wf(&self) -> bool {
        &&& self.buffer@.len() <= self.size
        &&& self.index <= self.buffer@.len()
        &&& self.buffer@.len() < self.size ==> self.index == self.buffer@.len()
        &&& self.size > 0 ==> self.index < self.size
    }

    /// Create a new, empty ring buffer holding at most `size` elements.
    pub fn new(size: usize) -> (r: Self)
        ensures
            r.wf(),
            r.capacity() == size,
            r@ == Seq::<T>::empty(),
    {
        let r = Self { buffer: Vec::with_capacity(size), size, index: 0 };
        assert(r@ =~= Seq::<T>::empty());
        r
    }

    /// The held elements, oldest first.
    pub fn iter(&self) -> (r: Vec<T>)
        requires
            self.wf(),
        ensures
            r@ == self@,
            r@.len() <= self.capacity(),
    {
        let mut r: Vec<T> = Vec::with_capacity(self.buffer.len());
        let n = self.buffer.len();
        let mut i: usize = self.index;
        while i < n
            invariant
                self.wf(),
                n == self.buffer@.len(),
                self.index <= i <= n,
                r@ =~= self.buffer@.subrange(self.index as int, i as int),
            decreases n - i,
        {
            r.push(self.buffer[i]);
            i = i + 1;
        }
        let mut j: usize = 0;
        while j < self.index
            invariant
                self.wf(),
                n == self.buffer@.len(),
                j <= self.index,
                r@ =~= self.buffer@.subrange(self.index as int, n as int)
                    + self.buffer@.subrange(0, j as int),
            decreases self.index - j,
        {
            r.push(self.buffer[j]);
            j = j + 1;
        }
        r
    }

    /// Insert one element, evicting the oldest one when full.
    fn push_one(&mut self, x: T)
        requires
            old(self).wf(),
            old(self).size > 0,
        ensures
            final(self).wf(),
            final(self).size == old(self).size,
            final(self)@ == last_n(old(self)@.push(x), old(self).size as nat),
    {
        let ghost pre = self@;
        if self.buffer.len() < self.size {
            self.buffer.push(x);
            self.index = if self.index + 1 == self.size { 0 } else { self.index + 1 };
            assert(self@ =~= pre.push(x));
        } else {
            let i = self.index;
            self.buffer[i] = x;
            self.index = if i + 1 == self.size { 0 } else { i + 1 };
            assert(self@ =~= last_n(pre.push(x), self.size as nat));
        }
    }

    /// Appends a slice of values into the ring buffer.
    /// Only the last `capacity` values of what was held and what is appended
    /// are kept, oldest first.
    pub fn append(&mut self, elements: &[T])
        requires
            old(self).wf(),
        ensures
            final(self).wf(),
            final(self).capacity() == old(self).capacity(),
            final(self)@ == last_n(old(self)@ + elements@, old(self).capacity()),
            final(self)@.len() <= final(self).capacity(),
    {
        let ghost n = self.size as nat;
        let ghost target = last_n(self@ + elements@, n);
        if self.size == 0 {
            assert(self@ =~= target);
            return;
        }
        // only elements that can fit in the buffer are inserted
        let len = elements.len();
        let skip: usize = if len > self.size { len - self.size } else { 0 };
        proof {
            let rest = elements@.subrange(skip as int, len as int);
            if skip == 0 {
                assert(rest =~= elements@);
            } else {
                assert(last_n(self@ + rest, n) =~= rest);
                assert(target =~= rest);
            }
        }
        let mut j: usize = skip;
        while j < len
            invariant
                self.wf(),
                self.size as nat == n,
                n > 0,
                len == elements@.len(),
                skip <= j <= len,
                last_n(self@ + elements@.subrange(j as int, len as int), n) == target,
            decreases len - j,
        {
            let x = elements[j];
            let ghost pre = self@;
            self.push_one(x);
            proof {
                let tail = elements@.subrange(j + 1, len as int);
                lemma_last_n_append(pre.push(x), tail, n);
                assert(pre.push(x) + tail =~= pre + elements@.subrange(j as int, len as int));
            }
            j = j + 1;
        }
        assert(self@ + elements@.subrange(len as int, len as int) =~= self@);
    }
}

} // verus!
