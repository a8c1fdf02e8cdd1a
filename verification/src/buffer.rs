use vstd::prelude::*;

verus! {

/// The smaller of two integers.
pub open spec fn min_int(a: int, b: int) -> int {
    if a <= b {
        a
    } else {
        b
    }
}

/// What is left of `s` after its first `amt` bytes have been consumed; consuming
/// more than `s` holds leaves nothing.
pub open spec fn consumed(s: Seq<u8>, amt: int) -> Seq<u8> {
    s.skip(min_int(amt, s.len() as int))
}

/// The bytes that a read of at most `max` bytes takes from the front of `s`.
pub open spec fn taken(s: Seq<u8>, max: int) -> Seq<u8> {
    s.take(min_int(max, s.len() as int))
}

/// Sum of the first `i` lengths of `lens`.
pub open spec fn prefix_sum(lens: Seq<usize>, i: int) -> int
    decreases i,
{
    if i <= 0 {
        0
    } else {
        prefix_sum(lens, i - 1) + lens[i - 1]
    }
}

/// The sum of all lengths in `lens`.
pub open spec fn total_len(lens: Seq<usize>) -> int {
    prefix_sum(lens, lens.len() as int)
}

/// Prefix sums of lengths never decrease.
pub proof fn lemma_prefix_sum_monotone(lens: Seq<usize>, i: int, j: int)
    requires
        0 <= i <= j <= lens.len(),
    ensures
        0 <= prefix_sum(lens, i) <= prefix_sum(lens, j),
    decreases j - i,
{
    if i < j {
        lemma_prefix_sum_monotone(lens, i, j - 1);
    } else {
        lemma_prefix_sum_nonneg(lens, i);
    }
}

proof fn lemma_prefix_sum_nonneg(lens: Seq<usize>, i: int)
    ensures
        0 <= prefix_sum(lens, i),
    decreases i,
{
    if i > 0 {
        lemma_prefix_sum_nonneg(lens, i - 1);
    }
}

/// The sum of `lens`, which must fit in a `usize`.
pub fn sum_lengths(lens: &[usize]) -> (r: usize)
    requires
        total_len(lens@) <= usize::MAX,
    ensures
        r == total_len(lens@),
{
    let mut sum: usize = 0;
    let mut i: usize = 0;
    while i < lens.len()
        invariant
            i <= lens@.len(),
            sum == prefix_sum(lens@, i as int),
            total_len(lens@) <= usize::MAX,
        decreases lens@.len() - i,
    {
        proof {
            lemma_prefix_sum_monotone(lens@, i + 1, lens@.len() as int);
        }
        sum = sum + lens[i];
        i = i + 1;
    }
    sum
}

/// The part of `data` that a scattering read hands to the `i`-th destination of
/// lengths `lens`: destinations are filled in order, each as far as data remains.
pub open spec fn scatter_chunk(data: Seq<u8>, lens: Seq<usize>, i: int) -> Seq<u8> {
    data.subrange(
        min_int(prefix_sum(lens, i), data.len() as int),
        min_int(prefix_sum(lens, i + 1), data.len() as int),
    )
}

/// The bytes that scattering reads hand to the first `k` destinations, one after the other.
pub open spec fn gathered(data: Seq<u8>, lens: Seq<usize>, k: int) -> Seq<u8>
    decreases k,
{
    if k <= 0 {
        Seq::empty()
    } else {
        gathered(data, lens, k - 1) + scatter_chunk(data, lens, k - 1)
    }
}

/// Consuming `a` bytes and then `b` more leaves what consuming `a + b` at once leaves.
pub proof fn law_consume_twice(s: Seq<u8>, a: int, b: int)
    requires
        0 <= a,
        0 <= b,
    ensures
        consumed(consumed(s, a), b) == consumed(s, a + b),
{
    assert(consumed(consumed(s, a), b) =~= consumed(s, a + b));
}

/// A read hands out a prefix of the buffered bytes and leaves the rest: together they are
/// exactly what was buffered.
pub proof fn law_read_splits(s: Seq<u8>, max: int)
    requires
        0 <= max,
    ensures
        taken(s, max) + consumed(s, max) == s,
{
    assert(taken(s, max) + consumed(s, max) =~= s);
}

/// Two reads in a row, of at most `a` and then at most `b` bytes, hand out what one read
/// of at most `a + b` bytes hands out.
pub proof fn law_reads_in_order(s: Seq<u8>, a: int, b: int)
    requires
        0 <= a,
        0 <= b,
    ensures
        taken(s, a) + taken(consumed(s, a), b) == taken(s, a + b),
{
    assert(taken(s, a) + taken(consumed(s, a), b) =~= taken(s, a + b));
}

/// A scattering read into one destination of length `max` hands it what a plain read of at
/// most `max` bytes hands out, and consumes as much.
pub proof fn law_scatter_single(data: Seq<u8>, max: usize)
    ensures
        scatter_chunk(data, seq![max], 0) == taken(data, max as int),
        total_len(seq![max]) == max,
{
    let lens = seq![max];
    assert(prefix_sum(lens, 0) == 0);
    assert(prefix_sum(lens, 1) == max);
    assert(scatter_chunk(data, lens, 0) =~= taken(data, max as int));
}

/// The destinations of a scattering read, read one after the other, hold the front of the
/// buffered bytes, in order, as many as the destinations hold or as were buffered.
pub proof fn law_scatter_in_order(data: Seq<u8>, lens: Seq<usize>, k: int)
    requires
        0 <= k <= lens.len(),
    ensures
        gathered(data, lens, k) == data.take(min_int(prefix_sum(lens, k), data.len() as int)),
    decreases k,
{
    lemma_prefix_sum_nonneg(lens, k);
    if k > 0 {
        law_scatter_in_order(data, lens, k - 1);
        lemma_prefix_sum_monotone(lens, k - 1, k);
        assert(gathered(data, lens, k) =~= data.take(
            min_int(prefix_sum(lens, k), data.len() as int),
        ));
    } else {
        assert(gathered(data, lens, k) =~= data.take(
            min_int(prefix_sum(lens, k), data.len() as int),
        ));
    }
}

/// The fixed-size byte store of a buffered reader, of which the bytes between a read
/// position and a fill mark are the data not yet handed out.
pub struct ReadBuffer {
    buf: Vec<u8>,
    pos: usize,
    cap: usize,
    /// The bytes filled in since the buffer was created or last discarded, in order.
    filled: Ghost<Seq<u8>>,
    /// The bytes handed out since then, in order.
    delivered: Ghost<Seq<u8>>,
}

impl ReadBuffer {
    #[verifier::type_invariant]
    spec fn inv(self) -> bool {
        &&& self.pos <= self.cap <= self.buf.len()
        &&& self.buf.len() <= isize::MAX
        &&& self.delivered@ + self.buf@.subrange(self.pos as int, self.cap as int)
            == self.filled@
    }

    /// Every byte of the store, handed out or not.
    pub closed spec fn storage(self) -> Seq<u8> {
        self.buf@
    }

    /// The read position.
    pub closed spec fn start(self) -> int {
        self.pos as int
    }

    /// The fill mark.
    pub closed spec fn end(self) -> int {
        self.cap as int
    }

    /// The bytes filled in since the buffer was created or last discarded, in order.
    pub closed spec fn filled(self) -> Seq<u8> {
        self.filled@
    }

    /// The bytes handed out since the buffer was created or last discarded, in order.
    pub closed spec fn delivered(self) -> Seq<u8> {
        self.delivered@
    }

    /// The size of the store.
    pub open spec fn spec_capacity(self) -> int {
        self.storage().len() as int
    }

    /// The bytes filled in and not yet handed out.
    pub open spec fn contents(self) -> Seq<u8> {
        self.storage().subrange(self.start(), self.end())
    }

    /// The read position never passes the fill mark, which never passes the end of the
    /// store; the store is no larger than an allocation can be.
    pub open spec fn wf(self) -> bool {
        &&& 0 <= self.start() <= self.end() <= self.spec_capacity()
        &&& self.spec_capacity() <= isize::MAX
        &&& self.delivered() + self.contents() == self.filled()
    }

    /// A store of `capacity` zero bytes with nothing filled in.
    pub fn zeroed(capacity: usize) -> (r: ReadBuffer)
        requires
            capacity <= isize::MAX,
        ensures
            r.wf(),
            r.storage() == Seq::new(capacity as nat, |i: int| 0u8),
            r.start() == 0,
            r.end() == 0,
            r.filled() == Seq::<u8>::empty(),
            r.delivered() == Seq::<u8>::empty(),
    {
        let buf: Vec<u8> = vec![0u8; capacity];
        assert(buf@ =~= Seq::new(capacity as nat, |i: int| 0u8));
        let r = ReadBuffer {
            buf,
            pos: 0,
            cap: 0,
            filled: Ghost(Seq::empty()),
            delivered: Ghost(Seq::empty()),
        };
        assert(r.delivered@ + r.buf@.subrange(0, 0) =~= r.filled@);
        r
    }

    /// Shows that the invariant holds of this buffer.
    pub fn check(&self)
        ensures
            self.wf(),
    {
        proof {
            use_type_invariant(self);
        }
    }

    pub fn capacity(&self) -> (r: usize)
        ensures
            r == self.spec_capacity(),
    {
        self.buf.len()
    }

    /// The bytes filled in and not yet handed out.
    pub fn contents_slice(&self) -> (r: &[u8])
        ensures
            r@ == self.contents(),
    {
        proof {
            use_type_invariant(self);
        }
        vstd::slice::slice_subrange(self.buf.as_slice(), self.pos, self.cap)
    }

    /// The number of bytes filled in and not yet handed out.
    pub fn available(&self) -> (r: usize)
        ensures
            r == self.contents().len(),
    {
        proof {
            use_type_invariant(self);
        }
        self.cap - self.pos
    }

    /// Whether everything filled in has been handed out.
    pub fn is_exhausted(&self) -> (r: bool)
        ensures
            r == (self.contents().len() == 0),
            r == (self.start() >= self.end()),
    {
        proof {
            use_type_invariant(self);
        }
        self.pos >= self.cap
    }

    /// Takes the store out, leaving an empty buffer behind.
    fn take_store(&mut self) -> (r: Vec<u8>)
        ensures
            r@ == old(self).storage(),
            final(self).storage() == Seq::<u8>::empty(),
    {
        let mut fresh = ReadBuffer {
            buf: Vec::new(),
            pos: 0,
            cap: 0,
            filled: Ghost(Seq::empty()),
            delivered: Ghost(Seq::empty()),
        };
        proof {
            assert(fresh.delivered@ + fresh.buf@.subrange(0, 0) =~= fresh.filled@);
        }
        std::mem::swap(self, &mut fresh);
        let ReadBuffer { buf, .. } = fresh;
        buf
    }

    /// Hands out the next `k` filled-in bytes.
    fn advance(&mut self, k: usize)
        requires
            k <= old(self).contents().len(),
        ensures
            final(self).wf(),
            final(self).storage() == old(self).storage(),
            final(self).start() == old(self).start() + k,
            final(self).end() == old(self).end(),
            final(self).filled() == old(self).filled(),
            final(self).delivered() == old(self).delivered() + old(self).contents().take(k as int),
            final(self).contents() == old(self).contents().skip(k as int),
    {
        proof {
            use_type_invariant(&*self);
        }
        let pos = self.pos + k;
        let cap = self.cap;
        let ghost filled = self.filled@;
        let ghost delivered = self.delivered@ + self.buf@.subrange(self.pos as int, pos as int);
        let ghost old_buf = self.buf@;
        proof {
            assert(delivered + old_buf.subrange(pos as int, cap as int) =~= filled);
        }
        let buf = self.take_store();
        *self = ReadBuffer { buf, pos, cap, filled: Ghost(filled), delivered: Ghost(delivered) };
        proof {
            assert(self.contents() =~= old(self).contents().skip(k as int));
            assert(old(self).contents().take(k as int) =~= old_buf.subrange(
                old(self).start(),
                pos as int,
            ));
        }
    }

    /// Forgets whatever was filled in; the history starts afresh.
    pub fn discard(&mut self)
        ensures
            final(self).wf(),
            final(self).storage() == old(self).storage(),
            final(self).start() == 0,
            final(self).end() == 0,
            final(self).contents() == Seq::<u8>::empty(),
            final(self).filled() == Seq::<u8>::empty(),
            final(self).delivered() == Seq::<u8>::empty(),
    {
        proof {
            use_type_invariant(&*self);
        }
        let buf = self.take_store();
        *self = ReadBuffer {
            buf,
            pos: 0,
            cap: 0,
            filled: Ghost(Seq::empty()),
            delivered: Ghost(Seq::empty()),
        };
        proof {
            assert(self.contents() =~= Seq::<u8>::empty());
        }
    }

    /// Marks `amt` more bytes as handed out, never more than were filled in.
    pub fn consume(&mut self, amt: usize)
        ensures
            final(self).wf(),
            final(self).storage() == old(self).storage(),
            final(self).end() == old(self).end(),
            final(self).start() == old(self).start() + min_int(
                amt as int,
                old(self).contents().len() as int,
            ),
            final(self).contents() == consumed(old(self).contents(), amt as int),
            final(self).filled() == old(self).filled(),
            final(self).delivered() == old(self).delivered() + taken(
                old(self).contents(),
                amt as int,
            ),
    {
        proof {
            use_type_invariant(&*self);
        }
        let avail = self.cap - self.pos;
        let k = if amt <= avail {
            amt
        } else {
            avail
        };
        self.advance(k);
    }

    /// Copies `count` bytes of the store from index `from` on.
    fn copy_out(&self, from: usize, count: usize) -> (r: Vec<u8>)
        requires
            from + count <= self.storage().len(),
        ensures
            r@ == self.storage().subrange(from as int, from + count),
    {
        proof {
            use_type_invariant(self);
        }
        let mut out: Vec<u8> = Vec::new();
        let mut j: usize = 0;
        while j < count
            invariant
                j <= count,
                self.buf@.len() <= isize::MAX,
                from + count <= self.buf@.len(),
                out@ == self.buf@.subrange(from as int, from + j),
            decreases count - j,
        {
            out.push(self.buf[from + j]);
            j = j + 1;
            assert(out@ =~= self.buf@.subrange(from as int, from + j));
        }
        out
    }

    /// Takes in `data` as the next bytes of the stream, written at the front of the store;
    /// the buffer must have handed out everything it held. The bytes of the store behind
    /// `data` are kept.
    pub fn fill_from(&mut self, data: &[u8])
        requires
            data@.len() <= old(self).spec_capacity(),
            old(self).contents().len() == 0,
        ensures
            final(self).wf(),
            final(self).storage() == data@ + old(self).storage().skip(data@.len() as int),
            final(self).start() == 0,
            final(self).end() == data@.len(),
            final(self).contents() == data@,
            final(self).filled() == old(self).filled() + data@,
            final(self).delivered() == old(self).delivered(),
    {
        proof {
            use_type_invariant(&*self);
        }
        let ghost filled = self.filled@ + data@;
        let ghost delivered = self.delivered@;
        proof {
            assert(delivered =~= self.filled@);
        }
        let mut store = self.take_store();
        let n = data.len();
        let mut i: usize = 0;
        while i < n
            invariant
                n == data@.len(),
                i <= n,
                n <= store@.len(),
                store@.len() == old(self).buf@.len(),
                store@.len() <= isize::MAX,
                forall|j: int| 0 <= j < i ==> store@[j] == data@[j],
                forall|j: int| n <= j < store@.len() ==> store@[j] == old(self).buf@[j],
            decreases n - i,
        {
            store.set(i, data[i]);
            i = i + 1;
        }
        proof {
            assert(store@.subrange(0, n as int) =~= data@);
            assert(delivered + store@.subrange(0, n as int) =~= filled);
        }
        *self = ReadBuffer {
            buf: store,
            pos: 0,
            cap: n,
            filled: Ghost(filled),
            delivered: Ghost(delivered),
        };
        proof {
            assert(self.buf@ =~= data@ + old(self).buf@.skip(n as int));
            assert(self.contents() =~= data@);
        }
    }

    /// Hands out at most `max` of the filled-in bytes, from the front.
    pub fn take(&mut self, max: usize) -> (r: Vec<u8>)
        ensures
            final(self).wf(),
            r@ == taken(old(self).contents(), max as int),
            r@ + final(self).contents() == old(self).contents(),
            final(self).contents() == consumed(old(self).contents(), max as int),
            final(self).storage() == old(self).storage(),
            final(self).end() == old(self).end(),
            final(self).filled() == old(self).filled(),
            final(self).delivered() == old(self).delivered() + r@,
    {
        proof {
            use_type_invariant(&*self);
        }
        let avail = self.cap - self.pos;
        let k = if max <= avail {
            max
        } else {
            avail
        };
        let out = self.copy_out(self.pos, k);
        self.advance(k);
        proof {
            assert(out@ =~= taken(old(self).contents(), max as int));
            assert(self.contents() =~= consumed(old(self).contents(), max as int));
            assert(out@ + self.contents() =~= old(self).contents());
        }
        out
    }

    /// Hands out filled-in bytes into destinations of lengths `lens`, filling them in
    /// order, each as far as data remains.
    pub fn take_scattered(&mut self, lens: &[usize]) -> (r: Vec<Vec<u8>>)
        ensures
            final(self).wf(),
            r@.len() == lens@.len(),
            forall|i: int|
                0 <= i < lens@.len() ==> #[trigger] r@[i]@ == scatter_chunk(
                    old(self).contents(),
                    lens@,
                    i,
                ),
            final(self).contents() == consumed(old(self).contents(), total_len(lens@)),
            final(self).storage() == old(self).storage(),
            final(self).end() == old(self).end(),
            final(self).filled() == old(self).filled(),
            final(self).delivered() == old(self).delivered() + taken(
                old(self).contents(),
                total_len(lens@),
            ),
    {
        proof {
            use_type_invariant(&*self);
        }
        let ghost data = self.contents();
        let start = self.pos;
        let n = self.cap - self.pos;
        let mut done: usize = 0;
        let mut out: Vec<Vec<u8>> = Vec::new();
        let mut i: usize = 0;
        while i < lens.len()
            invariant
                i <= lens@.len(),
                data == old(self).contents(),
                *self == *old(self),
                start == self.pos,
                n == self.cap - self.pos,
                self.pos <= self.cap <= self.buf@.len(),
                data == self.buf@.subrange(start as int, start + n),
                done == min_int(prefix_sum(lens@, i as int), n as int),
                out@.len() == i,
                forall|j: int| 0 <= j < i ==> #[trigger] out@[j]@ == scatter_chunk(data, lens@, j),
            decreases lens@.len() - i,
        {
            proof {
                lemma_prefix_sum_nonneg(lens@, i as int);
            }
            let want = lens[i];
            let k = if want <= n - done {
                want
            } else {
                n - done
            };
            let chunk = self.copy_out(start + done, k);
            proof {
                assert(prefix_sum(lens@, i + 1) == prefix_sum(lens@, i as int) + lens@[i as int]);
                assert(chunk@ =~= scatter_chunk(data, lens@, i as int));
            }
            out.push(chunk);
            done = done + k;
            i = i + 1;
        }
        self.advance(done);
        proof {
            assert(self.contents() =~= consumed(old(self).contents(), total_len(lens@)));
            assert(old(self).contents().take(done as int) =~= taken(
                old(self).contents(),
                total_len(lens@),
            ));
        }
        out
    }
}

} // verus!
