use vstd::prelude::*;

verus! {

/// What `String::from_utf8_lossy` returns for a given byte sequence: UTF-8
/// decoding in which every invalid subsequence is replaced instead of raising
/// an error. The result depends on the bytes alone.
pub uninterp spec fn lossy_utf8(bytes: Seq<u8>) -> Seq<char>;

/// Relies on `String::from_utf8_lossy`: decodes bytes as UTF-8, replacing
/// every invalid subsequence rather than failing; an empty input decodes to
/// an empty string.
#[verifier::external_body]
fn decode_lossy(bytes: &Vec<u8>) -> (r: String)
    ensures
        r@ == lossy_utf8(bytes@),
        bytes@.len() == 0 ==> r@.len() == 0,
{
    String::from_utf8_lossy(bytes).into_owned()
}

/// A read-only snapshot of the values held by an ordered key-value store, in
/// key order. Keys are never surfaced: training consumes values only.
pub struct Store {
    records: Vec<Vec<u8>>,
}

impl View for Store {
    type V = Seq<Seq<u8>>;

    closed spec fn view(&self) -> Seq<Seq<u8>> {
        self.records@.map_values(|v: Vec<u8>| v@)
    }
}

impl Store {
    /// Wraps the given values, already in key order, as a store snapshot.
    pub fn new(records: Vec<Vec<u8>>) -> (r: Store)
        ensures
            r@ == records@.map_values(|v: Vec<u8>| v@),
    {
        Store { records }
    }

    /// How many entries the store holds. A live store engine only estimates
    /// this figure, so consumers treat it as advisory.
    pub fn estimated_key_count(&self) -> (r: usize)
        ensures
            r == self@.len(),
    {
        self.records.len()
    }

    /// Opens a read cursor over the store, unpositioned until the first seek.
    pub fn raw_cursor<'a>(&'a self) -> (r: RawCursor<'a>)
        ensures
            r.values() == self@,
            r.wf(),
            !r.valid(),
    {
        RawCursor { store: self, pos: self.records.len() }
    }
}

/// A forward cursor over a store, with the protocol of an embedded store
/// engine's raw iterator: it must be positioned by `seek_to_first` before
/// reading, it yields the value under the cursor, and it becomes invalid once
/// advanced past the last entry.
pub struct RawCursor<'a> {
    store: &'a Store,
    pos: usize,
}

impl<'a> RawCursor<'a> {
    /// The stored values this cursor ranges over, in key order.
    pub closed spec fn values(self) -> Seq<Seq<u8>> {
        self.store@
    }

    pub closed spec fn position(self) -> int {
        self.pos as int
    }

    pub closed spec fn wf(self) -> bool {
        0 <= self.pos <= self.values().len()
    }

    /// A valid cursor stands on an entry; an invalid one is unpositioned or
    /// exhausted. Exhaustion is a normal termination, never an error.
    pub closed spec fn valid(self) -> bool {
        self.pos < self.values().len()
    }

    /// Positions the cursor on the first entry, or leaves it invalid when the
    /// store is empty.
    pub fn seek_to_first(&mut self)
        ensures
            final(self).values() == old(self).values(),
            final(self).position() == 0,
            final(self).wf(),
    {
        self.pos = 0;
    }

    /// Moves the cursor one entry forward. Only a valid cursor may advance.
    pub fn advance(&mut self)
        requires
            old(self).valid(),
        ensures
            final(self).values() == old(self).values(),
            final(self).position() == old(self).position() + 1,
            final(self).wf(),
    {
        proof {
            assert(self.store.records.len() == self.store.records@.len());
        }
        self.pos = self.pos + 1;
    }

    pub fn is_valid(&self) -> (r: bool)
        ensures
            r == self.valid(),
    {
        self.pos < self.store.records.len()
    }

    /// The value under the cursor, or nothing when the cursor is invalid.
    pub fn value(&self) -> (r: Option<Vec<u8>>)
        requires
            self.wf(),
        ensures
            r is Some <==> self.valid(),
            self.valid() ==> r->0@ == self.values()[self.position()],
    {
        if self.pos < self.store.records.len() {
            Some(self.store.records[self.pos].clone())
        } else {
            None
        }
    }
}

/// A one-pass stream over a store's values, lossily decoded as UTF-8. It is
/// an explicit two-state machine — not yet started, then iterating — so the
/// first request yields the value under the first key without advancing, and
/// every later request advances once and then yields.
pub struct ValueIter<'a> {
    inner: RawCursor<'a>,
    key_count_estimate: usize,
    first: bool,
}

impl<'a> ValueIter<'a> {
    pub closed spec fn wf(self) -> bool {
        &&& self.inner.wf()
        &&& (self.first ==> self.inner.position() == 0)
    }

    /// Every value the underlying cursor ranges over, in key order.
    pub closed spec fn all_values(self) -> Seq<Seq<u8>> {
        self.inner.values()
    }

    /// True until the first value has been requested.
    pub closed spec fn not_yet_started(self) -> bool {
        self.first
    }

    /// The advisory entry count the stream was opened with.
    pub closed spec fn estimate(self) -> usize {
        self.key_count_estimate
    }

    /// Index of the next value to yield.
    pub closed spec fn start(self) -> int {
        if self.first {
            0
        } else if self.inner.position() + 1 <= self.all_values().len() {
            self.inner.position() + 1
        } else {
            self.all_values().len() as int
        }
    }

    /// The values not yet yielded, in key order.
    pub closed spec fn remaining(self) -> Seq<Seq<u8>> {
        self.all_values().skip(self.start())
    }

    /// Opens the stream on a store: the cursor is seeked to the first entry
    /// and the stream has yielded nothing yet.
    pub fn new(store: &'a Store, key_count_estimate: usize) -> (r: ValueIter<'a>)
        ensures
            r.wf(),
            r.not_yet_started(),
            r.all_values() == store@,
            r.remaining() == store@,
            r.estimate() == key_count_estimate,
    {
        let mut inner = store.raw_cursor();
        inner.seek_to_first();
        let r = ValueIter { inner, key_count_estimate, first: true };
        proof {
            assert(r.remaining() =~= store@);
        }
        r
    }

    /// Yields the next value, decoded with invalid UTF-8 replaced, or nothing
    /// once the cursor is exhausted. Asking again past the end yields nothing
    /// again and never errors.
    pub fn next(&mut self) -> (r: Option<String>)
        requires
            old(self).wf(),
        ensures
            final(self).wf(),
            !final(self).not_yet_started(),
            final(self).all_values() == old(self).all_values(),
            final(self).estimate() == old(self).estimate(),
            old(self).remaining().len() == 0 ==> r is None,
            old(self).remaining().len() == 0 ==> final(self).remaining().len() == 0,
            old(self).remaining().len() > 0 ==> r is Some,
            old(self).remaining().len() > 0 ==> r->0@ == lossy_utf8(old(self).remaining()[0]),
            old(self).remaining().len() > 0 ==> final(self).remaining() == old(self).remaining().skip(1),
    {
        if !self.first {
            if self.inner.is_valid() {
                self.inner.advance();
            }
        } else {
            self.first = false;
        }
        proof {
            if old(self).remaining().len() > 0 {
                assert(self.remaining() =~= old(self).remaining().skip(1));
            }
        }
        match self.inner.value() {
            Some(bytes) => Some(decode_lossy(&bytes)),
            None => None,
        }
    }

    /// The bounds an iterator over the stream may assume: no guaranteed lower
    /// bound, and the advisory key-count estimate as upper bound.
    pub fn size_hint(&self) -> (r: (usize, Option<usize>))
        ensures
            r.0 == 0,
            r.1 == Some(self.estimate()),
    {
        (0, Some(self.key_count_estimate))
    }

    /// Drains the stream: every remaining value, lossily decoded, in key
    /// order. A stream over a store with zero entries yields an empty result
    /// at once.
    pub fn read_all(&mut self) -> (r: Vec<String>)
        requires
            old(self).wf(),
        ensures
            final(self).wf(),
            final(self).all_values() == old(self).all_values(),
            final(self).estimate() == old(self).estimate(),
            final(self).remaining().len() == 0,
            r@.len() == old(self).remaining().len(),
            forall|i: int| 0 <= i < r@.len() ==> r@[i]@ == lossy_utf8(old(self).remaining()[i]),
    {
        let mut out: Vec<String> = Vec::new();
        loop
            invariant
                self.wf(),
                self.all_values() == old(self).all_values(),
                self.estimate() == old(self).estimate(),
                out@.len() + self.remaining().len() == old(self).remaining().len(),
                self.remaining() == old(self).remaining().skip(out@.len() as int),
                forall|i: int| 0 <= i < out@.len() ==> out@[i]@ == lossy_utf8(old(self).remaining()[i]),
            ensures
                self.wf(),
                self.all_values() == old(self).all_values(),
                self.estimate() == old(self).estimate(),
                self.remaining().len() == 0,
                out@.len() == old(self).remaining().len(),
                forall|i: int| 0 <= i < out@.len() ==> out@[i]@ == lossy_utf8(old(self).remaining()[i]),
            decreases self.remaining().len(),
        {
            let ghost done = out@.len() as int;
            match self.next() {
                Some(s) => {
                    out.push(s);
                    proof {
                        assert(old(self).remaining().skip(done).skip(1)
                            =~= old(self).remaining().skip(done + 1));
                    }
                },
                None => {
                    break;
                },
            }
        }
        out
    }
}

} // verus!
