//! Splits a stream of byte packets into lines terminated by `\n`.

use vstd::prelude::*;

verus! {

/// The byte that ends a line.
pub const LF: u8 = 10;

/// A carriage return; one directly before the line feed is dropped.
pub const CR: u8 = 13;

/// Line length overflow error: a line grew past the reader's capacity.
#[derive(Debug, Clone, Copy, PartialEq, Eq, Structural)]
pub struct Overflow;

impl Overflow {
    /// The message that describes this error.
    pub fn message(&self) -> (s: &'static str)
        ensures
            s@ == "Line length overflow"@,
    {
        "Line length overflow"
    }
}

/// Position of the first line feed in `data`, or `data.len()` when there is none.
pub open spec fn first_lf(data: Seq<u8>) -> nat
    decreases data.len(),
{
    if data.len() == 0 {
        0
    } else if data[0] == LF {
        0
    } else {
        1 + first_lf(data.drop_first())
    }
}

/// `line` without a single trailing carriage return.
pub open spec fn strip_cr(line: Seq<u8>) -> Seq<u8> {
    if line.len() > 0 && line.last() == CR {
        line.drop_last()
    } else {
        line
    }
}

/// What the reader holds before a feed starts: nothing once a line was handed out.
pub open spec fn start_of_feed(state: (Seq<u8>, bool)) -> Seq<u8> {
    if state.1 {
        Seq::empty()
    } else {
        state.0
    }
}

/// The bytes that a feed of `data` appends, in the absence of overflow, before it stops.
pub open spec fn accumulated(state: (Seq<u8>, bool), data: Seq<u8>) -> Seq<u8> {
    start_of_feed(state) + data.take(first_lf(data) as int)
}

/// The result of feeding `data` to a reader in `state` with capacity `cap`.
pub open spec fn feed_result(state: (Seq<u8>, bool), data: Seq<u8>, cap: nat) -> Result<
    Option<Seq<u8>>,
    Overflow,
> {
    let acc = accumulated(state, data);
    if acc.len() > cap {
        Err(Overflow)
    } else if first_lf(data) < data.len() {
        Ok(Some(strip_cr(acc)))
    } else {
        Ok(None)
    }
}

/// The state of a reader in `state` with capacity `cap` after a feed of `data`.
pub open spec fn feed_state(state: (Seq<u8>, bool), data: Seq<u8>, cap: nat) -> (Seq<u8>, bool) {
    let acc = accumulated(state, data);
    if acc.len() > cap {
        (acc.take(cap as int), false)
    } else if first_lf(data) < data.len() {
        (strip_cr(acc), true)
    } else {
        (acc, false)
    }
}

/// The view of what a feed returned: the line's bytes in place of the slice.
pub open spec fn feed_view(r: Result<Option<&[u8]>, Overflow>) -> Result<Option<Seq<u8>>, Overflow> {
    match r {
        Ok(Some(line)) => Ok(Some(line@)),
        Ok(None) => Ok(None),
        Err(e) => Err(e),
    }
}

/// A state that a reader of capacity `cap` can be in: it holds at most `cap` bytes
/// and no line feed.
pub open spec fn valid_state(state: (Seq<u8>, bool), cap: nat) -> bool {
    &&& state.0.len() <= cap
    &&& forall|j: int| 0 <= j < state.0.len() ==> state.0[j] != LF
}

/// Gathers bytes into lines. At most `N` bytes of one line are held.
pub struct LineReader<const N: usize> {
    buf: Vec<u8>,
    ended: bool,
}

impl<const N: usize> View for LineReader<N> {
    /// The bytes held, and whether they are a line that was already handed out.
    type V = (Seq<u8>, bool);

    closed spec fn view(&self) -> (Seq<u8>, bool) {
        (self.buf@, self.ended)
    }
}

impl<const N: usize> LineReader<N> {
    #[verifier::type_invariant]
    spec fn within_capacity(self) -> bool {
        valid_state(self@, N as nat)
    }

    /// Creates an empty reader.
    pub fn new() -> (r: Self)
        ensures
            r@ == (Seq::<u8>::empty(), false),
            valid_state(r@, N as nat),
    {
        LineReader { buf: Vec::new(), ended: false }
    }

    /// Whether the bytes held are a line that was already handed out.
    pub fn ended(&self) -> (b: bool)
        ensures
            b == self@.1,
    {
        self.ended
    }

    /// The number of bytes held.
    pub fn len(&self) -> (n: usize)
        ensures
            n == self@.0.len(),
    {
        self.buf.len()
    }

    /// Feeds a packet of bytes.
    ///
    /// Returns the completed line (without its `\n`, and without a `\r` right before
    /// it) at the first `\n` in `data`; bytes after that `\n` are not read. Returns
    /// `Ok(None)` when `data` holds no `\n`, and `Err(Overflow)` when the line would
    /// grow past `N` bytes.
    pub fn feed(&mut self, data: &[u8]) -> (r: Result<Option<&[u8]>, Overflow>)
        ensures
            feed_view(r) == feed_result(old(self)@, data@, N as nat),
            final(self)@ == feed_state(old(self)@, data@, N as nat),
            valid_state(final(self)@, N as nat),
    {
        proof {
            use_type_invariant(&*self);
        }
        let mut buf: Vec<u8> = Vec::new();
        std::mem::swap(&mut buf, &mut self.buf);
        if self.ended {
            buf.clear();
            self.ended = false;
        }
        let ghost start = buf@;
        assert(start == start_of_feed(old(self)@));
        let mut i: usize = 0;
        while i < data.len()
            invariant
                i <= data.len(),
                start == start_of_feed(old(self)@),
                buf@ == start + data@.take(i as int),
                valid_state((buf@, false), N as nat),
                self.buf@.len() == 0,
                !self.ended,
                forall|j: int| 0 <= j < i ==> data@[j] != LF,
            decreases data.len() - i,
        {
            let b = data[i];
            if b == LF {
                proof {
                    lemma_first_lf_at(data@, i as int);
                }
                if !buf.is_empty() && buf[buf.len() - 1] == CR {
                    let _ = buf.pop();
                }
                self.buf = buf;
                self.ended = true;
                return Ok(Some(self.buf.as_slice()));
            }
            if buf.len() >= N {
                proof {
                    lemma_first_lf_after(data@, i as int);
                    assert(start + data@.take(i as int) =~= accumulated(old(self)@, data@).take(
                        N as int,
                    ));
                }
                self.buf = buf;
                return Err(Overflow);
            }
            buf.push(b);
            i = i + 1;
            assert(data@.take(i as int) =~= data@.take((i - 1) as int).push(b));
        }
        proof {
            lemma_first_lf_at(data@, i as int);
            assert(data@.take(i as int) =~= data@);
        }
        self.buf = buf;
        Ok(None)
    }
}

impl<const N: usize> Default for LineReader<N> {
    fn default() -> (r: Self)
        ensures
            r@ == (Seq::<u8>::empty(), false),
    {
        Self::new()
    }
}

/// When no byte before `i` is a line feed and `i` ends `data` or holds one, `i` is the first.
pub proof fn lemma_first_lf_at(data: Seq<u8>, i: int)
    requires
        0 <= i <= data.len(),
        forall|j: int| 0 <= j < i ==> data[j] != LF,
        i == data.len() || data[i] == LF,
    ensures
        first_lf(data) == i,
    decreases i,
{
    if i > 0 {
        let rest = data.drop_first();
        assert forall|j: int| 0 <= j < i - 1 implies rest[j] != LF by {
            assert(rest[j] == data[j + 1]);
        }
        if i < data.len() {
            assert(rest[i - 1] == data[i]);
        }
        lemma_first_lf_at(rest, i - 1);
    }
}

/// When no byte up to `i` is a line feed, the first one comes after `i`.
pub proof fn lemma_first_lf_after(data: Seq<u8>, i: int)
    requires
        0 <= i < data.len(),
        forall|j: int| 0 <= j <= i ==> data[j] != LF,
    ensures
        i < first_lf(data) <= data.len(),
    decreases i,
{
    lemma_first_lf_bound(data);
    if i > 0 {
        let rest = data.drop_first();
        assert forall|j: int| 0 <= j <= i - 1 implies rest[j] != LF by {
            assert(rest[j] == data[j + 1]);
        }
        lemma_first_lf_after(rest, i - 1);
    }
}

/// The first line feed lies within the data, and no byte before it is one.
pub proof fn lemma_first_lf_bound(data: Seq<u8>)
    ensures
        first_lf(data) <= data.len(),
        first_lf(data) < data.len() ==> data[first_lf(data) as int] == LF,
        forall|j: int| 0 <= j < first_lf(data) ==> data[j] != LF,
    decreases data.len(),
{
    if data.len() > 0 && data[0] != LF {
        let rest = data.drop_first();
        lemma_first_lf_bound(rest);
        assert forall|j: int| 0 <= j < first_lf(data) implies data[j] != LF by {
            if j > 0 {
                assert(data[j] == rest[j - 1]);
            }
        }
    }
}

/// A line that a feed hands out holds no line feed and at most `cap` bytes, and the
/// state after any feed is again a valid one.
pub proof fn law_feed_keeps_state_valid(state: (Seq<u8>, bool), data: Seq<u8>, cap: nat)
    requires
        valid_state(state, cap),
    ensures
        valid_state(feed_state(state, data, cap), cap),
        feed_result(state, data, cap) matches Ok(Some(line)) ==> {
            &&& line.len() <= cap
            &&& forall|j: int| 0 <= j < line.len() ==> line[j] != LF
        },
{
    lemma_first_lf_bound(data);
    let acc = accumulated(state, data);
    let start = start_of_feed(state);
    assert forall|j: int| 0 <= j < acc.len() implies acc[j] != LF by {
        if j >= start.len() {
            assert(acc[j] == data[j - start.len()]);
        }
    }
}

/// Feeding a packet without a line feed, and without overflow, and then a second
/// packet, has the result and the end state of feeding both packets at once.
pub proof fn law_feed_split(state: (Seq<u8>, bool), a: Seq<u8>, b: Seq<u8>, cap: nat)
    requires
        first_lf(a) == a.len(),
        accumulated(state, a).len() <= cap,
    ensures
        feed_result(state, a, cap) == Ok::<Option<Seq<u8>>, Overflow>(None),
        feed_result(feed_state(state, a, cap), b, cap) == feed_result(state, a + b, cap),
        feed_state(feed_state(state, a, cap), b, cap) == feed_state(state, a + b, cap),
{
    lemma_first_lf_bound(a);
    lemma_first_lf_bound(b);
    let ab = a + b;
    let k = first_lf(b);
    assert forall|j: int| 0 <= j < a.len() + k implies ab[j] != LF by {
        if j >= a.len() {
            assert(ab[j] == b[j - a.len()]);
        }
    }
    if k < b.len() {
        assert(ab[(a.len() + k) as int] == b[k as int]);
    }
    lemma_first_lf_at(ab, (a.len() + k) as int);
    assert(a.take(a.len() as int) =~= a);
    let mid = feed_state(state, a, cap);
    assert(start_of_feed(mid) == start_of_feed(state) + a);
    assert(accumulated(mid, b) =~= accumulated(state, ab));
}

/// Once a reader has handed out a line, what it does next does not depend on that
/// line: it behaves as a new reader does.
pub proof fn law_fresh_after_line(line: Seq<u8>, data: Seq<u8>, cap: nat)
    ensures
        feed_result((line, true), data, cap) == feed_result((Seq::empty(), false), data, cap),
        feed_state((line, true), data, cap) == feed_state((Seq::empty(), false), data, cap),
{
}

/// A packet without a line feed never completes a line.
pub proof fn law_only_lf_ends_a_line(state: (Seq<u8>, bool), data: Seq<u8>, cap: nat)
    requires
        forall|j: int| 0 <= j < data.len() ==> data[j] != LF,
    ensures
        !(feed_result(state, data, cap) is Ok && feed_result(state, data, cap)->Ok_0 is Some),
{
    lemma_first_lf_at(data, data.len() as int);
}

/// A line that ends in a carriage return right before its line feed is handed out
/// without that carriage return, however long it is; the bytes before it are kept.
pub proof fn law_crlf_is_stripped(state: (Seq<u8>, bool), d: Seq<u8>, cap: nat)
    requires
        forall|j: int| 0 <= j < d.len() ==> d[j] != LF,
        (if state.1 {
            0
        } else {
            state.0.len()
        }) + d.len() + 1 <= cap,
    ensures
        feed_result(state, d + seq![CR, LF], cap) == Ok::<Option<Seq<u8>>, Overflow>(
            Some(
                if state.1 {
                    d
                } else {
                    state.0 + d
                },
            ),
        ),
        feed_state(state, d + seq![CR, LF], cap) == (
            if state.1 {
                d
            } else {
                state.0 + d
            },
            true,
        ),
{
    let data = d + seq![CR, LF];
    assert forall|j: int| 0 <= j < d.len() + 1 implies data[j] != LF by {
        if j < d.len() {
            assert(data[j] == d[j]);
        }
    }
    lemma_first_lf_at(data, (d.len() + 1) as int);
    let start: Seq<u8> = if state.1 {
        Seq::empty()
    } else {
        state.0
    };
    assert(data.take((d.len() + 1) as int) =~= d.push(CR));
    assert((start + d.push(CR)).drop_last() =~= start + d);
    assert(start + d =~= (if state.1 {
        d
    } else {
        state.0 + d
    }));
}

/// A line whose last byte is not a carriage return is handed out whole: the bytes
/// held before the feed followed by the packet's bytes up to its line feed.
pub proof fn law_line_without_cr_is_whole(state: (Seq<u8>, bool), d: Seq<u8>, cap: nat)
    requires
        forall|j: int| 0 <= j < d.len() ==> d[j] != LF,
        d.len() > 0,
        d.last() != CR,
        (if state.1 {
            0
        } else {
            state.0.len()
        }) + d.len() <= cap,
    ensures
        feed_result(state, d + seq![LF], cap) == Ok::<Option<Seq<u8>>, Overflow>(
            Some(
                if state.1 {
                    d
                } else {
                    state.0 + d
                },
            ),
        ),
{
    let data = d + seq![LF];
    assert forall|j: int| 0 <= j < d.len() implies data[j] != LF by {
        assert(data[j] == d[j]);
    }
    lemma_first_lf_at(data, d.len() as int);
    assert(data.take(d.len() as int) =~= d);
    let start: Seq<u8> = if state.1 {
        Seq::empty()
    } else {
        state.0
    };
    assert((start + d).last() == d.last());
    assert(start + d =~= (if state.1 {
        d
    } else {
        state.0 + d
    }));
}

} // verus!
