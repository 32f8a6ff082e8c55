//! The pagination engine: turns a "fetch one page given a limit and an
//! offset" primitive into a uniform sequence of items.
//!
//! The cursor and termination algorithm lives in [`PageIterator`], a
//! state machine over `(offset, done)`. Drivers stay thin: they ask
//! [`PageIterator::next_request`] which fetch to perform, hand the
//! fetched result to [`PageIterator::feed`], and yield what comes back.
//! [`run_paginate`] is the driver over a pre-supplied sequence of fetch
//! results; a blocking-pull driver and a suspend-per-fetch driver around
//! a live fetcher share the same transition logic.
//!
//! The termination rule: the sequence ends on the first page with an
//! empty item batch or without a `next` marker — whichever arrives first
//! — and a fetch error is yielded exactly once, after which no further
//! fetch is attempted.

use vstd::prelude::*;
use crate::model::Page;
use crate::ClientError;

verus! {

/// Whether `p` is the last page: it carries no continuation marker, or
/// its item batch is empty.
pub open spec fn spec_page_terminal<T>(p: Page<T>) -> bool {
    p.next is None || p.items@.len() == 0
}

/// The items the engine yields for a sequence of fetch results: each
/// successful page contributes its items in order; the first terminal
/// page or error ends the sequence, an error contributing exactly one
/// error item.
pub open spec fn spec_paginate<T>(resps: Seq<Result<Page<T>, ClientError>>) -> Seq<
    Result<T, ClientError>,
>
    decreases resps.len(),
{
    if resps.len() == 0 {
        Seq::empty()
    } else {
        match resps[0] {
            Err(e) => seq![Err::<T, ClientError>(e)],
            Ok(p) => {
                if p.items@.len() == 0 {
                    Seq::empty()
                } else if p.next is None {
                    p.items@.map_values(|t: T| Ok::<T, ClientError>(t))
                } else {
                    p.items@.map_values(|t: T| Ok::<T, ClientError>(t)) + spec_paginate(
                        resps.drop_first(),
                    )
                }
            },
        }
    }
}

/// How far the cursor offset advances over a sequence of fetch results:
/// the item count of every successful page consumed before termination.
pub open spec fn spec_offset_after<T>(resps: Seq<Result<Page<T>, ClientError>>) -> int
    decreases resps.len(),
{
    if resps.len() == 0 {
        0
    } else {
        match resps[0] {
            Err(_) => 0,
            Ok(p) => {
                if spec_page_terminal(p) {
                    p.items@.len() as int
                } else {
                    p.items@.len() + spec_offset_after(resps.drop_first())
                }
            },
        }
    }
}

/// Whether the engine reaches its terminal state within the sequence of
/// fetch results.
pub open spec fn spec_terminates<T>(resps: Seq<Result<Page<T>, ClientError>>) -> bool
    decreases resps.len(),
{
    if resps.len() == 0 {
        false
    } else {
        match resps[0] {
            Err(_) => true,
            Ok(p) => spec_page_terminal(p) || spec_terminates(resps.drop_first()),
        }
    }
}

/// How many fetches the engine performs before it stops — the fetches
/// that actually occur.
pub open spec fn spec_fetch_count<T>(resps: Seq<Result<Page<T>, ClientError>>) -> int
    decreases resps.len(),
{
    if resps.len() == 0 {
        0
    } else {
        match resps[0] {
            Err(_) => 1,
            Ok(p) => {
                if spec_page_terminal(p) {
                    1
                } else {
                    1 + spec_fetch_count(resps.drop_first())
                }
            },
        }
    }
}

/// The sum of the item counts of the successful pages in `resps`.
pub open spec fn spec_sum_item_counts<T>(resps: Seq<Result<Page<T>, ClientError>>) -> int
    decreases resps.len(),
{
    if resps.len() == 0 {
        0
    } else {
        (match resps[0] {
            Ok(p) => p.items@.len() as int,
            Err(_) => 0,
        }) + spec_sum_item_counts(resps.drop_first())
    }
}

/// The engine performs between zero and `resps.len()` fetches.
pub proof fn lemma_fetch_count_bounds<T>(resps: Seq<Result<Page<T>, ClientError>>)
    ensures
        0 <= spec_fetch_count(resps) <= resps.len(),
    decreases resps.len(),
{
    if resps.len() > 0 {
        lemma_fetch_count_bounds(resps.drop_first());
    }
}

/// The cursor offset never moves backwards.
pub proof fn lemma_offset_after_nonneg<T>(resps: Seq<Result<Page<T>, ClientError>>)
    ensures
        spec_offset_after(resps) >= 0,
    decreases resps.len(),
{
    if resps.len() > 0 {
        lemma_offset_after_nonneg(resps.drop_first());
    }
}

/// Cursor-offset law: after the fetches that actually occur, the engine's
/// cursor offset has advanced by exactly the sum of the item counts of
/// those fetched pages.
pub proof fn lemma_cursor_offset_is_item_sum<T>(resps: Seq<Result<Page<T>, ClientError>>)
    ensures
        spec_offset_after(resps) == spec_sum_item_counts(
            resps.take(spec_fetch_count(resps)),
        ),
    decreases resps.len(),
{
    lemma_fetch_count_bounds(resps);
    if resps.len() == 0 {
        assert(resps.take(0) =~= Seq::empty());
    } else {
        let n = spec_fetch_count(resps);
        let consumed = resps.take(n);
        match resps[0] {
            Err(_) => {
                assert(consumed =~= seq![resps[0]]);
                assert(consumed.drop_first() =~= Seq::<Result<Page<T>, ClientError>>::empty());
                assert(spec_sum_item_counts(consumed.drop_first()) == 0);
                assert(spec_offset_after(resps) == spec_sum_item_counts(consumed));
            },
            Ok(p) => {
                if spec_page_terminal(p) {
                    assert(consumed =~= seq![resps[0]]);
                    assert(consumed.drop_first() =~= Seq::<
                        Result<Page<T>, ClientError>,
                    >::empty());
                    assert(spec_sum_item_counts(consumed.drop_first()) == 0);
                    assert(spec_offset_after(resps) == spec_sum_item_counts(consumed));
                } else {
                    let rest = resps.drop_first();
                    lemma_cursor_offset_is_item_sum(rest);
                    lemma_fetch_count_bounds(rest);
                    assert(n == 1 + spec_fetch_count(rest));
                    assert(consumed[0] == resps[0]);
                    assert(consumed.drop_first() =~= rest.take(n - 1));
                    assert(spec_sum_item_counts(consumed) == p.items@.len()
                        + spec_sum_item_counts(rest.take(spec_fetch_count(rest))));
                    assert(spec_offset_after(resps) == p.items@.len() + spec_offset_after(rest));
                }
            },
        }
    }
}

/// Termination law: once the engine has terminated within a sequence of
/// fetch results, whatever further results a fetcher could have produced
/// change nothing — no further fetch occurs, the output, the fetch count
/// and the cursor offset stay as they are.
pub proof fn lemma_no_fetch_after_termination<T>(
    resps: Seq<Result<Page<T>, ClientError>>,
    more: Seq<Result<Page<T>, ClientError>>,
)
    requires
        spec_terminates(resps),
    ensures
        spec_paginate(resps + more) == spec_paginate(resps),
        spec_fetch_count(resps + more) == spec_fetch_count(resps),
        spec_offset_after(resps + more) == spec_offset_after(resps),
    decreases resps.len(),
{
    let all = resps + more;
    assert(all[0] == resps[0]);
    match resps[0] {
        Err(_) => {},
        Ok(p) => {
            if !spec_page_terminal(p) {
                assert(all.drop_first() =~= resps.drop_first() + more);
                lemma_no_fetch_after_termination(resps.drop_first(), more);
            }
        },
    }
}

/// Empty-first-page law: a fetcher whose first page carries no items
/// yields an empty sequence, after exactly one fetch.
pub proof fn lemma_empty_first_page<T>(resps: Seq<Result<Page<T>, ClientError>>)
    requires
        resps.len() > 0,
        resps[0] matches Ok(p) && p.items@.len() == 0,
    ensures
        spec_paginate(resps) == Seq::<Result<T, ClientError>>::empty(),
        spec_fetch_count(resps) == 1,
        spec_terminates(resps),
{
}

/// Error-termination law, general form: a failing first fetch yields
/// exactly one error and terminates the sequence after that one fetch.
pub proof fn lemma_error_yields_once<T>(resps: Seq<Result<Page<T>, ClientError>>, e: ClientError)
    requires
        resps.len() > 0,
        resps[0] == Err::<Page<T>, ClientError>(e),
    ensures
        spec_paginate(resps) == seq![Err::<T, ClientError>(e)],
        spec_fetch_count(resps) == 1,
        spec_offset_after(resps) == 0,
        spec_terminates(resps),
{
}

/// The pagination cursor: the next offset to fetch at, and whether the
/// sequence has terminated. The done flag only ever moves from false to
/// true, and the offset only ever advances, by the number of items just
/// fetched.
pub struct PageIterator {
    /// The limit passed to every fetch.
    pub page_size: u32,
    /// The offset the next fetch starts at.
    pub offset: u32,
    /// Set once the sequence has ended; never reset.
    pub done: bool,
}

impl PageIterator {
    /// A fresh cursor: offset zero, not done.
    pub fn new(page_size: u32) -> (r: Self)
        ensures
            r.page_size == page_size,
            r.offset == 0,
            !r.done,
    {
        PageIterator { page_size, offset: 0, done: false }
    }

    /// The `(limit, offset)` pair the next fetch must use, or nothing
    /// once the sequence has terminated: no further fetch is attempted.
    pub fn next_request(&self) -> (r: Option<(u32, u32)>)
        ensures
            r == if self.done {
                None::<(u32, u32)>
            } else {
                Some((self.page_size, self.offset))
            },
    {
        if self.done {
            None
        } else {
            Some((self.page_size, self.offset))
        }
    }

    /// Feeds one fetch result into the cursor and returns the results to
    /// yield, in the order the fetcher returned the items.
    ///
    /// An error is yielded exactly once and terminates the sequence with
    /// the cursor unmoved. A successful page advances the offset by its
    /// item count and terminates the sequence when it is terminal; a
    /// final page can be non-empty and still be the last.
    pub fn feed<T>(&mut self, resp: Result<Page<T>, ClientError>) -> (out: Vec<
        Result<T, ClientError>,
    >)
        requires
            !old(self).done,
            resp matches Ok(p) ==> old(self).offset + p.items@.len() <= u32::MAX,
        ensures
            final(self).page_size == old(self).page_size,
            match resp {
                Err(e) => {
                    &&& final(self).done
                    &&& final(self).offset == old(self).offset
                    &&& out@ == seq![Err::<T, ClientError>(e)]
                },
                Ok(p) => {
                    &&& final(self).done == spec_page_terminal(p)
                    &&& final(self).offset == old(self).offset + p.items@.len()
                    &&& out@ == p.items@.map_values(|t: T| Ok::<T, ClientError>(t))
                },
            },
    {
        match resp {
            Err(e) => {
                self.done = true;
                let mut out: Vec<Result<T, ClientError>> = Vec::new();
                out.push(Err(e));
                out
            },
            Ok(page) => {
                let items = page.items;
                let is_last = page.next.is_none();
                self.done = is_last || items.len() == 0;
                self.offset = self.offset + items.len() as u32;
                let ghost items0 = items@;
                let mut out: Vec<Result<T, ClientError>> = Vec::new();
                let mut rest = items;
                while rest.len() > 0
                    invariant
                        out@.len() + rest@.len() == items0.len(),
                        forall|j: int|
                            0 <= j < out@.len() ==> out@[j] == Ok::<T, ClientError>(items0[j]),
                        forall|j: int|
                            0 <= j < rest@.len() ==> rest@[j] == items0[out@.len() + j],
                    decreases rest@.len(),
                {
                    let item = rest.remove(0);
                    out.push(Ok(item));
                }
                proof {
                    assert(out@ =~= items0.map_values(|t: T| Ok::<T, ClientError>(t)));
                }
                out
            },
        }
    }
}

/// Runs the cursor over a pre-supplied sequence of fetch results, feeding
/// them in order until the sequence terminates or the results run out,
/// and collects everything the engine yields.
pub fn run_paginate<T>(engine: &mut PageIterator, responses: Vec<Result<Page<T>, ClientError>>)
    -> (out: Vec<Result<T, ClientError>>)
    requires
        !old(engine).done,
        old(engine).offset + spec_offset_after(responses@) <= u32::MAX,
    ensures
        out@ == spec_paginate(responses@),
        final(engine).page_size == old(engine).page_size,
        final(engine).offset == old(engine).offset + spec_offset_after(responses@),
        final(engine).done == spec_terminates(responses@),
{
    let ghost resps0 = responses@;
    let ghost off0 = engine.offset;
    let ghost ps0 = engine.page_size;
    let mut responses = responses;
    let mut out: Vec<Result<T, ClientError>> = Vec::new();
    proof {
        lemma_offset_after_nonneg(resps0);
    }
    while !engine.done && responses.len() > 0
        invariant
            engine.page_size == ps0,
            off0 + spec_offset_after(resps0) <= u32::MAX,
            !engine.done ==> {
                &&& spec_paginate(resps0) == out@ + spec_paginate(responses@)
                &&& engine.offset + spec_offset_after(responses@) == off0 + spec_offset_after(
                    resps0,
                )
                &&& spec_terminates(resps0) == spec_terminates(responses@)
            },
            engine.done ==> {
                &&& out@ == spec_paginate(resps0)
                &&& engine.offset == off0 + spec_offset_after(resps0)
                &&& spec_terminates(resps0)
            },
        decreases responses@.len(),
    {
        let ghost before = responses@;
        let resp = responses.remove(0);
        proof {
            assert(before.drop_first() =~= responses@);
            lemma_offset_after_nonneg(responses@);
            match &resp {
                Ok(p) => {
                    if !spec_page_terminal(*p) {
                        assert(spec_offset_after(before) == p.items@.len() + spec_offset_after(
                            responses@,
                        ));
                    }
                },
                Err(_) => {},
            }
        }
        let mut yielded = engine.feed(resp);
        out.append(&mut yielded);
        proof {
            if !engine.done {
                assert(spec_paginate(resps0) =~= out@ + spec_paginate(responses@));
            }
        }
    }
    proof {
        if !engine.done {
            assert(spec_paginate(responses@) =~= Seq::<Result<T, ClientError>>::empty());
            assert(out@ =~= out@ + spec_paginate(responses@));
        }
    }
    out
}

/// Handles a paginated request over a pre-supplied sequence of fetch
/// results, from offset zero. The produced sequence is single-pass: a
/// fresh call is required to paginate again.
pub fn paginate<T>(responses: Vec<Result<Page<T>, ClientError>>, page_size: u32) -> (out: Vec<
    Result<T, ClientError>,
>)
    requires
        spec_offset_after(responses@) <= u32::MAX,
    ensures
        out@ == spec_paginate(responses@),
{
    let mut engine = PageIterator::new(page_size);
    run_paginate(&mut engine, responses)
}

/// Turns a whole fetch result into a sequence of per-item results: a
/// failure is yielded exactly once, a success yields its items in order.
pub struct ResultIter<T> {
    inner: Option<Vec<T>>,
    err: Option<ClientError>,
}

impl<T> ResultIter<T> {
    /// What the iterator has left to yield.
    pub closed spec fn spec_remaining(&self) -> Seq<Result<T, ClientError>> {
        match self.err {
            Some(e) => seq![Err::<T, ClientError>(e)],
            None => match self.inner {
                Some(v) => v@.map_values(|t: T| Ok::<T, ClientError>(t)),
                None => Seq::empty(),
            },
        }
    }

    /// Wraps a fetch result for item-by-item consumption.
    pub fn new(res: Result<Vec<T>, ClientError>) -> (r: Self)
        ensures
            r.spec_remaining() == match res {
                Ok(v) => v@.map_values(|t: T| Ok::<T, ClientError>(t)),
                Err(e) => seq![Err::<T, ClientError>(e)],
            },
    {
        match res {
            Ok(inner) => ResultIter { inner: Some(inner), err: None },
            Err(err) => ResultIter { inner: None, err: Some(err) },
        }
    }

    /// Yields the next result, in order, or nothing once exhausted.
    pub fn next(&mut self) -> (r: Option<Result<T, ClientError>>)
        ensures
            old(self).spec_remaining().len() == 0 ==> r is None && final(self).spec_remaining()
                == old(self).spec_remaining(),
            old(self).spec_remaining().len() > 0 ==> r == Some(old(self).spec_remaining()[0])
                && final(self).spec_remaining() == old(self).spec_remaining().drop_first(),
    {
        match self.err.take() {
            Some(e) => {
                self.inner = None;
                proof {
                    assert(self.spec_remaining() =~= seq![
                        Err::<T, ClientError>(e),
                    ].drop_first());
                }
                Some(Err(e))
            },
            None => match &mut self.inner {
                Some(v) => {
                    if v.len() > 0 {
                        let item = v.remove(0);
                        proof {
                            assert(self.spec_remaining() =~= old(
                                self,
                            ).spec_remaining().drop_first());
                        }
                        Some(Ok(item))
                    } else {
                        None
                    }
                },
                None => None,
            },
        }
    }
}

} // verus!
