//! What a whole iteration over a paged listing yields.
//!
//! [`replay`] advances a cursor until it ends, answering each fetch with the
//! next of a sequence of answers, and records what was yielded and which keys
//! were handed out. The laws of the page iterator are stated over it.

use crate::iter::page_iterator::{CursorView, PageView};
use vstd::prelude::*;

verus! {

/// Record of an iteration.
pub struct Run<T, K, E> {
    /// What the advances yielded, in order.
    pub yielded: Seq<Result<T, E>>,
    /// The key that each fetch was made with, in order: one entry per fetch.
    pub keys: Seq<Option<K>>,
    /// Whether the iteration reached the end of the sequence, rather than
    /// stopping at a fetch for which no answer was left.
    pub ended: bool,
}

/// Advances from `state` until the end of the sequence. The first fetch is
/// answered with `answers[0]`, the second with `answers[1]`, and so on; the
/// iteration stops early where a fetch is due and no answer is left.
pub open spec fn replay<T, K, E>(
    state: CursorView<T, K>,
    answers: Seq<Result<PageView<T, K>, E>>,
) -> Run<T, K, E>
    decreases answers.len(), state.buffer.len(),
{
    if state.buffer.len() > 0 {
        let rest = replay(state.pop(), answers);
        Run {
            yielded: seq![Ok(state.buffer[0])] + rest.yielded,
            keys: rest.keys,
            ended: rest.ended,
        }
    } else if state.finished {
        Run { yielded: Seq::empty(), keys: Seq::empty(), ended: true }
    } else if answers.len() == 0 {
        Run { yielded: Seq::empty(), keys: Seq::empty(), ended: false }
    } else {
        let rest = replay(state.advance(answers[0]), answers.skip(1));
        Run {
            yielded: match state.outcome(answers[0]) {
                Some(first) => seq![first] + rest.yielded,
                None => rest.yielded,
            },
            keys: seq![state.next_key] + rest.keys,
            ended: rest.ended,
        }
    }
}

/// The items of all pages, one page after the other.
pub open spec fn all_items<T, K>(pages: Seq<PageView<T, K>>) -> Seq<T>
    decreases pages.len(),
{
    if pages.len() == 0 {
        Seq::empty()
    } else {
        pages[0].items + all_items(pages.skip(1))
    }
}

/// The answers of a remote side that never fails: each page, as a success.
pub open spec fn served<T, K, E>(pages: Seq<PageView<T, K>>) -> Seq<Result<PageView<T, K>, E>> {
    Seq::new(pages.len(), |i: int| Ok(pages[i]))
}

/// Each item, as a success.
pub open spec fn succeeded<T, E>(items: Seq<T>) -> Seq<Result<T, E>> {
    Seq::new(items.len(), |i: int| Ok(items[i]))
}

/// The keys that a listing of these pages is asked with, from a first key
/// on: the first key, then the key that each page but the last returned.
pub open spec fn keys_echoed<T, K>(first: Option<K>, pages: Seq<PageView<T, K>>) -> Seq<Option<K>> {
    Seq::new(
        pages.len(),
        |i: int|
            if i == 0 {
                first
            } else {
                pages[i - 1].next_page_key
            },
    )
}

/// A listing that ends: at least one page, each page but the last holds
/// items and a continuation key, and the last page holds no key.
pub open spec fn complete_listing<T, K>(pages: Seq<PageView<T, K>>) -> bool {
    &&& pages.len() > 0
    &&& forall|i: int|
        0 <= i < pages.len() - 1 ==> (#[trigger] pages[i]).next_page_key is Some && pages[i].items.len()
            > 0
    &&& pages.last().next_page_key is None
}

/// Buffered items come first: an iteration yields what is buffered, then
/// what the same state yields with an empty buffer, and makes the same
/// fetches.
pub proof fn lemma_buffer_is_drained_first<T, K, E>(
    state: CursorView<T, K>,
    answers: Seq<Result<PageView<T, K>, E>>,
)
    ensures
        replay(state, answers).yielded == succeeded::<T, E>(state.buffer) + replay(
            state.drained(),
            answers,
        ).yielded,
        replay(state, answers).keys == replay(state.drained(), answers).keys,
        replay(state, answers).ended == replay(state.drained(), answers).ended,
    decreases state.buffer.len(),
{
    let drained = state.drained();
    if state.buffer.len() > 0 {
        lemma_buffer_is_drained_first(state.pop(), answers);
        assert(state.pop().drained() == drained);
        assert(succeeded::<T, E>(state.buffer) =~= seq![Ok(state.buffer[0])] + succeeded::<T, E>(
            state.pop().buffer,
        ));
        assert(replay(state, answers).yielded =~= succeeded::<T, E>(state.buffer) + replay(
            drained,
            answers,
        ).yielded);
    } else {
        assert(state.buffer =~= Seq::<T>::empty());
        assert(state == drained);
        assert(replay(state, answers).yielded =~= succeeded::<T, E>(state.buffer) + replay(
            drained,
            answers,
        ).yielded);
    }
}

/// No fetch while items are buffered: with a non-empty buffer, one advance
/// yields the first buffered item whatever a fetch would answer, and the
/// iteration goes on from the popped state with the same answers still to
/// come, so that no answer was used.
pub proof fn lemma_no_fetch_while_buffered<T, K, E>(
    state: CursorView<T, K>,
    answers: Seq<Result<PageView<T, K>, E>>,
)
    requires
        state.buffer.len() > 0,
    ensures
        !state.needs_page(),
        forall|answer: Result<PageView<T, K>, E>| #[trigger]
            state.advance(answer) == state.pop() && state.outcome(answer) == Some(
                Ok::<T, E>(state.buffer[0]),
            ),
        replay(state, answers).yielded == seq![Ok::<T, E>(state.buffer[0])] + replay(
            state.pop(),
            answers,
        ).yielded,
        replay(state, answers).keys == replay(state.pop(), answers).keys,
{
}

/// No fetch after the end: once the end was signalled and the buffer is
/// empty, every advance yields the end and leaves the state as it is, and
/// the iteration makes no fetch.
pub proof fn lemma_no_fetch_after_end<T, K, E>(
    state: CursorView<T, K>,
    answers: Seq<Result<PageView<T, K>, E>>,
)
    requires
        state.finished,
        state.buffer.len() == 0,
    ensures
        forall|answer: Result<PageView<T, K>, E>| #[trigger]
            state.advance(answer) == state && state.outcome(answer) == None::<Result<T, E>>,
        replay(state, answers) == (Run::<T, K, E> {
            yielded: Seq::empty(),
            keys: Seq::empty(),
            ended: true,
        }),
{
}

/// Termination: where the state needs a page and the fetched page is empty,
/// the sequence ends at once, whether or not the page holds a key and
/// whatever answers are still to come: nothing is yielded, and the one fetch
/// is the only one.
pub proof fn lemma_empty_page_ends<T, K, E>(
    state: CursorView<T, K>,
    answers: Seq<Result<PageView<T, K>, E>>,
)
    requires
        state.needs_page(),
        answers.len() > 0,
        answers[0] is Ok,
        answers[0]->Ok_0.items.len() == 0,
    ensures
        state.outcome(answers[0]) == None::<Result<T, E>>,
        state.advance(answers[0]).finished,
        replay(state, answers) == (Run::<T, K, E> {
            yielded: Seq::empty(),
            keys: seq![state.next_key],
            ended: true,
        }),
{
    let after = state.advance(answers[0]);
    lemma_no_fetch_after_end(after, answers.skip(1));
    assert(replay(state, answers).keys =~= seq![state.next_key]);
    assert(replay(state, answers).yielded =~= Seq::<Result<T, E>>::empty());
}

/// A failed fetch changes nothing: the advance yields the failure and
/// leaves the state as it was, so that the next advance asks again, with
/// the same key.
pub proof fn lemma_failed_fetch_keeps_state<T, K, E>(
    state: CursorView<T, K>,
    answers: Seq<Result<PageView<T, K>, E>>,
)
    requires
        state.needs_page(),
        answers.len() > 0,
        answers[0] is Err,
    ensures
        state.advance(answers[0]) == state,
        state.outcome(answers[0]) == Some(Err::<T, E>(answers[0]->Err_0)),
        replay(state, answers).yielded == seq![Err::<T, E>(answers[0]->Err_0)] + replay(
            state,
            answers.skip(1),
        ).yielded,
        replay(state, answers).keys == seq![state.next_key] + replay(state, answers.skip(1)).keys,
{
}

/// Pagination order, from any state that needs a page: over a complete
/// listing served without failure, the iteration yields the items of all
/// pages in order and ends; it makes one fetch for each page, the first
/// with the stored key and each later one with the key that the page before
/// returned.
pub proof fn lemma_listing_in_order<T, K, E>(state: CursorView<T, K>, pages: Seq<PageView<T, K>>)
    requires
        state.needs_page(),
        complete_listing(pages),
    ensures
        replay(state, served::<T, K, E>(pages)).yielded == succeeded::<T, E>(all_items(pages)),
        replay(state, served::<T, K, E>(pages)).keys == keys_echoed(state.next_key, pages),
        replay(state, served::<T, K, E>(pages)).keys.len() == pages.len(),
        replay(state, served::<T, K, E>(pages)).ended,
    decreases pages.len(),
{
    let answers = served::<T, K, E>(pages);
    let page = pages[0];
    let later = pages.skip(1);
    let run = replay(state, answers);
    assert(answers[0] == Ok::<PageView<T, K>, E>(page));
    assert(answers.skip(1) =~= served::<T, K, E>(later));
    if page.items.len() == 0 {
        assert(pages.len() == 1);
        lemma_empty_page_ends(state, answers);
        assert(later.len() == 0);
        assert(all_items(later) =~= Seq::<T>::empty());
        assert(all_items(pages) =~= Seq::<T>::empty());
        assert(run.yielded =~= succeeded::<T, E>(all_items(pages)));
        assert(run.keys =~= keys_echoed(state.next_key, pages));
    } else {
        let stored = state.store(page);
        let drained = stored.drained();
        lemma_buffer_is_drained_first(stored.pop(), answers.skip(1));
        assert(stored.pop().drained() == drained);
        let tail = replay(drained, served::<T, K, E>(later));
        assert(replay(stored.pop(), answers.skip(1)).yielded == succeeded::<T, E>(
            page.items.skip(1),
        ) + tail.yielded);
        if pages.len() == 1 {
            assert(pages.last() == page);
            assert(drained.finished);
            lemma_no_fetch_after_end(drained, served::<T, K, E>(later));
            assert(all_items(later) =~= Seq::<T>::empty());
        } else {
            assert(page.next_page_key is Some);
            assert(complete_listing(later)) by {
                assert(later.last() == pages.last());
                assert forall|i: int| 0 <= i < later.len() - 1 implies (#[trigger] later[i]).next_page_key is Some
                    && later[i].items.len() > 0 by {
                    assert(later[i] == pages[i + 1]);
                }
            }
            lemma_listing_in_order::<T, K, E>(drained, later);
            assert(keys_echoed(state.next_key, pages) =~= seq![state.next_key] + keys_echoed(
                drained.next_key,
                later,
            )) by {
                assert forall|i: int| 0 <= i < pages.len() implies keys_echoed(
                    state.next_key,
                    pages,
                )[i] == (seq![state.next_key] + keys_echoed(drained.next_key, later))[i] by {
                    if i > 1 {
                        assert(later[i - 2] == pages[i - 1]);
                    }
                }
            }
        }
        assert(tail.yielded == succeeded::<T, E>(all_items(later)));
        assert(all_items(pages) == page.items + all_items(later));
        assert(run.yielded =~= succeeded::<T, E>(all_items(pages))) by {
            assert(run.yielded == seq![Ok::<T, E>(page.items[0])] + (succeeded::<T, E>(
                page.items.skip(1),
            ) + tail.yielded));
        }
        assert(run.keys =~= keys_echoed(state.next_key, pages));
    }
}

/// Pagination order: a fresh iterator over a complete listing of `n` pages,
/// served without failure, yields the items of page 1, then those of page 2,
/// and so on to page `n`, and then the end; it makes exactly `n` fetches,
/// the first without a key and each later one with the key that the page
/// before returned.
pub proof fn lemma_pagination_order<T, K, E>(page_size: u64, pages: Seq<PageView<T, K>>)
    requires
        page_size > 0,
        complete_listing(pages),
    ensures
        replay(CursorView::initial(page_size), served::<T, K, E>(pages)).yielded == succeeded::<
            T,
            E,
        >(all_items(pages)),
        replay(CursorView::initial(page_size), served::<T, K, E>(pages)).keys == keys_echoed(
            None,
            pages,
        ),
        replay(CursorView::initial(page_size), served::<T, K, E>(pages)).keys.len() == pages.len(),
        replay(CursorView::initial(page_size), served::<T, K, E>(pages)).ended,
{
    lemma_listing_in_order::<T, K, E>(CursorView::initial(page_size), pages);
}

} // verus!
