//! A cursor over a paged remote listing.
//!
//! A remote listing is read page by page: each request carries the
//! continuation key that the previous page returned, and a page without a key
//! is the last one. [`PageCursor`] is the state machine that decides when a
//! page is needed and what to do with it; [`PageIterator`] drives it with a
//! fetch function.

use std::collections::VecDeque;
use vstd::prelude::*;

verus! {

/// One page of a remote listing.
#[derive(Clone, Debug, PartialEq)]
pub struct Page<T, K> {
    /// Items of the page, in the order the remote side gave them.
    pub items: Vec<T>,
    /// Key to ask the next page with; `None` when this is the last page.
    pub next_page_key: Option<K>,
}

/// Mathematical value of a [`Page`].
pub struct PageView<T, K> {
    pub items: Seq<T>,
    pub next_page_key: Option<K>,
}

impl<T, K> View for Page<T, K> {
    type V = PageView<T, K>;

    open spec fn view(&self) -> PageView<T, K> {
        PageView { items: self.items@, next_page_key: self.next_page_key }
    }
}

/// What a fetch answered, with the page taken by its mathematical value.
pub open spec fn answer_view<T, K, E>(answer: Result<Page<T, K>, E>) -> Result<PageView<T, K>, E> {
    match answer {
        Ok(page) => Ok(page@),
        Err(error) => Err(error),
    }
}

/// Error of the construction of a cursor or an iterator.
#[derive(Clone, Copy, Debug, PartialEq, Eq, Structural)]
pub enum PageIteratorError {
    /// The page size is zero.
    InvalidConfiguration,
}

/// Mathematical value of a [`PageCursor`] and of a [`PageIterator`].
pub struct CursorView<T, K> {
    /// Limit handed to every fetch.
    pub page_size: u64,
    /// Key that the next fetch is made with.
    pub next_key: Option<K>,
    /// Items fetched and not yet yielded, the next one first.
    pub buffer: Seq<T>,
    /// Whether the remote side has signalled the end: no fetch is made any
    /// more.
    pub finished: bool,
}

impl<T, K> CursorView<T, K> {
    /// The state before anything is fetched.
    pub open spec fn initial(page_size: u64) -> Self {
        CursorView { page_size, next_key: None, buffer: Seq::empty(), finished: false }
    }

    /// Well-formedness: the page size is positive.
    pub open spec fn wf(self) -> bool {
        self.page_size > 0
    }

    /// Whether the next advance makes a fetch: only with nothing buffered,
    /// and only before the end was signalled.
    pub open spec fn needs_page(self) -> bool {
        self.buffer.len() == 0 && !self.finished
    }

    /// The state without its first buffered item.
    pub open spec fn pop(self) -> Self {
        CursorView {
            page_size: self.page_size,
            next_key: self.next_key,
            buffer: self.buffer.skip(1),
            finished: self.finished,
        }
    }

    /// The state with nothing buffered.
    pub open spec fn drained(self) -> Self {
        CursorView {
            page_size: self.page_size,
            next_key: self.next_key,
            buffer: Seq::empty(),
            finished: self.finished,
        }
    }

    /// The state with a fetched page taken in. An empty page signals the end.
    /// Any other page is buffered and its key is kept for the next fetch; it
    /// signals the end when it has no key.
    pub open spec fn store(self, page: PageView<T, K>) -> Self {
        if page.items.len() == 0 {
            CursorView {
                page_size: self.page_size,
                next_key: self.next_key,
                buffer: self.buffer,
                finished: true,
            }
        } else {
            CursorView {
                page_size: self.page_size,
                next_key: page.next_page_key,
                buffer: page.items,
                finished: page.next_page_key is None,
            }
        }
    }

    /// The state after one advance. `answer` is what the fetch answers, and
    /// is looked at only where [`Self::needs_page`] holds. A failed fetch
    /// leaves the state as it was.
    pub open spec fn advance<E>(self, answer: Result<PageView<T, K>, E>) -> Self {
        if self.buffer.len() > 0 {
            self.pop()
        } else if self.finished {
            self
        } else {
            match answer {
                Ok(page) => if page.items.len() > 0 {
                    self.store(page).pop()
                } else {
                    self.store(page)
                },
                Err(_) => self,
            }
        }
    }

    /// What one advance yields: the first buffered item; or the end, once it
    /// was signalled; or else the failure of the fetch, the first item of the
    /// fetched page, or the end that an empty page signals.
    pub open spec fn outcome<E>(self, answer: Result<PageView<T, K>, E>) -> Option<Result<T, E>> {
        if self.buffer.len() > 0 {
            Some(Ok(self.buffer[0]))
        } else if self.finished {
            None
        } else {
            match answer {
                Ok(page) => if page.items.len() > 0 {
                    Some(Ok(page.items[0]))
                } else {
                    None
                },
                Err(error) => Some(Err(error)),
            }
        }
    }
}

/// The state machine of a paged listing: the continuation key, the buffered
/// items and the end signal.
pub struct PageCursor<T, K> {
    page_size: u64,
    next_key: Option<K>,
    buffer: VecDeque<T>,
    finished: bool,
}

impl<T, K> View for PageCursor<T, K> {
    type V = CursorView<T, K>;

    closed spec fn view(&self) -> CursorView<T, K> {
        CursorView {
            page_size: self.page_size,
            next_key: self.next_key,
            buffer: self.buffer@,
            finished: self.finished,
        }
    }
}

impl<T, K> PageCursor<T, K> {
    /// Makes the cursor of a listing that is read `page_size` items at a
    /// time. A page size of zero is refused.
    pub fn new(page_size: u64) -> (made: Result<Self, PageIteratorError>)
        ensures
            page_size == 0 ==> made == Err::<Self, PageIteratorError>(
                PageIteratorError::InvalidConfiguration,
            ),
            page_size > 0 ==> made is Ok && made->Ok_0@ == CursorView::<T, K>::initial(page_size)
                && made->Ok_0@.wf(),
    {
        if page_size == 0 {
            Err(PageIteratorError::InvalidConfiguration)
        } else {
            Ok(PageCursor { page_size, next_key: None, buffer: VecDeque::new(), finished: false })
        }
    }

    /// The limit of every fetch.
    pub fn page_size(&self) -> (limit: u64)
        ensures
            limit == self@.page_size,
    {
        self.page_size
    }

    /// The key that the next fetch is made with.
    pub fn continuation_key(&self) -> (key: &Option<K>)
        ensures
            *key == self@.next_key,
    {
        &self.next_key
    }

    /// Whether the next advance has to fetch a page.
    pub fn needs_page(&self) -> (needed: bool)
        ensures
            needed == self@.needs_page(),
    {
        self.buffer.len() == 0 && !self.finished
    }

    /// Advances without a fetch: takes the first buffered item, if there is
    /// one, and changes nothing otherwise.
    pub fn take_buffered(&mut self) -> (item: Option<T>)
        ensures
            old(self)@.buffer.len() > 0 ==> item == Some(old(self)@.buffer[0]) && final(self)@
                == old(self)@.pop(),
            old(self)@.buffer.len() == 0 ==> item is None && final(self)@ == old(self)@,
            old(self)@.wf() ==> final(self)@.wf(),
    {
        self.buffer.pop_front()
    }

    /// Advances by one step, given what a fetch answers. The answer is taken
    /// in where the state needs a page, and dropped where it does not.
    pub fn advance_with<E>(&mut self, answer: Result<Page<T, K>, E>) -> (yielded: Option<
        Result<T, E>,
    >)
        ensures
            final(self)@ == old(self)@.advance(answer_view(answer)),
            yielded == old(self)@.outcome(answer_view(answer)),
            old(self)@.wf() ==> final(self)@.wf(),
    {
        if !self.needs_page() {
            return match self.take_buffered() {
                Some(item) => Some(Ok(item)),
                None => None,
            };
        }
        match answer {
            Err(error) => Some(Err(error)),
            Ok(page) => {
                let Page { items, next_page_key } = page;
                if items.len() == 0 {
                    self.finished = true;
                    None
                } else {
                    let ghost fetched = items@;
                    let mut items = items;
                    let mut buffer: VecDeque<T> = VecDeque::new();
                    while items.len() > 0
                        invariant
                            items@ + buffer@ == fetched,
                        decreases items.len(),
                    {
                        let ghost taken = items@;
                        let ghost kept = buffer@;
                        let item = items.pop().unwrap();
                        buffer.push_front(item);
                        assert(items@ + buffer@ =~= taken + kept) by {
                            assert(taken =~= items@.push(item));
                        }
                    }
                    assert(buffer@ =~= fetched);
                    let first = buffer.pop_front();
                    self.finished = next_page_key.is_none();
                    self.next_key = next_page_key;
                    self.buffer = buffer;
                    match first {
                        Some(item) => Some(Ok(item)),
                        None => None,
                    }
                }
            },
        }
    }
}

/// Whether `handed` can be what a fetch receives when the cursor holds
/// `stored`: no key for no key, and a clone of the key for a key.
pub open spec fn key_handed<K: Clone>(stored: Option<K>, handed: Option<K>) -> bool {
    match (stored, handed) {
        (None, None) => true,
        (Some(kept), Some(copy)) => cloned(kept, copy),
        _ => false,
    }
}

/// Whether a fetch function can be called with what it is handed when the
/// cursor holds the key `stored`, together with the given limit.
pub open spec fn accepts_key<T, K: Clone, E, F: Fn(Option<K>, u64) -> Result<Page<T, K>, E>>(
    fetch_page: F,
    stored: Option<K>,
    limit: u64,
) -> bool {
    forall|handed: Option<K>| #[trigger]
        key_handed(stored, handed) ==> call_requires(fetch_page, (handed, limit))
}

/// Whether a fetch function can serve a listing `limit` items at a time: it
/// can be called without a key, and with the key of every page that it
/// returns for that limit.
pub open spec fn serves_listing<T, K: Clone, E, F: Fn(Option<K>, u64) -> Result<Page<T, K>, E>>(
    fetch_page: F,
    limit: u64,
) -> bool {
    &&& accepts_key(fetch_page, None, limit)
    &&& forall|key: Option<K>, page: Page<T, K>| #[trigger]
        call_ensures(fetch_page, (key, limit), Ok::<Page<T, K>, E>(page)) ==> accepts_key(
            fetch_page,
            page.next_page_key,
            limit,
        )
}

/// Whether one advance that fetches can lead from `before` to `after` and
/// yield `yielded`: some answer that `fetch_page` can give to the stored key
/// and the page size takes the state there and yields that.
pub open spec fn fetches_and_advances<
    T,
    K: Clone,
    E,
    F: Fn(Option<K>, u64) -> Result<Page<T, K>, E>,
>(
    fetch_page: F,
    before: CursorView<T, K>,
    after: CursorView<T, K>,
    yielded: Option<Result<T, E>>,
) -> bool {
    exists|key: Option<K>, answer: Result<Page<T, K>, E>|
        {
            &&& key_handed(before.next_key, key)
            &&& #[trigger] call_ensures(fetch_page, (key, before.page_size), answer)
            &&& after == before.advance(answer_view(answer))
            &&& yielded == before.outcome(answer_view(answer))
        }
}

/// A lazy, single-pass sequence over a paged remote listing. It fetches a
/// page only when its buffer is empty, and hands each fetch the key that the
/// page before returned.
pub struct PageIterator<T, K, F> {
    fetch_page: F,
    cursor: PageCursor<T, K>,
}

impl<T, K, F> View for PageIterator<T, K, F> {
    type V = CursorView<T, K>;

    closed spec fn view(&self) -> CursorView<T, K> {
        self.cursor@
    }
}

impl<T, K, F> PageIterator<T, K, F> {
    /// The fetch function that the iterator was made with.
    pub closed spec fn fetcher(&self) -> F {
        self.fetch_page
    }
}

impl<T, K: Clone, E, F: Fn(Option<K>, u64) -> Result<Page<T, K>, E>> PageIterator<T, K, F> {
    /// Well-formedness: the page size is positive, and the fetch function
    /// can serve the listing from the stored key on.
    pub open spec fn wf(&self) -> bool {
        &&& self@.wf()
        &&& serves_listing(self.fetcher(), self@.page_size)
        &&& accepts_key(self.fetcher(), self@.next_key, self@.page_size)
    }

    /// Makes an iterator that reads the listing behind `fetch_page`,
    /// `page_size` items at a time. A page size of zero is refused.
    pub fn new(fetch_page: F, page_size: u64) -> (made: Result<Self, PageIteratorError>)
        requires
            page_size > 0 ==> serves_listing(fetch_page, page_size),
        ensures
            page_size == 0 ==> made == Err::<Self, PageIteratorError>(
                PageIteratorError::InvalidConfiguration,
            ),
            page_size > 0 ==> {
                &&& made is Ok
                &&& made->Ok_0@ == CursorView::<T, K>::initial(page_size)
                &&& made->Ok_0.fetcher() == fetch_page
                &&& made->Ok_0.wf()
            },
    {
        match PageCursor::new(page_size) {
            Ok(cursor) => Ok(PageIterator { fetch_page, cursor }),
            Err(error) => Err(error),
        }
    }

    /// Advances the sequence: `Some(Ok(item))` for the next item, `None` for
    /// the end, `Some(Err(error))` where the fetch failed.
    ///
    /// While items are buffered, the first of them is taken and no fetch is
    /// made; once the end was signalled, nothing changes and no fetch is
    /// made. Otherwise one fetch is made, with the stored key and the page
    /// size, and the step is the one that [`CursorView::advance`] and
    /// [`CursorView::outcome`] give for its answer.
    pub fn next(&mut self) -> (yielded: Option<Result<T, E>>)
        requires
            old(self).wf(),
        ensures
            final(self).wf(),
            final(self).fetcher() == old(self).fetcher(),
            old(self)@.buffer.len() > 0 ==> yielded == Some(Ok::<T, E>(old(self)@.buffer[0]))
                && final(self)@ == old(self)@.pop(),
            old(self)@.buffer.len() == 0 && old(self)@.finished ==> yielded is None && final(self)@
                == old(self)@,
            old(self)@.needs_page() ==> fetches_and_advances(
                old(self).fetcher(),
                old(self)@,
                final(self)@,
                yielded,
            ),
    {
        if self.cursor.needs_page() {
            let ghost before = self.cursor@;
            let key = self.cursor.continuation_key().clone();
            assert(key_handed(before.next_key, key));
            let answer = (self.fetch_page)(key, self.cursor.page_size());
            assert(call_ensures(self.fetch_page, (key, before.page_size), answer));
            self.cursor.advance_with(answer)
        } else {
            match self.cursor.take_buffered() {
                Some(item) => Some(Ok(item)),
                None => None,
            }
        }
    }
}

} // verus!
