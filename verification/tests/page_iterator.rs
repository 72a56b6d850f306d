use desmos_bindings::iter::page_iterator::{Page, PageCursor, PageIterator, PageIteratorError};
use std::cell::{Cell, RefCell};

fn two_pages(key: Option<String>) -> Result<Page<char, String>, String> {
    match key.as_deref() {
        None => Ok(Page {
            items: vec!['A', 'B'],
            next_page_key: Some("k1".to_string()),
        }),
        Some("k1") => Ok(Page {
            items: vec!['C'],
            next_page_key: None,
        }),
        Some(other) => Err(format!("unknown key {other}")),
    }
}

#[test]
fn two_pages_are_yielded_in_order_with_two_fetches() {
    let calls = Cell::new(0u32);
    let mut it = PageIterator::new(
        |key: Option<String>, _limit: u64| {
            calls.set(calls.get() + 1);
            two_pages(key)
        },
        10,
    )
    .ok()
    .unwrap();

    assert_eq!(it.next(), Some(Ok('A')));
    assert_eq!(it.next(), Some(Ok('B')));
    assert_eq!(it.next(), Some(Ok('C')));
    assert_eq!(it.next(), None);
    assert_eq!(calls.get(), 2);
    assert_eq!(it.next(), None);
    assert_eq!(calls.get(), 2);
}

#[test]
fn every_fetch_gets_the_page_size_and_the_key_of_the_page_before() {
    let seen: RefCell<Vec<(Option<u32>, u64)>> = RefCell::new(Vec::new());
    let mut it = PageIterator::new(
        |key: Option<u32>, limit: u64| -> Result<Page<u32, u32>, String> {
            seen.borrow_mut().push((key, limit));
            let page = key.unwrap_or(0);
            Ok(Page {
                items: vec![10 * page, 10 * page + 1],
                next_page_key: if page < 2 { Some(page + 1) } else { None },
            })
        },
        2,
    )
    .ok()
    .unwrap();

    let mut items = Vec::new();
    while let Some(item) = it.next() {
        items.push(item.unwrap());
    }
    assert_eq!(items, vec![0, 1, 10, 11, 20, 21]);
    assert_eq!(
        *seen.borrow(),
        vec![(None, 2), (Some(1), 2), (Some(2), 2)]
    );
}

#[test]
fn no_fetch_is_made_while_items_are_buffered() {
    let calls = Cell::new(0u32);
    let mut it = PageIterator::new(
        |key: Option<String>, _limit: u64| {
            calls.set(calls.get() + 1);
            two_pages(key)
        },
        10,
    )
    .ok()
    .unwrap();

    assert_eq!(calls.get(), 0);
    assert_eq!(it.next(), Some(Ok('A')));
    assert_eq!(calls.get(), 1);
    assert_eq!(it.next(), Some(Ok('B')));
    assert_eq!(calls.get(), 1);
    assert_eq!(it.next(), Some(Ok('C')));
    assert_eq!(calls.get(), 2);
}

#[test]
fn empty_first_page_without_key_ends_at_once() {
    let calls = Cell::new(0u32);
    let mut it = PageIterator::new(
        |_key: Option<String>, _limit: u64| -> Result<Page<u8, String>, String> {
            calls.set(calls.get() + 1);
            Ok(Page {
                items: vec![],
                next_page_key: None,
            })
        },
        5,
    )
    .ok()
    .unwrap();

    assert_eq!(it.next(), None);
    assert_eq!(it.next(), None);
    assert_eq!(calls.get(), 1);
}

#[test]
fn empty_page_with_key_ends_the_sequence_too() {
    let calls = Cell::new(0u32);
    let mut it = PageIterator::new(
        |key: Option<u8>, _limit: u64| -> Result<Page<u8, u8>, String> {
            calls.set(calls.get() + 1);
            match key {
                None => Ok(Page {
                    items: vec![1],
                    next_page_key: Some(1),
                }),
                Some(_) => Ok(Page {
                    items: vec![],
                    next_page_key: Some(2),
                }),
            }
        },
        1,
    )
    .ok()
    .unwrap();

    assert_eq!(it.next(), Some(Ok(1)));
    assert_eq!(it.next(), None);
    assert_eq!(it.next(), None);
    assert_eq!(calls.get(), 2);
}

#[test]
fn last_page_with_items_is_not_followed_by_a_fetch() {
    let calls = Cell::new(0u32);
    let mut it = PageIterator::new(
        |_key: Option<u8>, _limit: u64| -> Result<Page<u8, u8>, String> {
            calls.set(calls.get() + 1);
            Ok(Page {
                items: vec![7, 8, 9],
                next_page_key: None,
            })
        },
        3,
    )
    .ok()
    .unwrap();

    assert_eq!(it.next(), Some(Ok(7)));
    assert_eq!(it.next(), Some(Ok(8)));
    assert_eq!(it.next(), Some(Ok(9)));
    assert_eq!(it.next(), None);
    assert_eq!(calls.get(), 1);
}

#[test]
fn failed_fetch_is_handed_on_and_can_be_tried_again() {
    let calls = Cell::new(0u32);
    let keys: RefCell<Vec<Option<String>>> = RefCell::new(Vec::new());
    let mut it = PageIterator::new(
        |key: Option<String>, _limit: u64| {
            calls.set(calls.get() + 1);
            keys.borrow_mut().push(key.clone());
            if calls.get() == 2 {
                Err("no route".to_string())
            } else {
                two_pages(key)
            }
        },
        10,
    )
    .ok()
    .unwrap();

    assert_eq!(it.next(), Some(Ok('A')));
    assert_eq!(it.next(), Some(Ok('B')));
    assert_eq!(it.next(), Some(Err("no route".to_string())));
    assert_eq!(it.next(), Some(Ok('C')));
    assert_eq!(it.next(), None);
    assert_eq!(calls.get(), 3);
    assert_eq!(
        *keys.borrow(),
        vec![None, Some("k1".to_string()), Some("k1".to_string())]
    );
}

#[test]
fn failed_first_fetch_leaves_the_iterator_at_the_start() {
    let calls = Cell::new(0u32);
    let mut it = PageIterator::new(
        |key: Option<String>, _limit: u64| {
            calls.set(calls.get() + 1);
            if calls.get() == 1 {
                Err("down".to_string())
            } else {
                two_pages(key)
            }
        },
        10,
    )
    .ok()
    .unwrap();

    assert_eq!(it.next(), Some(Err("down".to_string())));
    assert_eq!(it.next(), Some(Ok('A')));
}

#[test]
fn zero_page_size_is_refused() {
    let made = PageIterator::new(|key: Option<String>, _limit: u64| two_pages(key), 0);
    assert_eq!(made.err(), Some(PageIteratorError::InvalidConfiguration));
    let cursor = PageCursor::<u8, u8>::new(0);
    assert_eq!(cursor.err(), Some(PageIteratorError::InvalidConfiguration));
}

#[test]
fn page_size_one_and_greatest_are_accepted() {
    assert!(PageCursor::<u8, u8>::new(1).is_ok());
    let cursor = PageCursor::<u8, u8>::new(u64::MAX).ok().unwrap();
    assert_eq!(cursor.page_size(), u64::MAX);
}

#[test]
fn fresh_cursor_needs_a_page_and_has_no_key() {
    let mut cursor = PageCursor::<u8, String>::new(4).ok().unwrap();
    assert!(cursor.needs_page());
    assert_eq!(cursor.continuation_key(), &None);
    assert_eq!(cursor.page_size(), 4);
    assert_eq!(cursor.take_buffered(), None);
    assert!(cursor.needs_page());
}

#[test]
fn cursor_advances_with_canned_answers() {
    let mut cursor = PageCursor::<u8, String>::new(4).ok().unwrap();

    let first: Result<Page<u8, String>, String> = Ok(Page {
        items: vec![1, 2, 3],
        next_page_key: Some("next".to_string()),
    });
    assert_eq!(cursor.advance_with(first), Some(Ok(1)));
    assert!(!cursor.needs_page());
    assert_eq!(cursor.continuation_key(), &Some("next".to_string()));
    assert_eq!(cursor.take_buffered(), Some(2));
    assert_eq!(cursor.take_buffered(), Some(3));
    assert_eq!(cursor.take_buffered(), None);
    assert!(cursor.needs_page());

    let failure: Result<Page<u8, String>, String> = Err("lost".to_string());
    assert_eq!(cursor.advance_with(failure), Some(Err("lost".to_string())));
    assert!(cursor.needs_page());
    assert_eq!(cursor.continuation_key(), &Some("next".to_string()));

    let last: Result<Page<u8, String>, String> = Ok(Page {
        items: vec![4],
        next_page_key: None,
    });
    assert_eq!(cursor.advance_with(last), Some(Ok(4)));
    assert!(!cursor.needs_page());
    assert_eq!(cursor.take_buffered(), None);
    assert!(!cursor.needs_page());
}

#[test]
fn cursor_ends_on_an_empty_page() {
    let mut cursor = PageCursor::<u8, String>::new(4).ok().unwrap();
    let empty: Result<Page<u8, String>, String> = Ok(Page {
        items: vec![],
        next_page_key: Some("more".to_string()),
    });
    assert_eq!(cursor.advance_with(empty), None);
    assert!(!cursor.needs_page());
    assert_eq!(cursor.take_buffered(), None);
}

#[test]
fn cursor_drops_an_answer_that_it_did_not_need() {
    let mut cursor = PageCursor::<u8, String>::new(2).ok().unwrap();
    let first: Result<Page<u8, String>, String> = Ok(Page {
        items: vec![1, 2],
        next_page_key: Some("next".to_string()),
    });
    assert_eq!(cursor.advance_with(first), Some(Ok(1)));

    let stray: Result<Page<u8, String>, String> = Ok(Page {
        items: vec![8, 9],
        next_page_key: None,
    });
    assert_eq!(cursor.advance_with(stray), Some(Ok(2)));
    assert!(cursor.needs_page());
    assert_eq!(cursor.continuation_key(), &Some("next".to_string()));

    let last: Result<Page<u8, String>, String> = Ok(Page {
        items: vec![],
        next_page_key: None,
    });
    assert_eq!(cursor.advance_with(last), None);
    let failure: Result<Page<u8, String>, String> = Err("late".to_string());
    assert_eq!(cursor.advance_with(failure), None);
    assert!(!cursor.needs_page());
}
