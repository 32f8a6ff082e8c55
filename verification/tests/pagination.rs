use rspotify::model::Page;
use rspotify::pagination::{paginate, run_paginate, PageIterator, ResultIter};
use rspotify::ClientError;

fn page(items: Vec<&'static str>, next: Option<&str>) -> Page<&'static str> {
    Page {
        href: String::new(),
        items,
        limit: 3,
        next: next.map(|s| s.to_string()),
        offset: 0,
        previous: None,
        total: 5,
    }
}

#[test]
fn termination_law_yields_all_items_and_stops() {
    // Pages [a,b,c] (next present) and [d,e] (next absent): the sequence
    // yields a..e and stops; the third entry is poisoned to show that no
    // third fetch is consumed.
    let responses = vec![
        Ok(page(vec!["a", "b", "c"], Some("more"))),
        Ok(page(vec!["d", "e"], None)),
        Err(ClientError::PageFetch),
    ];
    let out = paginate(responses, 3);
    let items: Vec<&str> = out.iter().map(|r| *r.as_ref().unwrap()).collect();
    assert_eq!(items, vec!["a", "b", "c", "d", "e"]);
}

#[test]
fn termination_law_no_fetch_after_final_page() {
    let mut engine = PageIterator::new(3);
    assert_eq!(engine.next_request(), Some((3, 0)));
    let first = engine.feed(Ok(page(vec!["a", "b", "c"], Some("more"))));
    assert_eq!(first.len(), 3);
    assert_eq!(engine.next_request(), Some((3, 3)));
    let second = engine.feed(Ok(page(vec!["d", "e"], None)));
    assert_eq!(second.len(), 2);
    // The second page carried no continuation: no third fetch occurs.
    assert_eq!(engine.next_request(), None);
}

#[test]
fn empty_first_page_law() {
    // An immediately empty page yields an empty sequence; the poisoned
    // second entry shows no further fetch is attempted.
    let responses: Vec<Result<Page<&str>, ClientError>> = vec![
        Ok(page(vec![], Some("more"))),
        Err(ClientError::PageFetch),
    ];
    let out = paginate(responses, 3);
    assert!(out.is_empty());

    let mut engine = PageIterator::new(3);
    let yielded = engine.feed(Ok(page(vec![], Some("more"))));
    assert!(yielded.is_empty());
    assert_eq!(engine.next_request(), None);
}

#[test]
fn error_termination_law() {
    // Two full pages, then a failing fetch at offset 5: the sequence
    // yields the items of pages one and two, then exactly one error, and
    // a subsequent poll yields nothing.
    let mut engine = PageIterator::new(3);
    assert_eq!(engine.next_request(), Some((3, 0)));
    let first = engine.feed(Ok(page(vec!["a", "b", "c"], Some("more"))));
    let second = engine.feed(Ok(page(vec!["d", "e"], Some("more"))));
    assert_eq!(engine.next_request(), Some((3, 5)));
    let third: Vec<Result<&str, ClientError>> = engine.feed(Err(ClientError::PageFetch));
    assert_eq!(first.len() + second.len(), 5);
    assert_eq!(third, vec![Err(ClientError::PageFetch)]);
    assert_eq!(engine.next_request(), None);

    let responses = vec![
        Ok(page(vec!["a", "b", "c"], Some("more"))),
        Ok(page(vec!["d", "e"], Some("more"))),
        Err(ClientError::PageFetch),
        Ok(page(vec!["never"], Some("more"))),
    ];
    let out = paginate(responses, 3);
    assert_eq!(out.len(), 6);
    assert_eq!(out[4], Ok("e"));
    assert_eq!(out[5], Err(ClientError::PageFetch));
}

#[test]
fn cursor_offset_equals_item_count_sum() {
    // After each successful fetch the cursor offset equals the sum of
    // the item counts fetched so far.
    let mut engine = PageIterator::new(10);
    engine.feed(Ok(page(vec!["a", "b", "c"], Some("more"))));
    assert_eq!(engine.offset, 3);
    engine.feed(Ok(page(vec!["d", "e"], Some("more"))));
    assert_eq!(engine.offset, 5);

    let mut engine2 = PageIterator::new(10);
    let responses = vec![
        Ok(page(vec!["a", "b", "c"], Some("more"))),
        Ok(page(vec!["d", "e"], Some("more"))),
    ];
    let out = run_paginate(&mut engine2, responses);
    assert_eq!(out.len(), 5);
    assert_eq!(engine2.offset, 5);
    assert!(!engine2.done);
}

#[test]
fn result_iter_yields_items_in_order() {
    let mut it: ResultIter<u32> = ResultIter::new(Ok(vec![1, 2, 3]));
    assert_eq!(it.next(), Some(Ok(1)));
    assert_eq!(it.next(), Some(Ok(2)));
    assert_eq!(it.next(), Some(Ok(3)));
    assert_eq!(it.next(), None);
    assert_eq!(it.next(), None);
}

#[test]
fn result_iter_yields_error_once() {
    let mut it: ResultIter<u32> = ResultIter::new(Err(ClientError::Transport));
    assert_eq!(it.next(), Some(Err(ClientError::Transport)));
    assert_eq!(it.next(), None);
}
