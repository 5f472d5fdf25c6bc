use std::cell::{Cell, RefCell};

use termii_rust::common::errors::HttpError;
use termii_rust::common::page_token::page_token;
use termii_rust::common::pagination::{PaginatedResource, Step, Traversal};

/// A listing that answers from a script and writes down what it was asked.
struct Scripted {
    pages: Vec<Option<Vec<u32>>>,
    calls: Cell<usize>,
    tokens: RefCell<Vec<String>>,
}

impl Scripted {
    fn new(pages: Vec<Option<Vec<u32>>>) -> Scripted {
        Scripted { pages, calls: Cell::new(0), tokens: RefCell::new(Vec::new()) }
    }
}

impl PaginatedResource for Scripted {
    type Item = u32;

    fn _get(&self, page: &str) -> Result<Vec<u32>, HttpError> {
        let index = self.calls.get();
        self.calls.set(index + 1);
        self.tokens.borrow_mut().push(page.to_string());
        match self.pages.get(index) {
            Some(Some(items)) => Ok(items.clone()),
            Some(None) => Err(HttpError::JsonError { status: 500, message: format!("page {}", page) }),
            None => Ok(Vec::new()),
        }
    }
}

fn full_page(first: u32, size: u32) -> Vec<u32> {
    (first..first + size).collect()
}

#[test]
fn all_returns_three_full_pages_after_four_calls() {
    let size = 15;
    let listing = Scripted::new(vec![
        Some(full_page(0, size)),
        Some(full_page(15, size)),
        Some(full_page(30, size)),
        Some(Vec::new()),
        Some(full_page(1000, size)),
    ]);
    let items = listing.all().unwrap();
    assert_eq!(items, full_page(0, 45));
    assert_eq!(listing.calls.get(), 4);
    assert_eq!(*listing.tokens.borrow(), vec!["1", "2", "3", "4"]);
}

#[test]
fn all_stops_at_first_empty_page() {
    let listing = Scripted::new(vec![Some(vec![7, 8]), Some(vec![9]), Some(vec![]), Some(vec![10])]);
    assert_eq!(listing.all().unwrap(), vec![7, 8, 9]);
    assert_eq!(listing.calls.get(), 3);
}

#[test]
fn all_on_empty_listing_makes_one_call() {
    let listing = Scripted::new(vec![Some(vec![])]);
    assert_eq!(listing.all().unwrap(), Vec::<u32>::new());
    assert_eq!(listing.calls.get(), 1);
    assert_eq!(*listing.tokens.borrow(), vec!["1"]);
}

#[test]
fn all_costs_one_more_call_on_exact_multiple() {
    let listing = Scripted::new(vec![Some(full_page(0, 5)), Some(full_page(5, 5))]);
    assert_eq!(listing.all().unwrap().len(), 10);
    assert_eq!(listing.calls.get(), 3);
}

#[test]
fn all_keeps_order_and_duplicates() {
    let listing = Scripted::new(vec![Some(vec![3, 1, 2]), Some(vec![2, 2]), Some(vec![1])]);
    assert_eq!(listing.all().unwrap(), vec![3, 1, 2, 2, 2, 1]);
}

#[test]
fn all_returns_the_failure_and_nothing_else() {
    let listing = Scripted::new(vec![Some(vec![1, 2]), Some(vec![3, 4]), None, Some(vec![5])]);
    match listing.all() {
        Err(HttpError::JsonError { status, message }) => {
            assert_eq!(status, 500);
            assert_eq!(message, "page 3");
        }
        other => panic!("unexpected outcome: {:?}", other),
    }
    assert_eq!(listing.calls.get(), 3);
}

#[test]
fn all_passes_on_more_than_nine_pages() {
    let mut pages = Vec::new();
    for page in 0..12u32 {
        pages.push(Some(vec![page]));
    }
    let listing = Scripted::new(pages);
    assert_eq!(listing.all().unwrap(), full_page(0, 12));
    assert_eq!(listing.calls.get(), 13);
    let tokens = listing.tokens.borrow();
    assert_eq!(tokens[9], "10");
    assert_eq!(tokens[12], "13");
}

#[test]
fn traversal_starts_at_page_one() {
    let traversal: Traversal<u32> = Traversal::new();
    assert_eq!(traversal.page(), 1);
    assert_eq!(traversal.page_token(), "1");
}

#[test]
fn traversal_moves_on_by_one_page_per_full_page() {
    let traversal: Traversal<u32> = Traversal::new();
    let traversal = match traversal.advance(Ok(vec![1, 2])) {
        Step::Fetch(next) => next,
        Step::Done { .. } => panic!("a full page does not end the traversal"),
    };
    assert_eq!(traversal.page(), 2);
    assert_eq!(traversal.page_token(), "2");
    let traversal = match traversal.advance(Ok(vec![3])) {
        Step::Fetch(next) => next,
        Step::Done { .. } => panic!("a full page does not end the traversal"),
    };
    assert_eq!(traversal.page(), 3);
    match traversal.advance(Ok(vec![])) {
        Step::Done { requests, outcome } => {
            assert_eq!(requests, 3);
            assert_eq!(outcome.unwrap(), vec![1, 2, 3]);
        }
        Step::Fetch(_) => panic!("an empty page ends the traversal"),
    }
}

#[test]
fn traversal_ends_on_failure_without_items() {
    let traversal: Traversal<u32> = Traversal::new();
    let traversal = match traversal.advance(Ok(vec![1, 2])) {
        Step::Fetch(next) => next,
        Step::Done { .. } => panic!("a full page does not end the traversal"),
    };
    match traversal.advance(Err(HttpError::InvalidTimeout(0))) {
        Step::Done { requests, outcome } => {
            assert_eq!(requests, 2);
            assert!(matches!(outcome, Err(HttpError::InvalidTimeout(0))));
        }
        Step::Fetch(_) => panic!("a failure ends the traversal"),
    }
}

#[test]
fn traversal_hands_on_a_transport_failure() {
    let failure = reqwest::blocking::Client::new().get("not an address").send().unwrap_err();
    let text = failure.to_string();
    let traversal: Traversal<u32> = Traversal::new();
    match traversal.advance(Err(HttpError::Io(failure))) {
        Step::Done { requests, outcome: Err(HttpError::Io(error)) } => {
            assert_eq!(requests, 1);
            assert_eq!(error.to_string(), text);
        }
        _ => panic!("a transport failure ends the traversal"),
    }
}

#[test]
fn transport_failure_converts_into_io() {
    let failure = reqwest::blocking::Client::new().get("not an address").send().unwrap_err();
    let text = failure.to_string();
    match HttpError::from(failure) {
        HttpError::Io(error) => assert_eq!(error.to_string(), text),
        other => panic!("unexpected error: {:?}", other),
    }
}

#[test]
fn page_token_is_decimal() {
    assert_eq!(page_token(0), "0");
    assert_eq!(page_token(1), "1");
    assert_eq!(page_token(9), "9");
    assert_eq!(page_token(10), "10");
    assert_eq!(page_token(109), "109");
    assert_eq!(page_token(1234567890), "1234567890");
    assert_eq!(page_token(u128::MAX), "340282366920938463463374607431768211455");
}
