use open_lark::pagination::{FetchError, FetchErrorKind, Page, PageIterator, Pull};

/// A page source that answers each fetch with the next scripted outcome and
/// records the cursor of every fetch.
struct FakeSource {
    outcomes: Vec<Result<Page<&'static str>, FetchError>>,
    next: usize,
    cursors: Vec<Option<String>>,
}

impl FakeSource {
    fn new(outcomes: Vec<Result<Page<&'static str>, FetchError>>) -> Self {
        FakeSource { outcomes, next: 0, cursors: Vec::new() }
    }

    fn fetch(&mut self, cursor: Option<String>) -> Result<Page<&'static str>, FetchError> {
        self.cursors.push(cursor);
        let outcome = std::mem::replace(&mut self.outcomes[self.next], Ok(page(&[], None, false)));
        self.next += 1;
        outcome
    }

    fn calls(&self) -> usize {
        self.cursors.len()
    }
}

fn page(items: &[&'static str], next_cursor: Option<&str>, has_more: bool) -> Page<&'static str> {
    Page { items: items.to_vec(), next_cursor: next_cursor.map(|c| c.to_string()), has_more }
}

fn failure(kind: FetchErrorKind) -> FetchError {
    FetchError { kind, message: "failed".to_string() }
}

type Iter = PageIterator<&'static str, String, &'static str>;

fn iter() -> Iter {
    PageIterator::new("folder-1", Some("token".to_string()))
}

/// One pull as a consumer sees it: an item, the end (`None`), or an error.
fn next(it: &mut Iter, src: &mut FakeSource) -> Result<Option<&'static str>, FetchError> {
    loop {
        match it.pull() {
            Pull::Item(x) => return Ok(Some(x)),
            Pull::EndOfSequence => return Ok(None),
            Pull::Fetch(cursor) => {
                assert!(it.awaiting_page());
                it.receive(src.fetch(cursor))?;
            }
        }
    }
}

#[test]
fn items_come_in_page_order() {
    let mut src = FakeSource::new(vec![
        Ok(page(&["a", "b"], Some("c1"), true)),
        Ok(page(&["c"], Some("c2"), true)),
        Ok(page(&["d", "e", "f"], None, false)),
    ]);
    let mut it = iter();
    let mut seen = Vec::new();
    while let Some(x) = next(&mut it, &mut src).unwrap() {
        seen.push(x);
    }
    assert_eq!(seen, vec!["a", "b", "c", "d", "e", "f"]);
    assert_eq!(src.cursors, vec![None, Some("c1".to_string()), Some("c2".to_string())]);
}

#[test]
fn listing_of_n_pages_takes_n_fetches() {
    let mut src = FakeSource::new(vec![
        Ok(page(&["a"], Some("c1"), true)),
        Ok(page(&["b"], Some("c2"), true)),
        Ok(page(&["c"], None, false)),
    ]);
    let mut it = iter();
    assert_eq!(next(&mut it, &mut src).unwrap(), Some("a"));
    assert_eq!(next(&mut it, &mut src).unwrap(), Some("b"));
    assert_eq!(next(&mut it, &mut src).unwrap(), Some("c"));
    assert_eq!(next(&mut it, &mut src).unwrap(), None);
    assert_eq!(src.calls(), 3);
    assert!(it.is_exhausted());
}

#[test]
fn empty_page_with_more_is_skipped() {
    let mut src = FakeSource::new(vec![
        Ok(page(&[], Some("c1"), true)),
        Ok(page(&["A", "B"], None, false)),
    ]);
    let mut it = iter();
    assert_eq!(next(&mut it, &mut src).unwrap(), Some("A"));
    assert_eq!(src.calls(), 2);
    assert_eq!(next(&mut it, &mut src).unwrap(), Some("B"));
    assert_eq!(next(&mut it, &mut src).unwrap(), None);
    assert_eq!(src.calls(), 2);
}

#[test]
fn failed_fetch_is_retried_with_the_same_cursor() {
    let mut src = FakeSource::new(vec![
        Ok(page(&["a"], Some("c1"), true)),
        Err(failure(FetchErrorKind::Transport)),
        Ok(page(&["b"], None, false)),
    ]);
    let mut it = iter();
    assert_eq!(next(&mut it, &mut src).unwrap(), Some("a"));
    let err = next(&mut it, &mut src).unwrap_err();
    assert_eq!(err.kind, FetchErrorKind::Transport);
    assert_eq!(err.message, "failed");
    assert_eq!(next(&mut it, &mut src).unwrap(), Some("b"));
    assert_eq!(src.cursors[1], Some("c1".to_string()));
    assert_eq!(src.cursors[2], Some("c1".to_string()));
    assert_eq!(next(&mut it, &mut src).unwrap(), None);
}

#[test]
fn failed_first_fetch_is_retried_from_the_start() {
    let mut src = FakeSource::new(vec![
        Err(failure(FetchErrorKind::Authorization)),
        Ok(page(&["x"], None, false)),
    ]);
    let mut it = iter();
    assert_eq!(next(&mut it, &mut src).unwrap_err().kind, FetchErrorKind::Authorization);
    assert_eq!(next(&mut it, &mut src).unwrap(), Some("x"));
    assert_eq!(src.cursors, vec![None, None]);
}

#[test]
fn buffered_items_need_no_fetch() {
    let mut src = FakeSource::new(vec![
        Ok(page(&["a", "b", "c"], Some("c1"), true)),
        Ok(page(&["d"], None, false)),
    ]);
    let mut it = iter();
    assert_eq!(next(&mut it, &mut src).unwrap(), Some("a"));
    assert_eq!(src.calls(), 1);
    assert_eq!(next(&mut it, &mut src).unwrap(), Some("b"));
    assert_eq!(next(&mut it, &mut src).unwrap(), Some("c"));
    assert_eq!(src.calls(), 1);
    assert_eq!(next(&mut it, &mut src).unwrap(), Some("d"));
    assert_eq!(src.calls(), 2);
}

#[test]
fn end_of_sequence_is_final() {
    let mut src = FakeSource::new(vec![Ok(page(&["a"], None, false))]);
    let mut it = iter();
    assert_eq!(next(&mut it, &mut src).unwrap(), Some("a"));
    for _ in 0..3 {
        assert_eq!(next(&mut it, &mut src).unwrap(), None);
        assert!(matches!(it.pull(), Pull::EndOfSequence));
    }
    assert_eq!(src.calls(), 1);
}

#[test]
fn empty_listing_ends_after_one_fetch() {
    let mut src = FakeSource::new(vec![Ok(page(&[], None, false))]);
    let mut it = iter();
    assert!(!it.is_exhausted());
    assert_eq!(next(&mut it, &mut src).unwrap(), None);
    assert_eq!(src.calls(), 1);
    assert!(it.is_exhausted());
}

#[test]
fn page_with_more_but_no_cursor_is_a_protocol_error() {
    let mut src = FakeSource::new(vec![
        Ok(page(&["a"], None, true)),
        Ok(page(&["b"], None, false)),
    ]);
    let mut it = iter();
    let err = next(&mut it, &mut src).unwrap_err();
    assert_eq!(err.kind, FetchErrorKind::Protocol);
    assert!(it.awaiting_page());
    assert_eq!(next(&mut it, &mut src).unwrap(), Some("b"));
    assert_eq!(src.cursors, vec![None, None]);
}

#[test]
fn last_page_cursor_is_ignored() {
    let mut src = FakeSource::new(vec![Ok(page(&["a"], Some("stale"), false))]);
    let mut it = iter();
    assert_eq!(next(&mut it, &mut src).unwrap(), Some("a"));
    assert_eq!(next(&mut it, &mut src).unwrap(), None);
    assert_eq!(src.calls(), 1);
}

#[test]
fn template_and_options_are_kept() {
    let mut src = FakeSource::new(vec![
        Ok(page(&["a"], Some("c1"), true)),
        Ok(page(&["b"], None, false)),
    ]);
    let mut it = iter();
    while next(&mut it, &mut src).unwrap().is_some() {
        assert_eq!(*it.template(), "folder-1");
        assert_eq!(it.options().as_deref(), Some("token"));
    }
    assert_eq!(*it.template(), "folder-1");
    assert_eq!(it.options().as_deref(), Some("token"));
}

#[test]
fn first_pull_asks_for_the_first_page() {
    let mut it = iter();
    assert!(it.awaiting_page());
    match it.pull() {
        Pull::Fetch(cursor) => assert_eq!(cursor, None),
        _ => panic!("expected a fetch"),
    }
    assert!(it.awaiting_page());
}
