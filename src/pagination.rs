//! A pull-based iterator over a token-paginated remote listing.
//!
//! The iterator is a state machine: each pull either hands out the next
//! buffered item, reports the end of the sequence, or asks its driver to
//! fetch one page with a given cursor. The driver performs the fetch and
//! hands the outcome back with [`PageIterator::receive`]. Nothing here does
//! I/O; the request template and options are carried, unchanged, for the
//! driver to pass to every fetch.
use std::collections::VecDeque;
use vstd::prelude::*;

verus! {

/// The category of a failed page fetch.
#[derive(Clone, Copy, Debug, PartialEq, Eq, Structural)]
pub enum FetchErrorKind {
    /// The network or the connection failed.
    Transport,
    /// The server rejected the credentials.
    Authorization,
    /// The response did not have the shape of a page.
    Protocol,
}

/// Why a page could not be fetched.
#[derive(Debug)]
pub struct FetchError {
    pub kind: FetchErrorKind,
    pub message: String,
}

/// One page of a listing, as the server returned it.
pub struct Page<T> {
    /// The page's items, in server order.
    pub items: Vec<T>,
    /// The token that resumes the listing after this page.
    pub next_cursor: Option<String>,
    /// Whether the listing goes on after this page.
    pub has_more: bool,
}

/// A page seen as plain values.
pub struct PageModel<T> {
    pub items: Seq<T>,
    pub next_cursor: Option<Seq<char>>,
    pub has_more: bool,
}

/// The characters of an optional string.
pub open spec fn cursor_view(c: Option<String>) -> Option<Seq<char>> {
    match c {
        Some(s) => Some(s@),
        None => None,
    }
}

impl<T> Page<T> {
    pub open spec fn model(&self) -> PageModel<T> {
        PageModel { items: self.items@, next_cursor: cursor_view(self.next_cursor), has_more: self.has_more }
    }
}

/// A page breaks the protocol when it announces more data but gives no
/// token to fetch it with.
pub open spec fn page_is_malformed<T>(p: PageModel<T>) -> bool {
    p.has_more && p.next_cursor is None
}

/// The state of an iterator as plain values.
pub struct IterState<T> {
    /// Items fetched and not yet handed out, front first.
    pub buffer: Seq<T>,
    /// The cursor for the next fetch; `None` before the first fetch means
    /// "from the beginning".
    pub cursor: Option<Seq<char>>,
    /// Whether the server may still hold pages that were not fetched.
    pub more_pages: bool,
}

/// What a pull asks of its caller, as plain values.
pub enum Step<T> {
    /// The next item of the sequence.
    Item(T),
    /// The sequence has ended.
    End,
    /// A page must be fetched with this cursor first.
    Fetch(Option<Seq<char>>),
}

/// The state of a new iterator: nothing buffered, nothing fetched.
pub open spec fn fresh_state<T>(cursor: Option<Seq<char>>) -> IterState<T> {
    IterState { buffer: Seq::empty(), cursor, more_pages: true }
}

/// What a pull in state `s` yields.
pub open spec fn step<T>(s: IterState<T>) -> Step<T> {
    if s.buffer.len() > 0 {
        Step::Item(s.buffer[0])
    } else if !s.more_pages {
        Step::End
    } else {
        Step::Fetch(s.cursor)
    }
}

/// The state after a pull in state `s`.
pub open spec fn after_pull<T>(s: IterState<T>) -> IterState<T> {
    if s.buffer.len() > 0 {
        IterState { buffer: s.buffer.drop_first(), ..s }
    } else {
        s
    }
}

/// The state after a fetched page `p` is received in state `s`. A malformed
/// page is refused and leaves the state as it was.
pub open spec fn after_page<T>(s: IterState<T>, p: PageModel<T>) -> IterState<T> {
    if page_is_malformed(p) {
        s
    } else {
        IterState { buffer: p.items, cursor: p.next_cursor, more_pages: p.has_more }
    }
}

/// The state after the outcome of a fetch is received in state `s`: an
/// error changes nothing.
pub open spec fn after_fetch<T>(s: IterState<T>, outcome: Result<PageModel<T>, FetchError>) -> IterState<T> {
    match outcome {
        Ok(p) => after_page(s, p),
        Err(_) => s,
    }
}

/// The outcome of a fetch seen as plain values.
pub open spec fn outcome_model<T>(outcome: Result<Page<T>, FetchError>) -> Result<PageModel<T>, FetchError> {
    match outcome {
        Ok(p) => Ok(p.model()),
        Err(e) => Err(e),
    }
}

/// The sequence has ended: nothing is buffered and no page is left to fetch.
pub open spec fn exhausted<T>(s: IterState<T>) -> bool {
    s.buffer.len() == 0 && !s.more_pages
}

/// The outcome of one pull.
pub enum Pull<T> {
    /// The next item of the sequence.
    Item(T),
    /// The sequence has ended; every later pull ends too.
    EndOfSequence,
    /// Fetch the page that starts at this cursor, then hand the outcome to
    /// [`PageIterator::receive`] and pull again.
    Fetch(Option<String>),
}

impl<T> Pull<T> {
    pub open spec fn model(&self) -> Step<T> {
        match self {
            Pull::Item(x) => Step::Item(*x),
            Pull::EndOfSequence => Step::End,
            Pull::Fetch(c) => Step::Fetch(cursor_view(*c)),
        }
    }
}

/// Walks a paginated listing one item at a time, fetching pages lazily.
/// `Q` is the request template and `O` the request options; both are handed
/// out unchanged for every fetch.
pub struct PageIterator<Q, O, T> {
    template: Q,
    options: Option<O>,
    buffer: VecDeque<T>,
    cursor: Option<String>,
    more_pages: bool,
}

fn copy_cursor(c: &Option<String>) -> (r: Option<String>)
    ensures
        r == *c,
{
    match c {
        Some(s) => Some(s.clone()),
        None => None,
    }
}

impl<Q, O, T> View for PageIterator<Q, O, T> {
    type V = IterState<T>;

    closed spec fn view(&self) -> IterState<T> {
        IterState { buffer: self.buffer@, cursor: cursor_view(self.cursor), more_pages: self.more_pages }
    }
}

impl<Q, O, T> PageIterator<Q, O, T> {
    pub closed spec fn spec_template(&self) -> Q {
        self.template
    }

    pub closed spec fn spec_options(&self) -> Option<O> {
        self.options
    }

    /// An iterator over the listing that `template` describes, starting from
    /// the beginning. Nothing is fetched until the first pull.
    pub fn new(template: Q, options: Option<O>) -> (r: Self)
        ensures
            r@ == fresh_state::<T>(None),
            r.spec_template() == template,
            r.spec_options() == options,
    {
        PageIterator { template, options, buffer: VecDeque::new(), cursor: None, more_pages: true }
    }

    /// The request template to pass to every fetch.
    pub fn template(&self) -> (r: &Q)
        ensures
            *r == self.spec_template(),
    {
        &self.template
    }

    /// The request options to pass to every fetch.
    pub fn options(&self) -> (r: &Option<O>)
        ensures
            *r == self.spec_options(),
    {
        &self.options
    }

    /// Whether the sequence has ended.
    pub fn is_exhausted(&self) -> (r: bool)
        ensures
            r == exhausted(self@),
    {
        self.buffer.len() == 0 && !self.more_pages
    }

    /// Whether the next pull asks for a page, so that a fetched page may be
    /// received.
    pub fn awaiting_page(&self) -> (r: bool)
        ensures
            r == (step(self@) is Fetch),
    {
        self.buffer.len() == 0 && self.more_pages
    }

    /// Pulls the next item. A buffered item is handed out without a fetch;
    /// with nothing buffered the result is the end of the sequence, or a
    /// request to fetch the page at the current cursor.
    pub fn pull(&mut self) -> (r: Pull<T>)
        ensures
            r.model() == step(old(self)@),
            final(self)@ == after_pull(old(self)@),
            final(self).spec_template() == old(self).spec_template(),
            final(self).spec_options() == old(self).spec_options(),
    {
        match self.buffer.pop_front() {
            Some(x) => Pull::Item(x),
            None => {
                if self.more_pages {
                    Pull::Fetch(copy_cursor(&self.cursor))
                } else {
                    Pull::EndOfSequence
                }
            },
        }
    }

    /// Hands the outcome of the fetch that a pull asked for to the iterator.
    /// A fetched page replaces the buffer and the cursor; an error, or a page
    /// that announces more data without a cursor, is returned and leaves the
    /// iterator as it was, so that the same fetch can be tried again.
    pub fn receive(&mut self, outcome: Result<Page<T>, FetchError>) -> (r: Result<(), FetchError>)
        requires
            step(old(self)@) is Fetch,
        ensures
            final(self).spec_template() == old(self).spec_template(),
            final(self).spec_options() == old(self).spec_options(),
            final(self)@ == after_fetch(old(self)@, outcome_model(outcome)),
            match outcome {
                Ok(p) => {
                    match r {
                        Ok(()) => !page_is_malformed(p.model()),
                        Err(e) => page_is_malformed(p.model()) && e.kind == FetchErrorKind::Protocol,
                    }
                },
                Err(e) => r == Err::<(), FetchError>(e),
            },
    {
        match outcome {
            Err(e) => Err(e),
            Ok(page) => {
                if page.has_more && page.next_cursor.is_none() {
                    Err(FetchError {
                        kind: FetchErrorKind::Protocol,
                        message: "page announces more data without a cursor".to_string(),
                    })
                } else {
                    let Page { items, next_cursor, has_more } = page;
                    let ghost fetched = items@;
                    let mut items = items;
                    let mut buffer: VecDeque<T> = VecDeque::new();
                    while items.len() > 0
                        invariant
                            fetched == items@ + buffer@,
                        decreases items.len(),
                    {
                        match items.pop() {
                            Some(x) => buffer.push_front(x),
                            None => {},
                        }
                    }
                    assert(buffer@ =~= fetched);
                    self.buffer = buffer;
                    self.cursor = next_cursor;
                    self.more_pages = has_more;
                    Ok(())
                }
            },
        }
    }
}

} // verus!
