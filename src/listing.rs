//! How a driver sees a [`PageIterator`](crate::pagination::PageIterator)
//! when every fetch it makes is answered, in order, from a fixed list of
//! pages; and what then holds of the items that come out.
use crate::pagination::{exhausted, after_page, after_pull, after_fetch, fresh_state, page_is_malformed, step, IterState, PageModel, Step};
use crate::pagination::FetchError;
use vstd::prelude::*;

verus! {

/// What one pull, with the fetches it needs, gives a driver.
pub enum Outcome<T> {
    /// An item of the sequence.
    Item(T),
    /// The end of the sequence.
    End,
    /// A fetched page was refused as malformed.
    Refused,
    /// A fetch was needed but the list of pages had run out.
    SourceDry,
}

/// One pull as a driver runs it in state `s`, answering fetches from
/// `pages`, of which the first `k` were used already: it fetches until the
/// iterator yields an item or ends. Gives the outcome, the new state and
/// the number of pages used.
pub open spec fn drive<T>(s: IterState<T>, pages: Seq<PageModel<T>>, k: nat) -> (Outcome<T>, IterState<T>, nat)
    decreases pages.len() - k,
{
    match step(s) {
        Step::Item(x) => (Outcome::Item(x), after_pull(s), k),
        Step::End => (Outcome::End, s, k),
        Step::Fetch(_) => {
            if k < pages.len() {
                if page_is_malformed(pages[k as int]) {
                    (Outcome::Refused, s, k + 1)
                } else {
                    drive(after_page(s, pages[k as int]), pages, k + 1)
                }
            } else {
                (Outcome::SourceDry, s, k)
            }
        },
    }
}

/// `n` pulls in a row, as [`drive`] runs each: the outcomes, the final
/// state and the number of pages used.
pub open spec fn drive_n<T>(s: IterState<T>, pages: Seq<PageModel<T>>, k: nat, n: nat) -> (Seq<Outcome<T>>, IterState<T>, nat)
    decreases n,
{
    if n == 0 {
        (Seq::empty(), s, k)
    } else {
        let (o, s1, k1) = drive(s, pages, k);
        let (os, s2, k2) = drive_n(s1, pages, k1, (n - 1) as nat);
        (seq![o] + os, s2, k2)
    }
}

/// The items of the pages from index `k` on, page after page.
pub open spec fn items_from<T>(pages: Seq<PageModel<T>>, k: nat) -> Seq<T>
    decreases pages.len() - k,
{
    if k < pages.len() {
        pages[k as int].items + items_from(pages, k + 1)
    } else {
        Seq::empty()
    }
}

/// A whole listing: every page but the last announces more and carries a
/// cursor, and the last announces none.
pub open spec fn complete_listing<T>(pages: Seq<PageModel<T>>) -> bool {
    &&& pages.len() > 0
    &&& forall|i: int| 0 <= i < pages.len() - 1 ==> #[trigger] pages[i].has_more && pages[i].next_cursor is Some
    &&& !pages[pages.len() - 1].has_more
}

/// Each item of `items` in turn, then the end.
pub open spec fn items_then_end<T>(items: Seq<T>) -> Seq<Outcome<T>> {
    Seq::new(items.len() + 1, |i: int| if i < items.len() { Outcome::Item(items[i]) } else { Outcome::End })
}

/// State `s` sits where `k` pages of a whole listing were received.
pub open spec fn at_page<T>(s: IterState<T>, pages: Seq<PageModel<T>>, k: nat) -> bool {
    if s.more_pages {
        k < pages.len()
    } else {
        k == pages.len()
    }
}

proof fn lemma_drive_n_fetch<T>(s: IterState<T>, pages: Seq<PageModel<T>>, k: nat, n: nat)
    requires
        n > 0,
        step(s) is Fetch,
        k < pages.len(),
        !page_is_malformed(pages[k as int]),
    ensures
        drive_n(s, pages, k, n) == drive_n(after_page(s, pages[k as int]), pages, k + 1, n),
{
}

proof fn lemma_drive_n_listing<T>(s: IterState<T>, pages: Seq<PageModel<T>>, k: nat)
    requires
        complete_listing(pages),
        at_page(s, pages, k),
    ensures
        ({
            let items = s.buffer + items_from(pages, k);
            let (outs, _, used) = drive_n(s, pages, k, items.len() + 1);
            outs == items_then_end(items) && used == pages.len()
        }),
    decreases s.buffer.len() + items_from(pages, k).len(), pages.len() - k,
{
    let items = s.buffer + items_from(pages, k);
    if s.buffer.len() > 0 {
        let s1 = after_pull(s);
        lemma_drive_n_listing(s1, pages, k);
        assert(s1.buffer + items_from(pages, k) =~= items.drop_first());
        assert(drive(s, pages, k) == (Outcome::Item(s.buffer[0]), s1, k));
        let (os, _, _) = drive_n(s1, pages, k, items.len() as nat);
        assert(drive_n(s, pages, k, items.len() + 1).0 == seq![Outcome::Item(s.buffer[0])] + os);
        assert(seq![Outcome::Item(s.buffer[0])] + os =~= items_then_end(items));
    } else if !s.more_pages {
        assert(items_from(pages, k) =~= Seq::<T>::empty());
        assert(items =~= Seq::<T>::empty());
        assert(drive(s, pages, k) == (Outcome::<T>::End, s, k));
        assert(drive_n(s, pages, k, 0) == (Seq::<Outcome<T>>::empty(), s, k));
        assert(drive_n(s, pages, k, 1).0 =~= items_then_end(items));
    } else {
        let s1 = after_page(s, pages[k as int]);
        if k < pages.len() - 1 {
            assert(pages[k as int].has_more && pages[k as int].next_cursor is Some);
        }
        lemma_drive_n_fetch(s, pages, k, items.len() + 1);
        assert(s1.buffer + items_from(pages, k + 1) =~= items);
        lemma_drive_n_listing(s1, pages, k + 1);
    }
}

/// Pulling through a whole listing from a new iterator yields the items of
/// the pages in fetch order, page after page, and then the end; by then each
/// page was fetched exactly once. Pages without items are passed over.
pub proof fn lemma_listing_order_and_termination<T>(pages: Seq<PageModel<T>>, cursor: Option<Seq<char>>)
    requires
        complete_listing(pages),
    ensures
        ({
            let items = items_from(pages, 0);
            let (outs, _, used) = drive_n(fresh_state::<T>(cursor), pages, 0, items.len() + 1);
            outs == items_then_end(items) && used == pages.len()
        }),
{
    let s = fresh_state::<T>(cursor);
    assert(s.buffer + items_from(pages, 0) =~= items_from(pages, 0));
    lemma_drive_n_listing(s, pages, 0);
}

/// Items already buffered are handed out without any fetch: pulling as
/// many times as there are buffered items yields them in order and uses no
/// page. The pull after that, where a next page exists, is well formed and
/// holds items, fetches exactly that one page and yields its first item.
pub proof fn lemma_buffered_items_need_no_fetch<T>(s: IterState<T>, pages: Seq<PageModel<T>>, k: nat)
    ensures
        ({
            let n = s.buffer.len();
            let (outs, s1, used) = drive_n(s, pages, k, n);
            &&& outs == Seq::new(n, |i: int| Outcome::Item(s.buffer[i]))
            &&& s1 == IterState { buffer: Seq::<T>::empty(), ..s }
            &&& used == k
            &&& (s.more_pages && k < pages.len() && !page_is_malformed(pages[k as int])
                && pages[k as int].items.len() > 0) ==> ({
                let (o, _, used2) = drive(s1, pages, k);
                o == Outcome::Item(pages[k as int].items[0]) && used2 == k + 1
            })
        }),
    decreases s.buffer.len(),
{
    let n = s.buffer.len();
    if n > 0 {
        let s1 = after_pull(s);
        lemma_buffered_items_need_no_fetch(s1, pages, k);
        assert(drive(s, pages, k) == (Outcome::Item(s.buffer[0]), s1, k));
        let (os, _, _) = drive_n(s1, pages, k, (n - 1) as nat);
        assert(seq![Outcome::Item(s.buffer[0])] + os =~= Seq::new(n, |i: int| Outcome::Item(s.buffer[i])));
        assert(IterState { buffer: Seq::<T>::empty(), ..s1 } == IterState { buffer: Seq::<T>::empty(), ..s });
    } else {
        assert(s.buffer =~= Seq::<T>::empty());
        assert(drive_n(s, pages, k, 0).0 =~= Seq::new(n, |i: int| Outcome::Item(s.buffer[i])));
        if s.more_pages && k < pages.len() && !page_is_malformed(pages[k as int]) && pages[k as int].items.len() > 0 {
            let s2 = after_page(s, pages[k as int]);
            assert(drive(s2, pages, k + 1) == (Outcome::Item(pages[k as int].items[0]), after_pull(s2), k + 1));
        }
    }
}

proof fn lemma_end_leaves_exhausted<T>(s: IterState<T>, pages: Seq<PageModel<T>>, k: nat)
    requires
        drive(s, pages, k).0 is End,
    ensures
        exhausted(drive(s, pages, k).1),
    decreases pages.len() - k,
{
    if step(s) is Fetch {
        lemma_end_leaves_exhausted(after_page(s, pages[k as int]), pages, k + 1);
    }
}

proof fn lemma_exhausted_stays<T>(s: IterState<T>, pages: Seq<PageModel<T>>, k: nat, n: nat)
    requires
        exhausted(s),
    ensures
        drive_n(s, pages, k, n) == (Seq::new(n, |i: int| Outcome::<T>::End), s, k),
    decreases n,
{
    assert(drive(s, pages, k) == (Outcome::<T>::End, s, k));
    if n > 0 {
        lemma_exhausted_stays(s, pages, k, (n - 1) as nat);
        let (os, _, _) = drive_n(s, pages, k, (n - 1) as nat);
        assert(seq![Outcome::<T>::End] + os =~= Seq::new(n, |i: int| Outcome::<T>::End));
    } else {
        assert(drive_n(s, pages, k, 0).0 =~= Seq::new(n, |i: int| Outcome::<T>::End));
    }
}

/// Once a pull has ended the sequence, every later pull ends it too,
/// leaves the state as it was and fetches nothing.
pub proof fn lemma_end_is_final<T>(s: IterState<T>, pages: Seq<PageModel<T>>, k: nat, n: nat)
    requires
        drive(s, pages, k).0 is End,
    ensures
        ({
            let (_, s1, k1) = drive(s, pages, k);
            drive_n(s1, pages, k1, n) == (Seq::new(n, |i: int| Outcome::<T>::End), s1, k1)
        }),
{
    lemma_end_leaves_exhausted(s, pages, k);
    let (_, s1, k1) = drive(s, pages, k);
    lemma_exhausted_stays(s1, pages, k1, n);
}

/// A failed fetch changes nothing: the pull after it asks for the same
/// cursor again, and when that fetch brings a well-formed page with items,
/// the first of them comes next.
pub proof fn lemma_retry_after_failure<T>(s: IterState<T>, e: FetchError, p: PageModel<T>)
    requires
        step(s) is Fetch,
        !page_is_malformed(p),
        p.items.len() > 0,
    ensures
        ({
            let failed = after_fetch(after_pull(s), Err(e));
            &&& step(failed) == step(s)
            &&& step(after_fetch(after_pull(failed), Ok(p))) == Step::Item(p.items[0])
        }),
{
}

} // verus!
