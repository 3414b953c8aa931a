//! Requests and pages of a cursor-paginated list operation.
//!
//! A request is the caller's fixed parameters plus one continuation cursor.
//! A page is one response: a batch of items and the cursor at which the next
//! request resumes. Both cursors are opaque text; all that is ever asked of
//! one is whether it is present and non-empty.

use vstd::prelude::*;

verus! {

/// The text of an optional cursor.
pub open spec fn cursor_view(cursor: Option<String>) -> Option<Seq<char>> {
    match cursor {
        Some(token) => Some(token@),
        None => None,
    }
}

/// Whether a cursor asks for another page: it is present and not the empty
/// string. An absent cursor and an empty one both mean "no more pages".
pub open spec fn cursor_continues(cursor: Option<Seq<char>>) -> bool {
    cursor matches Some(token) && token.len() > 0
}

/// A list request: the caller's parameters and the continuation cursor.
#[derive(Debug, PartialEq, Eq)]
pub struct Request<B> {
    /// The parameters the caller chose; pagination never touches them.
    pub base: B,
    /// Where the listing resumes; `None` asks for the first page.
    pub cursor: Option<String>,
}

/// What a [`Request`] means: its parameters and the text of its cursor.
pub struct RequestView<B> {
    pub base: B,
    pub cursor: Option<Seq<char>>,
}

impl<B> View for Request<B> {
    type V = RequestView<B>;

    open spec fn view(&self) -> RequestView<B> {
        RequestView { base: self.base, cursor: cursor_view(self.cursor) }
    }
}

impl<B> Request<B> {
    /// A request for the first page.
    pub fn new(base: B) -> (request: Self)
        ensures
            request.base == base,
            request.cursor is None,
    {
        Request { base, cursor: None }
    }

    /// The same request resuming at `cursor`.
    pub fn with_cursor(self, cursor: Option<String>) -> (request: Self)
        ensures
            request.base == self.base,
            request.cursor == cursor,
    {
        Request { base: self.base, cursor }
    }
}

impl<B: Clone> Clone for Request<B> {
    /// A copy to hand to the client: a clone of the parameters and the same
    /// cursor.
    fn clone(&self) -> (copy: Self)
        ensures
            cloned::<B>(self.base, copy.base),
            copy.cursor == self.cursor,
    {
        let cursor = match &self.cursor {
            Some(token) => Some(token.clone()),
            None => None,
        };
        Request { base: self.base.clone(), cursor }
    }
}

/// One response of the list operation.
#[derive(Debug, PartialEq, Eq)]
pub struct Page<T> {
    /// The batch of results, in the order the server gave them.
    pub items: Vec<T>,
    /// Where the next request resumes; absent or empty on the last page.
    pub next_cursor: Option<String>,
}

/// What a [`Page`] means: its items and the text of its next cursor.
pub struct PageView<T> {
    pub items: Seq<T>,
    pub next_cursor: Option<Seq<char>>,
}

impl<T> View for Page<T> {
    type V = PageView<T>;

    open spec fn view(&self) -> PageView<T> {
        PageView { items: self.items@, next_cursor: cursor_view(self.next_cursor) }
    }
}

impl<T> Page<T> {
    /// Whether another page follows this one.
    pub open spec fn continues(&self) -> bool {
        cursor_continues(self@.next_cursor)
    }

    /// Whether another page follows this one: the next cursor is present and
    /// non-empty.
    pub fn has_more(&self) -> (more: bool)
        ensures
            more == self.continues(),
    {
        match &self.next_cursor {
            Some(token) => !token.as_str().is_empty(),
            None => false,
        }
    }
}

/// The items of a run of pages, page after page.
pub open spec fn all_items<T>(pages: Seq<Page<T>>) -> Seq<T>
    decreases pages.len(),
{
    if pages.len() == 0 {
        Seq::empty()
    } else {
        all_items(pages.drop_last()) + pages.last().items@
    }
}

/// Items of a run of pages extended by one page.
pub proof fn lemma_all_items_push<T>(pages: Seq<Page<T>>, page: Page<T>)
    ensures
        all_items(pages.push(page)) == all_items(pages) + page.items@,
{
    assert(pages.push(page).drop_last() =~= pages);
}

/// Gathers the items of every page into one list, keeping their order.
pub fn collect_items<T>(pages: Vec<Page<T>>) -> (items: Vec<T>)
    ensures
        items@ == all_items(pages@),
{
    let ghost listed = pages@;
    let mut items: Vec<T> = Vec::new();
    for page in iter: pages
        invariant
            iter.seq() == listed,
            items@ == all_items(listed.take(iter.index())),
    {
        let mut batch = page.items;
        proof {
            let done = listed.take(iter.index());
            assert(listed.take(iter.index() + 1) =~= done.push(page));
            lemma_all_items_push(done, page);
        }
        items.append(&mut batch);
    }
    assert(listed.take(listed.len() as int) =~= listed);
    items
}

} // verus!
