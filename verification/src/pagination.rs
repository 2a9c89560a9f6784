//! Fetching a list page by page: the cursor that names the next page, and
//! the state of a fetch between two pages.
//!
//! The absence of a cursor means two things: before the first page that the
//! first page is to be asked for, after a page that no page follows. The state
//! therefore keeps its position apart from the cursor.

use crate::music::{views, Music, MusicView};
use vstd::prelude::*;

verus! {

/// The token with which a platform names the page that follows. Each
/// platform has its own; none is understood by another.
#[derive(Debug)]
pub enum PageCursor {
    /// The index of the first record of the page.
    Offset(u64),
    /// A token that the platform handed out.
    Token(String),
}

/// What a `PageCursor` holds.
pub ghost enum CursorView {
    Offset(u64),
    Token(Seq<char>),
}

impl View for PageCursor {
    type V = CursorView;

    open spec fn view(&self) -> CursorView {
        match self {
            PageCursor::Offset(n) => CursorView::Offset(*n),
            PageCursor::Token(t) => CursorView::Token(t@),
        }
    }
}

/// What a cursor that may be absent holds.
pub open spec fn cursor_view(o: Option<PageCursor>) -> Option<CursorView> {
    match o {
        Some(c) => Some(c@),
        None => None,
    }
}

/// One page of a list: its records and the cursor of the page that follows,
/// absent where none does.
#[derive(Debug)]
pub struct Page {
    /// The records of the page.
    pub items: Vec<Music>,
    /// The cursor of the next page.
    pub next: Option<PageCursor>,
}

/// What a `Page` holds.
pub ghost struct PageView {
    pub items: Seq<MusicView>,
    pub next: Option<CursorView>,
}

impl View for Page {
    type V = PageView;

    open spec fn view(&self) -> PageView {
        PageView { items: views(self.items@), next: cursor_view(self.next) }
    }
}

/// Where a fetch stands.
#[derive(Debug)]
pub enum Position {
    /// No page was asked for yet: the first one is next.
    First,
    /// The page that the cursor names is next.
    Next(PageCursor),
    /// The last page came: nothing is next.
    Done,
}

/// What a `Position` holds.
pub ghost enum PositionView {
    First,
    Next(CursorView),
    Done,
}

impl View for Position {
    type V = PositionView;

    open spec fn view(&self) -> PositionView {
        match self {
            Position::First => PositionView::First,
            Position::Next(c) => PositionView::Next(c@),
            Position::Done => PositionView::Done,
        }
    }
}

/// The state of a fetch: where it stands, and the records of the pages that
/// came, in the order in which they came.
#[derive(Debug)]
pub struct Pagination {
    /// Where the fetch stands.
    pub position: Position,
    /// The records so far.
    pub items: Vec<Music>,
}

/// What a `Pagination` holds.
pub ghost struct PaginationView {
    pub position: PositionView,
    pub items: Seq<MusicView>,
}

impl View for Pagination {
    type V = PaginationView;

    open spec fn view(&self) -> PaginationView {
        PaginationView { position: self.position@, items: views(self.items@) }
    }
}

/// The state before the first page.
pub open spec fn started() -> PaginationView {
    PaginationView { position: PositionView::First, items: Seq::empty() }
}

/// The state after `page` came in the state `s`: the records of the page
/// are added, and the fetch is done where the page names no next one. A page
/// that comes when the fetch is done changes nothing.
pub open spec fn after_page(s: PaginationView, page: PageView) -> PaginationView {
    if s.position is Done {
        s
    } else {
        PaginationView {
            position: match page.next {
                Some(c) => PositionView::Next(c),
                None => PositionView::Done,
            },
            items: s.items + page.items,
        }
    }
}

/// The state after each of `pages` came in turn.
pub open spec fn after_pages(s: PaginationView, pages: Seq<PageView>) -> PaginationView
    decreases pages.len(),
{
    if pages.len() == 0 {
        s
    } else {
        after_page(after_pages(s, pages.drop_last()), pages.last())
    }
}

impl Pagination {
    /// The state before the first page.
    pub fn start() -> (r: Self)
        ensures
            r@ == started(),
    {
        let r = Pagination { position: Position::First, items: Vec::new() };
        assert(views(r.items@) == Seq::<MusicView>::empty());
        r
    }

    /// Whether the last page came.
    pub fn is_done(&self) -> (r: bool)
        ensures
            r == (self@.position is Done),
    {
        match self.position {
            Position::Done => true,
            _ => false,
        }
    }

    /// The cursor to ask the next page with: absent for the first page, and
    /// absent when the fetch is done.
    pub fn cursor(&self) -> (r: Option<&PageCursor>)
        ensures
            match self.position {
                Position::Next(c) => r == Some(&c),
                _ => r is None,
            },
    {
        match &self.position {
            Position::Next(c) => Some(c),
            _ => None,
        }
    }

    /// Takes in the page that came.
    pub fn accept(&mut self, page: Page)
        ensures
            final(self)@ == after_page(old(self)@, page@),
    {
        if self.is_done() {
            return ;
        }
        let Page { items, next } = page;
        let mut items = items;
        let ghost before = views(self.items@);
        let ghost added = views(items@);
        self.items.append(&mut items);
        assert(views(self.items@) == before + added);
        self.position = match next {
            Some(c) => Position::Next(c),
            None => Position::Done,
        };
    }

    /// The records of all pages that came.
    pub fn finish(self) -> (r: Vec<Music>)
        ensures
            views(r@) == self@.items,
    {
        self.items
    }
}

/// A fetch whose first page names no next one is done after that page, and
/// holds the records of that page.
pub proof fn lemma_one_page_ends(page: PageView)
    requires
        page.next is None,
    ensures
        after_page(started(), page).position is Done,
        after_page(started(), page).items == page.items,
{
    assert(Seq::<MusicView>::empty() + page.items == page.items);
}

/// A fetch is done exactly when one of the pages that came named no next
/// one, and then no later page adds anything.
pub proof fn lemma_done_after_last_page(pages: Seq<PageView>)
    ensures
        after_pages(started(), pages).position is Done <==> exists|k: int|
            0 <= k < pages.len() && (#[trigger] pages[k]).next is None,
        forall|page: PageView|
            after_pages(started(), pages).position is Done ==> #[trigger] after_page(
                after_pages(started(), pages),
                page,
            ) == after_pages(started(), pages),
    decreases pages.len(),
{
    if pages.len() > 0 {
        let head = pages.drop_last();
        lemma_done_after_last_page(head);
        if exists|k: int| 0 <= k < head.len() && (#[trigger] head[k]).next is None {
            let k = choose|k: int| 0 <= k < head.len() && (#[trigger] head[k]).next is None;
            assert(pages[k].next is None);
        }
        if exists|k: int| 0 <= k < pages.len() && (#[trigger] pages[k]).next is None {
            let k = choose|k: int| 0 <= k < pages.len() && (#[trigger] pages[k]).next is None;
            if k < head.len() {
                assert(head[k].next is None);
            }
        }
        if pages.last().next is None {
            assert(pages[pages.len() - 1].next is None);
        }
    }
}

} // verus!
