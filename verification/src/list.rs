//! The list view model: the torrents, the filtered projection, the selected
//! row and the scroll window.

use crate::api::Torrent;
use crate::text::{is_substring, lowercase, str_contains};
use crate::window::{Nav, Window};
use vstd::prelude::*;
use vstd::slice::slice_subrange;

verus! {

/// Number of rows a list shows before the screen has reported its size.
pub const DEFAULT_VISIBLE_ROWS: usize = 20;

/// The query occurs in the item's name or in its state label, letter case
/// set aside.
pub open spec fn matches_query(item: Torrent, query: Seq<char>) -> bool {
    let wanted = lowercase(query);
    is_substring(wanted, lowercase(item.name@)) || is_substring(wanted, lowercase(item.state@))
}

/// [`matches_query`] for a fixed query, as a predicate on items.
pub open spec fn query_filter(query: Seq<char>) -> spec_fn(Torrent) -> bool {
    |item: Torrent| matches_query(item, query)
}

/// The items that match the query, in their order.
pub open spec fn filter_of(items: Seq<Torrent>, query: Seq<char>) -> Seq<Torrent> {
    items.filter(query_filter(query))
}

/// Whether a lowercase query occurs in a lowercase name or state label.
pub fn lowered_matches(name: &str, state: &str, wanted: &str) -> (found: bool)
    ensures
        found == (is_substring(wanted@, name@) || is_substring(wanted@, state@)),
{
    str_contains(name, wanted) || str_contains(state, wanted)
}

/// Whether an item matches a query that is already in lowercase.
pub fn item_matches(item: &Torrent, wanted: &str) -> (found: bool)
    ensures
        found == (is_substring(wanted@, lowercase(item.name@)) || is_substring(
            wanted@,
            lowercase(item.state@),
        )),
{
    let name = item.name.as_str().to_lowercase();
    let state = item.state.as_str().to_lowercase();
    lowered_matches(name.as_str(), state.as_str(), wanted)
}

/// Copies of the items that match the query, in their order.
pub fn filter_items(items: &Vec<Torrent>, query: &str) -> (kept: Vec<Torrent>)
    ensures
        kept@ == filter_of(items@, query@),
{
    let wanted = query.to_lowercase();
    let mut kept: Vec<Torrent> = Vec::new();
    let mut i: usize = 0;
    proof {
        reveal(Seq::filter);
        assert(items@.subrange(0, 0) =~= Seq::<Torrent>::empty());
    }
    while i < items.len()
        invariant
            i <= items.len(),
            wanted@ == lowercase(query@),
            kept@ == filter_of(items@.subrange(0, i as int), query@),
        decreases items.len() - i,
    {
        let item = &items[i];
        let found = item_matches(item, wanted.as_str());
        proof {
            let seen = items@.subrange(0, i as int);
            assert(items@.subrange(0, i + 1) =~= seen.push(items@[i as int]));
            seen.lemma_filter_push(items@[i as int], query_filter(query@));
        }
        if found {
            kept.push(item.clone());
        }
        i += 1;
    }
    proof {
        assert(items@.subrange(0, items.len() as int) =~= items@);
    }
    kept
}

/// The list the screen shows: every torrent, the ones a search query keeps,
/// the selected row and the scroll position.
///
/// The *active* list is the filtered list while a query is set and the full
/// list otherwise. A query that matches nothing makes the active list empty.
#[derive(Debug)]
pub struct TorrentList {
    /// Every torrent, in the order the daemon reported them.
    pub torrents: Vec<Torrent>,
    /// The torrents that match the query; empty while no query is set.
    pub filtered_torrents: Vec<Torrent>,
    /// The query the filter was last computed for; empty for no filter.
    pub search_query: String,
    /// Index of the selected row in the active list.
    pub selected_torrent: usize,
    /// Index of the first row shown.
    pub scroll_offset: usize,
    /// Number of rows the screen reported; 0 counts as 1.
    pub max_visible_rows: usize,
}

impl TorrentList {
    /// A filter is in effect.
    pub open spec fn filtering(&self) -> bool {
        self.search_query@.len() > 0
    }

    /// The list that selection and scrolling work on.
    pub open spec fn active(&self) -> Seq<Torrent> {
        if self.filtering() {
            self.filtered_torrents@
        } else {
            self.torrents@
        }
    }

    /// Number of rows that fit on screen, at least one.
    pub open spec fn rows(&self) -> int {
        if self.max_visible_rows == 0 {
            1
        } else {
            self.max_visible_rows as int
        }
    }

    /// Selection and scroll position, as a [`Window`] over the active list.
    pub open spec fn window(&self) -> Window {
        Window {
            selected: self.selected_torrent as int,
            offset: self.scroll_offset as int,
            rows: self.rows(),
            len: self.active().len() as int,
        }
    }

    /// The filtered list is what the query keeps of the full list.
    pub open spec fn filter_synced(&self) -> bool {
        self.filtered_torrents@ == if self.filtering() {
            filter_of(self.torrents@, self.search_query@)
        } else {
            Seq::<Torrent>::empty()
        }
    }

    /// Selection and scroll position are in order and the filter is in step
    /// with the full list.
    pub open spec fn wf(&self) -> bool {
        self.window().ok() && self.filter_synced()
    }

    /// Items, filter and screen size are those of `other`.
    pub open spec fn same_items(&self, other: &TorrentList) -> bool {
        &&& self.torrents == other.torrents
        &&& self.filtered_torrents == other.filtered_torrents
        &&& self.search_query == other.search_query
        &&& self.max_visible_rows == other.max_visible_rows
    }

    /// The rows shown: the part of the active list from the scroll offset on
    /// that fits on screen.
    pub open spec fn visible(&self) -> Seq<Torrent> {
        self.active().subrange(self.window().visible_start(), self.window().visible_end())
    }

    /// The first row is selected and the list is scrolled to its top.
    pub open spec fn at_top(&self) -> bool {
        self.selected_torrent == 0 && self.scroll_offset == 0
    }

    /// The selected item, where the selection is a row of the active list.
    pub open spec fn selected(&self) -> Option<Torrent> {
        if self.selected_torrent < self.active().len() {
            Some(self.active()[self.selected_torrent as int])
        } else {
            None
        }
    }

    /// This list is `before` with only selection and scroll position
    /// changed, to those of `window`.
    pub open spec fn navigated(&self, before: &TorrentList, window: Window) -> bool {
        &&& self.window() == window
        &&& self.window().ok()
        &&& self.same_items(before)
    }

    /// This list is `before` filtered anew by `query`: the same torrents and
    /// screen size, the filtered list in step with the query, selection and
    /// scroll position at the top.
    pub open spec fn refiltered(&self, before: &TorrentList, query: Seq<char>) -> bool {
        &&& self.search_query@ == query
        &&& self.torrents == before.torrents
        &&& self.max_visible_rows == before.max_visible_rows
        &&& self.filter_synced()
        &&& self.selected_torrent == 0
        &&& self.scroll_offset == 0
        &&& self.window() == before.window().reset(self.active().len() as int)
        &&& self.window().ok()
    }

    /// This list is `before` with the torrents replaced by `items`: the same
    /// query and screen size, the filtered list in step with the new
    /// torrents, selection and scroll position moved only as far as the new
    /// length asks.
    pub open spec fn replaced(&self, before: &TorrentList, items: Vec<Torrent>) -> bool {
        &&& self.torrents == items
        &&& self.search_query == before.search_query
        &&& self.max_visible_rows == before.max_visible_rows
        &&& self.filter_synced()
        &&& self.window() == before.window().with_len(self.active().len() as int)
        &&& self.window().ok()
    }

    /// This list is `before` on a screen of `rows` rows: the same items and
    /// filter, selection and scroll position moved only as far as the new
    /// size asks.
    pub open spec fn resized(&self, before: &TorrentList, rows: usize) -> bool {
        &&& self.max_visible_rows == rows
        &&& self.torrents == before.torrents
        &&& self.filtered_torrents == before.filtered_torrents
        &&& self.search_query == before.search_query
        &&& self.window() == before.window().with_rows(self.rows())
        &&& self.window().ok()
    }

    /// An empty list without a filter.
    pub fn new() -> (list: Self)
        ensures
            list.torrents@.len() == 0,
            list.filtered_torrents@.len() == 0,
            list.search_query@.len() == 0,
            list.selected_torrent == 0,
            list.scroll_offset == 0,
            list.max_visible_rows == DEFAULT_VISIBLE_ROWS,
            list.wf(),
    {
        TorrentList {
            torrents: Vec::new(),
            filtered_torrents: Vec::new(),
            search_query: String::new(),
            selected_torrent: 0,
            scroll_offset: 0,
            max_visible_rows: DEFAULT_VISIBLE_ROWS,
        }
    }

    /// Whether a filter is in effect.
    pub fn is_searching(&self) -> (on: bool)
        ensures
            on == self.filtering(),
    {
        !self.search_query.as_str().is_empty()
    }

    /// Length of the active list.
    pub fn active_len(&self) -> (len: usize)
        ensures
            len == self.active().len(),
    {
        if self.is_searching() {
            self.filtered_torrents.len()
        } else {
            self.torrents.len()
        }
    }

    /// Number of rows that fit on screen, at least one.
    pub fn get_max_visible_rows(&self) -> (rows: usize)
        ensures
            rows == self.rows(),
            rows >= 1,
    {
        if self.max_visible_rows == 0 {
            1
        } else {
            self.max_visible_rows
        }
    }

    /// Brings selection and scroll position back in order: the selection is
    /// clamped into the active list and the window scrolls no further than
    /// it must for the selected row to show.
    pub fn adjust_scroll(&mut self)
        ensures
            final(self).navigated(old(self), old(self).window().settle()),
    {
        let len = self.active_len();
        let rows = self.get_max_visible_rows();
        let selected = if len == 0 {
            0
        } else if self.selected_torrent >= len {
            len - 1
        } else {
            self.selected_torrent
        };
        let last_start = if len > rows {
            len - rows
        } else {
            0
        };
        let capped = if self.scroll_offset > last_start {
            last_start
        } else {
            self.scroll_offset
        };
        let offset = if selected < capped {
            selected
        } else if selected - capped >= rows {
            selected - rows + 1
        } else {
            capped
        };
        self.selected_torrent = selected;
        self.scroll_offset = offset;
        proof {
            old(self).window().lemma_settle_ok();
        }
    }

    /// Selects the row nearest to `target` that the active list has.
    fn select_row(&mut self, target: i128)
        ensures
            final(self).navigated(old(self), old(self).window().select(target as int)),
    {
        let len = self.active_len();
        let selected: usize = if len == 0 || target < 0 {
            0
        } else if target >= len as i128 {
            len - 1
        } else {
            target as usize
        };
        self.selected_torrent = selected;
        self.adjust_scroll();
    }

    /// Moves the selection by `delta` rows, stopping at the first and the
    /// last row, and scrolls as far as the selected row needs to show.
    pub fn move_selection(&mut self, delta: isize)
        ensures
            final(self).navigated(old(self), old(self).window().move_by(delta as int)),
    {
        let target: i128 = self.selected_torrent as i128 + delta as i128;
        self.select_row(target);
    }

    /// Moves the selection up by one page: the rows shown but one.
    pub fn page_up(&mut self)
        ensures
            final(self).navigated(old(self), old(self).window().step(Nav::PageUp)),
    {
        let page = self.get_max_visible_rows() - 1;
        let target: i128 = self.selected_torrent as i128 - page as i128;
        self.select_row(target);
    }

    /// Moves the selection down by one page: the rows shown but one.
    pub fn page_down(&mut self)
        ensures
            final(self).navigated(old(self), old(self).window().step(Nav::PageDown)),
    {
        let page = self.get_max_visible_rows() - 1;
        let target: i128 = self.selected_torrent as i128 + page as i128;
        self.select_row(target);
    }

    /// Selects the first row.
    pub fn jump_to_start(&mut self)
        ensures
            final(self).navigated(old(self), old(self).window().step(Nav::Start)),
    {
        self.select_row(0);
    }

    /// Selects the last row.
    pub fn jump_to_end(&mut self)
        ensures
            final(self).navigated(old(self), old(self).window().step(Nav::End)),
    {
        let target: i128 = self.active_len() as i128 - 1;
        self.select_row(target);
    }

    /// Takes the number of rows the screen can show. Selection and scroll
    /// position change only as far as the new size makes them invalid.
    pub fn set_viewport_rows(&mut self, rows: usize)
        ensures
            final(self).resized(old(self), rows),
    {
        self.max_visible_rows = rows;
        self.adjust_scroll();
    }

    /// Installs a fresh full list. While a filter is in effect the filtered
    /// list is computed anew. Selection and scroll position change only as
    /// far as the new length makes them invalid.
    pub fn replace_items(&mut self, new_items: Vec<Torrent>)
        ensures
            final(self).replaced(old(self), new_items),
    {
        if self.is_searching() {
            self.filtered_torrents = filter_items(&new_items, self.search_query.as_str());
        } else {
            self.filtered_torrents = Vec::new();
        }
        self.torrents = new_items;
        self.adjust_scroll();
    }

    /// Sets the search query and computes the filtered list for it. The empty
    /// query ends filtering: the full list is active again. Selection and
    /// scroll position go back to the top in either case.
    pub fn set_filter_query(&mut self, text: &str)
        ensures
            final(self).refiltered(old(self), text@),
            final(self).active() == if text@.len() == 0 {
                old(self).torrents@
            } else {
                filter_of(old(self).torrents@, text@)
            },
    {
        self.search_query = text.to_owned();
        if text.is_empty() {
            self.filtered_torrents = Vec::new();
        } else {
            self.filtered_torrents = filter_items(&self.torrents, text);
        }
        self.selected_torrent = 0;
        self.scroll_offset = 0;
    }

    /// The rows to show: the part of the active list that starts at the
    /// scroll offset and fits on screen.
    pub fn visible_slice(&self) -> (shown: &[Torrent])
        ensures
            shown@ == self.visible(),
            shown@.len() <= self.rows(),
    {
        let len = self.active_len();
        let rows = self.get_max_visible_rows();
        let start = if self.scroll_offset > len {
            len
        } else {
            self.scroll_offset
        };
        let end = if len - start < rows {
            len
        } else {
            start + rows
        };
        if self.is_searching() {
            slice_subrange(self.filtered_torrents.as_slice(), start, end)
        } else {
            slice_subrange(self.torrents.as_slice(), start, end)
        }
    }

    /// The selected item, or `None` where the selection is no row of the
    /// active list, as on an empty list.
    pub fn selected_item(&self) -> (item: Option<&Torrent>)
        ensures
            match item {
                Some(found) => self.selected() == Some(*found),
                None => self.selected() is None,
            },
    {
        if self.selected_torrent < self.active_len() {
            if self.is_searching() {
                Some(&self.filtered_torrents[self.selected_torrent])
            } else {
                Some(&self.torrents[self.selected_torrent])
            }
        } else {
            None
        }
    }

    /// Position of the selected row among the rows shown; 0 where the
    /// selection lies before the scroll offset.
    pub fn relative_selected_index(&self) -> (at: usize)
        ensures
            at == if self.selected_torrent >= self.scroll_offset {
                self.selected_torrent - self.scroll_offset
            } else {
                0
            },
    {
        if self.selected_torrent >= self.scroll_offset {
            self.selected_torrent - self.scroll_offset
        } else {
            0
        }
    }
}

/// A query that no item matches keeps no item, whatever the items are.
pub proof fn lemma_query_without_match_keeps_nothing(items: Seq<Torrent>, query: Seq<char>)
    requires
        forall|i: int| 0 <= i < items.len() ==> !matches_query(#[trigger] items[i], query),
    ensures
        filter_of(items, query) == Seq::<Torrent>::empty(),
{
    items.lemma_all_neg_filter_empty(query_filter(query));
    assert(filter_of(items, query) =~= Seq::<Torrent>::empty());
}

impl TorrentList {
    /// While a filter is in effect whose query no torrent matches, the active
    /// list is empty, whatever the full list holds.
    pub proof fn lemma_unmatched_query_empties_active(&self)
        requires
            self.filter_synced(),
            self.filtering(),
            forall|i: int|
                0 <= i < self.torrents@.len() ==> !matches_query(
                    #[trigger] self.torrents@[i],
                    self.search_query@,
                ),
        ensures
            self.active().len() == 0,
    {
        lemma_query_without_match_keeps_nothing(self.torrents@, self.search_query@);
    }

    /// Without a filter the full list is the active list.
    pub proof fn lemma_empty_query_shows_all(&self)
        requires
            self.search_query@.len() == 0,
        ensures
            self.active() == self.torrents@,
    {
    }

    /// Where selection and scroll position are in order, the selected item
    /// is among the rows shown, at its distance from the scroll offset.
    pub proof fn lemma_selected_is_shown(&self)
        requires
            self.window().ok(),
            self.active().len() > 0,
        ensures
            self.scroll_offset <= self.selected_torrent,
            self.selected_torrent - self.scroll_offset < self.visible().len(),
            self.selected() == Some(self.visible()[self.selected_torrent - self.scroll_offset]),
    {
        self.window().lemma_selected_is_shown();
    }

    /// After the screen took a new number of rows and the selection moved,
    /// the selected item is among the rows shown.
    pub proof fn lemma_resize_then_move_shows_selection(
        before: TorrentList,
        resized: TorrentList,
        moved: TorrentList,
        rows: usize,
        delta: int,
    )
        requires
            resized.resized(&before, rows),
            moved.navigated(&resized, resized.window().move_by(delta)),
            moved.active().len() > 0,
        ensures
            moved.selected_torrent - moved.scroll_offset < moved.visible().len(),
            moved.selected() == Some(moved.visible()[moved.selected_torrent - moved.scroll_offset]),
    {
        moved.lemma_selected_is_shown();
    }

    /// A list that replaced its torrents by fewer leaves neither the
    /// selection nor the scroll offset past the new end.
    pub proof fn lemma_replaced_stays_inside(before: TorrentList, after: TorrentList, items: Vec<Torrent>)
        requires
            after.replaced(&before, items),
        ensures
            after.active().len() > 0 ==> after.selected_torrent < after.active().len()
                && after.scroll_offset < after.active().len(),
            after.active().len() == 0 ==> after.selected_torrent == 0 && after.scroll_offset == 0,
    {
    }
}

} // verus!
