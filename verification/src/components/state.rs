//! The records that the popup lists, and the state of the popup as a
//! mathematical model: which record is selected and which rows are on screen.

use super::command::ScrollType;
use super::scroll_vertical::{in_window, scroll_top};
use vstd::prelude::*;

verus! {

/// Most records that a list can hold: rows are counted in sixteen bits.
pub const MAX_RECORDS: usize = 0xffff;

/// State of a submodule's checkout.
#[derive(Debug, Clone, Copy, PartialEq, Eq, Structural)]
pub enum SubmoduleStatus {
    /// Registered, but not checked out.
    Uninitialized,
    /// Checked out at the recorded commit, without local changes.
    Unmodified,
    /// New in the index or in the working directory.
    Added,
    /// Gone from the index or from the working directory.
    Deleted,
    /// Checked out at another commit, or with local changes.
    Modified,
    /// The working directory holds files that are not tracked.
    Untracked,
}

impl SubmoduleStatus {
    /// The status as text: the variant's name.
    pub open spec fn spec_name(self) -> Seq<char> {
        match self {
            SubmoduleStatus::Uninitialized => "Uninitialized"@,
            SubmoduleStatus::Unmodified => "Unmodified"@,
            SubmoduleStatus::Added => "Added"@,
            SubmoduleStatus::Deleted => "Deleted"@,
            SubmoduleStatus::Modified => "Modified"@,
            SubmoduleStatus::Untracked => "Untracked"@,
        }
    }

    /// The status as text: the variant's name.
    pub fn name(&self) -> (r: &'static str)
        ensures
            r@ == self.spec_name(),
    {
        match self {
            SubmoduleStatus::Uninitialized => "Uninitialized",
            SubmoduleStatus::Unmodified => "Unmodified",
            SubmoduleStatus::Added => "Added",
            SubmoduleStatus::Deleted => "Deleted",
            SubmoduleStatus::Modified => "Modified",
            SubmoduleStatus::Untracked => "Untracked",
        }
    }
}

/// One submodule of a repository.
#[derive(Debug, Clone, PartialEq, Eq)]
pub struct SubmoduleInfo {
    /// Where the submodule lives, relative to the repository.
    pub path: String,
    /// Short form of the commit that is checked out.
    pub short_id: Option<String>,
    /// The commit that the repository records for the submodule.
    pub full_id: Option<String>,
    /// Where the submodule is fetched from.
    pub url: Option<String>,
    pub status: SubmoduleStatus,
}

/// The list and its selection.
pub struct ListState {
    pub records: Seq<SubmoduleInfo>,
    pub selected_index: nat,
    pub visible: bool,
}

/// The part of the list that is on screen.
pub struct ViewportState {
    /// First visible row.
    pub top_offset: nat,
    /// Rows of the last frame; none before the first frame.
    pub height: nat,
}

/// The popup: a list, and the window through which it shows.
pub struct PopupState {
    pub list: ListState,
    pub viewport: ViewportState,
}

/// The row nearest to `candidate` in a list of `len` rows; row 0 in an empty
/// list.
pub open spec fn clamp_index(candidate: int, len: nat) -> nat {
    if len == 0 || candidate <= 0 {
        0
    } else if candidate < len {
        candidate as nat
    } else {
        (len - 1) as nat
    }
}

/// `value`, held to sixteen bits: what saturating arithmetic yields.
pub open spec fn saturate(value: int) -> int {
    if value < 0 {
        0
    } else if value > 0xffff {
        0xffff
    } else {
        value
    }
}

impl ListState {
    /// The list without records, hidden.
    pub open spec fn empty() -> ListState {
        ListState { records: Seq::empty(), selected_index: 0, visible: false }
    }

    /// The selection names a record, or is 0 where there is none, and the
    /// rows can be counted in sixteen bits.
    pub open spec fn wf(self) -> bool {
        &&& self.records.len() <= MAX_RECORDS
        &&& self.selected_index < self.records.len() || self.selected_index == 0
    }

    /// The selected record, if the list has any.
    pub open spec fn selected(self) -> Option<SubmoduleInfo> {
        if self.selected_index < self.records.len() {
            Some(self.records[self.selected_index as int])
        } else {
            None
        }
    }

    /// The list with `candidate` selected, or the nearest row that exists.
    pub open spec fn select(self, candidate: int) -> ListState {
        ListState { selected_index: clamp_index(candidate, self.records.len()), ..self }
    }

    /// The list over `records`, with the selection kept where that row still
    /// exists and on the last row otherwise.
    pub open spec fn refresh(self, records: Seq<SubmoduleInfo>) -> ListState {
        ListState { records, ..self }.select(self.selected_index as int)
    }

    /// The row that `scroll` aims at before it is held to the list, with
    /// pages of `page_size` rows. Sums and differences saturate.
    pub open spec fn target(self, scroll: ScrollType, page_size: nat) -> int {
        match scroll {
            ScrollType::LineForward => saturate((self.selected_index + 1) as int),
            ScrollType::LineBackward => saturate(self.selected_index - 1),
            ScrollType::PageForward => saturate((self.selected_index + page_size) as int),
            ScrollType::PageBackward => saturate(self.selected_index - page_size),
            ScrollType::Home => 0,
            ScrollType::End => saturate(self.records.len() - 1),
        }
    }

    /// The list after the step `scroll`.
    pub open spec fn navigate(self, scroll: ScrollType, page_size: nat) -> ListState {
        self.select(self.target(scroll, page_size))
    }

    /// The list after the steps `scrolls`, the first of them first.
    pub open spec fn navigate_all(self, scrolls: Seq<ScrollType>, page_size: nat) -> ListState
        decreases scrolls.len(),
    {
        if scrolls.len() == 0 {
            self
        } else {
            self.navigate_all(scrolls.drop_last(), page_size).navigate(scrolls.last(), page_size)
        }
    }

    /// The list, shown or hidden.
    pub open spec fn with_visible(self, visible: bool) -> ListState {
        ListState { visible, ..self }
    }
}

impl ViewportState {
    /// The viewport before the first frame.
    pub open spec fn initial() -> ViewportState {
        ViewportState { top_offset: 0, height: 0 }
    }

    /// The viewport after a frame of `height` rows over `list`.
    pub open spec fn render(self, list: ListState, height: nat) -> ViewportState {
        ViewportState {
            top_offset: scroll_top(
                self.top_offset as int,
                height as int,
                list.selected_index as int,
                list.records.len() as int,
            ) as nat,
            height,
        }
    }

    /// The selection of `list` is on screen.
    pub open spec fn shows_selection(self, list: ListState) -> bool {
        in_window(self.top_offset as int, self.height as int, list.selected_index as int)
    }

    /// Number of records of `list` that are on screen in a frame of `height`
    /// rows from this viewport's first row.
    pub open spec fn visible_rows(self, list: ListState, height: nat) -> nat {
        if self.top_offset >= list.records.len() {
            0
        } else if list.records.len() - self.top_offset < height {
            (list.records.len() - self.top_offset) as nat
        } else {
            height
        }
    }
}

/// Selecting yields the candidate where that row exists, the last row where
/// it lies beyond, and row 0 in an empty list.
pub proof fn lemma_select_clamps(list: ListState, candidate: nat)
    ensures
        list.select(candidate as int).records == list.records,
        list.select(candidate as int).visible == list.visible,
        list.records.len() == 0 ==> list.select(candidate as int).selected_index == 0,
        list.records.len() > 0 ==> list.select(candidate as int).selected_index == if candidate
            <= list.records.len() - 1 {
            candidate as int
        } else {
            list.records.len() - 1
        },
        list.records.len() <= MAX_RECORDS ==> list.select(candidate as int).wf(),
{
}

/// A step keeps the selection within the list.
pub proof fn lemma_navigate_in_range(list: ListState, scroll: ScrollType, page_size: nat)
    requires
        list.wf(),
    ensures
        list.navigate(scroll, page_size).wf(),
        list.navigate(scroll, page_size).records == list.records,
        list.records.len() > 0 ==> list.navigate(scroll, page_size).selected_index
            < list.records.len(),
        list.records.len() == 0 ==> list.navigate(scroll, page_size).selected_index == 0,
{
}

/// Any sequence of steps keeps the selection within the list.
pub proof fn lemma_navigate_all_in_range(
    list: ListState,
    scrolls: Seq<ScrollType>,
    page_size: nat,
)
    requires
        list.wf(),
    ensures
        list.navigate_all(scrolls, page_size).wf(),
        list.navigate_all(scrolls, page_size).records == list.records,
        list.records.len() > 0 ==> list.navigate_all(scrolls, page_size).selected_index
            < list.records.len(),
        list.records.len() == 0 ==> list.navigate_all(scrolls, page_size).selected_index == 0,
    decreases scrolls.len(),
{
    if scrolls.len() > 0 {
        lemma_navigate_all_in_range(list, scrolls.drop_last(), page_size);
        lemma_navigate_in_range(
            list.navigate_all(scrolls.drop_last(), page_size),
            scrolls.last(),
            page_size,
        );
    }
}

/// In a list that can be counted in sixteen bits no step saturates: each
/// lands where plain arithmetic puts it, held to the list.
pub proof fn lemma_navigate_plain(list: ListState, scroll: ScrollType, page_size: nat)
    requires
        list.wf(),
    ensures
        list.navigate(scroll, page_size).selected_index == clamp_index(
            match scroll {
                ScrollType::LineForward => (list.selected_index + 1) as int,
                ScrollType::LineBackward => list.selected_index - 1,
                ScrollType::PageForward => (list.selected_index + page_size) as int,
                ScrollType::PageBackward => list.selected_index - page_size,
                ScrollType::Home => 0,
                ScrollType::End => list.records.len() - 1,
            },
            list.records.len(),
        ),
{
}

/// A page of no rows moves nothing: before the first frame the page
/// commands leave the selection where it is.
pub proof fn lemma_empty_page_is_no_move(list: ListState)
    requires
        list.wf(),
    ensures
        list.navigate(ScrollType::PageForward, 0) == list,
        list.navigate(ScrollType::PageBackward, 0) == list,
{
}

/// A refresh keeps the selection where the new list is at least as long as
/// the old one, and puts it on the last record where the new list ends at or
/// before the selected row.
pub proof fn lemma_refresh_selection(list: ListState, records: Seq<SubmoduleInfo>)
    requires
        list.wf(),
    ensures
        list.refresh(records).records == records,
        list.refresh(records).visible == list.visible,
        records.len() >= list.records.len() ==> list.refresh(records).selected_index
            == list.selected_index,
        0 < records.len() <= list.selected_index ==> list.refresh(records).selected_index
            == records.len() - 1,
        records.len() > list.selected_index ==> list.refresh(records).selected_index
            == list.selected_index,
        records.len() == 0 ==> list.refresh(records).selected_index == 0,
        records.len() <= MAX_RECORDS ==> list.refresh(records).wf(),
{
}

/// After a frame with at least one row over a list with at least one record,
/// the selection is on screen.
pub proof fn lemma_render_shows_selection(viewport: ViewportState, list: ListState, height: nat)
    requires
        list.wf(),
        height > 0,
        list.records.len() > 0,
    ensures
        viewport.render(list, height).shows_selection(list),
        viewport.render(list, height).top_offset <= list.selected_index < viewport.render(
            list,
            height,
        ).top_offset + height,
{
}

/// Scrolling is minimal: after a frame, a step that stays inside that
/// frame's window leaves the window where it is in the next frame.
pub proof fn lemma_render_minimal(
    viewport: ViewportState,
    list: ListState,
    height: nat,
    scroll: ScrollType,
)
    requires
        list.wf(),
        viewport.render(list, height).shows_selection(list.navigate(scroll, height)),
    ensures
        viewport.render(list, height).render(list.navigate(scroll, height), height)
            == viewport.render(list, height),
{
}

} // verus!
