//! The popup that lists the submodules of a repository.
//!
//! The component keeps the records, the selection and the scroll position,
//! answers key presses, and says what each frame shows. It neither fetches
//! records nor draws: the host hands in what it fetched and paints what it
//! gets back.

use super::command::{Command, CommandBlocking, CommandInfo, Event, EventState, ScrollType};
use super::list_text::{info_lines, list_line, name_budget, shows_details, InfoLine, ListLine};
use super::scroll_vertical::{scroll_max_top, thumb_at, Thumb, VerticalScroll};
use super::state::{ListState, PopupState, SubmoduleInfo, ViewportState, MAX_RECORDS};
use crate::keys::key_list::{key_match, GituiKeyEvent, KeyEvent, KeysList};
use vstd::prelude::*;

verus! {

/// Why a call on the popup failed.
#[derive(Debug, Clone, PartialEq, Eq)]
pub enum Error {
    /// The records could not be fetched; the text is the source's message.
    DataSource(String),
    /// A count of records or of rows does not fit into sixteen bits.
    Conversion,
}

/// What a key press asks of the popup.
#[derive(Debug, Clone, Copy, PartialEq, Eq, Structural)]
pub enum PopupCommand {
    /// Close the popup.
    Close,
    /// Move the selection.
    Navigate(ScrollType),
}

/// The key press `ev` is the chord `binding`.
pub open spec fn is_chord(ev: KeyEvent, binding: GituiKeyEvent) -> bool {
    ev.code == binding.code && ev.modifiers == binding.modifiers
}

/// What the key press `ev` asks of the popup under the bindings `keys`;
/// nothing where the key is bound to none of the popup's commands. Where a
/// chord is bound to several commands, the first in this order wins: close,
/// line forward, line backward, page forward, page backward, home, end.
pub open spec fn popup_command(keys: KeysList, ev: KeyEvent) -> Option<PopupCommand> {
    if is_chord(ev, keys.exit_popup) {
        Some(PopupCommand::Close)
    } else if is_chord(ev, keys.move_down) {
        Some(PopupCommand::Navigate(ScrollType::LineForward))
    } else if is_chord(ev, keys.move_up) {
        Some(PopupCommand::Navigate(ScrollType::LineBackward))
    } else if is_chord(ev, keys.page_down) {
        Some(PopupCommand::Navigate(ScrollType::PageForward))
    } else if is_chord(ev, keys.page_up) {
        Some(PopupCommand::Navigate(ScrollType::PageBackward))
    } else if is_chord(ev, keys.home) {
        Some(PopupCommand::Navigate(ScrollType::Home))
    } else if is_chord(ev, keys.end) {
        Some(PopupCommand::Navigate(ScrollType::End))
    } else {
        None
    }
}

/// What the key press `ev` asks of the popup under the bindings `keys`.
pub fn lookup_key(keys: &KeysList, ev: &KeyEvent) -> (r: Option<PopupCommand>)
    ensures
        r == popup_command(*keys, *ev),
{
    if key_match(ev, keys.exit_popup) {
        Some(PopupCommand::Close)
    } else if key_match(ev, keys.move_down) {
        Some(PopupCommand::Navigate(ScrollType::LineForward))
    } else if key_match(ev, keys.move_up) {
        Some(PopupCommand::Navigate(ScrollType::LineBackward))
    } else if key_match(ev, keys.page_down) {
        Some(PopupCommand::Navigate(ScrollType::PageForward))
    } else if key_match(ev, keys.page_up) {
        Some(PopupCommand::Navigate(ScrollType::PageBackward))
    } else if key_match(ev, keys.home) {
        Some(PopupCommand::Navigate(ScrollType::Home))
    } else if key_match(ev, keys.end) {
        Some(PopupCommand::Navigate(ScrollType::End))
    } else {
        None
    }
}

/// The list after the host has tried to fetch records, and what the popup
/// reports: the list over the fetched records; or the list as it was, with
/// the source's failure, or with `Conversion` where there are more records
/// than sixteen bits count.
pub open spec fn refreshed(list: ListState, fetched: Result<Vec<SubmoduleInfo>, String>) -> (
    ListState,
    Result<(), Error>,
) {
    match fetched {
        Ok(records) => {
            if records@.len() <= MAX_RECORDS {
                (list.refresh(records@), Ok(()))
            } else {
                (list, Err(Error::Conversion))
            }
        },
        Err(message) => (list, Err(Error::DataSource(message))),
    }
}

/// The popup after the event `ev` under the bindings `keys`, and what
/// became of the event.
///
/// A hidden popup takes nothing. A visible one closes on the close key and
/// moves the selection on a navigation key; any other key it leaves to the
/// host, so that the key that toggles the command bar still works. Events
/// that are no key presses end at a visible popup.
pub open spec fn after_event(state: PopupState, keys: KeysList, ev: Event) -> (
    PopupState,
    EventState,
) {
    if !state.list.visible {
        (state, EventState::NotConsumed)
    } else {
        match ev {
            Event::Key(key) => match popup_command(keys, key) {
                Some(PopupCommand::Close) => (
                    PopupState { list: state.list.with_visible(false), ..state },
                    EventState::Consumed,
                ),
                Some(PopupCommand::Navigate(scroll)) => (
                    PopupState {
                        list: state.list.navigate(scroll, state.viewport.height),
                        ..state
                    },
                    EventState::Consumed,
                ),
                None => (state, EventState::NotConsumed),
            },
            Event::Other => (state, EventState::Consumed),
        }
    }
}

/// The lines `lines` are the list pane of `state` in a frame of
/// `width_available` columns and `height` rows: one line for each record
/// from the first visible row on, as far as the rows and the records go, and
/// the selected record's line marked.
pub open spec fn shows_list(
    lines: Seq<ListLine>,
    state: PopupState,
    width_available: nat,
    height: nat,
) -> bool {
    &&& lines.len() == state.viewport.visible_rows(state.list, height)
    &&& forall|i: int|
        0 <= i < lines.len() ==> (#[trigger] lines[i]).shows(
            state.list.records[state.viewport.top_offset + i],
            name_budget(width_available),
            state.list.selected_index == state.viewport.top_offset + i,
        )
}

/// The lines `lines` are the detail pane of `list`: the details of the
/// selected record, or nothing where no record is selected.
pub open spec fn shows_info(lines: Seq<InfoLine>, list: ListState) -> bool {
    match list.selected() {
        Some(record) => shows_details(lines, record),
        None => lines.len() == 0,
    }
}

/// What a frame of the popup shows.
#[derive(Debug, Clone, PartialEq, Eq)]
pub struct PopupFrame {
    /// The list pane, top row first.
    pub list: Vec<ListLine>,
    /// The detail pane.
    pub info: Vec<InfoLine>,
    /// Where the scroll thumb stands.
    pub thumb: Thumb,
}

impl PopupFrame {
    /// This is the frame of `state` in a list pane of `width_available`
    /// columns.
    pub open spec fn shows(self, state: PopupState, width_available: nat) -> bool {
        &&& shows_list(self.list@, state, width_available, state.viewport.height)
        &&& shows_info(self.info@, state.list)
        &&& self.thumb == thumb_at(
            state.viewport.top_offset as int,
            scroll_max_top(state.viewport.height as int, state.list.records.len() as int),
        )
    }
}

/// The commands that the popup offers.
pub open spec fn popup_commands() -> Seq<CommandInfo> {
    seq![
        CommandInfo { command: Command::Scroll, enabled: true, quick_bar: true },
        CommandInfo { command: Command::ClosePopup, enabled: true, quick_bar: true },
    ]
}

/// The popup that lists submodules.
pub struct SubmodulesListComponent {
    submodules: Vec<SubmoduleInfo>,
    visible: bool,
    current_height: u16,
    selection: u16,
    scroll: VerticalScroll,
    key_config: KeysList,
}

impl View for SubmodulesListComponent {
    type V = PopupState;

    closed spec fn view(&self) -> PopupState {
        PopupState {
            list: ListState {
                records: self.submodules@,
                selected_index: self.selection as nat,
                visible: self.visible,
            },
            viewport: ViewportState {
                top_offset: self.scroll.top() as nat,
                height: self.current_height as nat,
            },
        }
    }
}

impl SubmodulesListComponent {
    #[verifier::type_invariant]
    spec fn inv(self) -> bool {
        &&& self.submodules@.len() <= MAX_RECORDS
        &&& self.selection < self.submodules@.len() || self.selection == 0
    }

    /// The bindings that the popup answers to.
    pub closed spec fn keys(&self) -> KeysList {
        self.key_config
    }

    /// A hidden popup without records, which answers to `key_config`.
    pub fn new(key_config: KeysList) -> (r: Self)
        ensures
            r@ == (PopupState { list: ListState::empty(), viewport: ViewportState::initial() }),
            r@.list.wf(),
            r.keys() == key_config,
    {
        Self {
            submodules: Vec::new(),
            scroll: VerticalScroll::new(),
            selection: 0,
            visible: false,
            key_config,
            current_height: 0,
        }
    }

    /// Whether the popup is on screen.
    pub fn is_visible(&self) -> (r: bool)
        ensures
            r == self@.list.visible,
    {
        self.visible
    }

    /// Takes the popup off the screen. The records stay.
    pub fn close(&mut self)
        ensures
            final(self)@ == (PopupState { list: old(self)@.list.with_visible(false), ..old(self)@ }),
            final(self).keys() == old(self).keys(),
    {
        proof {
            use_type_invariant(&*self);
        }
        self.visible = false;
    }

    /// Puts the popup on the screen, over the records it has.
    pub fn show(&mut self)
        ensures
            final(self)@ == (PopupState { list: old(self)@.list.with_visible(true), ..old(self)@ }),
            final(self).keys() == old(self).keys(),
    {
        proof {
            use_type_invariant(&*self);
        }
        self.visible = true;
    }

    /// Number of records.
    pub fn len(&self) -> (r: usize)
        ensures
            r == self@.list.records.len(),
            r <= MAX_RECORDS,
    {
        proof {
            use_type_invariant(self);
        }
        self.submodules.len()
    }

    /// The selected row; 0 in an empty list.
    pub fn selection(&self) -> (r: u16)
        ensures
            r == self@.list.selected_index,
            self@.list.wf(),
    {
        proof {
            use_type_invariant(self);
        }
        self.selection
    }

    /// The first visible row.
    pub fn top(&self) -> (r: usize)
        ensures
            r == self@.viewport.top_offset,
    {
        self.scroll.get_top()
    }

    /// Rows of the last frame, which is the size of a page; none before the
    /// first frame.
    pub fn page_size(&self) -> (r: u16)
        ensures
            r == self@.viewport.height,
    {
        self.current_height
    }

    /// The selected record; none in an empty list.
    pub fn selected_entry(&self) -> (r: Option<&SubmoduleInfo>)
        ensures
            match r {
                Some(record) => self@.list.selected() == Some(*record),
                None => self@.list.selected() is None,
            },
            r is None <==> self@.list.records.len() == 0,
    {
        proof {
            use_type_invariant(self);
        }
        let index = self.selection as usize;
        if index < self.submodules.len() {
            Some(&self.submodules[index])
        } else {
            None
        }
    }

    /// Selects row `selection`, or the last row where the list ends before
    /// it, or row 0 where the list is empty.
    pub fn set_selection(&mut self, selection: u16)
        ensures
            final(self)@ == (PopupState {
                list: old(self)@.list.select(selection as int),
                ..old(self)@
            }),
            final(self)@.list.wf(),
            final(self).keys() == old(self).keys(),
    {
        proof {
            use_type_invariant(&*self);
        }
        let len = self.submodules.len();
        let last: u16 = if len == 0 {
            0
        } else {
            (len - 1) as u16
        };
        self.selection = if selection > last {
            last
        } else {
            selection
        };
    }

    /// Moves the selection by the step `scroll`, with pages as high as the
    /// last frame, and reports that the step was handled. Before the first
    /// frame a page has no rows and the page steps move nothing.
    pub fn move_selection(&mut self, scroll: ScrollType) -> (r: bool)
        ensures
            r,
            final(self)@ == (PopupState {
                list: old(self)@.list.navigate(scroll, old(self)@.viewport.height),
                ..old(self)@
            }),
            final(self)@.list.wf(),
            final(self).keys() == old(self).keys(),
    {
        proof {
            use_type_invariant(&*self);
        }
        let new_selection: u16 = match scroll {
            ScrollType::LineForward => self.selection.saturating_add(1),
            ScrollType::LineBackward => self.selection.saturating_sub(1),
            ScrollType::PageForward => self.selection.saturating_add(self.current_height),
            ScrollType::PageBackward => self.selection.saturating_sub(self.current_height),
            ScrollType::Home => 0,
            ScrollType::End => {
                let count = self.submodules.len() as u16;
                count.saturating_sub(1)
            },
        };
        self.set_selection(new_selection);
        true
    }

    /// Replaces the records by `records` and keeps the selection on its row,
    /// or on the last row where the new list ends before it. A list of more
    /// than `MAX_RECORDS` records is refused, and nothing changes.
    pub fn refresh(&mut self, records: Vec<SubmoduleInfo>) -> (r: Result<(), Error>)
        ensures
            records@.len() <= MAX_RECORDS ==> {
                &&& r == Ok::<(), Error>(())
                &&& final(self)@ == (PopupState {
                    list: old(self)@.list.refresh(records@),
                    ..old(self)@
                })
            },
            records@.len() > MAX_RECORDS ==> {
                &&& r == Err::<(), Error>(Error::Conversion)
                &&& final(self)@ == old(self)@
            },
            final(self)@.list.wf(),
            final(self).keys() == old(self).keys(),
    {
        proof {
            use_type_invariant(&*self);
        }
        let len = records.len();
        if len > MAX_RECORDS {
            return Err(Error::Conversion);
        }
        let last: u16 = if len == 0 {
            0
        } else {
            (len - 1) as u16
        };
        if self.selection > last {
            self.selection = last;
        }
        self.submodules = records;
        Ok(())
    }

    /// Takes what the host fetched while the popup is on screen: the records
    /// replace the list as in [`Self::refresh`], a failure is handed back
    /// and leaves the list as it was. A hidden popup takes nothing and
    /// reports success.
    pub fn update_submodules(
        &mut self,
        fetched: Result<Vec<SubmoduleInfo>, String>,
    ) -> (r: Result<(), Error>)
        ensures
            old(self)@.list.visible ==> {
                (final(self)@.list, r) == refreshed(old(self)@.list, fetched)
            },
            !old(self)@.list.visible ==> {
                &&& r == Ok::<(), Error>(())
                &&& final(self)@.list == old(self)@.list
            },
            final(self)@.viewport == old(self)@.viewport,
            final(self)@.list.wf(),
            final(self).keys() == old(self).keys(),
    {
        proof {
            use_type_invariant(&*self);
        }
        if self.is_visible() {
            match fetched {
                Ok(records) => self.refresh(records),
                Err(message) => Err(Error::DataSource(message)),
            }
        } else {
            Ok(())
        }
    }

    /// Opens the popup and takes what the host fetched for it, as
    /// [`Self::update_submodules`] does. Where that fails the popup is open
    /// all the same, over the records it had.
    pub fn open(&mut self, fetched: Result<Vec<SubmoduleInfo>, String>) -> (r: Result<(), Error>)
        ensures
            (final(self)@.list, r) == refreshed(old(self)@.list.with_visible(true), fetched),
            final(self)@.viewport == old(self)@.viewport,
            final(self)@.list.visible,
            final(self)@.list.wf(),
            final(self).keys() == old(self).keys(),
    {
        self.show();
        self.update_submodules(fetched)
    }

    /// The list pane for a frame of `width_available` columns and `height`
    /// rows, from the first visible row as it stands.
    pub fn get_text(&self, width_available: u16, height: usize) -> (r: Vec<ListLine>)
        ensures
            shows_list(r@, self@, width_available as nat, height as nat),
    {
        proof {
            use_type_invariant(self);
        }
        let len = self.submodules.len();
        let top = self.scroll.get_top();
        let mut lines: Vec<ListLine> = Vec::new();
        let mut i: usize = 0;
        while i < height && top < len && i < len - top
            invariant
                len == self.submodules@.len(),
                top == self@.viewport.top_offset,
                i <= height,
                top < len ==> i <= len - top,
                top >= len ==> i == 0,
                lines@.len() == i,
                forall|k: int|
                    0 <= k < i ==> (#[trigger] lines@[k]).shows(
                        self@.list.records[top + k],
                        name_budget(width_available as nat),
                        self@.list.selected_index == top + k,
                    ),
            decreases height - i,
        {
            let row = top + i;
            let selected = self.selection as usize == row;
            let line = list_line(&self.submodules[row], width_available, selected);
            lines.push(line);
            i = i + 1;
        }
        lines
    }

    /// The detail pane: the details of the selected record, nothing in an
    /// empty list.
    pub fn get_info_text(&self) -> (r: Vec<InfoLine>)
        ensures
            shows_info(r@, self@.list),
    {
        match self.selected_entry() {
            Some(record) => info_lines(record),
            None => Vec::new(),
        }
    }

    /// Lays the list out for a frame of `width` columns and `height` rows:
    /// notes the height as the size of a page, scrolls just as far as shows
    /// the selection, and returns the list pane. A height beyond sixteen
    /// bits is refused, and nothing changes.
    pub fn draw_list(&mut self, width: u16, height: usize) -> (r: Result<Vec<ListLine>, Error>)
        ensures
            height <= 0xffff ==> {
                &&& r is Ok
                &&& final(self)@ == (PopupState {
                    viewport: old(self)@.viewport.render(old(self)@.list, height as nat),
                    ..old(self)@
                })
                &&& shows_list(r->Ok_0@, final(self)@, width as nat, height as nat)
            },
            height > 0xffff ==> {
                &&& r == Err::<Vec<ListLine>, Error>(Error::Conversion)
                &&& final(self)@ == old(self)@
            },
            0 < height <= 0xffff && old(self)@.list.records.len() > 0 ==> {
                final(self)@.viewport.shows_selection(final(self)@.list)
            },
            final(self)@.list.wf(),
            final(self).keys() == old(self).keys(),
    {
        proof {
            use_type_invariant(&*self);
        }
        if height > 0xffff {
            return Err(Error::Conversion);
        }
        self.current_height = height as u16;
        let mut scroll = self.scroll;
        scroll.update(self.selection as usize, self.submodules.len(), height);
        self.scroll = scroll;
        Ok(self.get_text(width, height))
    }

    /// What the next frame shows, for a list pane of `width` columns and
    /// `height` rows: nothing while the popup is hidden, else the list pane
    /// laid out as by [`Self::draw_list`], the detail pane and the scroll
    /// thumb.
    pub fn draw(&mut self, width: u16, height: usize) -> (r: Result<Option<PopupFrame>, Error>)
        ensures
            !old(self)@.list.visible ==> {
                &&& r == Ok::<Option<PopupFrame>, Error>(None)
                &&& final(self)@ == old(self)@
            },
            old(self)@.list.visible && height > 0xffff ==> {
                &&& r == Err::<Option<PopupFrame>, Error>(Error::Conversion)
                &&& final(self)@ == old(self)@
            },
            old(self)@.list.visible && height <= 0xffff ==> {
                &&& r is Ok
                &&& r->Ok_0 is Some
                &&& final(self)@ == (PopupState {
                    viewport: old(self)@.viewport.render(old(self)@.list, height as nat),
                    ..old(self)@
                })
                &&& r->Ok_0->Some_0.shows(final(self)@, width as nat)
            },
            final(self)@.list.wf(),
            final(self).keys() == old(self).keys(),
    {
        proof {
            use_type_invariant(&*self);
        }
        if !self.is_visible() {
            return Ok(None);
        }
        match self.draw_list(width, height) {
            Ok(list) => {
                let info = self.get_info_text();
                let thumb = self.scroll.thumb(self.submodules.len(), height);
                Ok(Some(PopupFrame { list, info, thumb }))
            },
            Err(error) => Err(error),
        }
    }

    /// Offers the event `ev` to the popup; see [`after_event`].
    pub fn event(&mut self, ev: &Event) -> (r: EventState)
        ensures
            (final(self)@, r) == after_event(old(self)@, old(self).keys(), *ev),
            final(self)@.list.wf(),
            final(self).keys() == old(self).keys(),
    {
        proof {
            use_type_invariant(&*self);
        }
        if !self.visible {
            return EventState::NotConsumed;
        }
        match ev {
            Event::Key(key) => match lookup_key(&self.key_config, key) {
                Some(PopupCommand::Close) => {
                    self.close();
                    EventState::Consumed
                },
                Some(PopupCommand::Navigate(scroll)) => {
                    let handled = self.move_selection(scroll);
                    EventState::from(handled)
                },
                None => EventState::NotConsumed,
            },
            Event::Other => EventState::Consumed,
        }
    }

    /// Adds the popup's commands to `out` and says whether the components
    /// below may add theirs. A visible popup first clears `out`, unless
    /// `force_all` asks for every command, and blocks; a hidden one adds its
    /// commands only under `force_all` and passes on.
    pub fn commands(&self, out: &mut Vec<CommandInfo>, force_all: bool) -> (r: CommandBlocking)
        ensures
            r == if self@.list.visible {
                CommandBlocking::Blocking
            } else {
                CommandBlocking::PassingOn
            },
            force_all ==> final(out)@ == old(out)@ + popup_commands(),
            !force_all && self@.list.visible ==> final(out)@ == popup_commands(),
            !force_all && !self@.list.visible ==> final(out)@ == old(out)@,
    {
        if self.visible || force_all {
            if !force_all {
                out.clear();
            }
            out.push(CommandInfo::new(Command::Scroll, true, true));
            out.push(CommandInfo::new(Command::ClosePopup, true, true));
        }
        if self.visible {
            CommandBlocking::Blocking
        } else {
            CommandBlocking::PassingOn
        }
    }
}

} // verus!
