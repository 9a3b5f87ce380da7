//! Key bindings: which chord triggers which command.

use super::key_code::{
    ascii_uppercase, to_ascii_uppercase, KeyCode, KeyModifiers, CONTROL, NONE, SHIFT,
};
use vstd::prelude::*;
use vstd::std_specs::cmp::PartialEqSpecImpl;

verus! {

/// A key press as the terminal reports it.
#[derive(Debug, Clone, Copy, PartialEq, Eq, Structural)]
pub struct KeyEvent {
    pub code: KeyCode,
    pub modifiers: KeyModifiers,
}

impl KeyEvent {
    pub fn new(code: KeyCode, modifiers: KeyModifiers) -> (r: Self)
        ensures
            r == (KeyEvent { code, modifiers }),
    {
        KeyEvent { code, modifiers }
    }
}

/// A chord that a command is bound to.
#[derive(Debug, PartialOrd, Clone, Copy)]
pub struct GituiKeyEvent {
    pub code: KeyCode,
    pub modifiers: KeyModifiers,
}

/// The chord of `code` with the modifier bits `bits`.
pub open spec fn chord(code: KeyCode, bits: u8) -> GituiKeyEvent {
    GituiKeyEvent { code, modifiers: KeyModifiers { bits } }
}

/// A chord in the form in which two chords are compared: shift is set for an
/// upper-case ASCII letter, and a letter typed with shift is upper case.
pub open spec fn normalize_case(event: GituiKeyEvent) -> GituiKeyEvent {
    match event.code {
        KeyCode::Char(c) => {
            if 'A' <= c <= 'Z' {
                GituiKeyEvent {
                    code: event.code,
                    modifiers: event.modifiers.union(KeyModifiers { bits: SHIFT }),
                }
            } else if event.modifiers.contains(KeyModifiers { bits: SHIFT }) {
                GituiKeyEvent {
                    code: KeyCode::Char(ascii_uppercase(c)),
                    modifiers: event.modifiers,
                }
            } else {
                event
            }
        },
        _ => event,
    }
}

impl GituiKeyEvent {
    pub fn new(code: KeyCode, modifiers: KeyModifiers) -> (r: Self)
        ensures
            r == (GituiKeyEvent { code, modifiers }),
    {
        Self { code, modifiers }
    }

    /// This chord with its case made regular; see [`normalize_case`].
    pub fn normalized(&self) -> (r: Self)
        ensures
            r == normalize_case(*self),
    {
        match self.code {
            KeyCode::Char(c) => {
                if 'A' <= c && c <= 'Z' {
                    Self {
                        code: self.code,
                        modifiers: self.modifiers.union(KeyModifiers { bits: SHIFT }),
                    }
                } else if self.modifiers.contains(KeyModifiers { bits: SHIFT }) {
                    Self { code: KeyCode::Char(to_ascii_uppercase(c)), modifiers: self.modifiers }
                } else {
                    *self
                }
            },
            _ => *self,
        }
    }
}

/// Two chords are equal when they agree once their case is made regular:
/// `A` is the same chord as shift with `a`.
impl PartialEq for GituiKeyEvent {
    fn eq(&self, other: &Self) -> (r: bool) {
        let ev = self.normalized();
        let other = other.normalized();
        ev.code == other.code && ev.modifiers == other.modifiers
    }
}

impl PartialEqSpecImpl for GituiKeyEvent {
    open spec fn obeys_eq_spec() -> bool {
        true
    }

    open spec fn eq_spec(&self, other: &Self) -> bool {
        normalize_case(*self) == normalize_case(*other)
    }
}

/// Whether the key press `ev` is the chord `binding`: the same key with the
/// same modifiers.
pub fn key_match(ev: &KeyEvent, binding: GituiKeyEvent) -> (r: bool)
    ensures
        r == (ev.code == binding.code && ev.modifiers == binding.modifiers),
{
    ev.code == binding.code && ev.modifiers == binding.modifiers
}

/// The chord of every command.
#[derive(Debug, Clone)]
pub struct KeysList {
    pub tab_status: GituiKeyEvent,
    pub tab_log: GituiKeyEvent,
    pub tab_files: GituiKeyEvent,
    pub tab_stashing: GituiKeyEvent,
    pub tab_stashes: GituiKeyEvent,
    pub tab_toggle: GituiKeyEvent,
    pub tab_toggle_reverse: GituiKeyEvent,
    pub toggle_workarea: GituiKeyEvent,
    pub focus_right: GituiKeyEvent,
    pub focus_left: GituiKeyEvent,
    pub focus_above: GituiKeyEvent,
    pub focus_below: GituiKeyEvent,
    pub exit: GituiKeyEvent,
    pub quit: GituiKeyEvent,
    pub exit_popup: GituiKeyEvent,
    pub open_commit: GituiKeyEvent,
    pub open_commit_editor: GituiKeyEvent,
    pub open_help: GituiKeyEvent,
    pub open_options: GituiKeyEvent,
    pub move_left: GituiKeyEvent,
    pub move_right: GituiKeyEvent,
    pub tree_collapse_recursive: GituiKeyEvent,
    pub tree_expand_recursive: GituiKeyEvent,
    pub home: GituiKeyEvent,
    pub end: GituiKeyEvent,
    pub move_up: GituiKeyEvent,
    pub move_down: GituiKeyEvent,
    pub popup_up: GituiKeyEvent,
    pub popup_down: GituiKeyEvent,
    pub page_down: GituiKeyEvent,
    pub page_up: GituiKeyEvent,
    pub shift_up: GituiKeyEvent,
    pub shift_down: GituiKeyEvent,
    pub enter: GituiKeyEvent,
    pub blame: GituiKeyEvent,
    pub file_history: GituiKeyEvent,
    pub edit_file: GituiKeyEvent,
    pub status_stage_all: GituiKeyEvent,
    pub status_reset_item: GituiKeyEvent,
    pub status_ignore_file: GituiKeyEvent,
    pub diff_stage_lines: GituiKeyEvent,
    pub diff_reset_lines: GituiKeyEvent,
    pub stashing_save: GituiKeyEvent,
    pub stashing_toggle_untracked: GituiKeyEvent,
    pub stashing_toggle_index: GituiKeyEvent,
    pub stash_apply: GituiKeyEvent,
    pub stash_open: GituiKeyEvent,
    pub stash_drop: GituiKeyEvent,
    pub cmd_bar_toggle: GituiKeyEvent,
    pub log_tag_commit: GituiKeyEvent,
    pub log_mark_commit: GituiKeyEvent,
    pub commit_amend: GituiKeyEvent,
    pub copy: GituiKeyEvent,
    pub create_branch: GituiKeyEvent,
    pub rename_branch: GituiKeyEvent,
    pub select_branch: GituiKeyEvent,
    pub delete_branch: GituiKeyEvent,
    pub merge_branch: GituiKeyEvent,
    pub rebase_branch: GituiKeyEvent,
    pub compare_commits: GituiKeyEvent,
    pub tags: GituiKeyEvent,
    pub delete_tag: GituiKeyEvent,
    pub select_tag: GituiKeyEvent,
    pub push: GituiKeyEvent,
    pub open_file_tree: GituiKeyEvent,
    pub file_find: GituiKeyEvent,
    pub force_push: GituiKeyEvent,
    pub pull: GituiKeyEvent,
    pub abort_merge: GituiKeyEvent,
    pub undo_commit: GituiKeyEvent,
    pub stage_unstage_item: GituiKeyEvent,
    pub tag_annotate: GituiKeyEvent,
    pub view_submodules: GituiKeyEvent,
}

impl KeysList {
    /// The bindings that hold unless the user configures others.
    pub open spec fn spec_default() -> KeysList {
        KeysList {
            tab_status: chord(KeyCode::Char('1'), NONE),
            tab_log: chord(KeyCode::Char('2'), NONE),
            tab_files: chord(KeyCode::Char('3'), NONE),
            tab_stashing: chord(KeyCode::Char('4'), NONE),
            tab_stashes: chord(KeyCode::Char('5'), NONE),
            tab_toggle: chord(KeyCode::Tab, NONE),
            tab_toggle_reverse: chord(KeyCode::BackTab, SHIFT),
            toggle_workarea: chord(KeyCode::Char('w'), NONE),
            focus_right: chord(KeyCode::Right, NONE),
            focus_left: chord(KeyCode::Left, NONE),
            focus_above: chord(KeyCode::Up, NONE),
            focus_below: chord(KeyCode::Down, NONE),
            exit: chord(KeyCode::Char('c'), CONTROL),
            quit: chord(KeyCode::Char('q'), NONE),
            exit_popup: chord(KeyCode::Esc, NONE),
            open_commit: chord(KeyCode::Char('c'), NONE),
            open_commit_editor: chord(KeyCode::Char('e'), CONTROL),
            open_help: chord(KeyCode::Char('h'), NONE),
            open_options: chord(KeyCode::Char('o'), NONE),
            move_left: chord(KeyCode::Left, NONE),
            move_right: chord(KeyCode::Right, NONE),
            tree_collapse_recursive: chord(KeyCode::Left, SHIFT),
            tree_expand_recursive: chord(KeyCode::Right, SHIFT),
            home: chord(KeyCode::Home, NONE),
            end: chord(KeyCode::End, NONE),
            move_up: chord(KeyCode::Up, NONE),
            move_down: chord(KeyCode::Down, NONE),
            popup_up: chord(KeyCode::Up, NONE),
            popup_down: chord(KeyCode::Down, NONE),
            page_down: chord(KeyCode::PageDown, NONE),
            page_up: chord(KeyCode::PageUp, NONE),
            shift_up: chord(KeyCode::Up, SHIFT),
            shift_down: chord(KeyCode::Down, SHIFT),
            enter: chord(KeyCode::Enter, NONE),
            blame: chord(KeyCode::Char('B'), SHIFT),
            file_history: chord(KeyCode::Char('H'), SHIFT),
            edit_file: chord(KeyCode::Char('e'), NONE),
            status_stage_all: chord(KeyCode::Char('a'), NONE),
            status_reset_item: chord(KeyCode::Char('D'), SHIFT),
            diff_reset_lines: chord(KeyCode::Char('d'), NONE),
            status_ignore_file: chord(KeyCode::Char('i'), NONE),
            diff_stage_lines: chord(KeyCode::Char('s'), NONE),
            stashing_save: chord(KeyCode::Char('s'), NONE),
            stashing_toggle_untracked: chord(KeyCode::Char('u'), NONE),
            stashing_toggle_index: chord(KeyCode::Char('i'), NONE),
            stash_apply: chord(KeyCode::Char('a'), NONE),
            stash_open: chord(KeyCode::Right, NONE),
            stash_drop: chord(KeyCode::Char('D'), SHIFT),
            cmd_bar_toggle: chord(KeyCode::Char('.'), NONE),
            log_tag_commit: chord(KeyCode::Char('t'), NONE),
            log_mark_commit: chord(KeyCode::Char(' '), NONE),
            commit_amend: chord(KeyCode::Char('a'), CONTROL),
            copy: chord(KeyCode::Char('y'), NONE),
            create_branch: chord(KeyCode::Char('c'), NONE),
            rename_branch: chord(KeyCode::Char('r'), NONE),
            select_branch: chord(KeyCode::Char('b'), NONE),
            delete_branch: chord(KeyCode::Char('D'), SHIFT),
            merge_branch: chord(KeyCode::Char('m'), NONE),
            rebase_branch: chord(KeyCode::Char('R'), SHIFT),
            compare_commits: chord(KeyCode::Char('C'), SHIFT),
            tags: chord(KeyCode::Char('T'), SHIFT),
            delete_tag: chord(KeyCode::Char('D'), SHIFT),
            select_tag: chord(KeyCode::Enter, NONE),
            push: chord(KeyCode::Char('p'), NONE),
            force_push: chord(KeyCode::Char('P'), SHIFT),
            undo_commit: chord(KeyCode::Char('U'), SHIFT),
            pull: chord(KeyCode::Char('f'), NONE),
            abort_merge: chord(KeyCode::Char('A'), SHIFT),
            open_file_tree: chord(KeyCode::Char('F'), SHIFT),
            file_find: chord(KeyCode::Char('f'), NONE),
            stage_unstage_item: chord(KeyCode::Enter, NONE),
            tag_annotate: chord(KeyCode::Char('a'), CONTROL),
            view_submodules: chord(KeyCode::Char('S'), SHIFT),
        }
    }
}

impl Default for KeysList {
    fn default() -> (r: Self)
        ensures
            r == KeysList::spec_default(),
    {
        Self {
            tab_status: GituiKeyEvent::new(KeyCode::Char('1'), KeyModifiers { bits: NONE }),
            tab_log: GituiKeyEvent::new(KeyCode::Char('2'), KeyModifiers { bits: NONE }),
            tab_files: GituiKeyEvent::new(KeyCode::Char('3'), KeyModifiers { bits: NONE }),
            tab_stashing: GituiKeyEvent::new(KeyCode::Char('4'), KeyModifiers { bits: NONE }),
            tab_stashes: GituiKeyEvent::new(KeyCode::Char('5'), KeyModifiers { bits: NONE }),
            tab_toggle: GituiKeyEvent::new(KeyCode::Tab, KeyModifiers { bits: NONE }),
            tab_toggle_reverse: GituiKeyEvent::new(KeyCode::BackTab, KeyModifiers { bits: SHIFT }),
            toggle_workarea: GituiKeyEvent::new(KeyCode::Char('w'), KeyModifiers { bits: NONE }),
            focus_right: GituiKeyEvent::new(KeyCode::Right, KeyModifiers { bits: NONE }),
            focus_left: GituiKeyEvent::new(KeyCode::Left, KeyModifiers { bits: NONE }),
            focus_above: GituiKeyEvent::new(KeyCode::Up, KeyModifiers { bits: NONE }),
            focus_below: GituiKeyEvent::new(KeyCode::Down, KeyModifiers { bits: NONE }),
            exit: GituiKeyEvent::new(KeyCode::Char('c'), KeyModifiers { bits: CONTROL }),
            quit: GituiKeyEvent::new(KeyCode::Char('q'), KeyModifiers { bits: NONE }),
            exit_popup: GituiKeyEvent::new(KeyCode::Esc, KeyModifiers { bits: NONE }),
            open_commit: GituiKeyEvent::new(KeyCode::Char('c'), KeyModifiers { bits: NONE }),
            open_commit_editor: GituiKeyEvent::new(KeyCode::Char('e'), KeyModifiers { bits: CONTROL }),
            open_help: GituiKeyEvent::new(KeyCode::Char('h'), KeyModifiers { bits: NONE }),
            open_options: GituiKeyEvent::new(KeyCode::Char('o'), KeyModifiers { bits: NONE }),
            move_left: GituiKeyEvent::new(KeyCode::Left, KeyModifiers { bits: NONE }),
            move_right: GituiKeyEvent::new(KeyCode::Right, KeyModifiers { bits: NONE }),
            tree_collapse_recursive: GituiKeyEvent::new(KeyCode::Left, KeyModifiers { bits: SHIFT }),
            tree_expand_recursive: GituiKeyEvent::new(KeyCode::Right, KeyModifiers { bits: SHIFT }),
            home: GituiKeyEvent::new(KeyCode::Home, KeyModifiers { bits: NONE }),
            end: GituiKeyEvent::new(KeyCode::End, KeyModifiers { bits: NONE }),
            move_up: GituiKeyEvent::new(KeyCode::Up, KeyModifiers { bits: NONE }),
            move_down: GituiKeyEvent::new(KeyCode::Down, KeyModifiers { bits: NONE }),
            popup_up: GituiKeyEvent::new(KeyCode::Up, KeyModifiers { bits: NONE }),
            popup_down: GituiKeyEvent::new(KeyCode::Down, KeyModifiers { bits: NONE }),
            page_down: GituiKeyEvent::new(KeyCode::PageDown, KeyModifiers { bits: NONE }),
            page_up: GituiKeyEvent::new(KeyCode::PageUp, KeyModifiers { bits: NONE }),
            shift_up: GituiKeyEvent::new(KeyCode::Up, KeyModifiers { bits: SHIFT }),
            shift_down: GituiKeyEvent::new(KeyCode::Down, KeyModifiers { bits: SHIFT }),
            enter: GituiKeyEvent::new(KeyCode::Enter, KeyModifiers { bits: NONE }),
            blame: GituiKeyEvent::new(KeyCode::Char('B'), KeyModifiers { bits: SHIFT }),
            file_history: GituiKeyEvent::new(KeyCode::Char('H'), KeyModifiers { bits: SHIFT }),
            edit_file: GituiKeyEvent::new(KeyCode::Char('e'), KeyModifiers { bits: NONE }),
            status_stage_all: GituiKeyEvent::new(KeyCode::Char('a'), KeyModifiers { bits: NONE }),
            status_reset_item: GituiKeyEvent::new(KeyCode::Char('D'), KeyModifiers { bits: SHIFT }),
            diff_reset_lines: GituiKeyEvent::new(KeyCode::Char('d'), KeyModifiers { bits: NONE }),
            status_ignore_file: GituiKeyEvent::new(KeyCode::Char('i'), KeyModifiers { bits: NONE }),
            diff_stage_lines: GituiKeyEvent::new(KeyCode::Char('s'), KeyModifiers { bits: NONE }),
            stashing_save: GituiKeyEvent::new(KeyCode::Char('s'), KeyModifiers { bits: NONE }),
            stashing_toggle_untracked: GituiKeyEvent::new(KeyCode::Char('u'), KeyModifiers { bits: NONE }),
            stashing_toggle_index: GituiKeyEvent::new(KeyCode::Char('i'), KeyModifiers { bits: NONE }),
            stash_apply: GituiKeyEvent::new(KeyCode::Char('a'), KeyModifiers { bits: NONE }),
            stash_open: GituiKeyEvent::new(KeyCode::Right, KeyModifiers { bits: NONE }),
            stash_drop: GituiKeyEvent::new(KeyCode::Char('D'), KeyModifiers { bits: SHIFT }),
            cmd_bar_toggle: GituiKeyEvent::new(KeyCode::Char('.'), KeyModifiers { bits: NONE }),
            log_tag_commit: GituiKeyEvent::new(KeyCode::Char('t'), KeyModifiers { bits: NONE }),
            log_mark_commit: GituiKeyEvent::new(KeyCode::Char(' '), KeyModifiers { bits: NONE }),
            commit_amend: GituiKeyEvent::new(KeyCode::Char('a'), KeyModifiers { bits: CONTROL }),
            copy: GituiKeyEvent::new(KeyCode::Char('y'), KeyModifiers { bits: NONE }),
            create_branch: GituiKeyEvent::new(KeyCode::Char('c'), KeyModifiers { bits: NONE }),
            rename_branch: GituiKeyEvent::new(KeyCode::Char('r'), KeyModifiers { bits: NONE }),
            select_branch: GituiKeyEvent::new(KeyCode::Char('b'), KeyModifiers { bits: NONE }),
            delete_branch: GituiKeyEvent::new(KeyCode::Char('D'), KeyModifiers { bits: SHIFT }),
            merge_branch: GituiKeyEvent::new(KeyCode::Char('m'), KeyModifiers { bits: NONE }),
            rebase_branch: GituiKeyEvent::new(KeyCode::Char('R'), KeyModifiers { bits: SHIFT }),
            compare_commits: GituiKeyEvent::new(KeyCode::Char('C'), KeyModifiers { bits: SHIFT }),
            tags: GituiKeyEvent::new(KeyCode::Char('T'), KeyModifiers { bits: SHIFT }),
            delete_tag: GituiKeyEvent::new(KeyCode::Char('D'), KeyModifiers { bits: SHIFT }),
            select_tag: GituiKeyEvent::new(KeyCode::Enter, KeyModifiers { bits: NONE }),
            push: GituiKeyEvent::new(KeyCode::Char('p'), KeyModifiers { bits: NONE }),
            force_push: GituiKeyEvent::new(KeyCode::Char('P'), KeyModifiers { bits: SHIFT }),
            undo_commit: GituiKeyEvent::new(KeyCode::Char('U'), KeyModifiers { bits: SHIFT }),
            pull: GituiKeyEvent::new(KeyCode::Char('f'), KeyModifiers { bits: NONE }),
            abort_merge: GituiKeyEvent::new(KeyCode::Char('A'), KeyModifiers { bits: SHIFT }),
            open_file_tree: GituiKeyEvent::new(KeyCode::Char('F'), KeyModifiers { bits: SHIFT }),
            file_find: GituiKeyEvent::new(KeyCode::Char('f'), KeyModifiers { bits: NONE }),
            stage_unstage_item: GituiKeyEvent::new(KeyCode::Enter, KeyModifiers { bits: NONE }),
            tag_annotate: GituiKeyEvent::new(KeyCode::Char('a'), KeyModifiers { bits: CONTROL }),
            view_submodules: GituiKeyEvent::new(KeyCode::Char('S'), KeyModifiers { bits: SHIFT }),
        }
    }
}

} // verus!
