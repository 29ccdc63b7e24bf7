//! Keys in copy mode: the meaning of each key (with vim-style count, find and
//! text-object prefixes), the search prompt, queueing input behind an
//! in-flight request, and replaying it when the request completes.
use crate::copy_mode::{count_or_one, CopySelectionKind, CopyViewportLine};
use crate::copy_pipeline::{dispatched, find_direction};
use crate::copy_state::{ops_view, ClientCopyLastFind, ClientCopyModeState, ClientShellMode, ClientShellState, CopyOp};
use crate::text_editor::{editor_key, EditorKey, TextEditor};
use crate::types::{
    ClientShellInput, KeyCode, KeyModifiers, PaneCopyMotion, PaneCopyObjectRequest,
    PaneCopySearchDirection, PaneTextPoint, TerminalKey,
};
use vstd::prelude::*;

verus! {

/// What a key does in copy mode (outside the search prompt).
#[derive(Clone, Copy, Debug, PartialEq, Eq, Structural)]
pub enum CopyKeyCommand {
    /// Esc with a count, find or text-object prefix pending: drop the prefixes.
    CancelPrefixes,
    /// Esc with a selection or search state: clear them and stay.
    ClearSelectionAndSearch,
    /// Esc otherwise, or `q`: leave without copying.
    Exit,
    /// Enter or `y`: copy and leave, once a pending search answered.
    Yank,
    /// Arrow keys and `h`/`l`: counted local horizontal move.
    Horizontal { forward: bool },
    /// Arrow keys and `j`/`k`: counted local vertical move.
    Vertical { down: bool },
    /// Page keys and Ctrl-B/F/U/D.
    Page { forward: bool, half_page: bool },
    /// Home: to column 0, count - 1 lines down.
    LineStart,
    /// End, `$`, `^`: endpoint motion on the line count - 1 lines down.
    LineMotion { motion: PaneCopyMotion },
    BeginSelection { kind: CopySelectionKind },
    /// The target character of a pending `f`/`F`/`t`/`T`.
    FindTarget { ch: char, forward: bool, till: bool },
    /// A digit extending the count prefix.
    CountDigit { digit: u32 },
    /// `g` (`top` without count) and `G`.
    History { top: bool },
    ColumnZero,
    OpenSearch { direction: PaneCopySearchDirection },
    RepeatSearch { reverse: bool },
    /// `w`/`W` after `i`/`a`.
    WordObject { around: bool, big: bool },
    /// Counted endpoint motions (`w`, `b`, `e`, `{`, ...).
    RepeatMotion { motion: PaneCopyMotion },
    SetPendingFind { forward: bool, till: bool },
    RepeatFind { reverse: bool },
    SetPendingTextObject { around: bool },
    /// A bracket after `i`/`a`.
    DelimiterObject { around: bool, open: char, close: char },
    ViewportLine { line: CopyViewportLine },
    /// `|`: to column count - 1.
    ColumnBar,
    /// A character without meaning: drops the count.
    Ignore,
    /// A key that is not a copy-mode command.
    Nothing,
}

pub open spec fn control(key: TerminalKey) -> bool {
    key.modifiers.has(KeyModifiers { bits: 2 })
}

/// The character a key types in copy mode: a plain or shifted character.
pub open spec fn command_char(key: TerminalKey) -> Option<char> {
    match key.code {
        KeyCode::Char(c) => if control(key) || key.modifiers.has(KeyModifiers { bits: 4 }) {
            None
        } else {
            Some(c)
        },
        _ => None,
    }
}

pub open spec fn digit_of(c: char) -> Option<u32> {
    if '0' <= c && c <= '9' {
        Some((c as u32 - '0' as u32) as u32)
    } else {
        None
    }
}

pub open spec fn delimiters(c: char) -> (char, char) {
    if c == '(' || c == ')' {
        ('(', ')')
    } else if c == '[' || c == ']' {
        ('[', ']')
    } else {
        ('{', '}')
    }
}

/// The command for character `c` once find and count prefixes are ruled out.
pub open spec fn char_command(c: char, text_object: Option<bool>) -> CopyKeyCommand {
    if c == 'q' {
        CopyKeyCommand::Exit
    } else if c == 'y' {
        CopyKeyCommand::Yank
    } else if c == 'v' || c == ' ' {
        CopyKeyCommand::BeginSelection { kind: CopySelectionKind::Character }
    } else if c == 'V' {
        CopyKeyCommand::BeginSelection { kind: CopySelectionKind::Linewise }
    } else if c == 'h' {
        CopyKeyCommand::Horizontal { forward: false }
    } else if c == 'l' {
        CopyKeyCommand::Horizontal { forward: true }
    } else if c == 'j' {
        CopyKeyCommand::Vertical { down: true }
    } else if c == 'k' {
        CopyKeyCommand::Vertical { down: false }
    } else if c == 'g' {
        CopyKeyCommand::History { top: true }
    } else if c == 'G' {
        CopyKeyCommand::History { top: false }
    } else if c == '0' {
        CopyKeyCommand::ColumnZero
    } else if c == '$' {
        CopyKeyCommand::LineMotion { motion: PaneCopyMotion::LineEnd }
    } else if c == '^' {
        CopyKeyCommand::LineMotion { motion: PaneCopyMotion::FirstNonBlank }
    } else if c == '/' {
        CopyKeyCommand::OpenSearch { direction: PaneCopySearchDirection::Forward }
    } else if c == '?' {
        CopyKeyCommand::OpenSearch { direction: PaneCopySearchDirection::Backward }
    } else if c == 'n' {
        CopyKeyCommand::RepeatSearch { reverse: false }
    } else if c == 'N' {
        CopyKeyCommand::RepeatSearch { reverse: true }
    } else if c == 'w' || c == 'W' {
        match text_object {
            Some(around) => CopyKeyCommand::WordObject { around, big: c == 'W' },
            None => CopyKeyCommand::RepeatMotion {
                motion: if c == 'W' {
                    PaneCopyMotion::NextBigWordStart
                } else {
                    PaneCopyMotion::NextWordStart
                },
            },
        }
    } else if c == 'b' {
        CopyKeyCommand::RepeatMotion { motion: PaneCopyMotion::PreviousWordStart }
    } else if c == 'e' {
        CopyKeyCommand::RepeatMotion { motion: PaneCopyMotion::NextWordEnd }
    } else if c == 'B' {
        CopyKeyCommand::RepeatMotion { motion: PaneCopyMotion::PreviousBigWordStart }
    } else if c == 'E' {
        CopyKeyCommand::RepeatMotion { motion: PaneCopyMotion::NextBigWordEnd }
    } else if c == 'f' {
        CopyKeyCommand::SetPendingFind { forward: true, till: false }
    } else if c == 'F' {
        CopyKeyCommand::SetPendingFind { forward: false, till: false }
    } else if c == 't' {
        CopyKeyCommand::SetPendingFind { forward: true, till: true }
    } else if c == 'T' {
        CopyKeyCommand::SetPendingFind { forward: false, till: true }
    } else if c == ';' {
        CopyKeyCommand::RepeatFind { reverse: false }
    } else if c == ',' {
        CopyKeyCommand::RepeatFind { reverse: true }
    } else if c == 'i' {
        CopyKeyCommand::SetPendingTextObject { around: false }
    } else if c == 'a' {
        CopyKeyCommand::SetPendingTextObject { around: true }
    } else if c == '{' || c == '}' || c == '(' || c == ')' || c == '[' || c == ']' {
        match text_object {
            Some(around) => CopyKeyCommand::DelimiterObject {
                around,
                open: delimiters(c).0,
                close: delimiters(c).1,
            },
            None => if c == '{' {
                CopyKeyCommand::RepeatMotion { motion: PaneCopyMotion::PreviousParagraph }
            } else if c == '}' {
                CopyKeyCommand::RepeatMotion { motion: PaneCopyMotion::NextParagraph }
            } else {
                CopyKeyCommand::Ignore
            },
        }
    } else if c == 'H' {
        CopyKeyCommand::ViewportLine { line: CopyViewportLine::Top }
    } else if c == 'M' {
        CopyKeyCommand::ViewportLine { line: CopyViewportLine::Middle }
    } else if c == 'L' {
        CopyKeyCommand::ViewportLine { line: CopyViewportLine::Bottom }
    } else if c == '|' {
        CopyKeyCommand::ColumnBar
    } else {
        CopyKeyCommand::Ignore
    }
}

/// What `key` means given the pending prefixes of copy mode.
pub open spec fn key_command(s: ClientShellState, key: TerminalKey) -> CopyKeyCommand {
    let cm = s.cm();
    match key.code {
        KeyCode::Esc => if cm.pending_count is Some || cm.pending_find is Some || cm.pending_text_object is Some {
            CopyKeyCommand::CancelPrefixes
        } else if cm.selection is Some || cm.search_query@.len() > 0 || cm.search_matches@.len() > 0
            || cm.search_direction is Some {
            CopyKeyCommand::ClearSelectionAndSearch
        } else {
            CopyKeyCommand::Exit
        },
        KeyCode::Enter => CopyKeyCommand::Yank,
        KeyCode::Left => CopyKeyCommand::Horizontal { forward: false },
        KeyCode::Right => CopyKeyCommand::Horizontal { forward: true },
        KeyCode::Down => CopyKeyCommand::Vertical { down: true },
        KeyCode::Up => CopyKeyCommand::Vertical { down: false },
        KeyCode::PageUp => CopyKeyCommand::Page { forward: false, half_page: false },
        KeyCode::PageDown => CopyKeyCommand::Page { forward: true, half_page: false },
        KeyCode::Home => CopyKeyCommand::LineStart,
        KeyCode::End => CopyKeyCommand::LineMotion { motion: PaneCopyMotion::LineEnd },
        KeyCode::Char(c) => if control(key) {
            if c == 'b' {
                CopyKeyCommand::Page { forward: false, half_page: false }
            } else if c == 'f' {
                CopyKeyCommand::Page { forward: true, half_page: false }
            } else if c == 'u' {
                CopyKeyCommand::Page { forward: false, half_page: true }
            } else if c == 'd' {
                CopyKeyCommand::Page { forward: true, half_page: true }
            } else if c == 'v' {
                CopyKeyCommand::BeginSelection { kind: CopySelectionKind::Block }
            } else {
                CopyKeyCommand::Nothing
            }
        } else {
            match command_char(key) {
                None => CopyKeyCommand::Nothing,
                Some(ch) => match cm.pending_find {
                    Some((forward, till)) => CopyKeyCommand::FindTarget { ch, forward, till },
                    None => match digit_of(ch) {
                        Some(d) if d > 0 || cm.pending_count is Some => CopyKeyCommand::CountDigit { digit: d },
                        _ => char_command(ch, cm.pending_text_object),
                    },
                },
            }
        },
        _ => CopyKeyCommand::Nothing,
    }
}

/// The count prefix after typing `digit`: decimal accumulation capped at ten
/// thousand.
pub open spec fn extended_count(count: Option<u32>, digit: u32) -> u32 {
    let base: u32 = match count {
        Some(c) => c,
        None => 0,
    };
    let times_ten: u32 = if base as int * 10 > u32::MAX {
        u32::MAX
    } else {
        (base * 10) as u32
    };
    let sum = times_ten.saturating_add(digit);
    if sum <= 10_000 {
        sum
    } else {
        10_000
    }
}

/// The character a key types in copy mode.
pub fn copy_mode_command_char(key: &TerminalKey) -> (r: Option<char>)
    ensures
        r == command_char(*key),
{
    match key.code {
        KeyCode::Char(c) => {
            if key.modifiers.contains(KeyModifiers::control()) || key.modifiers.contains(KeyModifiers::alt()) {
                None
            } else {
                Some(c)
            }
        },
        _ => None,
    }
}

fn digit_value(c: char) -> (r: Option<u32>)
    ensures
        r == digit_of(c),
{
    if '0' <= c && c <= '9' {
        Some(c as u32 - '0' as u32)
    } else {
        None
    }
}

fn count_with_digit(count: Option<u32>, digit: u32) -> (r: u32)
    ensures
        r == extended_count(count, digit),
{
    let base: u32 = match count {
        Some(c) => c,
        None => 0,
    };
    let times_ten: u32 = match base.checked_mul(10) {
        Some(p) => p,
        None => u32::MAX,
    };
    let sum = times_ten.saturating_add(digit);
    if sum <= 10_000 {
        sum
    } else {
        10_000
    }
}

fn char_key_command(c: char, text_object: Option<bool>) -> (r: CopyKeyCommand)
    ensures
        r == char_command(c, text_object),
{
    if c == 'q' {
        CopyKeyCommand::Exit
    } else if c == 'y' {
        CopyKeyCommand::Yank
    } else if c == 'v' || c == ' ' {
        CopyKeyCommand::BeginSelection { kind: CopySelectionKind::Character }
    } else if c == 'V' {
        CopyKeyCommand::BeginSelection { kind: CopySelectionKind::Linewise }
    } else if c == 'h' {
        CopyKeyCommand::Horizontal { forward: false }
    } else if c == 'l' {
        CopyKeyCommand::Horizontal { forward: true }
    } else if c == 'j' {
        CopyKeyCommand::Vertical { down: true }
    } else if c == 'k' {
        CopyKeyCommand::Vertical { down: false }
    } else if c == 'g' {
        CopyKeyCommand::History { top: true }
    } else if c == 'G' {
        CopyKeyCommand::History { top: false }
    } else if c == '0' {
        CopyKeyCommand::ColumnZero
    } else if c == '$' {
        CopyKeyCommand::LineMotion { motion: PaneCopyMotion::LineEnd }
    } else if c == '^' {
        CopyKeyCommand::LineMotion { motion: PaneCopyMotion::FirstNonBlank }
    } else if c == '/' {
        CopyKeyCommand::OpenSearch { direction: PaneCopySearchDirection::Forward }
    } else if c == '?' {
        CopyKeyCommand::OpenSearch { direction: PaneCopySearchDirection::Backward }
    } else if c == 'n' {
        CopyKeyCommand::RepeatSearch { reverse: false }
    } else if c == 'N' {
        CopyKeyCommand::RepeatSearch { reverse: true }
    } else if c == 'w' || c == 'W' {
        match text_object {
            Some(around) => CopyKeyCommand::WordObject { around, big: c == 'W' },
            None => CopyKeyCommand::RepeatMotion {
                motion: if c == 'W' {
                    PaneCopyMotion::NextBigWordStart
                } else {
                    PaneCopyMotion::NextWordStart
                },
            },
        }
    } else if c == 'b' {
        CopyKeyCommand::RepeatMotion { motion: PaneCopyMotion::PreviousWordStart }
    } else if c == 'e' {
        CopyKeyCommand::RepeatMotion { motion: PaneCopyMotion::NextWordEnd }
    } else if c == 'B' {
        CopyKeyCommand::RepeatMotion { motion: PaneCopyMotion::PreviousBigWordStart }
    } else if c == 'E' {
        CopyKeyCommand::RepeatMotion { motion: PaneCopyMotion::NextBigWordEnd }
    } else if c == 'f' {
        CopyKeyCommand::SetPendingFind { forward: true, till: false }
    } else if c == 'F' {
        CopyKeyCommand::SetPendingFind { forward: false, till: false }
    } else if c == 't' {
        CopyKeyCommand::SetPendingFind { forward: true, till: true }
    } else if c == 'T' {
        CopyKeyCommand::SetPendingFind { forward: false, till: true }
    } else if c == ';' {
        CopyKeyCommand::RepeatFind { reverse: false }
    } else if c == ',' {
        CopyKeyCommand::RepeatFind { reverse: true }
    } else if c == 'i' {
        CopyKeyCommand::SetPendingTextObject { around: false }
    } else if c == 'a' {
        CopyKeyCommand::SetPendingTextObject { around: true }
    } else if c == '{' || c == '}' || c == '(' || c == ')' || c == '[' || c == ']' {
        match text_object {
            Some(around) => {
                let (open, close) = if c == '(' || c == ')' {
                    ('(', ')')
                } else if c == '[' || c == ']' {
                    ('[', ']')
                } else {
                    ('{', '}')
                };
                CopyKeyCommand::DelimiterObject { around, open, close }
            },
            None => if c == '{' {
                CopyKeyCommand::RepeatMotion { motion: PaneCopyMotion::PreviousParagraph }
            } else if c == '}' {
                CopyKeyCommand::RepeatMotion { motion: PaneCopyMotion::NextParagraph }
            } else {
                CopyKeyCommand::Ignore
            },
        }
    } else if c == 'H' {
        CopyKeyCommand::ViewportLine { line: CopyViewportLine::Top }
    } else if c == 'M' {
        CopyKeyCommand::ViewportLine { line: CopyViewportLine::Middle }
    } else if c == 'L' {
        CopyKeyCommand::ViewportLine { line: CopyViewportLine::Bottom }
    } else if c == '|' {
        CopyKeyCommand::ColumnBar
    } else {
        CopyKeyCommand::Ignore
    }
}

impl ClientShellState {
    /// Decodes `key` against the pending prefixes of copy mode.
    pub fn copy_key_command(&self, key: &TerminalKey) -> (r: CopyKeyCommand)
        requires
            self.copy_mode is Some,
        ensures
            r == key_command(*self, *key),
    {
        let copy_mode = match &self.copy_mode {
            Some(copy_mode) => copy_mode,
            None => {
                return CopyKeyCommand::Nothing;
            },
        };
        match key.code {
            KeyCode::Esc => {
                if copy_mode.pending_count.is_some() || copy_mode.pending_find.is_some()
                    || copy_mode.pending_text_object.is_some() {
                    CopyKeyCommand::CancelPrefixes
                } else if copy_mode.selection.is_some() || copy_mode.search_query.len() > 0
                    || copy_mode.search_matches.len() > 0 || copy_mode.search_direction.is_some() {
                    CopyKeyCommand::ClearSelectionAndSearch
                } else {
                    CopyKeyCommand::Exit
                }
            },
            KeyCode::Enter => CopyKeyCommand::Yank,
            KeyCode::Left => CopyKeyCommand::Horizontal { forward: false },
            KeyCode::Right => CopyKeyCommand::Horizontal { forward: true },
            KeyCode::Down => CopyKeyCommand::Vertical { down: true },
            KeyCode::Up => CopyKeyCommand::Vertical { down: false },
            KeyCode::PageUp => CopyKeyCommand::Page { forward: false, half_page: false },
            KeyCode::PageDown => CopyKeyCommand::Page { forward: true, half_page: false },
            KeyCode::Home => CopyKeyCommand::LineStart,
            KeyCode::End => CopyKeyCommand::LineMotion { motion: PaneCopyMotion::LineEnd },
            KeyCode::Char(c) => {
                if key.modifiers.contains(KeyModifiers::control()) {
                    if c == 'b' {
                        CopyKeyCommand::Page { forward: false, half_page: false }
                    } else if c == 'f' {
                        CopyKeyCommand::Page { forward: true, half_page: false }
                    } else if c == 'u' {
                        CopyKeyCommand::Page { forward: false, half_page: true }
                    } else if c == 'd' {
                        CopyKeyCommand::Page { forward: true, half_page: true }
                    } else if c == 'v' {
                        CopyKeyCommand::BeginSelection { kind: CopySelectionKind::Block }
                    } else {
                        CopyKeyCommand::Nothing
                    }
                } else {
                    match copy_mode_command_char(key) {
                        None => CopyKeyCommand::Nothing,
                        Some(ch) => match copy_mode.pending_find {
                            Some((forward, till)) => CopyKeyCommand::FindTarget { ch, forward, till },
                            None => match digit_value(ch) {
                                Some(d) => {
                                    if d > 0 || copy_mode.pending_count.is_some() {
                                        CopyKeyCommand::CountDigit { digit: d }
                                    } else {
                                        char_key_command(ch, copy_mode.pending_text_object)
                                    }
                                },
                                None => char_key_command(ch, copy_mode.pending_text_object),
                            },
                        },
                    }
                }
            },
            _ => CopyKeyCommand::Nothing,
        }
    }

    /// A key while the search prompt is open: Esc cancels the prompt and
    /// every search it started, Enter commits the query, other keys edit it.
    /// Reports whether the prompt took the key.
    pub fn route_copy_search_prompt_key(&mut self, key: &TerminalKey, outcome: &mut ClientShellInput) -> (r: bool)
        requires
            old(self).wf(),
        ensures
            r == (old(self).copy_mode is Some && old(self).cm().search_prompt is Some),
            !r ==> *final(self) == *old(self) && *final(outcome) == *old(outcome),
            r ==> final(self).stepped(*old(self)) && final(outcome).repaint && final(self).copy_mode is Some,
            r ==> prompt_key_routed(*final(self), *old(self), *final(outcome), *old(outcome), *key),
            r && (key.code == KeyCode::Esc || key.code == KeyCode::Enter) ==> final(self).cm().search_prompt is None,
            r && key.code == KeyCode::Esc ==> !final(self).cm().copy_after_search,
            r && key.code == KeyCode::Esc ==> !crate::copy_pipeline::has_search(
                ops_view(final(self).copy_operation_queue@),
            ),
            r && key.code == KeyCode::Esc && crate::copy_pipeline::pending_search(
                crate::copy_state::pending_view(old(self).pending_requests@),
                old(self).copy_session_generation,
            ) ==> final(self).copy_session_generation == old(self).copy_session_generation.saturating_add(1),
    {
        let (query, direction, count) = match &self.copy_mode {
            Some(copy_mode) => match &copy_mode.search_prompt {
                Some(prompt) => {
                    let q = prompt.query.text.clone();
                    assert(q@ =~= prompt.query.text@);
                    (q, prompt.direction, prompt.count)
                },
                None => {
                    return false;
                },
            },
            None => {
                return false;
            },
        };
        let ghost mut m1 = *self;
        let ghost mut m2 = *self;
        match key.code {
            KeyCode::Esc => {
                match &mut self.copy_mode {
                    Some(copy_mode) => {
                        copy_mode.search_prompt = None;
                        copy_mode.search_generation = copy_mode.search_generation.saturating_add(1);
                        copy_mode.copy_after_search = false;
                    },
                    None => {},
                }
                self.discard_queued_searches();
                proof {
                    m1 = *self;
                    crate::copy_pipeline::lemma_without_searches_has_none(
                        ops_view(old(self).copy_operation_queue@),
                    );
                }
                self.retire_cancelled_copy_search();
                proof {
                    m2 = *self;
                }
                let ghost q = ops_view(self.copy_operation_queue@);
                self.dispatch_next_copy_operation(outcome);
                proof {
                    crate::copy_pipeline::lemma_skip_keeps_no_search(q);
                }
            },
            KeyCode::Enter => {
                match &mut self.copy_mode {
                    Some(copy_mode) => {
                        copy_mode.search_prompt = None;
                    },
                    None => {},
                }
                self.commit_copy_search(query, direction, count, outcome);
            },
            _ => {
                let changed = match &mut self.copy_mode {
                    Some(copy_mode) => match &mut copy_mode.search_prompt {
                        Some(prompt) => prompt.query.handle_key(key),
                        None => None,
                    },
                    None => None,
                };
                proof {
                    m1 = *self;
                    assert(m1.cm() == ClientCopyModeState { search_prompt: m1.cm().search_prompt, ..old(self).cm() });
                    assert(m1.cm().search_prompt->0.query.text@ == edited_text(
                        old(self).cm().search_prompt->0.query.text@,
                        editor_key(*key),
                    ));
                }
                match changed {
                    Some(true) => {
                        self.refresh_copy_search_live_query(outcome);
                    },
                    _ => {},
                }
            },
        }
        let ghost o2 = *outcome;
        outcome.repaint = true;
        assert(prompt_steps(*self, *old(self), *outcome, *old(outcome), *key, m1, m2, o2));
        true
    }

    /// Routes a key in copy mode: the search prompt first, then the command
    /// the key decodes to (see `key_command`).
    pub fn route_copy_mode_key(&mut self, key: &TerminalKey, outcome: &mut ClientShellInput)
        requires
            old(self).wf(),
        ensures
            final(self).stepped(*old(self)),
            old(self).copy_mode is None ==> crate::copy_mode::untouched(
                *final(self),
                *old(self),
                *final(outcome),
                *old(outcome),
            ),
            old(self).copy_mode is Some && old(self).cm().search_prompt is Some ==> final(self).copy_mode is Some && final(outcome).repaint
                && prompt_key_routed(*final(self), *old(self), *final(outcome), *old(outcome), *key),
            old(self).copy_mode is Some && old(self).cm().search_prompt is None ==> routed(
                *final(self),
                *old(self),
                *final(outcome),
                *old(outcome),
                key_command(*old(self), *key),
            ),
            old(self).copy_mode is Some && old(self).cm().search_prompt is None && !plain_char_key(*key)
                && moves_after_prefixes(
                key_command(*old(self), *key),
            ) ==> (final(self).copy_mode matches Some(c) ==> c.pending_count is None && c.pending_find is None
                && c.pending_text_object is None),
            old(self).copy_mode is Some && old(self).cm().search_prompt is None && key_command(
                *old(self),
                *key,
            ) == CopyKeyCommand::Yank
                && yank_waits(*old(self)) ==> yank_deferred(
                *final(self),
                *old(self),
                *final(outcome),
                *old(outcome),
                plain_char_key(*key),
            ),
    {
        if self.copy_mode.is_none() {
            return;
        }
        if self.route_copy_search_prompt_key(key, outcome) {
            return;
        }
        let command = self.copy_key_command(key);
        if self.apply_copy_state_command(command, outcome) {
            return;
        }
        let is_char_key = match key.code {
            KeyCode::Char(_) => !key.modifiers.contains(KeyModifiers::control()),
            _ => false,
        };
        if is_char_key {
            self.route_copy_char_command(command, outcome);
        } else {
            self.route_copy_special_command(command, outcome);
        }
    }

    /// Commands that only reset copy-mode state: dropping prefixes, clearing
    /// the selection and search, or nothing at all. Reports whether `command`
    /// was one of them.
    fn apply_copy_state_command(&mut self, command: CopyKeyCommand, outcome: &mut ClientShellInput) -> (handled: bool)
        requires
            old(self).wf(),
            old(self).copy_mode is Some,
        ensures
            handled == (command == CopyKeyCommand::CancelPrefixes || command
                == CopyKeyCommand::ClearSelectionAndSearch || command == CopyKeyCommand::Nothing),
            final(self).stepped(*old(self)),
            handled ==> routed(*final(self), *old(self), *final(outcome), *old(outcome), command),
            !handled ==> *final(self) == *old(self) && *final(outcome) == *old(outcome),
            command == CopyKeyCommand::CancelPrefixes ==> (final(self).copy_mode matches Some(c) && c.pending_count
                is None && c.pending_find is None && c.pending_text_object is None),
    {
        proof {
            reveal(routed);
        }
        match command {
            CopyKeyCommand::CancelPrefixes => {
                match &mut self.copy_mode {
                    Some(copy_mode) => {
                        copy_mode.pending_find = None;
                        copy_mode.pending_text_object = None;
                        copy_mode.pending_count = None;
                    },
                    None => {},
                }
                outcome.repaint = true;
                return true;
            },
            CopyKeyCommand::ClearSelectionAndSearch => {
                match &mut self.copy_mode {
                    Some(copy_mode) => {
                        copy_mode.selection = None;
                        copy_mode.search_query.clear();
                        copy_mode.search_direction = None;
                        copy_mode.search_matches.clear();
                        copy_mode.search_total = 0;
                        copy_mode.search_current = None;
                        copy_mode.search_current_global = None;
                        copy_mode.search_generation = copy_mode.search_generation.saturating_add(1);
                        copy_mode.copy_after_search = false;
                    },
                    None => {},
                }
                self.selection = None;
                self.reset_copy_pipeline();
                outcome.repaint = true;
                return true;
            },
            CopyKeyCommand::Nothing => {
                return true;
            },
            _ => {},
        }
        false
    }

    /// A command from a key that is not a plain character (arrows, page keys,
    /// Home, End, Enter, Esc, control chords): any count and prefixes apply to
    /// it and are then dropped.
    fn route_copy_special_command(&mut self, command: CopyKeyCommand, outcome: &mut ClientShellInput)
        requires
            old(self).wf(),
            old(self).copy_mode is Some,
            command != CopyKeyCommand::CancelPrefixes,
            command != CopyKeyCommand::ClearSelectionAndSearch,
            command != CopyKeyCommand::Nothing,
        ensures
            final(self).stepped(*old(self)),
            !char_only(command) ==> routed(*final(self), *old(self), *final(outcome), *old(outcome), command),
            command == CopyKeyCommand::Yank && yank_waits(*old(self)) ==> yank_deferred(
                *final(self),
                *old(self),
                *final(outcome),
                *old(outcome),
                false,
            ),
            command != CopyKeyCommand::Exit && command != CopyKeyCommand::Yank ==> (final(self).copy_mode matches Some(
                c,
            ) ==> c.pending_count is None && c.pending_find is None && c.pending_text_object is None),
    {
        proof {
            reveal(routed);
        }
        match command {
            CopyKeyCommand::Vertical { .. } | CopyKeyCommand::Horizontal { .. } => {
                self.move_copy_cursor_counted(command, outcome);
                return;
            },
            CopyKeyCommand::Page { .. } | CopyKeyCommand::BeginSelection { .. } => {
                self.run_counted_command(command, outcome);
                return;
            },
            CopyKeyCommand::LineMotion { motion } => {
                self.run_line_motion(motion, outcome);
                return;
            },
            CopyKeyCommand::LineStart => {
                self.run_line_start(outcome);
            },
            CopyKeyCommand::Exit => {
                self.exit_copy_mode(false, outcome);
                outcome.repaint = true;
            },
            CopyKeyCommand::Yank => {
                self.yank_copy_selection(false, outcome);
            },
            _ => {
                let _ = self.take_copy_count();
                self.clear_copy_pending_prefixes();
            },
        }
    }

    /// A command from a plain character key, after the find and count prefixes
    /// were decoded.
    fn route_copy_char_command(&mut self, command: CopyKeyCommand, outcome: &mut ClientShellInput)
        requires
            old(self).wf(),
            old(self).copy_mode is Some,
            old(self).cm().pending_find is Some ==> command is FindTarget,
            !special_only(command),
            command != CopyKeyCommand::CancelPrefixes,
            command != CopyKeyCommand::ClearSelectionAndSearch,
            command != CopyKeyCommand::Nothing,
        ensures
            final(self).stepped(*old(self)),
            routed(*final(self), *old(self), *final(outcome), *old(outcome), command),
            command == CopyKeyCommand::Yank && yank_waits(*old(self)) ==> yank_deferred(
                *final(self),
                *old(self),
                *final(outcome),
                *old(outcome),
                true,
            ),
    {
        match command {
            CopyKeyCommand::FindTarget { .. } | CopyKeyCommand::CountDigit { .. } => {
                self.route_copy_prefix_command(command, outcome);
                return;
            },
            _ => {},
        }
        if command == CopyKeyCommand::Yank {
            self.yank_copy_selection(true, outcome);
            return;
        }
        let ghost orig = *self;
        match &mut self.copy_mode {
            Some(copy_mode) => {
                copy_mode.pending_text_object = None;
            },
            None => {},
        }
        self.route_copy_char_action(command, outcome, Ghost(orig));
    }

    /// The target of a pending find, or a digit of the count prefix.
    fn route_copy_prefix_command(&mut self, command: CopyKeyCommand, outcome: &mut ClientShellInput)
        requires
            old(self).wf(),
            old(self).copy_mode is Some,
            command is FindTarget || command is CountDigit,
        ensures
            final(self).stepped(*old(self)),
            routed(*final(self), *old(self), *final(outcome), *old(outcome), command),
    {
        proof {
            reveal(routed);
        }
        match command {
            CopyKeyCommand::FindTarget { ch, forward, till } => {
                match &mut self.copy_mode {
                    Some(copy_mode) => {
                        copy_mode.pending_find = None;
                        copy_mode.last_find = Some(ClientCopyLastFind { ch, forward, till });
                    },
                    None => {},
                }
                let count = self.take_copy_count();
                self.request_copy_find(ch, forward, till, count, false, outcome);
                outcome.repaint = true;
            },
            CopyKeyCommand::CountDigit { digit } => {
                match &mut self.copy_mode {
                    Some(copy_mode) => {
                        copy_mode.pending_count = Some(count_with_digit(copy_mode.pending_count, digit));
                    },
                    None => {},
                }
            },
            _ => {},
        }
    }

    /// A character command once a pending text-object prefix was dropped.
    #[verifier::rlimit(30)]
    fn route_copy_char_action(
        &mut self,
        command: CopyKeyCommand,
        outcome: &mut ClientShellInput,
        Ghost(orig): Ghost<ClientShellState>,
    )
        requires
            old(self).wf(),
            orig.copy_mode is Some,
            orig.cm().pending_find is None,
            *old(self) == with_copy_mode(orig, ClientCopyModeState { pending_text_object: None, ..orig.cm() }),
            !special_only(command),
            command != CopyKeyCommand::CancelPrefixes,
            command != CopyKeyCommand::ClearSelectionAndSearch,
            command != CopyKeyCommand::Nothing,
            command != CopyKeyCommand::Yank,
            !(command is FindTarget),
            !(command is CountDigit),
        ensures
            final(self).stepped(orig),
            routed(*final(self), orig, *final(outcome), *old(outcome), command),
    {
        proof {
            reveal(routed);
        }
        match command {
            CopyKeyCommand::Exit => {
                self.exit_copy_mode(false, outcome);
            },
            CopyKeyCommand::BeginSelection { .. } | CopyKeyCommand::History { .. }
            | CopyKeyCommand::ViewportLine { .. } | CopyKeyCommand::OpenSearch { .. }
            | CopyKeyCommand::RepeatSearch { .. } => {
                let ghost before = *self;
                let ghost out_before = *outcome;
                match command {
                    CopyKeyCommand::History { .. } | CopyKeyCommand::ViewportLine { .. } => {
                        self.run_counted_jump(command, outcome);
                    },
                    _ => {
                        self.run_counted_command(command, outcome);
                    },
                }
                proof {
                    lemma_routed_without_text_object(*self, before, orig, *outcome, out_before, command);
                }
                let ghost out_after = *outcome;
                outcome.repaint = true;
                proof {
                    lemma_routed_repainted(*self, orig, out_after, *outcome, out_before, command);
                }
                return;
            },
            CopyKeyCommand::Horizontal { .. } | CopyKeyCommand::Vertical { .. } => {
                self.move_copy_cursor_counted(command, outcome);
                return;
            },
            CopyKeyCommand::ColumnZero => {
                let _ = self.take_copy_count();
                self.set_copy_cursor_col(0);
                self.sync_copy_selection();
                outcome.repaint = true;
            },
            CopyKeyCommand::LineMotion { motion } => {
                let ghost before = *self;
                self.run_line_motion(motion, outcome);
                proof {
                    lemma_line_motion_without_text_object(*self, before, orig, *outcome, *old(outcome), motion);
                }
                return;
            },
            CopyKeyCommand::WordObject { .. } | CopyKeyCommand::RepeatMotion { .. }
            | CopyKeyCommand::RepeatFind { .. } | CopyKeyCommand::DelimiterObject { .. } => {
                self.request_copy_char_object(command, outcome);
                return;
            },
            CopyKeyCommand::SetPendingFind { forward, till } => {
                self.set_copy_pending_find(forward, till);
            },
            CopyKeyCommand::SetPendingTextObject { around } => {
                self.set_copy_pending_text_object(around);
            },
            CopyKeyCommand::ColumnBar => {
                self.run_column_bar(outcome);
            },
            _ => {
                let _ = self.take_copy_count();
                return;
            },
        }
        outcome.repaint = true;
    }

    /// Character commands that ask the endpoint for a counted motion, a text
    /// object or a repeated find.
    fn request_copy_char_object(&mut self, command: CopyKeyCommand, outcome: &mut ClientShellInput)
        requires
            old(self).wf(),
            old(self).copy_mode is Some,
            old(self).cm().pending_text_object is None,
            old(self).cm().pending_find is None,
            command is WordObject || command is RepeatMotion || command is RepeatFind || command is DelimiterObject,
        ensures
            final(self).stepped(*old(self)),
            routed(*final(self), *old(self), *final(outcome), *old(outcome), command),
    {
        proof {
            reveal(routed);
        }
        match command {
            CopyKeyCommand::WordObject { around, big } => {
                // Word objects have no nesting, so the count is discarded.
                let _ = self.take_copy_count();
                self.request_copy_object(
                    PaneCopyObjectRequest::Object { inside: !around, open: 'w', close: 'w', count: 1, word: Some(big) },
                    outcome,
                );
            },
            CopyKeyCommand::RepeatMotion { motion } => {
                let count = self.take_copy_count();
                self.request_copy_motion_repeat(motion, count, outcome);
            },
            CopyKeyCommand::RepeatFind { reverse } => {
                let last_find = match &self.copy_mode {
                    Some(copy_mode) => copy_mode.last_find,
                    None => None,
                };
                match last_find {
                    Some(last_find) => {
                        let count = self.take_copy_count();
                        self.request_copy_find(
                            last_find.ch,
                            if reverse {
                                !last_find.forward
                            } else {
                                last_find.forward
                            },
                            last_find.till,
                            count,
                            true,
                            outcome,
                        );
                    },
                    None => {
                        let _ = self.take_copy_count();
                        return;
                    },
                }
            },
            CopyKeyCommand::DelimiterObject { around, open, close } => {
                let count = match self.take_copy_count() {
                    Some(c) => c,
                    None => 1,
                };
                self.request_copy_object(
                    PaneCopyObjectRequest::Object { inside: !around, open, close, count, word: None },
                    outcome,
                );
            },
            _ => {},
        }
        outcome.repaint = true;
    }

    /// Commands that take the count and drop pending prefixes, then act: a
    /// visual selection, a page move, opening the search prompt or repeating
    /// the last search.
    #[verifier::rlimit(40)]
    fn run_counted_command(&mut self, command: CopyKeyCommand, outcome: &mut ClientShellInput)
        requires
            old(self).wf(),
            old(self).copy_mode is Some,
            command is BeginSelection || command is Page || command is OpenSearch || command is RepeatSearch,
        ensures
            final(self).stepped(*old(self)),
            routed(*final(self), *old(self), *final(outcome), *old(outcome), command),
    {
        proof {
            reveal(routed);
        }
        let count = self.take_copy_count();
        self.clear_copy_pending_prefixes();
        match command {
            CopyKeyCommand::BeginSelection { kind } => {
                self.begin_copy_selection(kind);
            },
            CopyKeyCommand::Page { forward, half_page } => {
                let direction: i8 = if forward {
                    1
                } else {
                    -1
                };
                self.move_copy_page(direction, half_page, count, outcome);
                assert(page_step(*self, *old(self), *outcome, *old(outcome), forward, half_page));
            },
            CopyKeyCommand::OpenSearch { direction } => {
                self.open_copy_search(direction, count);
            },
            CopyKeyCommand::RepeatSearch { reverse } => {
                self.repeat_copy_search(reverse, count, outcome);
                assert(repeat_search_step(*self, *old(self), *outcome, *old(outcome), reverse));
            },
            _ => {},
        }
    }

    /// `g`/`G` and `H`/`M`/`L`: counted jumps through the history or the
    /// viewport, once the count and pending prefixes are taken.
    #[verifier::rlimit(40)]
    fn run_counted_jump(&mut self, command: CopyKeyCommand, outcome: &mut ClientShellInput)
        requires
            old(self).wf(),
            old(self).copy_mode is Some,
            command is History || command is ViewportLine,
        ensures
            final(self).stepped(*old(self)),
            routed(*final(self), *old(self), *final(outcome), *old(outcome), command),
    {
        proof {
            reveal(routed);
        }
        let count = self.take_copy_count();
        self.clear_copy_pending_prefixes();
        match command {
            CopyKeyCommand::History { top } => {
                self.move_copy_history(top && count.is_none(), count, outcome);
                assert(history_step(*self, *old(self), *outcome, *old(outcome), top));
            },
            CopyKeyCommand::ViewportLine { line } => {
                self.move_copy_viewport_line(line, count, outcome);
                assert(viewport_line_step(*self, *old(self), *outcome, *old(outcome), line));
            },
            _ => {},
        }
    }

    /// `$`, `^` and End: the cursor moves count - 1 lines down, then the
    /// endpoint motion goes out from there.
    #[verifier::rlimit(40)]
    fn run_line_motion(&mut self, motion: PaneCopyMotion, outcome: &mut ClientShellInput)
        requires
            old(self).wf(),
            old(self).copy_mode is Some,
        ensures
            final(self).stepped(*old(self)),
            routed(*final(self), *old(self), *final(outcome), *old(outcome), CopyKeyCommand::LineMotion { motion }),
            final(outcome).repaint,
    {
        proof {
            reveal(routed);
        }
        let count = self.take_copy_count();
        self.clear_copy_pending_prefixes();
        self.move_copy_cursor(crate::copy_mode::copy_line_count_delta(count), 0, outcome);
        let ghost m = *self;
        let ghost o = *outcome;
        self.request_copy_motion(motion, outcome);
        assert(line_motion_step(*self, *old(self), m, o, *outcome, *old(outcome), motion));
    }

    /// Home: the cursor moves count - 1 lines down, then to column 0.
    #[verifier::rlimit(40)]
    fn run_line_start(&mut self, outcome: &mut ClientShellInput)
        requires
            old(self).wf(),
            old(self).copy_mode is Some,
        ensures
            final(self).stepped(*old(self)),
            routed(*final(self), *old(self), *final(outcome), *old(outcome), CopyKeyCommand::LineStart),
    {
        proof {
            reveal(routed);
        }
        let count = self.take_copy_count();
        self.clear_copy_pending_prefixes();
        self.move_copy_cursor(crate::copy_mode::copy_line_count_delta(count), 0, outcome);
        let ghost m = *self;
        let ghost o = *outcome;
        self.set_copy_cursor_col(0);
        self.sync_copy_selection();
        outcome.repaint = true;
        assert(line_start_step(*self, *old(self), m, o, *outcome, *old(outcome)));
    }

    /// `|`: the cursor goes to column count - 1 of the pane.
    fn run_column_bar(&mut self, outcome: &mut ClientShellInput)
        requires
            old(self).wf(),
            old(self).copy_mode is Some,
            old(self).cm().pending_find is None,
            old(self).cm().pending_text_object is None,
        ensures
            final(self).stepped(*old(self)),
            routed(*final(self), *old(self), *final(outcome), *old(outcome), CopyKeyCommand::ColumnBar),
    {
        proof {
            reveal(routed);
        }
        let width: u16 = match self.copy_hit() {
            Some(hit) => if hit.inner_rect.width > 1 {
                hit.inner_rect.width
            } else {
                1
            },
            None => 1,
        };
        let col: u16 = match self.take_copy_count() {
            Some(n) => {
                let c = n.saturating_sub(1);
                let last = (width - 1) as u32;
                if c <= last {
                    c as u16
                } else {
                    last as u16
                }
            },
            None => 0,
        };
        self.set_copy_cursor_col(col);
        self.sync_copy_selection();
        outcome.repaint = true;
    }

    /// A counted vertical (`j`, `k`, Down, Up) or horizontal (`h`, `l`, Left,
    /// Right) move: the count and pending prefixes are consumed first.
    #[verifier::rlimit(30)]
    fn move_copy_cursor_counted(&mut self, command: CopyKeyCommand, outcome: &mut ClientShellInput)
        requires
            old(self).wf(),
            old(self).copy_mode is Some,
            command is Vertical || command is Horizontal,
        ensures
            final(self).stepped(*old(self)),
            routed(*final(self), *old(self), *final(outcome), *old(outcome), command),
            final(self).copy_mode matches Some(c) ==> c.pending_count is None && c.pending_find is None
                && c.pending_text_object is None,
    {
        proof {
            reveal(routed);
        }
        let count = self.take_copy_count();
        self.clear_copy_pending_prefixes();
        let times = crate::copy_mode::copy_motion_times(count);
        match command {
            CopyKeyCommand::Vertical { down } => {
                self.move_copy_cursor(
                    if down {
                        times
                    } else {
                        -times
                    },
                    0,
                    outcome,
                );
            },
            CopyKeyCommand::Horizontal { forward } => {
                self.request_copy_horizontal(forward, count, outcome);
            },
            _ => {},
        }
    }

    /// `y` or Enter: copies the selection (or the current search match) and
    /// leaves copy mode, unless the current search has not answered yet; then
    /// the yank waits for it. `y` also drops a pending text-object prefix.
    fn yank_copy_selection(&mut self, drop_text_object: bool, outcome: &mut ClientShellInput)
        requires
            old(self).wf(),
            old(self).copy_mode is Some,
        ensures
            final(self).stepped(*old(self)),
            routed(*final(self), *old(self), *final(outcome), *old(outcome), CopyKeyCommand::Yank),
            drop_text_object && final(self).copy_mode is Some ==> final(self).cm().pending_text_object is None,
            !drop_text_object && final(self).copy_mode is Some ==> final(self).cm().pending_text_object == old(
                self,
            ).cm().pending_text_object,
            yank_waits(*old(self)) ==> yank_deferred(
                *final(self),
                *old(self),
                *final(outcome),
                *old(outcome),
                drop_text_object,
            ),
    {
        proof {
            reveal(routed);
        }
        if drop_text_object {
            match &mut self.copy_mode {
                Some(copy_mode) => {
                    copy_mode.pending_text_object = None;
                },
                None => {},
            }
        }
        let ghost mid = *self;
        assert(yank_waits(mid) == yank_waits(*old(self)));
        if !self.defer_copy_until_search_result() {
            self.exit_copy_mode(true, outcome);
            assert(crate::copy_mode::search_match_selection(mid.cm()) == crate::copy_mode::search_match_selection(
                old(self).cm(),
            ));
        }
        if drop_text_object {
            outcome.repaint = true;
        }
    }

    /// A key for the shell. In copy mode, keys arriving while an endpoint
    /// request is in flight wait in the input queue (Esc and the search prompt
    /// act at once); other keys are routed.
    pub fn handle_key(&mut self, key: TerminalKey, outcome: &mut ClientShellInput)
        requires
            old(self).wf(),
        ensures
            key_handled(*final(self), *old(self), *final(outcome), *old(outcome), key),
    {
        if self.mode != ClientShellMode::Copy {
            return;
        }
        let prompt_open = match &self.copy_mode {
            Some(copy_mode) => copy_mode.search_prompt.is_some(),
            None => {
                return;
            },
        };
        if self.copy_operation_in_flight && !prompt_open && key.code != KeyCode::Esc {
            self.copy_input_queue.push_back(key);
            return;
        }
        self.route_copy_mode_key(&key, outcome);
    }

    /// Replays queued copy-mode input until an endpoint request goes in
    /// flight or the queue runs dry.
    pub fn dispatch_queued_copy_input(&mut self, outcome: &mut ClientShellInput)
        requires
            old(self).wf(),
        ensures
            final(self).same_surroundings(*old(self)),
            final(self).highlight_kept_or_cleared(*old(self)),
            final(self).wf(),
            final(self).copy_session_generation >= old(self).copy_session_generation,
            replayed(*final(self), *old(self), *final(outcome), *old(outcome)),
            old(self).copy_operation_in_flight ==> crate::copy_mode::untouched(
                *final(self),
                *old(self),
                *final(outcome),
                *old(outcome),
            ),
            exists|k: int|
                0 <= k <= old(self).copy_input_queue@.len() && final(self).copy_input_queue@ == old(
                    self,
                ).copy_input_queue@.skip(k),
    {
        let ghost mut consumed: int = 0;
        let ghost mut states: Seq<ClientShellState> = seq![*self];
        let ghost mut outs: Seq<ClientShellInput> = seq![*outcome];
        let ghost mut pops: Seq<ClientShellState> = Seq::empty();
        assert(self.copy_input_queue@ == old(self).copy_input_queue@.skip(0));
        while !self.copy_operation_in_flight
            invariant
                self.same_surroundings(*old(self)),
                self.highlight_kept_or_cleared(*old(self)),
                self.wf(),
                self.copy_session_generation >= old(self).copy_session_generation,
                self.copy_input_queue@.len() <= old(self).copy_input_queue@.len(),
                old(self).copy_operation_in_flight ==> (*self == *old(self) && *outcome == *old(outcome)),
                0 <= consumed <= old(self).copy_input_queue@.len(),
                self.copy_input_queue@ == old(self).copy_input_queue@.skip(consumed),
                replay_trace(states, outs, pops),
                states[0] == *old(self),
                outs[0] == *old(outcome),
                states.last() == *self,
                outs.last() == *outcome,
            decreases self.copy_input_queue@.len(),
        {
            if self.copy_input_queue.len() == 0 {
                return;
            }
            let ghost pre = *self;
            let ghost pre_out = *outcome;
            let key = self.copy_input_queue.pop_front().unwrap();
            let ghost popped = *self;
            proof {
                consumed = consumed + 1;
            }
            assert(self.copy_input_queue@ =~= old(self).copy_input_queue@.skip(consumed));
            self.handle_key(key, outcome);
            proof {
                let ns = states.push(*self);
                let no = outs.push(*outcome);
                let np = pops.push(popped);
                assert(popped.copy_input_queue@ =~= pre.copy_input_queue@.drop_first());
                assert forall|j: int| #![trigger np[j]] 0 <= j < np.len() implies replay_step(ns, no, np, j) by {
                    if j < pops.len() {
                        assert(pops[j] == np[j]);
                        assert(replay_step(states, outs, pops, j));
                    }
                }
                states = ns;
                outs = no;
                pops = np;
                if self.copy_input_queue@.len() == 0 {
                    consumed = old(self).copy_input_queue@.len() as int;
                    assert(self.copy_input_queue@ =~= old(self).copy_input_queue@.skip(consumed));
                }
            }
        }
    }

    /// A copy operation of `session_generation` finished. Stale sessions are
    /// ignored; otherwise the pipeline is freed and, when `continue_queue`,
    /// the next operation and then queued input run; else the queues drop.
    pub fn complete_copy_operation(
        &mut self,
        session_generation: u64,
        continue_queue: bool,
        outcome: &mut ClientShellInput,
    )
        requires
            old(self).wf(),
        ensures
            final(self).wf(),
            final(self).same_surroundings(*old(self)),
            final(self).highlight_kept_or_cleared(*old(self)),
            final(self).copy_session_generation >= old(self).copy_session_generation,
            completed(*final(self), *old(self), *final(outcome), *old(outcome), session_generation, continue_queue),
    {
        if self.copy_session_generation != session_generation {
            return;
        }
        self.copy_operation_in_flight = false;
        if continue_queue && self.copy_mode.is_some() {
            let ghost s0 = *self;
            let ghost o0 = *outcome;
            self.dispatch_next_copy_operation(outcome);
            let ghost mid = *self;
            let ghost omid = *outcome;
            self.dispatch_queued_copy_input(outcome);
            assert(s0 == freed(*old(self)));
            assert(dispatched(mid, freed(*old(self)), omid, o0, ops_view(old(self).copy_operation_queue@)));
        } else {
            self.copy_operation_queue.clear();
            self.copy_input_queue.clear();
        }
    }
}

/// What routing `command` does to `s0` (with output `out0`): the effect of
/// each copy-mode command.
#[verifier::opaque]
pub open spec fn routed(
    s1: ClientShellState,
    s0: ClientShellState,
    out1: ClientShellInput,
    out0: ClientShellInput,
    command: CopyKeyCommand,
) -> bool {
    let cm = s0.cm();
    match command {
        CopyKeyCommand::Nothing => crate::copy_mode::untouched(s1, s0, out1, out0),
        CopyKeyCommand::CancelPrefixes => {
            &&& s1.only_copy_mode_changed(s0)
            &&& s1.copy_mode == Some(
                ClientCopyModeState { pending_count: None, pending_find: None, pending_text_object: None, ..cm },
            )
            &&& out1.actions == out0.actions
            &&& out1.repaint
        },
        CopyKeyCommand::ClearSelectionAndSearch => {
            let c = s1.cm();
            &&& s1.copy_mode is Some
            &&& c == ClientCopyModeState {
                selection: None,
                search_query: c.search_query,
                search_direction: None,
                search_matches: c.search_matches,
                search_total: 0,
                search_current: None,
                search_current_global: None,
                search_generation: cm.search_generation.saturating_add(1),
                copy_after_search: false,
                ..cm
            }
            &&& c.search_query@.len() == 0
            &&& c.search_matches@.len() == 0
            &&& s1.selection is None
            &&& s1.copy_session_generation == s0.copy_session_generation.saturating_add(1)
            &&& !s1.copy_operation_in_flight
            &&& s1.copy_operation_queue@.len() == 0
            &&& s1.copy_input_queue@.len() == 0
            &&& s1.same_env(s0)
            &&& s1.same_requests(s0)
            &&& s1.mode == s0.mode
            &&& out1.actions == out0.actions
            &&& out1.repaint
        },
        CopyKeyCommand::CountDigit { digit } => {
            &&& s1.only_copy_mode_changed(s0)
            &&& s1.copy_mode == Some(
                ClientCopyModeState { pending_count: Some(extended_count(cm.pending_count, digit)), ..cm },
            )
            &&& out1 == out0
        },
        CopyKeyCommand::SetPendingFind { forward, till } => {
            &&& s1.only_copy_mode_changed(s0)
            &&& s1.copy_mode == Some(
                ClientCopyModeState { pending_find: Some((forward, till)), pending_text_object: None, ..cm },
            )
            &&& out1.actions == out0.actions
        },
        CopyKeyCommand::SetPendingTextObject { around } => {
            &&& s1.only_copy_mode_changed(s0)
            &&& s1.copy_mode == Some(ClientCopyModeState { pending_text_object: Some(around), ..cm })
            &&& out1.actions == out0.actions
        },
        CopyKeyCommand::Yank => if yank_waits(s0) {
            &&& s1.only_copy_mode_changed(s0)
            &&& out1.actions == out0.actions
            &&& s1.copy_mode == Some(
                ClientCopyModeState { copy_after_search: true, pending_text_object: s1.cm().pending_text_object, ..cm },
            )
        } else {
            crate::copy_mode::exited(s1, s0, out1, out0, true)
        },
        CopyKeyCommand::FindTarget { ch, forward, till } => {
            let mid = with_copy_mode(
                s0,
                ClientCopyModeState {
                    pending_find: None,
                    pending_count: None,
                    last_find: Some(ClientCopyLastFind { ch, forward, till }),
                    ..cm
                },
            );
            &&& out1.repaint
            &&& crate::copy_pipeline::enqueued(
                s1,
                mid,
                ClientShellInput { repaint: out0.repaint, actions: out1.actions },
                out0,
                ops_view(s0.copy_operation_queue@).push(
                    CopyOp::CopyObject(
                        PaneCopyObjectRequest::Find {
                            ch,
                            direction: find_direction(forward),
                            till,
                            count: count_or_one(cm.pending_count),
                            repeat: false,
                        },
                    ),
                ),
            )
        },
        CopyKeyCommand::RepeatMotion { motion } => {
            &&& out1.repaint
            &&& crate::copy_pipeline::enqueued(
                s1,
                prefixes_cleared(s0),
                ClientShellInput { repaint: out0.repaint, actions: out1.actions },
                out0,
                ops_view(s0.copy_operation_queue@).push(
                    CopyOp::Motion { motion, remaining: crate::copy_pipeline::max1(count_or_one(cm.pending_count)) },
                ),
            )
        },
        CopyKeyCommand::WordObject { around, big } => {
            &&& out1.repaint
            &&& crate::copy_pipeline::enqueued(
                s1,
                prefixes_cleared(s0),
                ClientShellInput { repaint: out0.repaint, actions: out1.actions },
                out0,
                ops_view(s0.copy_operation_queue@).push(
                    CopyOp::CopyObject(
                        PaneCopyObjectRequest::Object { inside: !around, open: 'w', close: 'w', count: 1, word: Some(big) },
                    ),
                ),
            )
        },
        CopyKeyCommand::DelimiterObject { around, open, close } => {
            &&& out1.repaint
            &&& crate::copy_pipeline::enqueued(
                s1,
                prefixes_cleared(s0),
                ClientShellInput { repaint: out0.repaint, actions: out1.actions },
                out0,
                ops_view(s0.copy_operation_queue@).push(
                    CopyOp::CopyObject(
                        PaneCopyObjectRequest::Object {
                            inside: !around,
                            open,
                            close,
                            count: match cm.pending_count {
                                Some(c) => c,
                                None => 1,
                            },
                            word: None,
                        },
                    ),
                ),
            )
        },
        CopyKeyCommand::RepeatFind { reverse } => match cm.last_find {
            None => {
                &&& s1.only_copy_mode_changed(s0)
                &&& s1.copy_mode == Some(ClientCopyModeState { pending_count: None, pending_text_object: None, ..cm })
                &&& out1 == out0
            },
            Some(last) => {
                &&& out1.repaint
                &&& crate::copy_pipeline::enqueued(
                    s1,
                    prefixes_cleared(s0),
                    ClientShellInput { repaint: out0.repaint, actions: out1.actions },
                    out0,
                    ops_view(s0.copy_operation_queue@).push(
                        CopyOp::CopyObject(
                            PaneCopyObjectRequest::Find {
                                ch: last.ch,
                                direction: find_direction(last.forward != reverse),
                                till: last.till,
                                count: count_or_one(cm.pending_count),
                                repeat: true,
                            },
                        ),
                    ),
                )
            },
        },
        CopyKeyCommand::Vertical { down } => {
            let t = motion_times(cm.pending_count);
            cursor_moved(s1, prefixes_cleared(s0), out1, out0, if down { t } else { (-t) as i16 }, 0)
        },
        CopyKeyCommand::Horizontal { forward } => {
            let t = motion_times(cm.pending_count);
            cursor_moved(s1, prefixes_cleared(s0), out1, out0, 0, if forward { t } else { (-t) as i16 })
        },
        CopyKeyCommand::BeginSelection { kind } => {
            &&& crate::copy_mode::selection_begun(s1, prefixes_cleared(s0), kind)
            &&& out1.actions == out0.actions
        },
        CopyKeyCommand::OpenSearch { direction } => {
            &&& s1.only_copy_mode_changed(s0)
            &&& s1.copy_mode is Some
            &&& crate::copy_search::prompt_opened(s1.cm(), prefixes_cleared(s0).cm(), direction, cm.pending_count)
            &&& out1.actions == out0.actions
        },
        CopyKeyCommand::History { top } => exists|o: ClientShellInput|
            #[trigger] history_step(s1, s0, o, out0, top) && o.actions == out1.actions,
        CopyKeyCommand::ViewportLine { line } => exists|o: ClientShellInput|
            #[trigger] viewport_line_step(s1, s0, o, out0, line) && o.actions == out1.actions,
        CopyKeyCommand::Page { forward, half_page } => exists|o: ClientShellInput|
            #[trigger] page_step(s1, s0, o, out0, forward, half_page) && o.actions == out1.actions,
        CopyKeyCommand::RepeatSearch { reverse } => exists|o: ClientShellInput|
            #[trigger] repeat_search_step(s1, s0, o, out0, reverse) && o.actions == out1.actions,
        CopyKeyCommand::LineMotion { motion } => exists|m: ClientShellState, o: ClientShellInput|
            #[trigger] line_motion_step(s1, s0, m, o, out1, out0, motion),
        CopyKeyCommand::LineStart => exists|m: ClientShellState, o: ClientShellInput|
            #[trigger] line_start_step(s1, s0, m, o, out1, out0),
        CopyKeyCommand::ColumnBar => {
            &&& column_set(s1, prefixes_cleared(s0), bar_column(s0))
            &&& out1.actions == out0.actions
            &&& out1.repaint
        },
        CopyKeyCommand::Ignore => {
            &&& s1.only_copy_mode_changed(s0)
            &&& s1.copy_mode == Some(ClientCopyModeState { pending_count: None, pending_text_object: None, ..cm })
            &&& out1 == out0
        },
        CopyKeyCommand::ColumnZero => {
            &&& column_set(s1, prefixes_cleared(s0), 0)
            &&& out1.actions == out0.actions
            &&& out1.repaint
        },
        CopyKeyCommand::Exit => crate::copy_mode::exited(s1, s0, out1, out0, false),
    }
}

/// `g`/`G` with the count of `s0`: `g` goes to the top only without a count.
pub open spec fn history_step(s1: ClientShellState, s0: ClientShellState, out1: ClientShellInput, out0: ClientShellInput, top: bool) -> bool {
    let count = s0.cm().pending_count;
    crate::copy_mode::history_moved(s1, prefixes_cleared(s0), out1, out0, top && count is None, count)
}

/// `H`/`M`/`L` with the count of `s0`.
pub open spec fn viewport_line_step(
    s1: ClientShellState,
    s0: ClientShellState,
    out1: ClientShellInput,
    out0: ClientShellInput,
    line: CopyViewportLine,
) -> bool {
    crate::copy_mode::viewport_line_moved(s1, prefixes_cleared(s0), out1, out0, line, s0.cm().pending_count)
}

/// A page key with the count of `s0`.
pub open spec fn page_step(
    s1: ClientShellState,
    s0: ClientShellState,
    out1: ClientShellInput,
    out0: ClientShellInput,
    forward: bool,
    half_page: bool,
) -> bool {
    let direction: i8 = if forward {
        1i8
    } else {
        -1i8
    };
    crate::copy_mode::paged(s1, prefixes_cleared(s0), out1, out0, direction, half_page, s0.cm().pending_count)
}

/// `n`/`N` with the count of `s0`.
pub open spec fn repeat_search_step(
    s1: ClientShellState,
    s0: ClientShellState,
    out1: ClientShellInput,
    out0: ClientShellInput,
    reverse: bool,
) -> bool {
    crate::copy_pipeline::search_repeated(s1, prefixes_cleared(s0), out1, out0, reverse, s0.cm().pending_count)
}

/// The counted commands do not look at a pending text-object prefix: they
/// drop it.
proof fn lemma_routed_without_text_object(
    s1: ClientShellState,
    mid: ClientShellState,
    s0: ClientShellState,
    out1: ClientShellInput,
    out0: ClientShellInput,
    command: CopyKeyCommand,
)
    requires
        s0.copy_mode is Some,
        mid == with_copy_mode(s0, ClientCopyModeState { pending_text_object: None, ..s0.cm() }),
        command is BeginSelection || command is History || command is ViewportLine || command is OpenSearch
            || command is RepeatSearch,
        routed(s1, mid, out1, out0, command),
    ensures
        routed(s1, s0, out1, out0, command),
{
    reveal(routed);
    assert(prefixes_cleared(mid) == prefixes_cleared(s0));
    match command {
        CopyKeyCommand::History { top } => {
            let o = choose|o: ClientShellInput| #[trigger] history_step(s1, mid, o, out0, top) && o.actions == out1.actions;
            assert(history_step(s1, s0, o, out0, top));
        },
        CopyKeyCommand::ViewportLine { line } => {
            let o = choose|o: ClientShellInput|
                #[trigger] viewport_line_step(s1, mid, o, out0, line) && o.actions == out1.actions;
            assert(viewport_line_step(s1, s0, o, out0, line));
        },
        CopyKeyCommand::RepeatSearch { reverse } => {
            let o = choose|o: ClientShellInput|
                #[trigger] repeat_search_step(s1, mid, o, out0, reverse) && o.actions == out1.actions;
            assert(repeat_search_step(s1, s0, o, out0, reverse));
        },
        _ => {},
    }
}

/// `$`, `^` and End drop a pending text-object prefix.
proof fn lemma_line_motion_without_text_object(
    s1: ClientShellState,
    mid: ClientShellState,
    s0: ClientShellState,
    out1: ClientShellInput,
    out0: ClientShellInput,
    motion: PaneCopyMotion,
)
    requires
        s0.copy_mode is Some,
        mid == with_copy_mode(s0, ClientCopyModeState { pending_text_object: None, ..s0.cm() }),
        routed(s1, mid, out1, out0, CopyKeyCommand::LineMotion { motion }),
    ensures
        routed(s1, s0, out1, out0, CopyKeyCommand::LineMotion { motion }),
{
    reveal(routed);
    assert(prefixes_cleared(mid) == prefixes_cleared(s0));
    let (m, o) = choose|m: ClientShellState, o: ClientShellInput| #[trigger] line_motion_step(s1, mid, m, o, out1, out0, motion);
    assert(line_motion_step(s1, s0, m, o, out1, out0, motion));
}

/// The counted commands say nothing of the repaint flag beyond their steps.
proof fn lemma_routed_repainted(
    s1: ClientShellState,
    s0: ClientShellState,
    o: ClientShellInput,
    out1: ClientShellInput,
    out0: ClientShellInput,
    command: CopyKeyCommand,
)
    requires
        command is BeginSelection || command is History || command is ViewportLine || command is OpenSearch
            || command is RepeatSearch,
        routed(s1, s0, o, out0, command),
        o.actions == out1.actions,
    ensures
        routed(s1, s0, out1, out0, command),
{
    reveal(routed);
}

/// The line delta of a counted line-relative key (`3$` acts two lines
/// down), saturated into `i16`.
pub open spec fn line_delta(count: Option<u32>) -> i16 {
    if count_or_one(count).saturating_sub(1) <= 32767 {
        count_or_one(count).saturating_sub(1) as i16
    } else {
        32767
    }
}

/// `$`, `^` or End with the count of `s0`: the cursor first moves count - 1
/// lines down (state `m`), then the motion is queued from there.
pub open spec fn line_motion_step(
    s1: ClientShellState,
    s0: ClientShellState,
    m: ClientShellState,
    o: ClientShellInput,
    out1: ClientShellInput,
    out0: ClientShellInput,
    motion: PaneCopyMotion,
) -> bool {
    &&& cursor_moved(m, prefixes_cleared(s0), o, out0, line_delta(s0.cm().pending_count), 0)
    &&& crate::copy_pipeline::enqueued(
        s1,
        m,
        out1,
        o,
        ops_view(m.copy_operation_queue@).push(CopyOp::Motion { motion, remaining: 1 }),
    )
}

/// The column `|` moves to: count - 1, clamped to the pane's last column.
pub open spec fn bar_column(s0: ClientShellState) -> u16 {
    let width: u16 = match s0.hit_rect() {
        Some(rect) => if rect.width > 1 {
            rect.width
        } else {
            1
        },
        None => 1,
    };
    match s0.cm().pending_count {
        Some(n) => if n.saturating_sub(1) <= (width - 1) as u32 {
            n.saturating_sub(1) as u16
        } else {
            (width - 1) as u16
        },
        None => 0,
    }
}

/// `s1` is `s0` with the copy cursor set to column `col` and the selection
/// following it.
pub open spec fn column_set(s1: ClientShellState, s0: ClientShellState, col: u16) -> bool {
    let c = s0.cm();
    let s2 = with_copy_mode(s0, ClientCopyModeState { cursor: PaneTextPoint { col: col, ..c.cursor }, ..c });
    &&& s1.copy_mode == s2.copy_mode
    &&& s1.selection == crate::copy_view::synced_selection(s2, s2.hit_rect())
    &&& s1.same_env(s0)
    &&& s1.same_pipeline(s0)
    &&& s1.same_requests(s0)
    &&& s1.mode == s0.mode
}

/// Home with the count of `s0`: the cursor moves count - 1 lines down (state
/// `m`), then to column 0.
pub open spec fn line_start_step(
    s1: ClientShellState,
    s0: ClientShellState,
    m: ClientShellState,
    o: ClientShellInput,
    out1: ClientShellInput,
    out0: ClientShellInput,
) -> bool {
    &&& cursor_moved(m, prefixes_cleared(s0), o, out0, line_delta(s0.cm().pending_count), 0)
    &&& if m.copy_mode is Some {
        column_set(s1, m, 0)
    } else {
        s1.only_copy_mode_changed(m) && s1.copy_mode is None && s1.selection == m.selection
    }
    &&& out1.actions == o.actions
    &&& out1.repaint
}

/// The prompt text after editing key `k`.
pub open spec fn edited_text(t: Seq<char>, k: EditorKey) -> Seq<char> {
    match k {
        EditorKey::Insert(c) => t.push(c),
        EditorKey::Backspace => if t.len() > 0 {
            t.drop_last()
        } else {
            t
        },
        EditorKey::Clear => Seq::empty(),
        EditorKey::NotEditing => t,
    }
}

/// Whether editing key `k` changes the prompt text `t`.
pub open spec fn edit_changes(t: Seq<char>, k: EditorKey) -> bool {
    match k {
        EditorKey::Insert(_) => true,
        EditorKey::Backspace => t.len() > 0,
        EditorKey::Clear => t.len() > 0,
        EditorKey::NotEditing => false,
    }
}

/// The steps of a key taken by the open search prompt of `s0`, through the
/// intermediate states `m1`, `m2` and output `o2`: Esc closes the prompt,
/// advances the search generation, drops queued searches, retires an
/// unanswered one and dispatches the queue; Enter closes the prompt and
/// commits its query; any other key edits the query, and a change refreshes
/// the live search. The result is repainted.
pub open spec fn prompt_steps(
    s1: ClientShellState,
    s0: ClientShellState,
    out1: ClientShellInput,
    out0: ClientShellInput,
    key: TerminalKey,
    m1: ClientShellState,
    m2: ClientShellState,
    o2: ClientShellInput,
) -> bool {
    let cm = s0.cm();
    let p = cm.search_prompt->0;
    &&& out1 == (ClientShellInput { repaint: true, ..o2 })
    &&& match key.code {
        KeyCode::Esc => {
            let m0 = with_copy_mode(
                s0,
                ClientCopyModeState {
                    search_prompt: None,
                    search_generation: cm.search_generation.saturating_add(1),
                    copy_after_search: false,
                    ..cm
                },
            );
            &&& ops_view(m1.copy_operation_queue@) == crate::copy_pipeline::without_searches(
                ops_view(m0.copy_operation_queue@),
            )
            &&& m1.same_env(m0)
            &&& m1.same_requests(m0)
            &&& m1.mode == m0.mode
            &&& m1.selection == m0.selection
            &&& m1.copy_mode == m0.copy_mode
            &&& m1.copy_session_generation == m0.copy_session_generation
            &&& m1.copy_operation_in_flight == m0.copy_operation_in_flight
            &&& m1.copy_input_queue@ == m0.copy_input_queue@
            &&& crate::copy_pipeline::retired(m2, m1)
            &&& m2.same_env(m1)
            &&& m2.same_requests(m1)
            &&& m2.mode == m1.mode
            &&& m2.selection == m1.selection
            &&& m2.copy_mode == m1.copy_mode
            &&& m2.copy_operation_queue@ == m1.copy_operation_queue@
            &&& m2.copy_input_queue@ == m1.copy_input_queue@
            &&& dispatched(s1, m2, o2, out0, ops_view(m2.copy_operation_queue@))
        },
        KeyCode::Enter => crate::copy_search::search_committed(
            s1,
            with_copy_mode(s0, ClientCopyModeState { search_prompt: None, ..cm }),
            o2,
            out0,
            p.query.text@,
            p.direction,
            p.count,
        ),
        _ => {
            let k = editor_key(key);
            &&& crate::copy_search::prompt_text_now(m1, s0, edited_text(p.query.text@, k))
            &&& if edit_changes(p.query.text@, k) {
                crate::copy_search::refreshed(s1, m1, o2, out0)
            } else {
                s1 == m1 && o2 == out0
            }
        },
    }
}

/// What the open search prompt of `s0` does with `key` (see `prompt_steps`).
pub open spec fn prompt_key_routed(
    s1: ClientShellState,
    s0: ClientShellState,
    out1: ClientShellInput,
    out0: ClientShellInput,
    key: TerminalKey,
) -> bool {
    exists|m1: ClientShellState, m2: ClientShellState, o2: ClientShellInput|
        #[trigger] prompt_steps(s1, s0, out1, out0, key, m1, m2, o2)
}

/// A yank that waits for the search still in flight: the copy happens
/// when its result arrives. Typed as `y` it also drops a pending text-object
/// prefix and repaints; as Enter it keeps the prefix.
pub open spec fn yank_deferred(
    s1: ClientShellState,
    s0: ClientShellState,
    out1: ClientShellInput,
    out0: ClientShellInput,
    typed: bool,
) -> bool {
    let cm = s0.cm();
    &&& s1.only_copy_mode_changed(s0)
    &&& s1.copy_mode == Some(
        ClientCopyModeState {
            copy_after_search: true,
            pending_text_object: if typed {
                None
            } else {
                cm.pending_text_object
            },
            ..cm
        },
    )
    &&& out1.actions == out0.actions
    &&& out1.repaint == (out0.repaint || typed)
}

/// `s` with copy mode `c`.
pub open spec fn with_copy_mode(s: ClientShellState, c: ClientCopyModeState) -> ClientShellState {
    ClientShellState { copy_mode: Some(c), ..s }
}

/// `s` once a command took the count and dropped the pending find and
/// text-object prefixes.
pub open spec fn prefixes_cleared(s: ClientShellState) -> ClientShellState {
    with_copy_mode(
        s,
        ClientCopyModeState { pending_count: None, pending_find: None, pending_text_object: None, ..s.cm() },
    )
}

/// The cell delta of a counted plain motion, saturated into `i16`.
pub open spec fn motion_times(count: Option<u32>) -> i16 {
    if count_or_one(count) <= 32767 {
        count_or_one(count) as i16
    } else {
        32767
    }
}

/// `s1` is `s0` after the cursor moved by whole rows and columns inside the
/// pane (see `move_copy_cursor`).
pub open spec fn cursor_moved(
    s1: ClientShellState,
    s0: ClientShellState,
    out1: ClientShellInput,
    out0: ClientShellInput,
    row_delta: i16,
    col_delta: i16,
) -> bool {
    match s0.hit_rect() {
        None => crate::copy_mode::exited(s1, s0, out1, out0, false),
        Some(rect) => {
            let cm = s0.cm();
            let cm1 = ClientCopyModeState {
                cursor: PaneTextPoint {
                    row: crate::copy_mode::moved_row(cm.cursor.row, row_delta, cm.max_offset_from_bottom, rect.height),
                    col: crate::copy_mode::moved_col(cm.cursor.col, col_delta, rect.width),
                },
                ..cm
            };
            crate::copy_mode::followed(s1, s0, out1, out0, cm1, false)
        },
    }
}

/// Whether a yank must wait for the current search to answer: a search of
/// this pane, generation and session is pending, or one is queued.
pub open spec fn yank_waits(s: ClientShellState) -> bool {
    s.copy_mode matches Some(cm) && (crate::copy_pipeline::pending_search_for(
        crate::copy_state::pending_view(s.pending_requests@),
        cm.pane_id@,
        cm.search_generation,
        s.copy_session_generation,
    ) || crate::copy_pipeline::has_search(ops_view(s.copy_operation_queue@)))
}

/// Commands only a plain character key decodes to.
pub open spec fn char_only(command: CopyKeyCommand) -> bool {
    command is CountDigit || command is SetPendingFind || command is SetPendingTextObject || command is FindTarget
        || command is RepeatMotion || command is WordObject || command is DelimiterObject || command is RepeatFind
        || command is Ignore || command is ColumnZero || command is History || command is ViewportLine
        || command is OpenSearch || command is RepeatSearch || command is ColumnBar
}

/// Commands only keys other than plain characters decode to.
pub open spec fn special_only(command: CopyKeyCommand) -> bool {
    command is Page || command is LineStart
}

/// A key that types a character (no control chord).
pub open spec fn plain_char_key(key: TerminalKey) -> bool {
    key.code is Char && !control(key)
}

/// Commands that act on the cursor or selection after taking the count and
/// dropping pending prefixes.
pub open spec fn moves_after_prefixes(command: CopyKeyCommand) -> bool {
    !(command == CopyKeyCommand::Exit || command == CopyKeyCommand::Yank || command == CopyKeyCommand::Nothing
        || command == CopyKeyCommand::ClearSelectionAndSearch)
}

/// `s1` (output `out1`) is `s0` (output `out0`) after a copy operation of
/// `session_generation` finished: a stale session changes nothing; without
/// `continue_queue`, or without copy mode, the pipeline is freed and both
/// queues drop; otherwise the pipeline is freed, the next queued operation
/// is dispatched and queued input replays until a request is in flight or
/// the input queue is empty.
pub open spec fn completed(
    s1: ClientShellState,
    s0: ClientShellState,
    out1: ClientShellInput,
    out0: ClientShellInput,
    session_generation: u64,
    continue_queue: bool,
) -> bool {
    &&& session_generation != s0.copy_session_generation ==> crate::copy_mode::untouched(s1, s0, out1, out0)
    &&& session_generation == s0.copy_session_generation && !(continue_queue && s0.copy_mode is Some) ==> {
        &&& !s1.copy_operation_in_flight
        &&& s1.copy_operation_queue@.len() == 0
        &&& s1.copy_input_queue@.len() == 0
        &&& s1.copy_mode == s0.copy_mode
        &&& s1.same_requests(s0)
        &&& s1.mode == s0.mode
        &&& s1.selection == s0.selection
        &&& s1.copy_session_generation == s0.copy_session_generation
        &&& out1 == out0
    }
    &&& session_generation == s0.copy_session_generation && continue_queue && s0.copy_mode is Some ==> {
        exists|mid: ClientShellState, omid: ClientShellInput|
            #[trigger] dispatched(mid, freed(s0), omid, out0, ops_view(s0.copy_operation_queue@)) && replayed(
                s1,
                mid,
                out1,
                omid,
            )
    }
}

/// What handling `key` does to `s0` (output `out0`): while a request is in
/// flight a key other than Esc waits in the input queue; outside copy mode
/// nothing happens; otherwise the open search prompt takes the key, or, with
/// the prompt closed, the key's command is routed.
pub open spec fn key_handled(
    s1: ClientShellState,
    s0: ClientShellState,
    out1: ClientShellInput,
    out0: ClientShellInput,
    key: TerminalKey,
) -> bool {
    &&& if waits_for_pipeline(s0, key) {
        &&& s1.copy_input_queue@ == s0.copy_input_queue@.push(key)
        &&& s1.copy_operation_queue@ == s0.copy_operation_queue@
        &&& s1.copy_operation_in_flight
        &&& s1.copy_mode == s0.copy_mode
        &&& s1.same_env(s0)
        &&& s1.same_requests(s0)
        &&& s1.mode == s0.mode
        &&& s1.selection == s0.selection
        &&& s1.copy_session_generation == s0.copy_session_generation
        &&& out1 == out0
    } else {
        s1.stepped(s0)
    }
    &&& (s0.mode != ClientShellMode::Copy || s0.copy_mode is None) ==> crate::copy_mode::untouched(s1, s0, out1, out0)
    &&& (s0.mode == ClientShellMode::Copy && s0.copy_mode is Some && !waits_for_pipeline(s0, key)
        && s0.cm().search_prompt is None) ==> routed(s1, s0, out1, out0, key_command(s0, key))
    &&& (s0.mode == ClientShellMode::Copy && s0.copy_mode is Some && !waits_for_pipeline(s0, key)
        && s0.cm().search_prompt is None && key_command(s0, key) == CopyKeyCommand::Yank && yank_waits(s0))
        ==> yank_deferred(s1, s0, out1, out0, plain_char_key(key))
    &&& (s0.mode == ClientShellMode::Copy && s0.copy_mode is Some && s0.cm().search_prompt is Some) ==> prompt_key_routed(
        s1,
        s0,
        out1,
        out0,
        key,
    )
}

/// Step `j` of a replay: nothing was in flight, the first queued key was
/// taken off the queue (`pops[j]`) and then handled.
pub open spec fn replay_step(
    states: Seq<ClientShellState>,
    outs: Seq<ClientShellInput>,
    pops: Seq<ClientShellState>,
    j: int,
) -> bool {
    &&& !states[j].copy_operation_in_flight
    &&& states[j].copy_input_queue@.len() > 0
    &&& pops[j] == (ClientShellState { copy_input_queue: pops[j].copy_input_queue, ..states[j] })
    &&& pops[j].copy_input_queue@ == states[j].copy_input_queue@.drop_first()
    &&& key_handled(states[j + 1], pops[j], outs[j + 1], outs[j], states[j].copy_input_queue@[0])
}

/// `states` and `outs` record a replay of queued input, one step per key.
pub open spec fn replay_trace(states: Seq<ClientShellState>, outs: Seq<ClientShellInput>, pops: Seq<ClientShellState>) -> bool {
    &&& states.len() == pops.len() + 1
    &&& outs.len() == states.len()
    &&& forall|j: int| #![trigger pops[j]] 0 <= j < pops.len() ==> replay_step(states, outs, pops, j)
}

/// `s1` (output `out1`) is `s0` (output `out0`) after queued input was
/// replayed key by key until a request went in flight or the queue ran dry.
pub open spec fn replayed(s1: ClientShellState, s0: ClientShellState, out1: ClientShellInput, out0: ClientShellInput) -> bool {
    &&& s1.copy_operation_in_flight || s1.copy_input_queue@.len() == 0
    &&& exists|states: Seq<ClientShellState>, outs: Seq<ClientShellInput>, pops: Seq<ClientShellState>|
        #[trigger] replay_trace(states, outs, pops) && states[0] == s0 && outs[0] == out0 && states.last() == s1
            && outs.last() == out1
}

/// `s` with the pipeline free again.
pub open spec fn freed(s: ClientShellState) -> ClientShellState {
    ClientShellState { copy_operation_in_flight: false, ..s }
}

/// Whether `key` must wait behind the in-flight copy request.
pub open spec fn waits_for_pipeline(s: ClientShellState, key: TerminalKey) -> bool {
    &&& s.mode == ClientShellMode::Copy
    &&& s.copy_mode is Some
    &&& s.copy_operation_in_flight
    &&& s.cm().search_prompt is None
    &&& key.code != KeyCode::Esc
}

/// The count prefix accumulates decimal digits and is capped at ten
/// thousand, so a count never grows without bound.
pub proof fn lemma_count_prefix(count: Option<u32>, digit: u32)
    requires
        digit <= 9,
    ensures
        extended_count(count, digit) <= 10_000,
        ({
            let base: int = match count {
                Some(c) => c as int,
                None => 0,
            };
            &&& base * 10 + digit <= 10_000 ==> extended_count(count, digit) == base * 10 + digit
            &&& base * 10 + digit > 10_000 ==> extended_count(count, digit) == 10_000
        }),
{
}


/// A bracket typed after `i` or `a` asks for the object of the pair that
/// bracket belongs to, whichever side of the pair was typed and whatever
/// count is pending.
pub proof fn lemma_bracket_selects_its_pair(s: ClientShellState, key: TerminalKey, c: char, around: bool)
    requires
        s.copy_mode is Some,
        s.cm().pending_find is None,
        s.cm().pending_text_object == Some(around),
        key.code == KeyCode::Char(c),
        !key.modifiers.has(KeyModifiers { bits: 2 }),
        !key.modifiers.has(KeyModifiers { bits: 4 }),
        c == '(' || c == ')' || c == '[' || c == ']' || c == '{' || c == '}',
    ensures
        (c == '(' || c == ')') ==> key_command(s, key) == (CopyKeyCommand::DelimiterObject {
            around: around,
            open: '(',
            close: ')',
        }),
        (c == '[' || c == ']') ==> key_command(s, key) == (CopyKeyCommand::DelimiterObject {
            around: around,
            open: '[',
            close: ']',
        }),
        (c == '{' || c == '}') ==> key_command(s, key) == (CopyKeyCommand::DelimiterObject {
            around: around,
            open: '{',
            close: '}',
        }),
{
}

} // verus!
