//! Single-line text input used by the copy-mode search prompt.
use crate::types::{KeyCode, KeyModifiers, TerminalKey};
use vstd::prelude::*;

verus! {

/// Folds line breaks into spaces: a CR LF pair, a lone CR and a lone LF each
/// become one space, so pasted text stays on one line.
pub open spec fn single_line(s: Seq<char>) -> Seq<char>
    decreases s.len(),
{
    if s.len() == 0 {
        Seq::empty()
    } else if s[0] == '\r' && s.len() > 1 && s[1] == '\n' {
        seq![' '] + single_line(s.skip(2))
    } else if s[0] == '\r' || s[0] == '\n' {
        seq![' '] + single_line(s.skip(1))
    } else {
        seq![s[0]] + single_line(s.skip(1))
    }
}

/// Editing keys: plain characters insert, Backspace deletes the last
/// character, Ctrl-U clears.
pub enum EditorKey {
    Insert(char),
    Backspace,
    Clear,
    NotEditing,
}

pub open spec fn editor_key(key: TerminalKey) -> EditorKey {
    match key.code {
        KeyCode::Char(c) => {
            if key.modifiers.has(KeyModifiers { bits: 2 }) {
                if c == 'u' {
                    EditorKey::Clear
                } else {
                    EditorKey::NotEditing
                }
            } else if key.modifiers.has(KeyModifiers { bits: 4 }) {
                EditorKey::NotEditing
            } else {
                EditorKey::Insert(c)
            }
        },
        KeyCode::Backspace => EditorKey::Backspace,
        _ => EditorKey::NotEditing,
    }
}

/// The query typed into the search prompt; edits happen at the end.
#[derive(Clone, Debug)]
pub struct TextEditor {
    pub text: Vec<char>,
}

impl TextEditor {
    pub fn new() -> (r: TextEditor)
        ensures
            r.text@ == Seq::<char>::empty(),
    {
        TextEditor { text: Vec::new() }
    }

    pub fn is_empty(&self) -> (r: bool)
        ensures
            r == (self.text@.len() == 0),
    {
        self.text.len() == 0
    }

    /// Appends `text` with its line breaks folded into spaces; reports whether
    /// anything was added.
    pub fn insert(&mut self, text: &str) -> (changed: bool)
        ensures
            final(self).text@ == old(self).text@ + single_line(text@),
            changed == (single_line(text@).len() > 0),
    {
        let mut chars: Vec<char> = Vec::new();
        for c in it: text.chars()
            invariant
                chars@ == it.seq().take(it.index() as int),
        {
            chars.push(c);
        }
        let ghost s = chars@;
        assert(s == text@);
        let mut out: Vec<char> = Vec::new();
        let mut i: usize = 0;
        let n = chars.len();
        assert(s.skip(0) == s);
        while i < n
            invariant
                n == s.len(),
                chars@ == s,
                i <= n,
                out@ + single_line(s.skip(i as int)) == single_line(s),
            decreases n - i,
        {
            let c = chars[i];
            let ghost rest = s.skip(i as int);
            if c == '\r' && i + 1 < n && chars[i + 1] == '\n' {
                assert(rest.skip(2) == s.skip(i + 2));
                out.push(' ');
                i = i + 2;
            } else if c == '\r' || c == '\n' {
                assert(rest.skip(1) == s.skip(i + 1));
                out.push(' ');
                i = i + 1;
            } else {
                assert(rest.skip(1) == s.skip(i + 1));
                out.push(c);
                i = i + 1;
            }
        }
        assert(s.skip(n as int) == Seq::<char>::empty());
        assert(out@ == single_line(s));
        let changed = out.len() > 0;
        let mut j: usize = 0;
        let ghost start = self.text@;
        while j < out.len()
            invariant
                j <= out@.len(),
                self.text@ == start + out@.take(j as int),
            decreases out@.len() - j,
        {
            self.text.push(out[j]);
            j = j + 1;
            assert(out@.take(j as int) == out@.take(j - 1) + seq![out@[j - 1]]);
        }
        assert(out@.take(out@.len() as int) == out@);
        changed
    }

    /// Applies an editing key. `None` when the key is not an editing key;
    /// otherwise whether the text changed.
    pub fn handle_key(&mut self, key: &TerminalKey) -> (r: Option<bool>)
        ensures
            match editor_key(*key) {
                EditorKey::Insert(c) => r == Some(true) && final(self).text@ == old(self).text@.push(c),
                EditorKey::Backspace => if old(self).text@.len() > 0 {
                    r == Some(true) && final(self).text@ == old(self).text@.drop_last()
                } else {
                    r == Some(false) && final(self).text@ == old(self).text@
                },
                EditorKey::Clear => if old(self).text@.len() > 0 {
                    r == Some(true) && final(self).text@ == Seq::<char>::empty()
                } else {
                    r == Some(false) && final(self).text@ == old(self).text@
                },
                EditorKey::NotEditing => r is None && final(self).text@ == old(self).text@,
            },
    {
        match key.code {
            KeyCode::Char(c) => {
                if key.modifiers.contains(KeyModifiers::control()) {
                    if c == 'u' {
                        if self.text.len() > 0 {
                            self.text.clear();
                            Some(true)
                        } else {
                            Some(false)
                        }
                    } else {
                        None
                    }
                } else if key.modifiers.contains(KeyModifiers::alt()) {
                    None
                } else {
                    self.text.push(c);
                    Some(true)
                }
            },
            KeyCode::Backspace => {
                if self.text.len() > 0 {
                    self.text.pop();
                    Some(true)
                } else {
                    Some(false)
                }
            },
            _ => None,
        }
    }
}

impl Default for TextEditor {
    fn default() -> (r: TextEditor)
        ensures
            r.text@ == Seq::<char>::empty(),
    {
        TextEditor::new()
    }
}

/// Folded text never holds a line break.
pub proof fn lemma_single_line_has_no_breaks(s: Seq<char>)
    ensures
        forall|i: int|
            0 <= i < single_line(s).len() ==> #[trigger] single_line(s)[i] != '\n' && single_line(s)[i] != '\r',
    decreases s.len(),
{
    if s.len() > 0 {
        if s[0] == '\r' && s.len() > 1 && s[1] == '\n' {
            lemma_single_line_has_no_breaks(s.skip(2));
        } else {
            lemma_single_line_has_no_breaks(s.skip(1));
        }
        let head = if s[0] == '\r' || s[0] == '\n' {
            ' '
        } else {
            s[0]
        };
        let rest = if s[0] == '\r' && s.len() > 1 && s[1] == '\n' {
            single_line(s.skip(2))
        } else {
            single_line(s.skip(1))
        };
        assert(single_line(s) == seq![head] + rest);
        assert forall|i: int| 0 <= i < single_line(s).len() implies #[trigger] single_line(s)[i] != '\n'
            && single_line(s)[i] != '\r' by {
            if i > 0 {
                assert(single_line(s)[i] == rest[i - 1]);
            }
        }
    }
}

/// Text without line breaks goes in unchanged.
pub proof fn lemma_single_line_keeps_plain_text(s: Seq<char>)
    requires
        forall|i: int| 0 <= i < s.len() ==> #[trigger] s[i] != '\n' && s[i] != '\r',
    ensures
        single_line(s) == s,
    decreases s.len(),
{
    if s.len() > 0 {
        assert forall|i: int| 0 <= i < s.skip(1).len() implies #[trigger] s.skip(1)[i] != '\n' && s.skip(1)[i]
            != '\r' by {
            assert(s.skip(1)[i] == s[i + 1]);
        }
        lemma_single_line_keeps_plain_text(s.skip(1));
        assert(seq![s[0]] + s.skip(1) =~= s);
    }
}

} // verus!
