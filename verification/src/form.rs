//! Keyboard-driven forms: text, path and choice fields.

use tui_input::{Input, InputRequest};
use vstd::prelude::*;
use vstd::string::*;
use crate::input::{KeyCode, KeyEvent};

verus! {

/// The characters of each text.
pub open spec fn texts(list: Seq<String>) -> Seq<Seq<char>> {
    list.map_values(|text: String| text@)
}

/// Returns a copy of a list of texts.
pub fn copy_texts(list: &Vec<String>) -> (copy: Vec<String>)
    ensures
        copy@ == list@,
{
    let mut copy: Vec<String> = Vec::new();
    let mut i: usize = 0;
    while i < list.len()
        invariant
            i <= list@.len(),
            copy@ == list@.take(i as int),
        decreases list@.len() - i,
    {
        copy.push(list[i].clone());
        i = i + 1;
        assert(copy@ =~= list@.take(i as int));
    }
    assert(list@.take(i as int) =~= list@);
    copy
}

/// The index after `index` in a ring of `len` places.
pub open spec fn ring_next(index: usize, len: nat) -> usize {
    ((index + 1) % len as int) as usize
}

/// The index before `index` in a ring of `len` places.
pub open spec fn ring_previous(index: usize, len: nat) -> usize {
    if index > 0 {
        (index - 1) as usize
    } else if len > 0 {
        (len - 1) as usize
    } else {
        0
    }
}

/// Returns the index after `index` in a ring of `len` places.
pub fn next_in_ring(index: usize, len: usize) -> (next: usize)
    requires
        len > 0,
    ensures
        next == ring_next(index, len as nat),
        next < len,
{
    let place: usize = index % len;
    let next: usize = if place + 1 == len {
        0
    } else {
        place + 1
    };
    proof {
        let q = index as int / len as int;
        vstd::arithmetic::div_mod::lemma_fundamental_div_mod(index as int, len as int);
        if place + 1 == len {
            assert(index + 1 == (q + 1) * len) by (nonlinear_arith)
                requires
                    index == len * q + place,
                    place + 1 == len,
            ;
            vstd::arithmetic::div_mod::lemma_fundamental_div_mod_converse(
                index + 1,
                len as int,
                q + 1,
                0,
            );
        } else {
            assert(index + 1 == q * len + (place + 1)) by (nonlinear_arith)
                requires
                    index == len * q + place,
            ;
            vstd::arithmetic::div_mod::lemma_fundamental_div_mod_converse(
                index + 1,
                len as int,
                q,
                place + 1,
            );
        }
    }
    next
}

/// Returns the index before `index` in a ring of `len` places.
pub fn previous_in_ring(index: usize, len: usize) -> (previous: usize)
    ensures
        previous == ring_previous(index, len as nat),
{
    if index > 0 {
        index - 1
    } else if len > 0 {
        len - 1
    } else {
        0
    }
}

/// Going round a ring forward and back, or back and forward, ends where it
/// began.
pub proof fn ring_steps_undo_each_other(index: usize, len: nat)
    requires
        index < len <= usize::MAX,
    ensures
        ring_previous(ring_next(index, len), len) == index,
        ring_next(ring_previous(index, len), len) == index,
{
    if index + 1 < len {
        vstd::arithmetic::div_mod::lemma_small_mod((index + 1) as nat, len);
    } else {
        vstd::arithmetic::div_mod::lemma_mod_self_0(len as int);
    }
    if index > 0 {
        vstd::arithmetic::div_mod::lemma_small_mod(index as nat, len);
    } else {
        vstd::arithmetic::div_mod::lemma_mod_self_0(len as int);
    }
}

/// An edit of a line of text.
#[derive(Debug, Clone, Copy, PartialEq, Eq, Structural)]
pub enum Edit {
    /// Inserts a character at the cursor.
    Insert(char),
    /// Deletes the user-perceived character before the cursor.
    DeletePrevious,
    /// Deletes the user-perceived character behind the cursor.
    DeleteNext,
    /// Moves over the user-perceived character before the cursor.
    GoBack,
    /// Moves over the user-perceived character behind the cursor.
    GoForward,
    /// Moves to the start.
    GoToStart,
    /// Moves to the end.
    GoToEnd,
}

/// The characters and the cursor of a line of text.
#[verifier::ext_equal]
pub struct Line {
    /// Characters.
    pub value: Seq<char>,
    /// Number of characters before the cursor.
    pub cursor: nat,
}

/// The number of characters that form the user-perceived character before the
/// cursor, or behind it.
pub uninterp spec fn grapheme_len(value: Seq<char>, cursor: nat, forward: bool) -> nat;

/// The display column of the cursor.
pub uninterp spec fn cursor_column(value: Seq<char>, cursor: nat) -> usize;

/// The number of columns that are scrolled away for the cursor to stay inside
/// a width.
pub uninterp spec fn scroll_columns(value: Seq<char>, cursor: nat, width: usize) -> usize;

impl Line {
    /// The line with the cursor inside it.
    pub open spec fn clamped(self) -> Line {
        if self.cursor <= self.value.len() {
            self
        } else {
            Line { value: self.value, cursor: self.value.len() }
        }
    }

    /// The line after an edit.
    pub open spec fn edited(self, edit: Edit) -> Line {
        let at = self.clamped().cursor;
        let back = grapheme_len(self.value, at, false);
        let forward = grapheme_len(self.value, at, true);
        match edit {
            Edit::Insert(c) => Line { value: self.value.insert(at as int, c), cursor: at + 1 },
            Edit::DeletePrevious => Line {
                value: self.value.take(at - back) + self.value.skip(at as int),
                cursor: (at - back) as nat,
            },
            Edit::DeleteNext => Line {
                value: self.value.take(at as int) + self.value.skip((at + forward) as int),
                cursor: at,
            },
            Edit::GoBack => Line { value: self.value, cursor: (at - back) as nat },
            Edit::GoForward => Line { value: self.value, cursor: at + forward },
            Edit::GoToStart => Line { value: self.value, cursor: 0 },
            Edit::GoToEnd => Line { value: self.value, cursor: self.value.len() },
        }
    }
}

/// Whether `to` is a place that one step back reaches: nearer to the start,
/// unless the cursor already stands there.
pub open spec fn stepped_back(line: Line, to: int) -> bool {
    0 <= to <= line.cursor && (to == line.cursor <==> line.cursor == 0)
}

/// Whether `to` is a place that one step forward reaches: nearer to the end,
/// unless the cursor already stands there.
pub open spec fn stepped_forward(line: Line, to: int) -> bool {
    line.cursor <= to <= line.value.len() && (to == line.cursor <==> line.cursor
        == line.value.len())
}

/// Whether an edit took the line from `before` to `after` by a step that stays
/// inside the text: going back and deleting backwards cross at least one
/// character unless the cursor stands at the start, going forward and deleting
/// forwards unless it stands at the end.
pub open spec fn stepped(before: Line, edit: Edit, after: Line) -> bool {
    match edit {
        Edit::DeletePrevious => stepped_back(before, after.cursor as int) && after.value.len()
            == before.value.len() - (before.cursor - after.cursor),
        Edit::GoBack => stepped_back(before, after.cursor as int),
        Edit::DeleteNext => stepped_forward(
            before,
            before.cursor + (before.value.len() - after.value.len()),
        ),
        Edit::GoForward => stepped_forward(before, after.cursor as int),
        _ => true,
    }
}

/// Applies an edit with `tui_input::Input::handle`.
///
/// Insertion and the jumps to either end are exact. Going back or forward, and
/// deleting, steps over one grapheme: `grapheme_len` names how many characters
/// that is. The step stays inside the text and is empty only at the end of the
/// text that it would cross.
#[verifier::external_body]
fn handle_edit(value: String, cursor: usize, edit: Edit) -> (line: (String, usize))
    ensures
        line.0@ == (Line { value: value@, cursor: cursor as nat }).edited(edit).value,
        line.1 as nat == (Line { value: value@, cursor: cursor as nat }).edited(edit).cursor,
        (edit is DeletePrevious || edit is GoBack) ==> line.1 == (Line {
            value: value@,
            cursor: cursor as nat,
        }).clamped().cursor - grapheme_len(
            value@,
            (Line { value: value@, cursor: cursor as nat }).clamped().cursor,
            false,
        ),
        stepped(
            (Line { value: value@, cursor: cursor as nat }).clamped(),
            edit,
            (Line { value: line.0@, cursor: line.1 as nat }),
        ),
{
    let mut input = Input::new(value).with_cursor(cursor);
    input.handle(match edit {
        Edit::Insert(c) => InputRequest::InsertChar(c),
        Edit::DeletePrevious => InputRequest::DeletePrevChar,
        Edit::DeleteNext => InputRequest::DeleteNextChar,
        Edit::GoBack => InputRequest::GoToPrevChar,
        Edit::GoForward => InputRequest::GoToNextChar,
        Edit::GoToStart => InputRequest::GoToStart,
        Edit::GoToEnd => InputRequest::GoToEnd,
    });
    let cursor = input.cursor();
    (input.into(), cursor)
}

/// Asks `tui_input::Input::visual_cursor` for the display column of the cursor,
/// which `cursor_column` names: it rests on the display widths of the
/// characters.
#[verifier::external_body]
fn visual_cursor(value: &String, cursor: usize) -> (column: usize)
    ensures
        column == cursor_column(
            value@,
            (Line { value: value@, cursor: cursor as nat }).clamped().cursor,
        ),
{
    Input::new(value.clone()).with_cursor(cursor).visual_cursor()
}

/// Asks `tui_input::Input::visual_scroll` for the columns to scroll away, which
/// `scroll_columns` names: it rests on the display widths of the characters.
#[verifier::external_body]
fn visual_scroll(value: &String, cursor: usize, width: usize) -> (columns: usize)
    ensures
        columns == scroll_columns(
            value@,
            (Line { value: value@, cursor: cursor as nat }).clamped().cursor,
            width,
        ),
{
    Input::new(value.clone()).with_cursor(cursor).visual_scroll(width)
}

/// A line of text with a cursor.
#[derive(Debug)]
pub struct TextInput {
    /// Text.
    pub value: String,
    /// Number of characters before the cursor.
    pub cursor: usize,
}

impl View for TextInput {
    type V = Line;

    open spec fn view(&self) -> Line {
        Line { value: self.value@, cursor: self.cursor as nat }
    }
}

impl TextInput {
    /// A line that holds `value`, with the cursor at its end.
    pub fn new(value: String) -> (input: Self)
        ensures
            input@ == (Line { value: value@, cursor: value@.len() }),
            input.value == value,
    {
        let cursor: usize = value.as_str().unicode_len();
        TextInput { value, cursor }
    }

    /// Returns a copy of the line.
    pub fn copied(&self) -> (copy: Self)
        ensures
            copy == *self,
    {
        TextInput { value: self.value.clone(), cursor: self.cursor }
    }

    /// Applies an edit.
    pub fn apply(&mut self, edit: Edit)
        ensures
            final(self)@ == old(self)@.edited(edit),
            stepped(old(self)@.clamped(), edit, final(self)@),
            old(self)@.cursor <= old(self)@.value.len() ==> final(self)@.cursor
                <= final(self)@.value.len(),
    {
        let (value, cursor) = handle_edit(self.value.clone(), self.cursor, edit);
        self.value = value;
        self.cursor = cursor;
    }
}

/// What a key does to a line of text.
pub open spec fn edit_of(code: KeyCode) -> Option<Edit> {
    match code {
        KeyCode::Char(c) => Some(Edit::Insert(c)),
        KeyCode::Backspace => Some(Edit::DeletePrevious),
        KeyCode::Delete => Some(Edit::DeleteNext),
        KeyCode::Left => Some(Edit::GoBack),
        KeyCode::Right => Some(Edit::GoForward),
        KeyCode::Home => Some(Edit::GoToStart),
        KeyCode::End => Some(Edit::GoToEnd),
        _ => None,
    }
}

/// Returns what a key does to a line of text.
fn key_edit(code: KeyCode) -> (edit: Option<Edit>)
    ensures
        edit == edit_of(code),
{
    match code {
        KeyCode::Char(c) => Some(Edit::Insert(c)),
        KeyCode::Backspace => Some(Edit::DeletePrevious),
        KeyCode::Delete => Some(Edit::DeleteNext),
        KeyCode::Left => Some(Edit::GoBack),
        KeyCode::Right => Some(Edit::GoForward),
        KeyCode::Home => Some(Edit::GoToStart),
        KeyCode::End => Some(Edit::GoToEnd),
        _ => None,
    }
}

/// One editable field in a form.
#[derive(Debug)]
pub enum Field {
    /// A free-text field.
    Text {
        /// Label.
        label: String,
        /// Text.
        input: TextInput,
    },
    /// A text field with a directory-autocomplete dropdown.
    Path {
        /// Label.
        label: String,
        /// Text.
        input: TextInput,
        /// Candidates of the dropdown.
        candidates: Vec<String>,
        /// Highlighted candidate.
        highlighted: usize,
    },
    /// A cyclic choice among fixed options.
    Choice {
        /// Label.
        label: String,
        /// Options.
        options: Vec<String>,
        /// Selected option.
        selected: usize,
    },
}

/// What a field holds.
#[verifier::ext_equal]
pub enum FieldModel {
    /// A free-text field.
    Text {
        /// Label.
        label: Seq<char>,
        /// Text.
        input: Line,
    },
    /// A text field with a dropdown.
    Path {
        /// Label.
        label: Seq<char>,
        /// Text.
        input: Line,
        /// Candidates of the dropdown.
        candidates: Seq<Seq<char>>,
        /// Highlighted candidate.
        highlighted: usize,
    },
    /// A cyclic choice.
    Choice {
        /// Label.
        label: Seq<char>,
        /// Options.
        options: Seq<Seq<char>>,
        /// Selected option.
        selected: usize,
    },
}

impl View for Field {
    type V = FieldModel;

    open spec fn view(&self) -> FieldModel {
        match *self {
            Field::Text { label, input } => FieldModel::Text { label: label@, input: input@ },
            Field::Path { label, input, candidates, highlighted } => FieldModel::Path {
                label: label@,
                input: input@,
                candidates: texts(candidates@),
                highlighted,
            },
            Field::Choice { label, options, selected } => FieldModel::Choice {
                label: label@,
                options: texts(options@),
                selected,
            },
        }
    }
}

impl FieldModel {
    /// An empty text field.
    pub open spec fn text(label: Seq<char>) -> FieldModel {
        FieldModel::Text { label, input: Line { value: Seq::empty(), cursor: 0 } }
    }

    /// A path field pre-filled with `value`.
    pub open spec fn path(label: Seq<char>, value: Seq<char>) -> FieldModel {
        FieldModel::Path {
            label,
            input: Line { value, cursor: value.len() },
            candidates: Seq::empty(),
            highlighted: 0,
        }
    }

    /// A choice with the first option selected.
    pub open spec fn choice(label: Seq<char>, options: Seq<Seq<char>>) -> FieldModel {
        FieldModel::Choice { label, options, selected: 0 }
    }

    /// The label.
    pub open spec fn label(self) -> Seq<char> {
        match self {
            FieldModel::Text { label, .. } => label,
            FieldModel::Path { label, .. } => label,
            FieldModel::Choice { label, .. } => label,
        }
    }

    /// The typed text, or the selected option.
    pub open spec fn value(self) -> Seq<char> {
        match self {
            FieldModel::Text { input, .. } => input.value,
            FieldModel::Path { input, .. } => input.value,
            FieldModel::Choice { options, selected, .. } => if selected < options.len() {
                options[selected as int]
            } else {
                Seq::empty()
            },
        }
    }

    /// The line of text of a text or path field.
    pub open spec fn line(self) -> Option<Line> {
        match self {
            FieldModel::Text { input, .. } => Some(input),
            FieldModel::Path { input, .. } => Some(input),
            FieldModel::Choice { .. } => None,
        }
    }

    /// The candidates of a path field.
    pub open spec fn candidates(self) -> Seq<Seq<char>> {
        match self {
            FieldModel::Path { candidates, .. } => candidates,
            _ => Seq::empty(),
        }
    }

    /// Whether an editing key took the text of this field to that of `after` by a
    /// step that stays inside it.
    pub open spec fn stepped_to(self, code: KeyCode, after: FieldModel) -> bool {
        match (self.line(), edit_of(code), after.line()) {
            (Some(before), Some(edit), Some(after)) => stepped(before.clamped(), edit, after),
            _ => true,
        }
    }

    /// Whether the dropdown shows.
    pub open spec fn dropdown(self) -> bool {
        self.candidates().len() > 0
    }

    /// The field after an editing key.
    pub open spec fn edited(self, code: KeyCode) -> FieldModel {
        match self {
            FieldModel::Text { label, input } => match edit_of(code) {
                Some(edit) => FieldModel::Text { label, input: input.edited(edit) },
                None => self,
            },
            FieldModel::Path { label, input, candidates, highlighted } => match edit_of(code) {
                Some(edit) => FieldModel::Path {
                    label,
                    input: input.edited(edit),
                    candidates,
                    highlighted,
                },
                None => self,
            },
            FieldModel::Choice { label, options, selected } => if code == KeyCode::Left {
                FieldModel::Choice {
                    label,
                    options,
                    selected: ring_previous(selected, options.len()),
                }
            } else if code == KeyCode::Right && options.len() > 0 {
                FieldModel::Choice { label, options, selected: ring_next(selected, options.len()) }
            } else {
                self
            },
        }
    }

    /// The field with other candidates, the first of them highlighted.
    pub open spec fn with_candidates(self, list: Seq<Seq<char>>) -> FieldModel {
        match self {
            FieldModel::Path { label, input, .. } => FieldModel::Path {
                label,
                input,
                candidates: list,
                highlighted: 0,
            },
            _ => self,
        }
    }

    /// The field filled with its highlighted candidate.
    pub open spec fn completed(self) -> FieldModel {
        match self {
            FieldModel::Path { label, candidates, highlighted, .. } => if highlighted
                < candidates.len() {
                let value = candidates[highlighted as int];
                FieldModel::Path {
                    label,
                    input: Line { value, cursor: value.len() },
                    candidates: Seq::empty(),
                    highlighted: 0,
                }
            } else {
                self
            },
            _ => self,
        }
    }

    /// The field with the next or the previous candidate highlighted.
    pub open spec fn highlight_moved(self, down: bool) -> FieldModel {
        match self {
            FieldModel::Path { label, input, candidates, highlighted } => if candidates.len() > 0 {
                FieldModel::Path {
                    label,
                    input,
                    candidates,
                    highlighted: if down {
                        ring_next(highlighted, candidates.len())
                    } else {
                        ring_previous(
                            (highlighted % candidates.len() as usize) as usize,
                            candidates.len(),
                        )
                    },
                }
            } else {
                self
            },
            _ => self,
        }
    }
}

impl Field {
    /// An empty text field.
    pub fn text(label: &str) -> (field: Self)
        ensures
            field@ == FieldModel::text(label@),
    {
        let input: TextInput = TextInput::new(String::new());
        assert(input@.value =~= Seq::<char>::empty());
        Field::Text { label: label.to_string(), input }
    }

    /// A path field pre-filled with `value`, with directory autocomplete.
    pub fn path(label: &str, value: &str) -> (field: Self)
        ensures
            field@ == FieldModel::path(label@, value@),
    {
        let candidates: Vec<String> = Vec::new();
        assert(texts(candidates@) =~= Seq::<Seq<char>>::empty());
        Field::Path {
            label: label.to_string(),
            input: TextInput::new(value.to_string()),
            candidates,
            highlighted: 0,
        }
    }

    /// A choice field over `options`, with the first selected.
    pub fn choice(label: &str, options: Vec<String>) -> (field: Self)
        ensures
            field@ == FieldModel::choice(label@, texts(options@)),
    {
        Field::Choice { label: label.to_string(), options, selected: 0 }
    }

    /// Returns a copy of the field.
    pub fn copied(&self) -> (copy: Self)
        ensures
            copy@ == self@,
    {
        match self {
            Field::Text { label, input } => Field::Text {
                label: label.clone(),
                input: input.copied(),
            },
            Field::Path { label, input, candidates, highlighted } => Field::Path {
                label: label.clone(),
                input: input.copied(),
                candidates: copy_texts(candidates),
                highlighted: *highlighted,
            },
            Field::Choice { label, options, selected } => Field::Choice {
                label: label.clone(),
                options: copy_texts(options),
                selected: *selected,
            },
        }
    }

    /// The field's label.
    pub fn label(&self) -> (label: &String)
        ensures
            label@ == self@.label(),
    {
        match self {
            Field::Text { label, .. } => label,
            Field::Path { label, .. } => label,
            Field::Choice { label, .. } => label,
        }
    }

    /// The current value: the typed text, or the selected option.
    pub fn value(&self) -> (value: String)
        ensures
            value@ == self@.value(),
    {
        match self {
            Field::Text { input, .. } => input.value.clone(),
            Field::Path { input, .. } => input.value.clone(),
            Field::Choice { options, selected, .. } => if *selected < options.len() {
                options[*selected].clone()
            } else {
                let none: String = String::new();
                assert(none@ =~= Seq::<char>::empty());
                none
            },
        }
    }

    /// For a text or path field, the slice visible within `width` columns and
    /// the cursor column within it, scrolling to the cursor when `active` and
    /// to the start otherwise. `None` for a choice field.
    pub fn visible(&self, width: usize, active: bool) -> (visible: Option<(String, usize)>)
        ensures
            match self@.line() {
                Some(line) => {
                    let column = cursor_column(line.value, line.clamped().cursor);
                    let width = if width > 1 {
                        width
                    } else {
                        1
                    };
                    let scroll = if active {
                        scroll_columns(line.value, line.clamped().cursor, width)
                    } else {
                        0
                    };
                    visible matches Some(shown) && shown.0@ == window(
                        line.value,
                        scroll as nat,
                        width as nat,
                    ) && shown.1 == if column >= scroll {
                        column - scroll
                    } else {
                        0
                    }
                },
                None => visible is None,
            },
    {
        let input: &TextInput = match self {
            Field::Text { input, .. } => input,
            Field::Path { input, .. } => input,
            Field::Choice { .. } => return None,
        };
        let width: usize = if width > 1 {
            width
        } else {
            1
        };
        let scroll: usize = if active {
            visual_scroll(&input.value, input.cursor, width)
        } else {
            0
        };
        let column: usize = visual_cursor(&input.value, input.cursor);
        let shown: String = shown_window(&input.value, scroll, width);
        Some((shown, column.saturating_sub(scroll)))
    }

    /// The autocomplete candidates of a path field, else none.
    pub fn candidates(&self) -> (list: Vec<String>)
        ensures
            texts(list@) == self@.candidates(),
    {
        match self {
            Field::Path { candidates, .. } => copy_texts(candidates),
            _ => {
                let list: Vec<String> = Vec::new();
                assert(texts(list@) =~= Seq::<Seq<char>>::empty());
                list
            },
        }
    }

    /// The highlighted candidate index of a path field, else `0`.
    pub fn highlighted(&self) -> (index: usize)
        ensures
            index == match self@ {
                FieldModel::Path { highlighted, .. } => highlighted,
                _ => 0,
            },
    {
        match self {
            Field::Path { highlighted, .. } => *highlighted,
            _ => 0,
        }
    }

    /// Applies an editing key: typing and cursor motion for text and path,
    /// left and right cycling for a choice.
    pub fn edit(&mut self, key: KeyEvent)
        ensures
            final(self)@ == old(self)@.edited(key.code),
            old(self)@.stepped_to(key.code, final(self)@),
    {
        match self {
            Field::Text { input, .. } => {
                if let Some(edit) = key_edit(key.code) {
                    input.apply(edit);
                }
            },
            Field::Path { input, .. } => {
                if let Some(edit) = key_edit(key.code) {
                    input.apply(edit);
                }
            },
            Field::Choice { options, selected, .. } => {
                let len: usize = options.len();
                assert(texts(options@).len() == len);
                match key.code {
                    KeyCode::Left => {
                        *selected = previous_in_ring(*selected, len);
                    },
                    KeyCode::Right => {
                        if len > 0 {
                            *selected = next_in_ring(*selected, len);
                        }
                    },
                    _ => {},
                }
            },
        }
    }

    /// Replaces the candidates of a path field.
    fn set_candidates(&mut self, list: Vec<String>)
        ensures
            final(self)@ == old(self)@.with_candidates(texts(list@)),
    {
        match self {
            Field::Path { candidates, highlighted, .. } => {
                *candidates = list;
                *highlighted = 0;
            },
            _ => {},
        }
    }

    /// Fills a path field with its highlighted candidate.
    fn complete(&mut self)
        ensures
            final(self)@ == old(self)@.completed(),
    {
        match self {
            Field::Path { input, candidates, highlighted, .. } => {
                assert(texts(candidates@).len() == candidates@.len());
                if *highlighted < candidates.len() {
                    *input = TextInput::new(candidates[*highlighted].clone());
                    *candidates = Vec::new();
                    *highlighted = 0;
                    assert(texts(candidates@) =~= Seq::<Seq<char>>::empty());
                }
            },
            _ => {},
        }
    }

    /// Moves the highlighted candidate, wrapping.
    fn move_highlight(&mut self, down: bool)
        ensures
            final(self)@ == old(self)@.highlight_moved(down),
    {
        match self {
            Field::Path { candidates, highlighted, .. } => {
                let len: usize = candidates.len();
                assert(texts(candidates@).len() == len);
                if len > 0 {
                    *highlighted = if down {
                        next_in_ring(*highlighted, len)
                    } else {
                        previous_in_ring(*highlighted % len, len)
                    };
                }
            },
            _ => {},
        }
    }
}

/// At most `width` characters of a text behind its first `scroll`.
pub open spec fn window(text: Seq<char>, scroll: nat, width: nat) -> Seq<char> {
    let start = if scroll <= text.len() {
        scroll
    } else {
        text.len()
    };
    let end = if start + width <= text.len() {
        start + width
    } else {
        text.len()
    };
    text.subrange(start as int, end as int)
}

/// Returns at most `width` characters of a text behind its first `scroll`.
fn shown_window(text: &String, scroll: usize, width: usize) -> (shown: String)
    ensures
        shown@ == window(text@, scroll as nat, width as nat),
{
    let whole: &str = text.as_str();
    let len: usize = whole.unicode_len();
    let start: usize = if scroll <= len {
        scroll
    } else {
        len
    };
    let end: usize = if width <= len - start {
        start + width
    } else {
        len
    };
    whole.substring_char(start, end).to_string()
}

/// A multi-field form driven by keyboard input.
#[derive(Debug)]
pub struct Form {
    /// Title.
    pub title: String,
    /// Fields.
    pub fields: Vec<Field>,
    /// Active field.
    pub active: usize,
}

/// What a form holds.
#[verifier::ext_equal]
pub struct FormModel {
    /// Title.
    pub title: Seq<char>,
    /// Fields.
    pub fields: Seq<FieldModel>,
    /// Active field.
    pub active: usize,
}

/// The contents of each field.
pub open spec fn field_models(fields: Seq<Field>) -> Seq<FieldModel> {
    fields.map_values(|field: Field| field@)
}

impl View for Form {
    type V = FormModel;

    open spec fn view(&self) -> FormModel {
        FormModel {
            title: self.title@,
            fields: field_models(self.fields@),
            active: self.active,
        }
    }
}

/// What the caller should do after a key is handled.
#[derive(Debug, Clone, Copy, PartialEq, Eq, Structural)]
pub enum FormOutcome {
    /// Keep editing.
    Continue,
    /// A completion was accepted: the value changed, but the dropdown must stay
    /// closed until the next edit rather than reopening on the new value.
    Accepted,
    /// The user accepted the form (Enter).
    Submit,
    /// The user cancelled the form (Esc).
    Cancel,
}

impl FormModel {
    /// The active field.
    pub open spec fn current(self) -> Option<FieldModel> {
        if self.active < self.fields.len() {
            Some(self.fields[self.active as int])
        } else {
            None
        }
    }

    /// Whether the active field is a path field showing candidates.
    pub open spec fn dropdown(self) -> bool {
        self.current() matches Some(field) && field.dropdown()
    }

    /// The form with another active field.
    pub open spec fn with_current(self, field: FieldModel) -> FormModel {
        if self.active < self.fields.len() {
            FormModel { fields: self.fields.update(self.active as int, field), ..self }
        } else {
            self
        }
    }

    /// The values of the fields.
    pub open spec fn values(self) -> Seq<Seq<char>> {
        self.fields.map_values(|field: FieldModel| field.value())
    }

    /// The value of the active field when it is a path field.
    pub open spec fn path_value(self) -> Option<Seq<char>> {
        match self.current() {
            Some(FieldModel::Path { input, .. }) => Some(input.value),
            _ => None,
        }
    }

    /// What the caller should do after a key.
    pub open spec fn outcome(self, code: KeyCode) -> FormOutcome {
        match code {
            KeyCode::Esc => FormOutcome::Cancel,
            KeyCode::Enter => if self.dropdown() {
                FormOutcome::Accepted
            } else {
                FormOutcome::Submit
            },
            KeyCode::Tab => if self.dropdown() {
                FormOutcome::Accepted
            } else {
                FormOutcome::Continue
            },
            _ => FormOutcome::Continue,
        }
    }

    /// The form with the next field active.
    pub open spec fn advanced(self) -> FormModel {
        if self.fields.len() > 0 {
            FormModel { active: ring_next(self.active, self.fields.len()), ..self }
        } else {
            self
        }
    }

    /// The form with the previous field active.
    pub open spec fn retreated(self) -> FormModel {
        if self.fields.len() > 0 {
            FormModel { active: ring_previous(self.active, self.fields.len()), ..self }
        } else {
            self
        }
    }

    /// The form with a function of its active field in its place.
    pub open spec fn with_candidates(self, list: Seq<Seq<char>>) -> FormModel {
        match self.current() {
            Some(field) => self.with_current(field.with_candidates(list)),
            None => self,
        }
    }

    /// The form after a key.
    pub open spec fn handled(self, code: KeyCode) -> FormModel {
        let open = self.dropdown();
        match code {
            KeyCode::Esc => self,
            KeyCode::Up => if open {
                self.with_current(self.current()->0.highlight_moved(false))
            } else {
                self.retreated()
            },
            KeyCode::Down => if open {
                self.with_current(self.current()->0.highlight_moved(true))
            } else {
                self.advanced()
            },
            KeyCode::Enter => if open {
                self.with_current(self.current()->0.completed())
            } else {
                self
            },
            KeyCode::Tab => if open {
                self.with_current(self.current()->0.completed())
            } else {
                self.advanced()
            },
            KeyCode::BackTab => self.retreated(),
            _ => match self.current() {
                Some(field) => self.with_current(field.edited(code)),
                None => self,
            },
        }
    }
}

impl Form {
    /// A form titled `title` over `fields`, with the first field active.
    pub fn new(title: &str, fields: Vec<Field>) -> (form: Self)
        ensures
            form@ == (FormModel { title: title@, fields: field_models(fields@), active: 0 }),
    {
        Form { title: title.to_string(), fields, active: 0 }
    }

    /// Returns a copy of the form.
    pub fn copied(&self) -> (copy: Self)
        ensures
            copy@ == self@,
    {
        let mut fields: Vec<Field> = Vec::new();
        let mut i: usize = 0;
        while i < self.fields.len()
            invariant
                i <= self.fields@.len(),
                field_models(fields@) == field_models(self.fields@).take(i as int),
            decreases self.fields@.len() - i,
        {
            let ghost before = fields@;
            fields.push(self.fields[i].copied());
            i = i + 1;
            assert(field_models(fields@) =~= field_models(before).push(fields@.last()@));
            assert(field_models(fields@) =~= field_models(self.fields@).take(i as int));
        }
        assert(field_models(self.fields@).take(i as int) =~= field_models(self.fields@));
        Form { title: self.title.clone(), fields, active: self.active }
    }

    /// The form title.
    pub fn title(&self) -> (title: &String)
        ensures
            title@ == self@.title,
    {
        &self.title
    }

    /// The form's fields, in order.
    pub fn fields(&self) -> (fields: &Vec<Field>)
        ensures
            field_models(fields@) == self@.fields,
    {
        &self.fields
    }

    /// The index of the active field.
    pub fn active(&self) -> (active: usize)
        ensures
            active == self@.active,
    {
        self.active
    }

    /// All field values, in order.
    pub fn values(&self) -> (values: Vec<String>)
        ensures
            texts(values@) == self@.values(),
    {
        let mut values: Vec<String> = Vec::new();
        let mut i: usize = 0;
        while i < self.fields.len()
            invariant
                i <= self.fields@.len(),
                texts(values@) == self@.values().take(i as int),
            decreases self.fields@.len() - i,
        {
            let ghost before = values@;
            values.push(self.fields[i].value());
            i = i + 1;
            assert(texts(values@) =~= texts(before).push(values@.last()@));
            assert(texts(values@) =~= self@.values().take(i as int));
        }
        assert(self@.values().take(i as int) =~= self@.values());
        values
    }

    /// The active field's value when it is a path field, for recomputing its
    /// autocomplete candidates; `None` otherwise.
    pub fn active_path_value(&self) -> (value: Option<String>)
        ensures
            crate::text::opt_text(value) == self@.path_value(),
    {
        if self.active < self.fields.len() {
            match &self.fields[self.active] {
                Field::Path { input, .. } => Some(input.value.clone()),
                _ => None,
            }
        } else {
            None
        }
    }

    /// Replaces the active path field's autocomplete candidates.
    pub fn set_active_candidates(&mut self, candidates: Vec<String>)
        ensures
            final(self)@ == old(self)@.with_candidates(texts(candidates@)),
    {
        if self.active < self.fields.len() {
            let active: usize = self.active;
            self.fields[active].set_candidates(candidates);
            assert(self@ =~= old(self)@.with_candidates(texts(candidates@)));
        }
    }

    /// Handles a key. When the active path field's dropdown is open, arrows
    /// move the highlight and Enter or Tab accept it; otherwise Esc cancels,
    /// Enter submits, Tab and arrows move between fields, and the rest edits
    /// the field.
    pub fn handle(&mut self, key: KeyEvent) -> (outcome: FormOutcome)
        ensures
            outcome == old(self)@.outcome(key.code),
            final(self)@ == old(self)@.handled(key.code),
    {
        let dropdown: bool = self.dropdown_open();
        match key.code {
            KeyCode::Esc => return FormOutcome::Cancel,
            KeyCode::Up => {
                if dropdown {
                    self.move_highlight(false);
                } else {
                    self.focus_prev();
                }
            },
            KeyCode::Down => {
                if dropdown {
                    self.move_highlight(true);
                } else {
                    self.focus_next();
                }
            },
            KeyCode::Enter => {
                if dropdown {
                    self.accept_completion();
                    return FormOutcome::Accepted;
                }
                return FormOutcome::Submit;
            },
            KeyCode::Tab => {
                if dropdown {
                    self.accept_completion();
                    return FormOutcome::Accepted;
                }
                self.focus_next();
            },
            KeyCode::BackTab => self.focus_prev(),
            _ => {
                if self.active < self.fields.len() {
                    let active: usize = self.active;
                    self.fields[active].edit(key);
                    assert(self@ =~= old(self)@.handled(key.code));
                }
            },
        }
        FormOutcome::Continue
    }

    /// Whether the active field is a path field showing candidates.
    pub fn dropdown_open(&self) -> (open: bool)
        ensures
            open == self@.dropdown(),
    {
        if self.active < self.fields.len() {
            match &self.fields[self.active] {
                Field::Path { candidates, .. } => {
                    assert(texts(candidates@).len() == candidates@.len());
                    candidates.len() > 0
                },
                _ => false,
            }
        } else {
            false
        }
    }

    /// Fills the active path field with its highlighted candidate.
    fn accept_completion(&mut self)
        requires
            old(self)@.dropdown(),
        ensures
            final(self)@ == old(self)@.with_current(old(self)@.current()->0.completed()),
    {
        let active: usize = self.active;
        self.fields[active].complete();
        assert(self@ =~= old(self)@.with_current(old(self)@.current()->0.completed()));
    }

    /// Moves the highlighted candidate, wrapping.
    fn move_highlight(&mut self, down: bool)
        requires
            old(self)@.dropdown(),
        ensures
            final(self)@ == old(self)@.with_current(old(self)@.current()->0.highlight_moved(down)),
    {
        let active: usize = self.active;
        self.fields[active].move_highlight(down);
        assert(self@ =~= old(self)@.with_current(old(self)@.current()->0.highlight_moved(down)));
    }

    /// Makes the next field active.
    fn focus_next(&mut self)
        ensures
            final(self)@ == old(self)@.advanced(),
    {
        if self.fields.len() > 0 {
            self.active = next_in_ring(self.active, self.fields.len());
        }
    }

    /// Makes the previous field active.
    fn focus_prev(&mut self)
        ensures
            final(self)@ == old(self)@.retreated(),
    {
        if self.fields.len() > 0 {
            self.active = previous_in_ring(self.active, self.fields.len());
        }
    }
}

/// Moving between the fields of a form loses nothing: back and forth returns to
/// the same form.
pub proof fn field_focus_undoes_itself(form: FormModel)
    requires
        form.active < form.fields.len() <= usize::MAX,
    ensures
        form.advanced().retreated() == form,
        form.retreated().advanced() == form,
{
    ring_steps_undo_each_other(form.active, form.fields.len());
    let len = form.fields.len() as int;
    if form.active + 1 < len {
        vstd::arithmetic::div_mod::lemma_small_mod((form.active + 1) as nat, len as nat);
    } else {
        vstd::arithmetic::div_mod::lemma_mod_self_0(len);
    }
}

/// Accepting a completion closes the dropdown with the highlighted candidate as
/// the value, and the cursor behind it.
pub proof fn an_accepted_completion_is_the_value(field: FieldModel)
    requires
        field matches FieldModel::Path { candidates, highlighted, .. } && highlighted
            < candidates.len(),
    ensures
        field.completed().value() == field.candidates()[field->highlighted as int],
        !field.completed().dropdown(),
        field.completed().line() == Some(
            Line { value: field.completed().value(), cursor: field.completed().value().len() },
        ),
        field.completed().label() == field.label(),
{
}

/// Cycling a choice one way and back restores it.
pub proof fn choice_cycling_undoes_itself(field: FieldModel)
    requires
        field matches FieldModel::Choice { options, selected, .. } && selected < options.len()
            && options.len() <= usize::MAX,
    ensures
        field.edited(KeyCode::Right).edited(KeyCode::Left) == field,
        field.edited(KeyCode::Left).edited(KeyCode::Right) == field,
{
    ring_steps_undo_each_other(field->selected, field->options.len());
}

} // verus!
