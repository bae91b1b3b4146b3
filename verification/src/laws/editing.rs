//! Editing forms: what each key does to the fields.

use vstd::prelude::*;
use crate::form::{grapheme_len, FieldModel, FormModel, FormOutcome, Line};
use crate::input::KeyCode;
use crate::laws::keys::steps_round;

verus! {

/// A character goes into the text at the cursor, and the cursor behind it.
pub proof fn a_character_goes_in_at_the_cursor(label: Seq<char>, input: Line, c: char)
    requires
        input.cursor <= input.value.len(),
    ensures
        ({
            let before = FieldModel::Text { label, input };
            let after = before.edited(KeyCode::Char(c));
            let line = after.line()->0;
            &&& after.label() == label
            &&& after.line() is Some
            &&& line.cursor == input.cursor + 1
            &&& line.value == input.value.take(input.cursor as int).push(c) + input.value.skip(
                input.cursor as int,
            )
        }),
{
    let at = input.cursor as int;
    assert(input.value.insert(at, c) =~= input.value.take(at).push(c) + input.value.skip(at));
}

/// Home and end move the cursor to the ends of the text, and change no text; nor do
/// the arrows.
pub proof fn moving_changes_no_text(label: Seq<char>, input: Line)
    requires
        input.cursor <= input.value.len(),
    ensures
        ({
            let field = FieldModel::Text { label, input };
            &&& field.edited(KeyCode::Home).line() == Some(Line { value: input.value, cursor: 0 })
            &&& field.edited(KeyCode::End).line() == Some(
                Line { value: input.value, cursor: input.value.len() },
            )
            &&& field.edited(KeyCode::Left).value() == input.value
            &&& field.edited(KeyCode::Right).value() == input.value
        }),
{
}

/// Backspace takes the character before the cursor and delete the one behind it, and
/// the arrows step over them: what the user sees as one character goes as one, and
/// the text on the other side of the cursor stays.
pub proof fn deleting_spares_the_other_side(label: Seq<char>, input: Line)
    requires
        input.cursor <= input.value.len(),
    ensures
        ({
            let field = FieldModel::Text { label, input };
            let at = input.cursor as int;
            let before = grapheme_len(input.value, input.cursor, false);
            let behind = grapheme_len(input.value, input.cursor, true);
            &&& before <= at ==> field.edited(KeyCode::Backspace).line() == Some(
                Line {
                    value: input.value.take(at - before) + input.value.skip(at),
                    cursor: (at - before) as nat,
                },
            )
            &&& before <= at ==> field.edited(KeyCode::Left).line() == Some(
                Line { value: input.value, cursor: (at - before) as nat },
            )
            &&& field.edited(KeyCode::Delete).line() == Some(
                Line {
                    value: input.value.take(at) + input.value.skip(at + behind),
                    cursor: input.cursor,
                },
            )
            &&& field.edited(KeyCode::Right).line() == Some(
                Line { value: input.value, cursor: input.cursor + behind },
            )
        }),
{
}

/// The right arrow chooses the next option and the left arrow the previous one,
/// round the ends; nothing else changes a choice.
pub proof fn arrows_choose_the_next_option(
    label: Seq<char>,
    options: Seq<Seq<char>>,
    selected: usize,
    code: KeyCode,
)
    requires
        selected < options.len() <= usize::MAX,
    ensures
        ({
            let field = FieldModel::Choice { label, options, selected };
            let at = |index: int| FieldModel::Choice { label, options, selected: index as usize };
            &&& selected + 1 < options.len() ==> field.edited(KeyCode::Right) == at(selected + 1)
            &&& selected + 1 == options.len() ==> field.edited(KeyCode::Right) == at(0)
            &&& selected > 0 ==> field.edited(KeyCode::Left) == at(selected - 1)
            &&& selected == 0 ==> field.edited(KeyCode::Left) == at(options.len() - 1)
            &&& code != KeyCode::Left && code != KeyCode::Right ==> field.edited(code) == field
            &&& field.value() == options[selected as int]
        }),
{
    steps_round(selected, options.len());
}

/// In an open list of completions, down highlights the next one and up the
/// previous one, round the ends; tab and enter put the highlighted one into the
/// field and close the list. Nothing is submitted by it.
pub proof fn completions_are_chosen_from_the_list(
    form: FormModel,
    label: Seq<char>,
    input: Line,
    candidates: Seq<Seq<char>>,
    highlighted: usize,
)
    requires
        form.active < form.fields.len(),
        form.fields[form.active as int] == (FieldModel::Path {
            label,
            input,
            candidates,
            highlighted,
        }),
        highlighted < candidates.len() <= usize::MAX,
    ensures
        ({
            let active = form.active as int;
            let shows = |after: FormModel, index: int| after == (FormModel {
                fields: form.fields.update(
                    active,
                    FieldModel::Path {
                        label,
                        input,
                        candidates,
                        highlighted: index as usize,
                    },
                ),
                ..form
            });
            let value = candidates[highlighted as int];
            let chosen = FormModel {
                fields: form.fields.update(
                    active,
                    FieldModel::Path {
                        label,
                        input: Line { value, cursor: value.len() },
                        candidates: Seq::empty(),
                        highlighted: 0,
                    },
                ),
                ..form
            };
            &&& highlighted + 1 < candidates.len() ==> shows(
                form.handled(KeyCode::Down),
                highlighted + 1,
            )
            &&& highlighted + 1 == candidates.len() ==> shows(form.handled(KeyCode::Down), 0)
            &&& highlighted > 0 ==> shows(form.handled(KeyCode::Up), highlighted - 1)
            &&& highlighted == 0 ==> shows(form.handled(KeyCode::Up), candidates.len() - 1)
            &&& form.handled(KeyCode::Tab) == chosen
            &&& form.handled(KeyCode::Enter) == chosen
            &&& form.outcome(KeyCode::Tab) == FormOutcome::Accepted
            &&& form.outcome(KeyCode::Enter) == FormOutcome::Accepted
            &&& form.outcome(KeyCode::Down) == FormOutcome::Continue
        }),
{
    steps_round(highlighted, candidates.len());
    let count = candidates.len() as int;
    assert(highlighted as int % count == highlighted) by (nonlinear_arith)
        requires
            0 <= highlighted < count,
    ;
}

/// Without such a list, tab and down go to the next field, the back tab and up to
/// the previous one, round the ends; enter submits the form and escape leaves it.
pub proof fn keys_move_between_the_fields(form: FormModel)
    requires
        form.active < form.fields.len() <= usize::MAX,
        !form.dropdown(),
    ensures
        ({
            let at = |index: int| (FormModel { active: index as usize, ..form });
            let last = form.fields.len() as int - 1;
            &&& form.active < last ==> form.handled(KeyCode::Tab) == at(form.active + 1)
            &&& form.active < last ==> form.handled(KeyCode::Down) == at(form.active + 1)
            &&& form.active == last ==> form.handled(KeyCode::Tab) == at(0)
            &&& form.active == last ==> form.handled(KeyCode::Down) == at(0)
            &&& form.active > 0 ==> form.handled(KeyCode::BackTab) == at(form.active - 1)
            &&& form.active > 0 ==> form.handled(KeyCode::Up) == at(form.active - 1)
            &&& form.active == 0 ==> form.handled(KeyCode::BackTab) == at(last)
            &&& form.active == 0 ==> form.handled(KeyCode::Up) == at(last)
            &&& form.handled(KeyCode::Enter) == form
            &&& form.handled(KeyCode::Esc) == form
            &&& form.outcome(KeyCode::Enter) == FormOutcome::Submit
            &&& form.outcome(KeyCode::Esc) == FormOutcome::Cancel
            &&& form.outcome(KeyCode::Tab) == FormOutcome::Continue
            &&& form.outcome(KeyCode::Up) == FormOutcome::Continue
        }),
{
    steps_round(form.active, form.fields.len());
}

/// A key that edits changes the active field and no other, and the values of a form
/// are those of its fields, in their order.
pub proof fn editing_touches_the_active_field(form: FormModel, c: char, i: int)
    requires
        form.active < form.fields.len(),
        0 <= i < form.fields.len(),
    ensures
        ({
            let after = form.handled(KeyCode::Char(c));
            &&& after.fields.len() == form.fields.len()
            &&& after.active == form.active && after.title == form.title
            &&& i != form.active ==> after.fields[i] == form.fields[i]
            &&& i == form.active ==> after.fields[i] == form.fields[i].edited(KeyCode::Char(c))
            &&& form.outcome(KeyCode::Char(c)) == FormOutcome::Continue
            &&& form.values().len() == form.fields.len()
            &&& form.values()[i] == form.fields[i].value()
        }),
{
}

} // verus!
