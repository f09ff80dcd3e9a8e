//! What holds of the screens and of the session, whatever the keys.

use vstd::prelude::*;
use crate::screen::{elapsed, initial_screen, Form, Screen, Session};
use crate::key::{is_field_char, Key};
use crate::solver::{invalid_input_text, reads_as_number};

verus! {

/// The same key pressed `n` times.
pub open spec fn repeated(key: Key, n: nat) -> Seq<Key> {
    Seq::new(n, |i: int| key)
}

/// The keys that type the characters, one after the other.
pub open spec fn typing(chars: Seq<char>) -> Seq<Key> {
    Seq::new(
        chars.len(),
        |i: int|
            if 0 <= i < chars.len() {
                Key::Char(chars[i])
            } else {
                Key::Other
            },
    )
}

/// Every character is a digit, a minus sign or a point.
pub open spec fn all_field_chars(chars: Seq<char>) -> bool {
    forall|i: int| 0 <= i < chars.len() ==> is_field_char(#[trigger] chars[i])
}

/// A key leads from a well-formed screen to a well-formed screen: a form keeps
/// its number of fields, and its cursor stays on one of them.
pub proof fn lemma_next_is_well_formed(screen: Screen, key: Key)
    requires
        screen.wf(),
    ensures
        screen.next(key).wf(),
{
}

/// Every screen that keys can reach from a well-formed screen is well-formed.
pub proof fn lemma_reachable_is_well_formed(start: Screen, keys: Seq<Key>)
    requires
        start.wf(),
    ensures
        start.after_keys(keys).wf(),
    decreases keys.len(),
{
    if keys.len() > 0 {
        lemma_reachable_is_well_formed(start, keys.drop_last());
        lemma_next_is_well_formed(start.after_keys(keys.drop_last()), keys.last());
    }
}

/// Every screen that keys can reach from the start of a session is
/// well-formed, on whichever screen the session starts.
pub proof fn lemma_session_screens_are_well_formed(
    splsv: bool,
    spldv: bool,
    hasil: bool,
    keys: Seq<Key>,
)
    ensures
        initial_screen(splsv, spldv, hasil).after_keys(keys).wf(),
{
    lemma_reachable_is_well_formed(initial_screen(splsv, spldv, hasil), keys);
}

/// A key never brings a character other than a digit, a minus sign or a point
/// into a field.
pub proof fn lemma_next_keeps_field_chars(screen: Screen, key: Key)
    requires
        screen.wf(),
        screen.only_field_chars(),
    ensures
        screen.next(key).only_field_chars(),
{
    match screen {
        Screen::EnteringTwoVarForm(form) => lemma_edited_keeps_field_chars(form, key),
        Screen::EnteringOneVarForm(form) => lemma_edited_keeps_field_chars(form, key),
        _ => {},
    }
}

/// Editing a form whose fields hold only digits, minus signs and points leaves
/// such a form.
pub proof fn lemma_edited_keeps_field_chars(form: Form, key: Key)
    requires
        0 <= form.cursor < form.fields.len(),
        form.only_field_chars(),
    ensures
        form.edited(key).only_field_chars(),
{
    let after = form.edited(key);
    assert forall|i: int, j: int|
        0 <= i < after.fields.len() && 0 <= j < after.fields[i].len() implies is_field_char(
        #[trigger] after.fields[i][j],
    ) by {
        if i != form.cursor || j < form.fields[i].len() {
            assert(after.fields[i][j] == form.fields[i][j]);
        }
    }
}

/// On every screen that keys can reach from the start of a session, the
/// fields hold only digits, minus signs and points.
pub proof fn lemma_session_fields_hold_field_chars(
    splsv: bool,
    spldv: bool,
    hasil: bool,
    keys: Seq<Key>,
)
    ensures
        initial_screen(splsv, spldv, hasil).after_keys(keys).only_field_chars(),
    decreases keys.len(),
{
    let start = initial_screen(splsv, spldv, hasil);
    if keys.len() > 0 {
        lemma_session_fields_hold_field_chars(splsv, spldv, hasil, keys.drop_last());
        lemma_reachable_is_well_formed(start, keys.drop_last());
        lemma_next_keeps_field_chars(start.after_keys(keys.drop_last()), keys.last());
    }
}

/// With the cursor on the first field, the left arrow changes nothing, however
/// often it is pressed.
pub proof fn lemma_left_at_first_field(form: Form, n: nat)
    requires
        form.cursor == 0,
    ensures
        Screen::EnteringOneVarForm(form).after_keys(repeated(Key::Left, n))
            == Screen::EnteringOneVarForm(form),
        Screen::EnteringTwoVarForm(form).after_keys(repeated(Key::Left, n))
            == Screen::EnteringTwoVarForm(form),
    decreases n,
{
    if n > 0 {
        lemma_left_at_first_field(form, (n - 1) as nat);
        assert(repeated(Key::Left, n).drop_last() =~= repeated(Key::Left, (n - 1) as nat));
    }
}

/// With the cursor on the last field, the right arrow changes nothing, however
/// often it is pressed.
pub proof fn lemma_right_at_last_field(form: Form, n: nat)
    requires
        form.cursor == form.fields.len() - 1,
    ensures
        Screen::EnteringOneVarForm(form).after_keys(repeated(Key::Right, n))
            == Screen::EnteringOneVarForm(form),
        Screen::EnteringTwoVarForm(form).after_keys(repeated(Key::Right, n))
            == Screen::EnteringTwoVarForm(form),
    decreases n,
{
    if n > 0 {
        lemma_right_at_last_field(form, (n - 1) as nat);
        assert(repeated(Key::Right, n).drop_last() =~= repeated(Key::Right, (n - 1) as nat));
    }
}

/// The form after the characters were appended to the field under the cursor.
pub open spec fn with_appended(form: Form, chars: Seq<char>) -> Form {
    Form { fields: form.fields.update(form.cursor, form.current() + chars), ..form }
}

/// Typing digits, minus signs and points appends them, in order, to the field
/// under the cursor, and changes nothing else.
pub proof fn lemma_typing_appends(form: Form, chars: Seq<char>)
    requires
        0 <= form.cursor < form.fields.len(),
        all_field_chars(chars),
    ensures
        Screen::EnteringOneVarForm(form).after_keys(typing(chars)) == Screen::EnteringOneVarForm(
            with_appended(form, chars),
        ),
        Screen::EnteringTwoVarForm(form).after_keys(typing(chars)) == Screen::EnteringTwoVarForm(
            with_appended(form, chars),
        ),
    decreases chars.len(),
{
    if chars.len() == 0 {
        assert(with_appended(form, chars).fields =~= form.fields);
    } else {
        let front = chars.drop_last();
        lemma_typing_appends(form, front);
        assert(typing(chars).drop_last() =~= typing(front));
        let before = with_appended(form, front);
        assert((form.current() + front).push(chars.last()) =~= form.current() + chars);
        assert(before.typed(chars.last()).fields =~= with_appended(form, chars).fields);
    }
}

/// As many backspaces as characters were appended to the field under the
/// cursor take them off again.
pub proof fn lemma_erasing_removes(form: Form, chars: Seq<char>)
    requires
        0 <= form.cursor < form.fields.len(),
    ensures
        Screen::EnteringOneVarForm(with_appended(form, chars)).after_keys(
            repeated(Key::Backspace, chars.len()),
        ) == Screen::EnteringOneVarForm(form),
        Screen::EnteringTwoVarForm(with_appended(form, chars)).after_keys(
            repeated(Key::Backspace, chars.len()),
        ) == Screen::EnteringTwoVarForm(form),
    decreases chars.len(),
{
    let n = chars.len();
    if n == 0 {
        assert(with_appended(form, chars).fields =~= form.fields);
    } else {
        // The first backspace takes off the last character; the others are
        // accounted for once the keys are split after the first.
        let first = with_appended(form, chars);
        let rest = with_appended(form, chars.drop_last());
        assert((form.current() + chars).drop_last() =~= form.current() + chars.drop_last());
        assert(first.erased().fields =~= rest.fields);
        lemma_erasing_removes(form, chars.drop_last());
        let tail = repeated(Key::Backspace, (n - 1) as nat);
        assert(repeated(Key::Backspace, n) =~= seq![Key::Backspace] + tail);
        lemma_after_keys_splits(Screen::EnteringOneVarForm(first), seq![Key::Backspace], tail);
        lemma_after_keys_splits(Screen::EnteringTwoVarForm(first), seq![Key::Backspace], tail);
        lemma_after_one_key(Screen::EnteringOneVarForm(first), Key::Backspace);
        lemma_after_one_key(Screen::EnteringTwoVarForm(first), Key::Backspace);
    }
}

/// Typing digits, minus signs and points into a field and then pressing
/// backspace once for each of them leaves the form as it was.
pub proof fn lemma_typing_then_erasing(form: Form, chars: Seq<char>)
    requires
        0 <= form.cursor < form.fields.len(),
        all_field_chars(chars),
    ensures
        Screen::EnteringOneVarForm(form).after_keys(
            typing(chars) + repeated(Key::Backspace, chars.len()),
        ) == Screen::EnteringOneVarForm(form),
        Screen::EnteringTwoVarForm(form).after_keys(
            typing(chars) + repeated(Key::Backspace, chars.len()),
        ) == Screen::EnteringTwoVarForm(form),
{
    let erase = repeated(Key::Backspace, chars.len());
    lemma_typing_appends(form, chars);
    lemma_erasing_removes(form, chars);
    lemma_after_keys_splits(Screen::EnteringOneVarForm(form), typing(chars), erase);
    lemma_after_keys_splits(Screen::EnteringTwoVarForm(form), typing(chars), erase);
}

/// Pressing one key is one step.
pub proof fn lemma_after_one_key(screen: Screen, key: Key)
    ensures
        screen.after_keys(seq![key]) == screen.next(key),
{
    let keys = seq![key];
    assert(screen.after_keys(keys.drop_last()) == screen);
}

/// Pressing keys one run after the other is pressing them all in order.
pub proof fn lemma_after_keys_splits(screen: Screen, first: Seq<Key>, second: Seq<Key>)
    ensures
        screen.after_keys(first + second) == screen.after_keys(first).after_keys(second),
    decreases second.len(),
{
    if second.len() == 0 {
        assert(first + second =~= first);
    } else {
        lemma_after_keys_splits(screen, first, second.drop_last());
        assert((first + second).drop_last() =~= first + second.drop_last());
    }
}

/// Once the session has ended, no key leads anywhere else.
pub proof fn lemma_terminated_is_final(keys: Seq<Key>)
    ensures
        Screen::Terminated.after_keys(keys) == Screen::Terminated,
    decreases keys.len(),
{
    if keys.len() > 0 {
        lemma_terminated_is_final(keys.drop_last());
    }
}

/// The text of a result screen stays as it is until a key leaves the screen,
/// and a key leaves it only for the menu or to end the session.
pub proof fn lemma_result_text_is_kept(text: Seq<char>, key: Key)
    ensures
        ({
            let next = Screen::ResultScreen(text).next(key);
            next == Screen::ResultScreen(text) || next == Screen::Menu || next
                == Screen::Terminated
        }),
{
}

/// `q` and `Q` end the session from every screen.
pub proof fn lemma_quit_from_any_screen(screen: Screen)
    ensures
        screen.next(Key::Char('q')) == Screen::Terminated,
        screen.next(Key::Char('Q')) == Screen::Terminated,
{
}

/// Until the session has ended, escape leads to the menu, and what a form
/// held is gone: a form opened again is blank.
pub proof fn lemma_escape_discards(screen: Screen)
    requires
        screen != Screen::Terminated,
    ensures
        screen.next(Key::Esc) == Screen::Menu,
        screen.next(Key::Esc).next(Key::Char('1')) == Screen::EnteringOneVarForm(Form::blank(2)),
        screen.next(Key::Esc).next(Key::Char('2')) == Screen::EnteringTwoVarForm(Form::blank(6)),
{
}

/// A field that does not read as a number makes the submitted one-variable
/// form show the fixed message, whatever the other field holds.
pub proof fn lemma_unreadable_field_in_one_var_form(form: Form, i: int)
    requires
        0 <= i < 2,
        !reads_as_number(form.fields[i]),
    ensures
        Screen::EnteringOneVarForm(form).next(Key::Enter) == Screen::ResultScreen(
            invalid_input_text(),
        ),
{
}

/// A field that does not read as a number makes the submitted two-variable
/// form show the fixed message, whatever the other fields hold.
pub proof fn lemma_unreadable_field_in_two_var_form(form: Form, i: int)
    requires
        0 <= i < 6,
        !reads_as_number(form.fields[i]),
    ensures
        Screen::EnteringTwoVarForm(form).next(Key::Enter) == Screen::ResultScreen(
            invalid_input_text(),
        ),
{
}

/// Submitting a form always leads to a result screen.
pub proof fn lemma_enter_leads_to_result(form: Form)
    ensures
        Screen::EnteringOneVarForm(form).next(Key::Enter) is ResultScreen,
        Screen::EnteringTwoVarForm(form).next(Key::Enter) is ResultScreen,
{
}

/// Of two keys that arrive less than the debounce time apart, at most one is
/// accepted.
pub proof fn lemma_keys_too_close(session: Session, first: Key, t1: int, second: Key, t2: int)
    requires
        elapsed(t1, t2) < session.debounce,
    ensures
        !(session.accepts(t1) && session.after_key(first, t1).accepts(t2)),
        session.accepts(t1) ==> session.after_key(first, t1).after_key(second, t2)
            == session.after_key(first, t1),
{
}

/// A key that arrives at least the debounce time after an accepted one is
/// accepted too: both lead on, one after the other.
pub proof fn lemma_keys_far_apart(session: Session, first: Key, t1: int, second: Key, t2: int)
    requires
        session.accepts(t1),
        elapsed(t1, t2) >= session.debounce,
    ensures
        session.after_key(first, t1).accepts(t2),
        session.after_key(first, t1).after_key(second, t2) == (Session {
            screen: session.screen.next(first).next(second),
            last_key_time: t2,
            debounce: session.debounce,
        }),
{
}

/// A dropped key does not restart the debounce time: it counts from the last
/// accepted key.
pub proof fn lemma_dropped_key_changes_nothing(session: Session, key: Key, now: int)
    requires
        !session.accepts(now),
    ensures
        session.after_key(key, now) == session,
{
}

} // verus!
