//! The screens of the session as the contracts see them, and the screen that
//! each key leads to.

use vstd::prelude::*;
use crate::key::{is_field_char, Key};
use crate::solver::{spldv_screen_text, splsv_screen_text};

verus! {

/// A form as the screens show it: the text of each field, and the field the
/// cursor is on.
pub struct Form {
    pub fields: Seq<Seq<char>>,
    pub cursor: int,
}

impl Form {
    /// The form of `n` empty fields with the cursor on the first.
    pub open spec fn blank(n: nat) -> Form {
        Form { fields: Seq::new(n, |i: int| Seq::<char>::empty()), cursor: 0 }
    }

    /// The form has `n` fields and its cursor is on one of them.
    pub open spec fn wf(self, n: nat) -> bool {
        self.fields.len() == n && 0 <= self.cursor < n
    }

    /// Every field holds only digits, minus signs and points.
    pub open spec fn only_field_chars(self) -> bool {
        forall|i: int, j: int|
            0 <= i < self.fields.len() && 0 <= j < self.fields[i].len() ==> is_field_char(
                #[trigger] self.fields[i][j],
            )
    }

    /// The text of the field under the cursor.
    pub open spec fn current(self) -> Seq<char> {
        self.fields[self.cursor]
    }

    /// The form after `c` was appended to the field under the cursor.
    pub open spec fn typed(self, c: char) -> Form {
        Form { fields: self.fields.update(self.cursor, self.current().push(c)), ..self }
    }

    /// The form after the last character of the field under the cursor was
    /// removed; an empty field stays empty.
    pub open spec fn erased(self) -> Form {
        if self.current().len() == 0 {
            self
        } else {
            Form { fields: self.fields.update(self.cursor, self.current().drop_last()), ..self }
        }
    }

    /// The form after the cursor moved one field to the left, staying on the
    /// first field.
    pub open spec fn moved_left(self) -> Form {
        if self.cursor > 0 {
            Form { cursor: self.cursor - 1, ..self }
        } else {
            self
        }
    }

    /// The form after the cursor moved one field to the right, staying on the
    /// last field.
    pub open spec fn moved_right(self) -> Form {
        if self.cursor < self.fields.len() - 1 {
            Form { cursor: self.cursor + 1, ..self }
        } else {
            self
        }
    }

    /// The form after an editing or a cursor key; any other key leaves it as it is.
    pub open spec fn edited(self, key: Key) -> Form {
        match key {
            Key::Char(c) => if is_field_char(c) {
                self.typed(c)
            } else {
                self
            },
            Key::Backspace => self.erased(),
            Key::Left => self.moved_left(),
            Key::Right => self.moved_right(),
            _ => self,
        }
    }
}

/// The screens of the session, exactly one of which is active at a time.
pub enum Screen {
    Menu,
    /// The six coefficients `a1, b1, c1, a2, b2, c2` of a two-variable system.
    EnteringTwoVarForm(Form),
    /// The two coefficients `a, b` of a one-variable equation.
    EnteringOneVarForm(Form),
    /// The narrated solution, or a message.
    ResultScreen(Seq<char>),
    Terminated,
}

impl Screen {
    /// A form screen has its number of fields and its cursor on one of them.
    pub open spec fn wf(self) -> bool {
        match self {
            Screen::EnteringTwoVarForm(form) => form.wf(6),
            Screen::EnteringOneVarForm(form) => form.wf(2),
            _ => true,
        }
    }

    /// The fields of a form screen hold only digits, minus signs and points.
    pub open spec fn only_field_chars(self) -> bool {
        match self {
            Screen::EnteringTwoVarForm(form) => form.only_field_chars(),
            Screen::EnteringOneVarForm(form) => form.only_field_chars(),
            _ => true,
        }
    }

    /// The screen that a key leads to.
    pub open spec fn next(self, key: Key) -> Screen {
        match self {
            Screen::Menu => match key {
                Key::Char(c) => if c == '1' {
                    Screen::EnteringOneVarForm(Form::blank(2))
                } else if c == '2' {
                    Screen::EnteringTwoVarForm(Form::blank(6))
                } else if key.quits() {
                    Screen::Terminated
                } else {
                    Screen::Menu
                },
                _ => Screen::Menu,
            },
            Screen::EnteringTwoVarForm(form) => if key.quits() {
                Screen::Terminated
            } else if key == Key::Enter {
                Screen::ResultScreen(
                    spldv_screen_text(
                        form.fields[0],
                        form.fields[1],
                        form.fields[2],
                        form.fields[3],
                        form.fields[4],
                        form.fields[5],
                    ),
                )
            } else if key == Key::Esc {
                Screen::Menu
            } else {
                Screen::EnteringTwoVarForm(form.edited(key))
            },
            Screen::EnteringOneVarForm(form) => if key.quits() {
                Screen::Terminated
            } else if key == Key::Enter {
                Screen::ResultScreen(splsv_screen_text(form.fields[0], form.fields[1]))
            } else if key == Key::Esc {
                Screen::Menu
            } else {
                Screen::EnteringOneVarForm(form.edited(key))
            },
            Screen::ResultScreen(text) => if key.quits() {
                Screen::Terminated
            } else if key == Key::Esc {
                Screen::Menu
            } else {
                self
            },
            Screen::Terminated => Screen::Terminated,
        }
    }

    /// The screen reached when the keys are pressed one after the other.
    pub open spec fn after_keys(self, keys: Seq<Key>) -> Screen
        decreases keys.len(),
    {
        if keys.len() == 0 {
            self
        } else {
            self.after_keys(keys.drop_last()).next(keys.last())
        }
    }
}

/// The text of the result screen that the session starts on when it is asked
/// for a result without a form.
pub open spec fn no_result_text() -> Seq<char> {
    "Tidak ada hasil dari flag [--hasil]. Gunakan no-flag atau [--splsv/--spldv]"@
}

/// The screen a session starts on: the one-variable form, the two-variable
/// form, or the fixed message, whichever is asked for first in this order, and
/// the menu when none is.
pub open spec fn initial_screen(splsv: bool, spldv: bool, hasil: bool) -> Screen {
    if splsv {
        Screen::EnteringOneVarForm(Form::blank(2))
    } else if spldv {
        Screen::EnteringTwoVarForm(Form::blank(6))
    } else if hasil {
        Screen::ResultScreen(no_result_text())
    } else {
        Screen::Menu
    }
}

/// What a session announces when it starts: that it opens on the one-variable
/// form, or that it opens on the menu; nothing on the other screens.
pub open spec fn startup_notice_text(splsv: bool, spldv: bool, hasil: bool) -> Option<Seq<char>> {
    if splsv {
        Some("Running with [--splsv]"@)
    } else if spldv || hasil {
        None
    } else {
        Some("Running default."@)
    }
}

/// The time that has passed from `last` to `now` on a clock that does not run
/// backwards: none if `now` is the earlier.
pub open spec fn elapsed(last: int, now: int) -> int {
    if now >= last {
        now - last
    } else {
        0
    }
}

/// The session as the contracts see it: the active screen, the time at which
/// the last key was accepted, and the time that must pass before the next one
/// is.
pub struct Session {
    pub screen: Screen,
    pub last_key_time: int,
    pub debounce: int,
}

impl Session {
    /// Whether a key that arrives at `now` is accepted: not if less than the
    /// debounce time has passed since the last accepted key.
    pub open spec fn accepts(self, now: int) -> bool {
        elapsed(self.last_key_time, now) >= self.debounce
    }

    /// The session after a key that arrives at `now`. An accepted key moves to
    /// the next screen and restarts the debounce time; a dropped key changes
    /// nothing.
    pub open spec fn after_key(self, key: Key, now: int) -> Session {
        if self.accepts(now) {
            Session { screen: self.screen.next(key), last_key_time: now, debounce: self.debounce }
        } else {
            self
        }
    }
}

} // verus!
