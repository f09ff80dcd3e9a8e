//! The session: the active screen, the keys that move it on, and the debounce
//! that drops keys which arrive too close together.

use vstd::prelude::*;
use crate::key::{accepts_char, quits_on, Key};
use crate::screen::{initial_screen, startup_notice_text, Form, Screen, Session};
use crate::solver::{submit_spldv, submit_splsv};

verus! {

/// The characters of each field.
pub open spec fn field_texts(fields: Seq<String>) -> Seq<Seq<char>> {
    Seq::new(fields.len(), |i: int| fields[i]@)
}

/// The active screen with what it holds.
#[derive(PartialEq, Debug)]
pub enum AppState {
    Menu,
    InputSPLDV([String; 6], usize),
    InputSPLSV([String; 2], usize),
    Result(String),
    Exit,
}

impl View for AppState {
    type V = Screen;

    open spec fn view(&self) -> Screen {
        match *self {
            AppState::Menu => Screen::Menu,
            AppState::InputSPLDV(inputs, selected) => Screen::EnteringTwoVarForm(
                Form { fields: field_texts(inputs@), cursor: selected as int },
            ),
            AppState::InputSPLSV(inputs, selected) => Screen::EnteringOneVarForm(
                Form { fields: field_texts(inputs@), cursor: selected as int },
            ),
            AppState::Result(text) => Screen::ResultScreen(text@),
            AppState::Exit => Screen::Terminated,
        }
    }
}

impl Clone for AppState {
    fn clone(&self) -> (copy: Self)
        ensures
            copy@ == self@,
    {
        match self {
            AppState::Menu => AppState::Menu,
            AppState::InputSPLDV(inputs, selected) => {
                let copied = [
                    inputs[0].clone(),
                    inputs[1].clone(),
                    inputs[2].clone(),
                    inputs[3].clone(),
                    inputs[4].clone(),
                    inputs[5].clone(),
                ];
                assert(field_texts(copied@) =~= field_texts(inputs@));
                AppState::InputSPLDV(copied, *selected)
            },
            AppState::InputSPLSV(inputs, selected) => {
                let copied = [inputs[0].clone(), inputs[1].clone()];
                assert(field_texts(copied@) =~= field_texts(inputs@));
                AppState::InputSPLSV(copied, *selected)
            },
            AppState::Result(text) => AppState::Result(text.clone()),
            AppState::Exit => AppState::Exit,
        }
    }
}

/// Applies an editing or a cursor key to the fields of a form.
fn edit_form<const N: usize>(key: Key, inputs: &mut [String; N], selected: usize) -> (cursor: usize)
    requires
        selected < N,
    ensures
        (Form { fields: field_texts(final(inputs)@), cursor: cursor as int }) == (Form {
            fields: field_texts(old(inputs)@),
            cursor: selected as int,
        }).edited(key),
        cursor < N,
{
    let ghost before = Form { fields: field_texts(inputs@), cursor: selected as int };
    match key {
        Key::Char(c) => {
            if accepts_char(c) {
                inputs[selected].push(c);
                assert(field_texts(inputs@) =~= before.typed(c).fields);
            }
            selected
        },
        Key::Backspace => {
            let _ = inputs[selected].pop();
            assert(field_texts(inputs@) =~= before.erased().fields);
            selected
        },
        Key::Left => if selected > 0 {
            selected - 1
        } else {
            selected
        },
        Key::Right => if selected < N - 1 {
            selected + 1
        } else {
            selected
        },
        _ => selected,
    }
}

/// A fresh one-variable form.
fn blank_splsv() -> (state: AppState)
    ensures
        state@ == Screen::EnteringOneVarForm(Form::blank(2)),
{
    let inputs = [String::new(), String::new()];
    assert(field_texts(inputs@) =~= Form::blank(2).fields);
    AppState::InputSPLSV(inputs, 0)
}

/// A fresh two-variable form.
fn blank_spldv() -> (state: AppState)
    ensures
        state@ == Screen::EnteringTwoVarForm(Form::blank(6)),
{
    let inputs = [
        String::new(),
        String::new(),
        String::new(),
        String::new(),
        String::new(),
        String::new(),
    ];
    assert(field_texts(inputs@) =~= Form::blank(6).fields);
    AppState::InputSPLDV(inputs, 0)
}

impl AppState {
    /// Whether the cursor of a form is on one of its fields.
    pub fn is_well_formed(&self) -> (ok: bool)
        ensures
            ok == self@.wf(),
    {
        match self {
            AppState::InputSPLDV(_, selected) => *selected < 6,
            AppState::InputSPLSV(_, selected) => *selected < 2,
            _ => true,
        }
    }

    /// The screen that a key leads to from this one.
    pub fn apply_key(self, key: Key) -> (next: AppState)
        requires
            self@.wf(),
        ensures
            next@ == self@.next(key),
            next@.wf(),
    {
        match self {
            AppState::Menu => App::handle_menu_key(key),
            AppState::InputSPLDV(inputs, selected) => App::handle_spldv_key(key, inputs, selected),
            AppState::InputSPLSV(inputs, selected) => App::handle_splsv_key(key, inputs, selected),
            AppState::Result(text) => App::handle_result_key(key, text),
            AppState::Exit => AppState::Exit,
        }
    }
}

/// The shortest time, in nanoseconds, between two keys that are both accepted.
pub const DEBOUNCE_NANOS: u64 = 50_000_000;

/// The same where one key press tends to arrive as several events.
pub const DEBOUNCE_NANOS_NOISY: u64 = 175_000_000;

/// The session: the active screen, and when the last key was accepted.
pub struct App {
    pub state: AppState,
    last_key_time: u64,
    debounce_duration: u64,
}

impl View for App {
    type V = Session;

    closed spec fn view(&self) -> Session {
        Session {
            screen: self.state@,
            last_key_time: self.last_key_time as int,
            debounce: self.debounce_duration as int,
        }
    }
}

impl App {
    /// Starts a session at time `now`, in nanoseconds on a clock that does not
    /// run backwards, on the screen that the flags ask for. `noisy_keys`
    /// selects the longer debounce time.
    pub fn new(splsv: bool, spldv: bool, hasil: bool, now: u64, noisy_keys: bool) -> (app: App)
        ensures
            app@.screen == initial_screen(splsv, spldv, hasil),
            app@.screen.wf(),
            app@.last_key_time == now,
            app@.debounce == if noisy_keys {
                DEBOUNCE_NANOS_NOISY
            } else {
                DEBOUNCE_NANOS
            },
    {
        let state = if splsv {
            blank_splsv()
        } else if spldv {
            blank_spldv()
        } else if hasil {
            AppState::Result(
                "Tidak ada hasil dari flag [--hasil]. Gunakan no-flag atau [--splsv/--spldv]".to_owned(),
            )
        } else {
            AppState::Menu
        };
        App {
            state,
            last_key_time: now,
            debounce_duration: if noisy_keys {
                DEBOUNCE_NANOS_NOISY
            } else {
                DEBOUNCE_NANOS
            },
        }
    }

    /// The line to announce a session with that starts under these flags, if
    /// there is one.
    pub fn startup_notice(splsv: bool, spldv: bool, hasil: bool) -> (notice: Option<&'static str>)
        ensures
            match notice {
                Some(line) => startup_notice_text(splsv, spldv, hasil) == Some(line@),
                None => startup_notice_text(splsv, spldv, hasil).is_none(),
            },
    {
        if splsv {
            Some("Running with [--splsv]")
        } else if spldv || hasil {
            None
        } else {
            Some("Running default.")
        }
    }

    /// Takes a key that arrives at time `now`. A key that comes less than the
    /// debounce time after the last accepted one is dropped; any other moves
    /// the session to the next screen.
    pub fn on_key(&mut self, key: Key, now: u64)
        requires
            old(self)@.screen.wf(),
        ensures
            final(self)@ == old(self)@.after_key(key, now as int),
            final(self)@.screen.wf(),
    {
        let since_last: u64 = if now >= self.last_key_time {
            now - self.last_key_time
        } else {
            0
        };
        if since_last < self.debounce_duration {
            return ;
        }
        self.last_key_time = now;
        let mut state = AppState::Exit;
        std::mem::swap(&mut self.state, &mut state);
        self.state = state.apply_key(key);
    }

    /// Whether the session has ended.
    pub fn should_exit(&self) -> (exit: bool)
        ensures
            exit == (self@.screen == Screen::Terminated),
    {
        matches!(self.state, AppState::Exit)
    }

    /// From the menu, `1` opens the one-variable form, `2` the two-variable
    /// form, and `q` or `Q` quits.
    pub fn handle_menu_key(key: Key) -> (next: AppState)
        ensures
            next@ == Screen::Menu.next(key),
            next@.wf(),
    {
        match key {
            Key::Char(c) => {
                if c == '1' {
                    blank_splsv()
                } else if c == '2' {
                    blank_spldv()
                } else if quits_on(c) {
                    AppState::Exit
                } else {
                    AppState::Menu
                }
            },
            _ => AppState::Menu,
        }
    }

    /// A key on the two-variable form: it edits the field under the cursor,
    /// moves the cursor, submits the six coefficients, goes back to the menu
    /// or quits.
    pub fn handle_spldv_key(key: Key, inputs: [String; 6], selected: usize) -> (next: AppState)
        requires
            selected < 6,
        ensures
            next@ == AppState::InputSPLDV(inputs, selected)@.next(key),
            next@.wf(),
    {
        let mut inputs = inputs;
        match key {
            Key::Char(c) if quits_on(c) => AppState::Exit,
            Key::Enter => AppState::Result(
                submit_spldv(
                    inputs[0].as_str(),
                    inputs[1].as_str(),
                    inputs[2].as_str(),
                    inputs[3].as_str(),
                    inputs[4].as_str(),
                    inputs[5].as_str(),
                ),
            ),
            Key::Esc => AppState::Menu,
            _ => {
                let cursor = edit_form(key, &mut inputs, selected);
                AppState::InputSPLDV(inputs, cursor)
            },
        }
    }

    /// A key on the one-variable form: it edits the field under the cursor,
    /// moves the cursor, submits the two coefficients, goes back to the menu
    /// or quits.
    pub fn handle_splsv_key(key: Key, inputs: [String; 2], selected: usize) -> (next: AppState)
        requires
            selected < 2,
        ensures
            next@ == AppState::InputSPLSV(inputs, selected)@.next(key),
            next@.wf(),
    {
        let mut inputs = inputs;
        match key {
            Key::Char(c) if quits_on(c) => AppState::Exit,
            Key::Enter => AppState::Result(submit_splsv(inputs[0].as_str(), inputs[1].as_str())),
            Key::Esc => AppState::Menu,
            _ => {
                let cursor = edit_form(key, &mut inputs, selected);
                AppState::InputSPLSV(inputs, cursor)
            },
        }
    }

    /// A key on the result screen: `q` or `Q` quits, escape goes back to the
    /// menu, and the text stays as it is under any other key.
    pub fn handle_result_key(key: Key, text: String) -> (next: AppState)
        ensures
            next@ == Screen::ResultScreen(text@).next(key),
            next@.wf(),
    {
        match key {
            Key::Char(c) if quits_on(c) => AppState::Exit,
            Key::Esc => AppState::Menu,
            _ => AppState::Result(text),
        }
    }
}

} // verus!
