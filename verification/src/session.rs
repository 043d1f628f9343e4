//! The screen controller: which screen is shown, what input it waits for,
//! and what each input does to the store.
//!
//! A [`Session`] only decides. The program around it reads keys and lines,
//! draws, waits and writes the file, and hands each input to the session.

use vstd::prelude::*;
use crate::entry::{EntryView, PasswordEntry};
use crate::prompt::{trim_answer, trimmed};
use crate::store::{
    add_password, delete_password, insert_header_if_empty, load_passwords, records,
    stored_records, with_header, without_service, Stored,
};

verus! {

/// The screens of the program. A run starts in `Menu` and ends in `Quit`.
#[derive(Clone, Copy, Debug, PartialEq, Eq, Structural)]
pub enum Screen {
    /// The list of actions. Every action comes back to it.
    Menu,
    /// The four questions that make a new record.
    Adding,
    /// The table of all records.
    Listing,
    /// The question for the service to delete.
    Deleting,
    /// The end of the run: the store is written and the program leaves.
    Quit,
}

/// The kind of input that a screen waits for.
#[derive(Clone, Copy, Debug, PartialEq, Eq, Structural)]
pub enum Reads {
    /// One key at a time, unbuffered.
    Key,
    /// A whole line of text, typed and ended by the user.
    Line,
    /// No input: the run is over.
    Nothing,
}

/// What is announced to the user after an action has changed the store.
#[derive(Clone, Copy, Debug, PartialEq, Eq, Structural)]
pub enum Notice {
    /// A record was added.
    Added,
    /// The records of a service were deleted, if there were any.
    Deleted,
}

/// How long a notice stays on the screen, in milliseconds.
pub const NOTICE_MILLIS: u64 = 600;

impl Screen {
    /// The kind of input that this screen waits for.
    pub open spec fn spec_reads(self) -> Reads {
        match self {
            Screen::Menu => Reads::Key,
            Screen::Listing => Reads::Key,
            Screen::Adding => Reads::Line,
            Screen::Deleting => Reads::Line,
            Screen::Quit => Reads::Nothing,
        }
    }

    /// The kind of input that this screen waits for: keys in the menu and in
    /// the table, lines where a question is asked, nothing after the end.
    #[verifier::when_used_as_spec(spec_reads)]
    pub fn reads(self) -> (kind: Reads)
        ensures
            kind == self.spec_reads(),
    {
        match self {
            Screen::Menu => Reads::Key,
            Screen::Listing => Reads::Key,
            Screen::Adding => Reads::Line,
            Screen::Deleting => Reads::Line,
            Screen::Quit => Reads::Nothing,
        }
    }
}

impl Notice {
    /// The text of the notice.
    pub open spec fn spec_message(self) -> Seq<char> {
        match self {
            Notice::Added => "Password added successfully."@,
            Notice::Deleted => "Password deleted successfully (if it existed)."@,
        }
    }

    /// The text of the notice.
    pub fn message(self) -> (text: &'static str)
        ensures
            text@ == self.spec_message(),
    {
        match self {
            Notice::Added => "Password added successfully.",
            Notice::Deleted => "Password deleted successfully (if it existed).",
        }
    }
}

/// The question asked for the field of a new record that comes after
/// `answered` answers: service, email, username, password.
pub open spec fn field_prompt(answered: nat) -> Seq<char> {
    if answered == 0 {
        "Enter service: "@
    } else if answered == 1 {
        "Enter email: "@
    } else if answered == 2 {
        "Enter username: "@
    } else {
        "Enter password: "@
    }
}

/// The state of a run, as mathematics.
pub struct SessionView {
    /// The screen that is shown.
    pub screen: Screen,
    /// The records of the store, in insertion order.
    pub records: Seq<EntryView>,
    /// The answers given so far to the questions for a new record.
    pub answers: Seq<Seq<char>>,
}

impl SessionView {
    /// The state a run starts in: the menu, over the loaded records or, when
    /// there are none, over the header record alone.
    pub open spec fn start(loaded: Seq<EntryView>) -> SessionView {
        SessionView { screen: Screen::Menu, records: with_header(loaded), answers: Seq::empty() }
    }

    /// Answers are only held while a record is being added, and never all four.
    pub open spec fn wf(self) -> bool {
        if self.screen == Screen::Adding {
            self.answers.len() < 4
        } else {
            self.answers.len() == 0
        }
    }

    /// This state on another screen.
    pub open spec fn on(self, screen: Screen) -> SessionView {
        SessionView { screen, ..self }
    }

    /// The state after the key `key`.
    pub open spec fn press(self, key: char) -> SessionView {
        match self.screen {
            Screen::Menu => {
                if key == '1' {
                    SessionView { answers: Seq::empty(), ..self.on(Screen::Adding) }
                } else if key == '2' {
                    self.on(Screen::Listing)
                } else if key == '3' {
                    self.on(Screen::Deleting)
                } else if key == 'q' {
                    self.on(Screen::Quit)
                } else {
                    self
                }
            },
            Screen::Listing => {
                if key == 'q' {
                    self.on(Screen::Menu)
                } else {
                    self
                }
            },
            _ => self,
        }
    }

    /// The record made of three earlier answers and the last one.
    pub open spec fn answered_entry(self, last: Seq<char>) -> EntryView {
        EntryView {
            service: self.answers[0],
            email: self.answers[1],
            username: self.answers[2],
            password: last,
        }
    }

    /// The state after the answer `text` to the question that is shown.
    pub open spec fn answer(self, text: Seq<char>) -> SessionView {
        match self.screen {
            Screen::Adding => {
                if self.answers.len() < 3 {
                    SessionView { answers: self.answers.push(text), ..self }
                } else {
                    SessionView {
                        screen: Screen::Menu,
                        records: self.records.push(self.answered_entry(text)),
                        answers: Seq::empty(),
                    }
                }
            },
            Screen::Deleting => SessionView {
                screen: Screen::Menu,
                records: without_service(self.records, text),
                answers: self.answers,
            },
            _ => self,
        }
    }

    /// What an answer given in this state announces: the end of an action, or nothing.
    pub open spec fn notice(self) -> Option<Notice> {
        match self.screen {
            Screen::Adding => {
                if self.answers.len() < 3 {
                    None
                } else {
                    Some(Notice::Added)
                }
            },
            Screen::Deleting => Some(Notice::Deleted),
            _ => None,
        }
    }

    /// The question that is shown, on the screens that ask one.
    pub open spec fn prompt(self) -> Option<Seq<char>> {
        match self.screen {
            Screen::Adding => Some(field_prompt(self.answers.len())),
            Screen::Deleting => Some("Enter service to delete: "@),
            _ => None,
        }
    }
}

/// A run of the program: the screen that is shown, the store, and the answers
/// collected for a record that is being added.
pub struct Session {
    screen: Screen,
    passwords: Vec<PasswordEntry>,
    answers: Vec<String>,
}

impl View for Session {
    type V = SessionView;

    closed spec fn view(&self) -> SessionView {
        SessionView {
            screen: self.screen,
            records: records(self.passwords@),
            answers: self.answers@.map_values(|a: String| a@),
        }
    }
}

impl Session {
    /// Starts a run over `loaded`. An empty store gets the header record
    /// before the menu is shown.
    pub fn new(loaded: Vec<PasswordEntry>) -> (session: Session)
        ensures
            session@ == SessionView::start(records(loaded@)),
            session@.wf(),
    {
        let mut passwords = loaded;
        insert_header_if_empty(&mut passwords);
        let session = Session { screen: Screen::Menu, passwords, answers: Vec::new() };
        assert(session@.answers =~= Seq::empty());
        session
    }

    /// Starts a run from what was found at the store's path. A failed read is
    /// not fatal: the run starts as it does without a file.
    pub fn open(found: Stored) -> (session: Session)
        ensures
            session@ == SessionView::start(
                match stored_records(found) {
                    Some(loaded) => loaded,
                    None => Seq::empty(),
                },
            ),
            session@.wf(),
    {
        let loaded = match load_passwords(found) {
            Ok(entries) => entries,
            Err(_) => Vec::new(),
        };
        Session::new(loaded)
    }

    /// The screen that is shown.
    pub fn screen(&self) -> (screen: Screen)
        ensures
            screen == self@.screen,
    {
        self.screen
    }

    /// The records of the store, in insertion order.
    pub fn passwords(&self) -> (all: &Vec<PasswordEntry>)
        ensures
            records(all@) == self@.records,
    {
        &self.passwords
    }

    /// What has to be written to the store's file now: every record, once the
    /// user has quit, and nothing before that.
    pub fn to_save(&self) -> (all: Option<&Vec<PasswordEntry>>)
        ensures
            all is Some <==> self@.screen == Screen::Quit,
            all matches Some(entries) ==> records(entries@) == self@.records,
    {
        match self.screen {
            Screen::Quit => Some(&self.passwords),
            _ => None,
        }
    }

    /// The question to ask, on the screens that ask one.
    pub fn prompt(&self) -> (question: Option<&'static str>)
        ensures
            match question {
                Some(text) => self@.prompt() == Some(text@),
                None => self@.prompt() is None,
            },
    {
        match self.screen {
            Screen::Adding => {
                let answered = self.answers.len();
                if answered == 0 {
                    Some("Enter service: ")
                } else if answered == 1 {
                    Some("Enter email: ")
                } else if answered == 2 {
                    Some("Enter username: ")
                } else {
                    Some("Enter password: ")
                }
            },
            Screen::Deleting => Some("Enter service to delete: "),
            _ => None,
        }
    }

    /// Takes a key. In the menu `1`, `2`, `3` and `q` choose an action and
    /// every other key is ignored; in the table `q` goes back to the menu.
    /// Screens that read lines take no key.
    pub fn press(&mut self, key: char)
        ensures
            final(self)@ == old(self)@.press(key),
            old(self)@.wf() ==> final(self)@.wf(),
    {
        match self.screen {
            Screen::Menu => {
                if key == '1' {
                    self.answers.clear();
                    self.screen = Screen::Adding;
                    assert(self@.answers =~= Seq::empty());
                } else if key == '2' {
                    self.screen = Screen::Listing;
                } else if key == '3' {
                    self.screen = Screen::Deleting;
                } else if key == 'q' {
                    self.screen = Screen::Quit;
                }
            },
            Screen::Listing => {
                if key == 'q' {
                    self.screen = Screen::Menu;
                }
            },
            _ => {},
        }
    }

    /// Takes the answer to the question that is shown.
    ///
    /// While a record is added, the first three answers are kept and the
    /// fourth completes the record, which goes to the end of the store. On
    /// the delete screen the answer names the service whose records leave.
    /// Both actions end in the menu and return the notice to show. Screens
    /// that ask nothing take no answer.
    pub fn answer(&mut self, text: String) -> (notice: Option<Notice>)
        ensures
            final(self)@ == old(self)@.answer(text@),
            notice == old(self)@.notice(),
            old(self)@.wf() ==> final(self)@.wf(),
    {
        match self.screen {
            Screen::Adding => {
                if self.answers.len() < 3 {
                    self.answers.push(text);
                    assert(self@.answers =~= old(self)@.answers.push(text@));
                    None
                } else {
                    let service = self.answers.remove(0);
                    let email = self.answers.remove(0);
                    let username = self.answers.remove(0);
                    self.answers.clear();
                    let entry = PasswordEntry::new(service, email, username, text);
                    add_password(&mut self.passwords, entry);
                    self.screen = Screen::Menu;
                    assert(self@.answers =~= Seq::empty());
                    Some(Notice::Added)
                }
            },
            Screen::Deleting => {
                delete_password(&mut self.passwords, text.as_str());
                self.screen = Screen::Menu;
                Some(Notice::Deleted)
            },
            _ => None,
        }
    }

    /// Takes a line as it was typed: the answer is the line without the
    /// whitespace at its ends.
    pub fn enter(&mut self, line: &str) -> (notice: Option<Notice>)
        ensures
            final(self)@ == old(self)@.answer(trimmed(line@)),
            notice == old(self)@.notice(),
            old(self)@.wf() ==> final(self)@.wf(),
    {
        self.answer(trim_answer(line))
    }
}

/// A run starts well-formed, and no key and no answer breaks that: outside
/// the add screen no answers are held, so the menu remembers nothing of the
/// action before.
pub proof fn lemma_wf_is_kept(state: SessionView, loaded: Seq<EntryView>, key: char, text: Seq<char>)
    ensures
        SessionView::start(loaded).wf(),
        SessionView::start(loaded).records.len() > 0,
        state.wf() ==> state.press(key).wf(),
        state.wf() ==> state.answer(text).wf(),
{
}

/// The end is reached from the menu by the key `q` and in no other way, and
/// nothing leads out of it.
pub proof fn lemma_quit_only_from_menu(state: SessionView, key: char, text: Seq<char>)
    ensures
        state.press(key).screen == Screen::Quit <==> state.screen == Screen::Quit || (state.screen
            == Screen::Menu && key == 'q'),
        state.answer(text).screen == Screen::Quit <==> state.screen == Screen::Quit,
        state.screen == Screen::Quit ==> state.press(key) == state && state.answer(text) == state,
{
}

/// No key changes the store, and in the menu every key but `1`, `2`, `3`
/// and `q` changes nothing at all.
pub proof fn lemma_keys_keep_the_store(state: SessionView, key: char)
    ensures
        state.press(key).records == state.records,
        state.screen == Screen::Menu && key != '1' && key != '2' && key != '3' && key != 'q'
            ==> state.press(key) == state,
{
}

/// An input of the kind that the screen does not wait for changes nothing.
pub proof fn lemma_unread_input_is_ignored(state: SessionView, key: char, text: Seq<char>)
    ensures
        state.screen.spec_reads() != Reads::Key ==> state.press(key) == state,
        state.screen.spec_reads() != Reads::Line ==> state.answer(text) == state && state.notice()
            is None,
{
}

/// Adding: from the menu the key `1` and four answers, in the order service,
/// email, username, password, end in the menu with the new record at the end
/// of the store. Only the fourth answer brings a notice.
pub proof fn lemma_add_round(
    state: SessionView,
    service: Seq<char>,
    email: Seq<char>,
    username: Seq<char>,
    password: Seq<char>,
)
    requires
        state.screen == Screen::Menu,
    ensures
        ({
            let asked = state.press('1');
            let first = asked.answer(service);
            let second = first.answer(email);
            let third = second.answer(username);
            let entry = EntryView { service, email, username, password };
            &&& asked.prompt() == Some("Enter service: "@)
            &&& first.prompt() == Some("Enter email: "@)
            &&& second.prompt() == Some("Enter username: "@)
            &&& third.prompt() == Some("Enter password: "@)
            &&& asked.notice() is None
            &&& first.notice() is None
            &&& second.notice() is None
            &&& third.notice() == Some(Notice::Added)
            &&& third.answer(password) == SessionView {
                screen: Screen::Menu,
                records: state.records.push(entry),
                answers: Seq::empty(),
            }
        }),
{
    let asked = state.press('1');
    let first = asked.answer(service);
    let second = first.answer(email);
    let third = second.answer(username);
}

/// Deleting: from the menu the key `3` and one answer end in the menu, with
/// every record of the named service gone and a notice whether or not there
/// was one.
pub proof fn lemma_delete_round(state: SessionView, service: Seq<char>)
    requires
        state.screen == Screen::Menu,
    ensures
        state.press('3').prompt() == Some("Enter service to delete: "@),
        state.press('3').notice() == Some(Notice::Deleted),
        state.press('3').answer(service) == (SessionView {
            records: without_service(state.records, service),
            ..state
        }),
{
}

/// Listing: from the menu the key `2` shows the table, which stays until
/// the key `q` brings the menu back. The state after it is the state before.
pub proof fn lemma_list_round(state: SessionView, key: char)
    requires
        state.screen == Screen::Menu,
    ensures
        state.press('2') == state.on(Screen::Listing),
        key != 'q' ==> state.press('2').press(key) == state.press('2'),
        state.press('2').press('q') == state,
{
}

} // verus!
