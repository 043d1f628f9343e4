//! The credential record and its mathematical view.

use vstd::prelude::*;

verus! {

/// One stored credential. All four fields are opaque text.
#[derive(Debug)]
pub struct PasswordEntry {
    pub service: String,
    pub email: String,
    pub username: String,
    pub password: String,
}

/// What a [`PasswordEntry`] holds, as four sequences of characters.
pub struct EntryView {
    pub service: Seq<char>,
    pub email: Seq<char>,
    pub username: Seq<char>,
    pub password: Seq<char>,
}

impl EntryView {
    /// The placeholder record that labels the columns of an otherwise empty store.
    pub open spec fn header() -> EntryView {
        EntryView {
            service: "Service"@,
            email: "Email"@,
            username: "Username"@,
            password: "Password"@,
        }
    }
}

impl View for PasswordEntry {
    type V = EntryView;

    open spec fn view(&self) -> EntryView {
        EntryView {
            service: self.service@,
            email: self.email@,
            username: self.username@,
            password: self.password@,
        }
    }
}

impl Clone for PasswordEntry {
    fn clone(&self) -> (copy: Self)
        ensures
            copy == *self,
    {
        PasswordEntry {
            service: self.service.clone(),
            email: self.email.clone(),
            username: self.username.clone(),
            password: self.password.clone(),
        }
    }
}

impl PartialEq for PasswordEntry {
    fn eq(&self, other: &Self) -> (same: bool) {
        self.service == other.service && self.email == other.email && self.username
            == other.username && self.password == other.password
    }
}

impl vstd::std_specs::cmp::PartialEqSpecImpl for PasswordEntry {
    open spec fn obeys_eq_spec() -> bool {
        true
    }

    open spec fn eq_spec(&self, other: &Self) -> bool {
        self@ == other@
    }
}

impl PasswordEntry {
    /// Builds a record from its four fields, taken as given.
    pub fn new(service: String, email: String, username: String, password: String) -> (entry: Self)
        ensures
            entry.service == service,
            entry.email == email,
            entry.username == username,
            entry.password == password,
    {
        PasswordEntry { service, email, username, password }
    }

    /// The placeholder record `{Service, Email, Username, Password}`.
    pub fn header() -> (entry: Self)
        ensures
            entry@ == EntryView::header(),
    {
        PasswordEntry {
            service: "Service".to_owned(),
            email: "Email".to_owned(),
            username: "Username".to_owned(),
            password: "Password".to_owned(),
        }
    }
}

} // verus!
