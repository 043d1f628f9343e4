use password_manager::entry::PasswordEntry;
use password_manager::store::{
    add_password, delete_password, insert_header_if_empty, load_passwords, IoError, Stored,
};

fn entry(service: &str, email: &str, username: &str, password: &str) -> PasswordEntry {
    PasswordEntry::new(
        service.to_string(),
        email.to_string(),
        username.to_string(),
        password.to_string(),
    )
}

fn header() -> PasswordEntry {
    entry("Service", "Email", "Username", "Password")
}

#[test]
fn header_entry_holds_the_column_labels() {
    let h = PasswordEntry::header();
    assert_eq!(h.service, "Service");
    assert_eq!(h.email, "Email");
    assert_eq!(h.username, "Username");
    assert_eq!(h.password, "Password");
    assert_eq!(h, header());
}

#[test]
fn entries_compare_by_all_four_fields() {
    let a = entry("s", "e", "u", "p");
    assert_eq!(a, entry("s", "e", "u", "p"));
    assert_ne!(a, entry("S", "e", "u", "p"));
    assert_ne!(a, entry("s", "E", "u", "p"));
    assert_ne!(a, entry("s", "e", "U", "p"));
    assert_ne!(a, entry("s", "e", "u", "P"));
    assert_eq!(a.clone(), a);
}

#[test]
fn load_of_missing_file_is_empty() {
    assert_eq!(load_passwords(Stored::Missing), Ok(Vec::new()));
}

#[test]
fn load_of_malformed_content_is_empty() {
    assert_eq!(load_passwords(Stored::Malformed), Ok(Vec::new()));
}

#[test]
fn load_of_unreadable_file_is_an_error() {
    assert_eq!(load_passwords(Stored::Unreadable), Err(IoError));
}

#[test]
fn load_of_empty_list_is_empty() {
    assert_eq!(load_passwords(Stored::Entries(Vec::new())), Ok(Vec::new()));
}

#[test]
fn load_gives_the_stored_entries_in_order() {
    let stored = vec![
        entry("b", "b@x", "bu", "bp"),
        entry("a", "a@x", "au", "ap"),
        entry("b", "b@x", "bu", "bp"),
    ];
    assert_eq!(load_passwords(Stored::Entries(stored.clone())), Ok(stored));
}

#[test]
fn empty_store_gets_exactly_the_header() {
    let mut passwords: Vec<PasswordEntry> = Vec::new();
    insert_header_if_empty(&mut passwords);
    assert_eq!(passwords, vec![header()]);
}

#[test]
fn store_with_records_gets_no_header() {
    let mut passwords = vec![entry("x", "e", "u", "p")];
    insert_header_if_empty(&mut passwords);
    assert_eq!(passwords, vec![entry("x", "e", "u", "p")]);
}

#[test]
fn header_is_not_inserted_twice() {
    let mut passwords: Vec<PasswordEntry> = Vec::new();
    insert_header_if_empty(&mut passwords);
    insert_header_if_empty(&mut passwords);
    assert_eq!(passwords, vec![header()]);
}

#[test]
fn add_appends_at_the_end() {
    let mut passwords = vec![entry("a", "1", "2", "3"), entry("b", "4", "5", "6")];
    add_password(&mut passwords, entry("c", "7", "8", "9"));
    assert_eq!(
        passwords,
        vec![entry("a", "1", "2", "3"), entry("b", "4", "5", "6"), entry("c", "7", "8", "9")]
    );
}

#[test]
fn add_to_empty_store() {
    let mut passwords: Vec<PasswordEntry> = Vec::new();
    add_password(&mut passwords, entry("a", "1", "2", "3"));
    assert_eq!(passwords, vec![entry("a", "1", "2", "3")]);
}

#[test]
fn add_keeps_duplicates_and_checks_nothing() {
    let mut passwords = vec![entry("a", "1", "2", "3")];
    add_password(&mut passwords, entry("a", "1", "2", "3"));
    add_password(&mut passwords, entry("", "", "", ""));
    assert_eq!(
        passwords,
        vec![entry("a", "1", "2", "3"), entry("a", "1", "2", "3"), entry("", "", "", "")]
    );
}

#[test]
fn delete_removes_all_matches() {
    let mut passwords =
        vec![entry("a", "1", "2", "3"), entry("b", "4", "5", "6"), entry("a", "7", "8", "9")];
    delete_password(&mut passwords, "a");
    assert_eq!(passwords, vec![entry("b", "4", "5", "6")]);
}

#[test]
fn delete_of_unknown_service_changes_nothing() {
    let before =
        vec![entry("a", "1", "2", "3"), entry("b", "4", "5", "6"), entry("a", "7", "8", "9")];
    let mut passwords = before.clone();
    delete_password(&mut passwords, "nonexistent");
    assert_eq!(passwords, before);
}

#[test]
fn delete_keeps_the_order_of_the_rest() {
    let mut passwords = vec![
        entry("x", "1", "", ""),
        entry("a", "2", "", ""),
        entry("y", "3", "", ""),
        entry("a", "4", "", ""),
        entry("z", "5", "", ""),
        entry("a", "6", "", ""),
    ];
    delete_password(&mut passwords, "a");
    assert_eq!(
        passwords,
        vec![entry("x", "1", "", ""), entry("y", "3", "", ""), entry("z", "5", "", "")]
    );
}

#[test]
fn delete_matches_the_service_exactly() {
    let before = vec![
        entry("GitHub", "1", "", ""),
        entry("github ", "2", "", ""),
        entry("git", "3", "", ""),
        entry("x", "github", "github", "github"),
    ];
    let mut passwords = before.clone();
    delete_password(&mut passwords, "github");
    assert_eq!(passwords, before);
}

#[test]
fn delete_can_empty_the_store() {
    let mut passwords = vec![entry("x", "1", "2", "3"), entry("x", "4", "5", "6")];
    delete_password(&mut passwords, "x");
    assert_eq!(passwords, Vec::new());
}

#[test]
fn delete_on_empty_store() {
    let mut passwords: Vec<PasswordEntry> = Vec::new();
    delete_password(&mut passwords, "x");
    assert_eq!(passwords, Vec::new());
}

#[test]
fn delete_removes_the_header_like_any_record() {
    let mut passwords = vec![header(), entry("x", "1", "2", "3")];
    delete_password(&mut passwords, "Service");
    assert_eq!(passwords, vec![entry("x", "1", "2", "3")]);
}

#[test]
fn delete_of_the_empty_service_name() {
    let mut passwords = vec![entry("", "1", "2", "3"), entry("x", "4", "5", "6")];
    delete_password(&mut passwords, "");
    assert_eq!(passwords, vec![entry("x", "4", "5", "6")]);
}

#[test]
fn delete_twice_is_delete_once() {
    let mut passwords = vec![entry("a", "1", "2", "3"), entry("b", "4", "5", "6")];
    delete_password(&mut passwords, "a");
    delete_password(&mut passwords, "a");
    assert_eq!(passwords, vec![entry("b", "4", "5", "6")]);
}
