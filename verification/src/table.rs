//! What the two full-screen views show: the menu and the table of records.

use vstd::prelude::*;
use crate::entry::{EntryView, PasswordEntry};
use crate::store::records;

verus! {

/// The title of the menu panel.
pub const MENU_TITLE: &'static str = "Password Manager";

/// The title of the table panel.
pub const TABLE_TITLE: &'static str = "Stored Passwords";

/// The number of columns of the table.
pub const TABLE_COLUMNS: usize = 4;

/// The share of the table's width that each column takes, in percent.
pub const COLUMN_PERCENT: u16 = 25;

/// The cells of the row that shows `r`: service, email, username, password.
pub open spec fn table_row(r: EntryView) -> Seq<Seq<char>> {
    seq![r.service, r.email, r.username, r.password]
}

/// The rows of the table that shows `all`: one row per record, in store order.
pub open spec fn table_rows(all: Seq<EntryView>) -> Seq<Seq<Seq<char>>> {
    all.map_values(|r: EntryView| table_row(r))
}

/// The three lines of the menu, in the order in which they are shown.
pub open spec fn menu_lines() -> Seq<Seq<char>> {
    seq!["1. Add Password"@, "2. Get Passwords"@, "3. Delete Password"@]
}

/// The lines of the menu. They are the same on every return to the menu.
pub fn menu_items() -> (items: Vec<&'static str>)
    ensures
        items.deep_view() == menu_lines(),
{
    let mut items: Vec<&'static str> = Vec::new();
    items.push("1. Add Password");
    items.push("2. Get Passwords");
    items.push("3. Delete Password");
    items
}

/// The table of all stored records: one row of four cells for each record,
/// in store order. The header record, where it is stored, is a row like any other.
pub fn display_passwords(passwords: &Vec<PasswordEntry>) -> (rows: Vec<Vec<String>>)
    ensures
        rows.deep_view() == table_rows(records(passwords@)),
{
    let mut rows: Vec<Vec<String>> = Vec::new();
    let mut i: usize = 0;
    while i < passwords.len()
        invariant
            i <= passwords.len(),
            rows.len() == i,
            forall|k: int| 0 <= k < i ==> (#[trigger] rows@[k]).deep_view() == table_row(passwords@[k]@),
        decreases passwords.len() - i,
    {
        let entry = &passwords[i];
        let mut row: Vec<String> = Vec::new();
        row.push(entry.service.clone());
        row.push(entry.email.clone());
        row.push(entry.username.clone());
        row.push(entry.password.clone());
        rows.push(row);
        i = i + 1;
    }
    rows
}

/// The table has one row for each record, in store order, every row has a
/// cell for each of the columns, and the columns share the whole width equally.
pub proof fn lemma_table_shape(all: Seq<EntryView>)
    ensures
        table_rows(all).len() == all.len(),
        forall|i: int| 0 <= i < all.len() ==> (#[trigger] table_rows(all)[i]) == table_row(all[i]),
        forall|i: int| 0 <= i < all.len() ==> (#[trigger] table_rows(all)[i]).len() == TABLE_COLUMNS,
        TABLE_COLUMNS * COLUMN_PERCENT == 100,
{
}

} // verus!
