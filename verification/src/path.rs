//! Where the store's file lies: a fixed place under the user's home directory.

use vstd::prelude::*;
use vstd::string::StringExecFns;

verus! {

/// The directory, directly under the home directory, that holds the store's file.
pub const STORE_DIR: &'static str = ".password_manager";

/// The name of the store's file.
pub const STORE_FILE: &'static str = "passwords.json";

/// What looking up the user's home directory gave.
#[derive(Debug)]
pub enum Home {
    /// No home directory could be determined.
    Unknown,
    /// There is a home directory, and its path is not Unicode text.
    NotUnicode,
    /// The path of the home directory.
    At(String),
}

/// Why the path of the store's file could not be computed.
#[derive(Clone, Copy, Debug, PartialEq, Eq, Structural)]
pub enum PathError {
    /// No home directory could be determined.
    NoHome,
    /// The path of the home directory is not Unicode text.
    NotUnicode,
}

/// The path of the store's file for the home directory `home`:
/// `<home>/.password_manager/passwords.json`.
pub open spec fn password_path(home: Seq<char>) -> Seq<char> {
    home + "/"@ + STORE_DIR@ + "/"@ + STORE_FILE@
}

/// The path of the store's file after a lookup that gave `home`, or the
/// reason why there is none.
pub open spec fn resolved_path(home: Home) -> Result<Seq<char>, PathError> {
    match home {
        Home::Unknown => Err(PathError::NoHome),
        Home::NotUnicode => Err(PathError::NotUnicode),
        Home::At(dir) => Ok(password_path(dir@)),
    }
}

/// Asks `dirs::home_dir` for the user's home directory and hands its path on
/// as text. The answer depends on the user and the machine, so nothing is
/// claimed of it.
#[verifier::external_body]
fn home_dir() -> Home {
    match dirs::home_dir() {
        None => Home::Unknown,
        Some(dir) => match dir.to_str() {
            None => Home::NotUnicode,
            Some(text) => Home::At(text.to_string()),
        },
    }
}

/// The path of the store's file for the home directory `home`.
pub fn password_path_under(home: &str) -> (path: String)
    ensures
        path@ == password_path(home@),
{
    let mut path = home.to_owned();
    path.append("/");
    path.append(STORE_DIR);
    path.append("/");
    path.append(STORE_FILE);
    path
}

/// The path of the store's file after a lookup of the home directory that
/// gave `home`. Without a home directory there is no path.
pub fn resolve_password_path(home: Home) -> (path: Result<String, PathError>)
    ensures
        match path {
            Ok(text) => resolved_path(home) == Ok::<Seq<char>, PathError>(text@),
            Err(reason) => resolved_path(home) == Err::<Seq<char>, PathError>(reason),
        },
{
    match home {
        Home::Unknown => Err(PathError::NoHome),
        Home::NotUnicode => Err(PathError::NotUnicode),
        Home::At(dir) => Ok(password_path_under(dir.as_str())),
    }
}

/// The path of the store's file for the user who runs the program:
/// `.password_manager/passwords.json` under the home directory. The lookup
/// of the home directory decides whether there is a path; where there is
/// one, it is the path under some home directory.
pub fn get_password_path() -> (path: Result<String, PathError>)
    ensures
        path matches Ok(text) ==> exists|home: Seq<char>| text@ == #[trigger] password_path(home),
{
    resolve_password_path(home_dir())
}

} // verus!
