//! Where the settings live: a `.gut` directory under the user's home.
use vstd::prelude::*;

verus! {

/// Why the settings directory could not be found.
#[derive(Clone, Copy, Debug, PartialEq, Eq, Structural)]
pub enum DirError {
    /// The user's home directory is unknown.
    NoHome,
    /// The home directory's path is not valid Unicode.
    NotUnicode,
}

/// The settings directory under a home directory.
pub open spec fn gut_dir_of(home: Seq<char>) -> Seq<char> {
    home + "/.gut"@
}

/// The settings file in a settings directory.
pub open spec fn settings_file_of(dir: Seq<char>) -> Seq<char> {
    dir + "/gut.json"@
}

/// Relies on `dirs::home_dir` and `Path::to_str`: the home directory, which
/// depends on the environment (`None` if unknown, `Some(None)` if its path is
/// not Unicode).
#[verifier::external_body]
fn home_dir_text() -> (r: Option<Option<String>>)
{
    dirs::home_dir().map(|p| p.to_str().map(|s| s.to_string()))
}

/// The settings directory under the home directory `home`.
pub fn gut_dir(home: &str) -> (r: String)
    ensures
        r@ == gut_dir_of(home@),
{
    let mut out = String::from_str(home);
    out.append("/.gut");
    out
}

/// The settings file inside the settings directory `dir`.
pub fn settings_file(dir: &str) -> (r: String)
    ensures
        r@ == settings_file_of(dir@),
{
    let mut out = String::from_str(dir);
    out.append("/gut.json");
    out
}

/// The settings directory for the outcome of a home directory lookup: an
/// unknown home and a home whose path is not Unicode are errors, with no
/// fallback path.
pub fn gut_dir_from_home(home: Option<Option<String>>) -> (r: Result<String, DirError>)
    ensures
        home is None <==> r == Err::<String, DirError>(DirError::NoHome),
        home == Some(None::<String>) <==> r == Err::<String, DirError>(DirError::NotUnicode),
        home matches Some(Some(h)) ==> r matches Ok(d) && d@ == gut_dir_of(h@),
{
    match home {
        None => Err(DirError::NoHome),
        Some(None) => Err(DirError::NotUnicode),
        Some(Some(h)) => Ok(gut_dir(h.as_str())),
    }
}

/// The settings directory under the current user's home directory, or why
/// there is none.
pub fn get_gut_dir() -> (r: Result<String, DirError>)
    ensures
        r matches Ok(d) ==> exists|home: Seq<char>| d@ == #[trigger] gut_dir_of(home),
{
    gut_dir_from_home(home_dir_text())
}

} // verus!
