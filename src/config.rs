use vstd::prelude::*;

use crate::text::string_of;
use crate::types::TtsError;

verus! {

/// What `std::path::Path::join` makes of a base path and a relative part,
/// as text.
pub uninterp spec fn joined_path(base: Seq<char>, part: Seq<char>) -> Seq<char>;

/// Relies on `std::path::Path::join` (and a lossy conversion back to
/// text): the result depends on the two paths alone.
#[verifier::external_body]
pub(crate) fn join_path(base: &str, part: &str) -> (r: String)
    ensures
        r@ == joined_path(base@, part@),
{
    std::path::Path::new(base).join(part).to_string_lossy().into_owned()
}

/// Relies on `dirs::config_dir`: the user's configuration directory, which
/// the environment decides; none when it cannot be determined.
#[verifier::external_body]
fn user_config_dir() -> (r: Option<String>) {
    dirs::config_dir().map(|p| p.to_string_lossy().into_owned())
}

/// The application's directory under a user configuration directory.
pub open spec fn app_dir(base: Seq<char>) -> Seq<char> {
    joined_path(base, "neko-tts"@)
}

/// The configuration file under a user configuration directory.
pub open spec fn app_config_file(base: Seq<char>) -> Seq<char> {
    joined_path(app_dir(base), "config.json"@)
}

/// The application's directory under the given user configuration directory.
pub fn config_dir_in(base: &str) -> (r: String)
    ensures
        r@ == app_dir(base@),
{
    join_path(base, "neko-tts")
}

/// The configuration file under the given user configuration directory.
pub fn config_file_in(base: &str) -> (r: String)
    ensures
        r@ == app_config_file(base@),
{
    let dir = config_dir_in(base);
    join_path(dir.as_str(), "config.json")
}

/// The application's configuration directory; fails when the user's
/// configuration directory cannot be determined.
pub fn config_dir() -> (r: Result<String, TtsError>)
    ensures
        match r {
            Ok(p) => exists|b: Seq<char>| p@ == app_dir(b),
            Err(e) => e is ConfigUnavailable && e.text() == "Could not determine config directory"@,
        },
{
    match user_config_dir() {
        Some(base) => Ok(config_dir_in(base.as_str())),
        None => Err(TtsError::ConfigUnavailable(string_of("Could not determine config directory"))),
    }
}

/// The configuration file's path; fails when the user's configuration
/// directory cannot be determined.
pub fn config_file_path() -> (r: Result<String, TtsError>)
    ensures
        match r {
            Ok(p) => exists|b: Seq<char>| p@ == app_config_file(b),
            Err(e) => e is ConfigUnavailable && e.text() == "Could not determine config directory"@,
        },
{
    match user_config_dir() {
        Some(base) => Ok(config_file_in(base.as_str())),
        None => Err(TtsError::ConfigUnavailable(string_of("Could not determine config directory"))),
    }
}

} // verus!
