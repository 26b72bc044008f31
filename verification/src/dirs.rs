//! Locations for the user's configuration files.

use vstd::prelude::*;
use vstd::string::*;

verus! {

/// Handle to the platform's base directories.
pub struct BaseDirs;

/// Path of a file under the application's configuration directory.
pub open spec fn placed_config_path(base: Seq<char>, path: Seq<char>) -> Seq<char> {
    base + "/open-in-mastodon/"@ + path
}

/// Relies on dirs::config_dir: the user's configuration directory. The
/// result depends on the environment, so nothing is promised of it.
#[verifier::external_body]
fn config_dir() -> (r: Option<String>) {
    ::dirs::config_dir().map(|p| p.to_string_lossy().into_owned())
}

/// Opens the platform's base directories.
pub fn new() -> (r: Result<BaseDirs, String>)
    ensures
        r is Ok,
{
    Ok(BaseDirs)
}

impl BaseDirs {
    /// The place for a configuration file: the file's path under the
    /// application's directory inside the user's configuration directory,
    /// whichever directory the environment names.
    pub fn place_config_file(&self, path: &str) -> (r: Result<String, String>)
        ensures
            r matches Ok(p) ==> exists|base: Seq<char>| p@ == #[trigger] placed_config_path(
                base,
                path@,
            ),
            r matches Err(m) ==> m@ == "unable to determine user config dir"@,
    {
        match config_dir() {
            Some(base) => {
                let ghost b = base@;
                let p = base.concat("/open-in-mastodon/").concat(path);
                proof {
                    assert(p@ =~= placed_config_path(b, path@));
                }
                Ok(p)
            },
            None => Err("unable to determine user config dir".to_owned()),
        }
    }
}

} // verus!
