//! Resolution of the configuration directory and of the credential file path.

use vstd::prelude::*;
use vstd::string::StringExecFns;

verus! {

/// Marker that a login invocation runs under the test harness: the home
/// directory is then taken from the test base directory, extended by this
/// suffix when it is non-empty.
pub struct TestMode {
    pub test_path: String,
}

/// The permission mode set on the credential file after every successful
/// write: read and write for the owner, nothing for group or other.
pub const CREDENTIAL_FILE_MODE: u32 = 0o600;

/// The directory that holds the credential file, as a function of the
/// test-mode override and of the three environment values that the caller
/// looked up: the test base directory, the production base directory, and
/// the user's home directory.
pub open spec fn resolved_home_spec(
    test_mode: Option<TestMode>,
    test_home: Option<String>,
    move_home: Option<String>,
    home: Option<String>,
) -> Seq<char> {
    match test_mode {
        Some(tm) => if tm.test_path@.len() > 0 {
            test_home->Some_0@ + tm.test_path@
        } else {
            test_home->Some_0@
        },
        None => match move_home {
            Some(mh) => mh@,
            None => home->Some_0@ + "/.move"@,
        },
    }
}

/// Picks the configuration directory.
///
/// In test mode the test base directory must be supplied (a missing test
/// base is a caller error, not a recoverable condition); outside test mode
/// the production base directory wins, and when it is absent the home
/// directory must be there to build the `<home>/.move` default.
pub fn resolve_home(
    test_mode: Option<TestMode>,
    test_home: Option<String>,
    move_home: Option<String>,
    home: Option<String>,
) -> (r: String)
    requires
        test_mode is Some ==> test_home is Some,
        test_mode is None && move_home is None ==> home is Some,
    ensures
        r@ == resolved_home_spec(test_mode, test_home, move_home, home),
{
    match test_mode {
        Some(tm) => {
            let mut base = test_home.unwrap();
            if !tm.test_path.as_str().is_empty() {
                base.append(tm.test_path.as_str());
            }
            base
        },
        None => match move_home {
            Some(mh) => mh,
            None => {
                let mut h = home.unwrap();
                h.append("/.move");
                h
            },
        },
    }
}

/// The fixed location of the credential file inside the configuration
/// directory.
pub fn credential_file_path(home: &str) -> (r: String)
    ensures
        r@ == home@ + "/credential.toml"@,
{
    let mut p = String::from_str(home);
    p.append("/credential.toml");
    p
}

} // verus!
