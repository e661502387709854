//! The store's error taxonomy and the exact diagnostic lines it surfaces.

use vstd::prelude::*;
use vstd::string::StringExecFns;

verus! {

/// What can go wrong while merging a token into the credential document.
///
/// I/O failures (an unreadable or unwritable file) never reach the merge:
/// the layer that touches the file reports them with the messages composed
/// below and stops before calling in.
#[derive(Debug, PartialEq, Eq)]
pub enum StoreError {
    /// The existing file contents are not valid TOML; carries the parser's
    /// own description of the syntax error.
    Parse(String),
    /// The document binds the top-level `registry` key to something other
    /// than a table, so there is no table to put the token into.
    RegistryNotTable,
}

impl StoreError {
    /// The diagnostic line for this error.
    pub open spec fn message_spec(&self) -> Seq<char> {
        match self {
            StoreError::Parse(m) => "could not parse input as TOML: "@ + m@,
            StoreError::RegistryNotTable =>
                "the registry entry of the credential file is not a table"@,
        }
    }

    /// Renders the diagnostic line for this error.
    pub fn message(&self) -> (r: String)
        ensures
            r@ == self.message_spec(),
    {
        match self {
            StoreError::Parse(m) => {
                let mut s = String::from_str("could not parse input as TOML: ");
                s.append(m.as_str());
                s
            },
            StoreError::RegistryNotTable => {
                String::from_str("the registry entry of the credential file is not a table")
            },
        }
    }
}

/// The diagnostic for a failed read of the credential file, carrying the
/// operating system's own error text.
pub fn read_error_message(cause: &str) -> (r: String)
    ensures
        r@ == "Error reading input: "@ + cause@,
{
    let mut s = String::from_str("Error reading input: ");
    s.append(cause);
    s
}

/// The diagnostic for a failed read of standard input, carrying the
/// operating system's own error text.
pub fn input_error_message(cause: &str) -> (r: String)
    ensures
        r@ == "Error reading file: "@ + cause@,
{
    let mut s = String::from_str("Error reading file: ");
    s.append(cause);
    s
}

} // verus!
