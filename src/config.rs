use vstd::prelude::*;
use vstd::string::*;
use crate::text::{contains_text, occurs_in, same_text};

verus! {

/// The UI used where no other is configured.
pub open spec fn default_ui_url() -> Seq<char> {
    "https://paritytech.github.io/canvas-ui"@
}

/// The URL of `path` in the UI at `base`, or at the default UI where no base
/// is configured.
pub fn ui_url(base: Option<&str>, path: &str) -> (r: String)
    ensures
        r@ == (match base {
            Some(b) => b@,
            None => default_ui_url(),
        }) + path@,
{
    let mut r = match base {
        Some(b) => String::from_str(b),
        None => String::from_str("https://paritytech.github.io/canvas-ui"),
    };
    r.append(path);
    r
}

#[derive(Clone, Copy, Debug, PartialEq, Eq, Structural)]
pub enum ConfigError {
    /// The setting that says whether to close the browser is neither `true`
    /// nor `false`.
    InvalidCloseFlag,
}

/// Whether to tear the browser down after a run, from the setting's text:
/// unset means yes, and a set value must be `true` or `false`.
pub fn parse_close_flag(value: Option<&str>) -> (r: Result<bool, ConfigError>)
    ensures
        r == (match value {
            None => Ok(true),
            Some(v) => if v@ == "true"@ {
                Ok(true)
            } else if v@ == "false"@ {
                Ok(false)
            } else {
                Err(ConfigError::InvalidCloseFlag)
            },
        }),
{
    match value {
        None => Ok(true),
        Some(v) => {
            if same_text(v, "true") {
                Ok(true)
            } else if same_text(v, "false") {
                Ok(false)
            } else {
                Err(ConfigError::InvalidCloseFlag)
            }
        },
    }
}

/// Whether the command line of some process names the backing node.
pub fn node_running(cmdlines: &Vec<String>) -> (r: bool)
    ensures
        r == exists|i: int| 0 <= i < cmdlines@.len() && occurs_in(#[trigger] cmdlines@[i]@, "canvas"@),
{
    let mut i: usize = 0;
    while i < cmdlines.len()
        invariant
            i <= cmdlines@.len(),
            forall|j: int| 0 <= j < i ==> !occurs_in(#[trigger] cmdlines@[j]@, "canvas"@),
        decreases cmdlines@.len() - i,
    {
        if contains_text(cmdlines[i].as_str(), "canvas") {
            return true;
        }
        i = i + 1;
    }
    false
}

} // verus!
