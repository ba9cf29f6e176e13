use vstd::prelude::*;
use vstd::string::StringExecFns;

verus! {

/// The configuration file's location could not be determined from the
/// process environment.
#[derive(Clone, Copy, PartialEq, Eq, Structural, Debug)]
pub struct ConfigLocationError;

impl ConfigLocationError {
    /// What went wrong, for reporting to the user.
    pub fn message(&self) -> (r: &'static str)
        ensures
            r@ == "HOME environment variable empty or unset"@,
    {
        "HOME environment variable empty or unset"
    }
}

/// The fixed location of the configuration document below the home
/// directory.
pub open spec fn home_relative_path() -> Seq<char> {
    "/.kube/config"@
}

/// The value of an optional environment variable, as a sequence of
/// characters.
pub open spec fn opt_view(o: Option<String>) -> Option<Seq<char>> {
    match o {
        Some(s) => Some(s@),
        None => None,
    }
}

/// The path the document must be read from, given the override variable's
/// value and the home variable's value: the override verbatim when it is set
/// and non-empty, the fixed location below the home directory when that is
/// set and non-empty, and nothing otherwise.
pub open spec fn spec_config_path(
    override_path: Option<Seq<char>>,
    home: Option<Seq<char>>,
) -> Option<Seq<char>> {
    if override_path is Some && override_path->0.len() > 0 {
        Some(override_path->0)
    } else if home is Some && home->0.len() > 0 {
        Some(home->0 + home_relative_path())
    } else {
        None
    }
}

/// Resolves the path of the configuration document from the two environment
/// values, failing exactly when neither yields a usable path.
pub fn resolve_config_path(override_path: Option<String>, home: Option<String>) -> (r: Result<
    String,
    ConfigLocationError,
>)
    ensures
        match r {
            Ok(s) => spec_config_path(opt_view(override_path), opt_view(home)) == Some(s@),
            Err(_) => spec_config_path(opt_view(override_path), opt_view(home)) is None,
        },
{
    let use_override = match &override_path {
        Some(p) => !p.as_str().is_empty(),
        None => false,
    };
    if use_override {
        match override_path {
            Some(p) => {
                return Ok(p);
            },
            None => {},
        }
    }
    match home {
        Some(h) => {
            if !h.as_str().is_empty() {
                Ok(h.concat("/.kube/config"))
            } else {
                Err(ConfigLocationError)
            }
        },
        None => Err(ConfigLocationError),
    }
}

} // verus!
