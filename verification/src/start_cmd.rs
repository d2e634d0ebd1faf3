//! The decisions of the command that starts deployed modules: which
//! configured modules a start addresses, and whether the legacy
//! management path must be taken for an old API version.
use vstd::prelude::*;
use vstd::string::StringSliceAdditionalSpecFns;
use crate::errors::PullError;
use crate::integrity::bytes_eq;

verus! {

/// The options of the start command: a single module by name, or all of
/// the modules configured in the project.
pub struct CanisterStartOpts {
    /// The name of the canister to start.  Either a canister name or the
    /// flag for all must be given.
    pub canister_name: Option<String>,
    /// Starts all of the canisters configured in the project file.
    pub all: bool,
}

/// The configured names a start command addresses: the named module
/// alone; with the all flag, every configured module; with neither, an
/// error.
pub fn select_start_targets(opts: &CanisterStartOpts, configured: &Vec<String>) -> (r: Result<
    Vec<String>,
    PullError,
>)
    ensures
        match r {
            Ok(names) => {
                if opts.canister_name is Some {
                    &&& names@.len() == 1
                    &&& names@[0]@ == opts.canister_name.unwrap()@
                } else {
                    &&& opts.all
                    &&& names@.len() == configured@.len()
                    &&& forall|i: int|
                        0 <= i < names@.len() ==> (#[trigger] names@[i])@ == configured@[i]@
                }
            },
            Err(e) => opts.canister_name is None && !opts.all && (e matches
                PullError::TerminalProtocol { message } && message@ == "Cannot find canister name."@),
        },
{
    match &opts.canister_name {
        Some(name) => {
            let mut names: Vec<String> = Vec::new();
            names.push(name.clone());
            Ok(names)
        },
        None => {
            if opts.all {
                let mut names: Vec<String> = Vec::new();
                let mut k: usize = 0;
                while k < configured.len()
                    invariant
                        0 <= k <= configured@.len(),
                        names@.len() == k,
                        forall|i: int|
                            0 <= i < k ==> (#[trigger] names@[i])@ == configured@[i]@,
                    decreases configured@.len() - k,
                {
                    names.push(configured[k].clone());
                    k = k + 1;
                }
                Ok(names)
            } else {
                Err(
                    PullError::TerminalProtocol {
                        message: String::from_str("Cannot find canister name."),
                    },
                )
            }
        },
    }
}

/// Whether the remote API version demands the legacy management-call
/// path for starting a module.
pub fn use_legacy_start(api_version: &str) -> (r: bool)
    ensures
        r == (api_version.spec_bytes() == vstd::utf8::encode_utf8("0.14.0"@)),
{
    bytes_eq(api_version.as_bytes(), "0.14.0".as_bytes())
}

} // verus!
