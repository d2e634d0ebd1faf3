//! The error diagnosis table: a dispatch over a closed, tagged
//! classification of an error, yielding a user-facing explanation and a
//! suggested way forward.
use vstd::prelude::*;
use vstd::string::StringExecFns;
use crate::bytes_util::{bytes_contains, bytes_extend, bytes_extend_range, bytes_matches_at, contains_sub};
use crate::integrity::bytes_eq;
use crate::manifest::{opt_string_eqv, clone_opt_string};

verus! {

/// A user-friendly explanation of what went wrong, and suggestions on
/// how to move forward to recover from it.  An error that already
/// carries one is handed through without further diagnosis.
pub struct DiagnosedError {
    /// A user-friendly explanation of what went wrong.
    pub explanation: Option<String>,
    /// Suggestions for the user on how to move forward to recover from
    /// the error.
    pub action_suggestion: Option<String>,
}

impl DiagnosedError {
    pub fn new(explanation: String, action_suggestion: String) -> (r: DiagnosedError)
        ensures
            (r.explanation matches Some(e) && e@ == explanation@),
            (r.action_suggestion matches Some(a) && a@ == action_suggestion@),
    {
        DiagnosedError { explanation: Some(explanation), action_suggestion: Some(action_suggestion) }
    }

    pub fn contains_diagnosis(&self) -> (r: bool)
        ensures
            r == (self.action_suggestion is Some || self.explanation is Some),
    {
        self.action_suggestion.is_some() || self.explanation.is_some()
    }
}

impl Default for DiagnosedError {
    /// The empty diagnosis: nothing helpful to say.
    fn default() -> (r: DiagnosedError)
        ensures
            r.explanation is None,
            r.action_suggestion is None,
    {
        DiagnosedError { explanation: None, action_suggestion: None }
    }
}

/// The reject code carried by a structured rejection from the boundary.
#[derive(Clone, Copy, Debug, PartialEq, Eq, Structural)]
pub enum RejectCode {
    SysFatal,
    SysTransient,
    DestinationInvalid,
    CanisterReject,
    CanisterError,
}

/// The host a failed transport connection addressed, as the values the
/// diagnosis reads: a domain name, or an address with its loopback flag.
pub enum HostInfo {
    Domain { name: Vec<u8> },
    Ipv4 { loopback: bool },
    Ipv6 { loopback: bool },
}

/// What the agent boundary reported, as the values the diagnosis reads.
pub enum AgentFailure {
    CertifiedReject { reject_code: RejectCode, reject_message: Vec<u8>, error_code: Option<Vec<u8>> },
    UncertifiedReject { reject_code: RejectCode, reject_message: Vec<u8>, error_code: Option<Vec<u8>> },
    CertificateNotAuthorized,
    Transport { connect_failure: bool, host: Option<HostInfo> },
    Other,
}

/// The duplicate-asset-key shape of a sync failure, carrying the two
/// paths under which the key was found.
pub enum SyncFailure {
    DuplicateAssetKey { path0: Vec<u8>, path1: Vec<u8> },
    Other,
}

/// The shape of a canister-creation failure.
pub enum CreateCanisterFailure {
    InsufficientFunds,
    Other,
}

/// The closed, tagged classification of an error to diagnose.
#[allow(inconsistent_fields)]
pub enum ErrorCause {
    /// A diagnosis was already attached further down: hand it through.
    AlreadyDiagnosed { diagnosed: DiagnosedError },
    /// The agent boundary failed.
    Agent { failure: AgentFailure },
    /// Fetching the root key failed with an agent failure inside.
    RootKeyFetchAgent { failure: AgentFailure },
    /// Synchronizing assets failed.
    Sync { failure: SyncFailure },
    /// Creating a canister failed.
    CreateCanister { failure: CreateCanisterFailure },
    Other,
}

/// An error as the diagnosis sees it: its classification and its
/// rendered text, for substring checks.
pub struct Diagnosable {
    pub cause: ErrorCause,
    pub rendered: Vec<u8>,
}

/// Whether a rejection reports that the configured wallet lacks the
/// method the tool called.
pub open spec fn spec_wallet_method_not_found(f: AgentFailure) -> bool {
    ||| (f matches AgentFailure::CertifiedReject {
        reject_code: RejectCode::CanisterError,
        reject_message,
        ..
    } && contains_sub(
        reject_message@,
        vstd::utf8::encode_utf8("Canister has no update method 'wallet_"@),
    ))
    ||| (f matches AgentFailure::UncertifiedReject {
        reject_code: RejectCode::CanisterError,
        reject_message,
        ..
    } && contains_sub(
        reject_message@,
        vstd::utf8::encode_utf8("Canister has no query method 'wallet_"@),
    ))
}

pub fn wallet_method_not_found(f: &AgentFailure) -> (r: bool)
    ensures
        r == spec_wallet_method_not_found(*f),
{
    match f {
        AgentFailure::CertifiedReject { reject_code: RejectCode::CanisterError, reject_message, .. } => {
            bytes_contains(
                reject_message.as_slice(),
                "Canister has no update method 'wallet_".as_bytes(),
            )
        },
        AgentFailure::UncertifiedReject { reject_code: RejectCode::CanisterError, reject_message, .. } => {
            bytes_contains(
                reject_message.as_slice(),
                "Canister has no query method 'wallet_".as_bytes(),
            )
        },
        _ => false,
    }
}

/// The error code by which newer replicas mark a call from a principal
/// that is not a controller.
pub fn canister_invalid_controller_code() -> (r: &'static str)
    ensures
        r@ == "IC0512"@,
{
    "IC0512"
}

/// Whether a rejection reports that the caller is not a controller.
pub open spec fn spec_not_a_controller(f: AgentFailure) -> bool {
    f matches AgentFailure::UncertifiedReject {
        reject_code: RejectCode::CanisterError,
        error_code: Some(c),
        ..
    } && c@ == vstd::utf8::encode_utf8("IC0512"@)
}

pub fn not_a_controller(f: &AgentFailure) -> (r: bool)
    ensures
        r == spec_not_a_controller(*f),
{
    match f {
        AgentFailure::UncertifiedReject {
            reject_code: RejectCode::CanisterError,
            error_code: Some(c),
            ..
        } => bytes_eq(c.as_slice(), canister_invalid_controller_code().as_bytes()),
        _ => false,
    }
}

/// Whether a transport failure is a refused connection to a local host.
pub open spec fn spec_local_connect_failure(f: AgentFailure) -> bool {
    f matches AgentFailure::Transport { connect_failure: true, host: Some(h) } && match h {
        HostInfo::Domain { name } => name@ == vstd::utf8::encode_utf8("localhost"@),
        HostInfo::Ipv4 { loopback } => loopback,
        HostInfo::Ipv6 { loopback } => loopback,
    }
}

/// Whether the error means the local replica is not running: a connect
/// failure to a loopback host, reported by the agent directly or from
/// inside a root-key fetch.
pub open spec fn spec_local_replica_not_running(cause: ErrorCause) -> bool {
    match cause {
        ErrorCause::Agent { failure } => spec_local_connect_failure(failure),
        ErrorCause::RootKeyFetchAgent { failure } => spec_local_connect_failure(failure),
        _ => false,
    }
}

pub fn local_replica_not_running(cause: &ErrorCause) -> (r: bool)
    ensures
        r == spec_local_replica_not_running(*cause),
{
    let failure = match cause {
        ErrorCause::Agent { failure } => failure,
        ErrorCause::RootKeyFetchAgent { failure } => failure,
        _ => {
            return false;
        },
    };
    match failure {
        AgentFailure::Transport { connect_failure: true, host: Some(h) } => match h {
            HostInfo::Domain { name } => bytes_eq(name.as_slice(), "localhost".as_bytes()),
            HostInfo::Ipv4 { loopback } => *loopback,
            HostInfo::Ipv6 { loopback } => *loopback,
        },
        _ => false,
    }
}

/// Whether the rendered error reports the cycles ledger as missing.
pub fn cycles_ledger_not_found(rendered: &[u8]) -> (r: bool)
    ensures
        r == contains_sub(
            rendered@,
            vstd::utf8::encode_utf8("Canister um5iw-rqaaa-aaaaq-qaaba-cai not found"@),
        ),
{
    bytes_contains(rendered, "Canister um5iw-rqaaa-aaaaq-qaaba-cai not found".as_bytes())
}

/// Whether the rendered error reports the token ledger as missing.
pub fn ledger_not_found(rendered: &[u8]) -> (r: bool)
    ensures
        r == contains_sub(
            rendered@,
            vstd::utf8::encode_utf8("Canister ryjl3-tyaaa-aaaaa-aaaba-cai not found"@),
        ),
{
    bytes_contains(rendered, "Canister ryjl3-tyaaa-aaaaa-aaaba-cai not found".as_bytes())
}

/// Whether a canister-creation failure reports an insufficient cycles
/// balance.
pub fn insufficient_cycles(f: &CreateCanisterFailure) -> (r: bool)
    ensures
        r == (*f is InsufficientFunds),
{
    match f {
        CreateCanisterFailure::InsufficientFunds => true,
        CreateCanisterFailure::Other => false,
    }
}


/// The three path markers of a dist/src mirror pair.
pub open spec fn dist_marker() -> Seq<u8> {
    vstd::utf8::encode_utf8("/dist/"@)
}

pub open spec fn src_marker() -> Seq<u8> {
    vstd::utf8::encode_utf8("/src/"@)
}

pub open spec fn assets_marker() -> Seq<u8> {
    vstd::utf8::encode_utf8("/assets/"@)
}

/// One byte string split as a copied dist path: at `i` the `/dist/`
/// marker begins, at `j` stands the slash that ends the directory name
/// after it, and the second path is the first with that level rewritten
/// to `/src/<name>/assets/`.
pub open spec fn splits_as_dist_copy(p0: Seq<u8>, p1: Seq<u8>, i: int, j: int) -> bool {
    &&& 0 <= i
    &&& i + dist_marker().len() <= p0.len()
    &&& p0.subrange(i, i + dist_marker().len() as int) == dist_marker()
    &&& i + dist_marker().len() <= j < p0.len()
    &&& p0[j] == 0x2F
    &&& (forall|k: int| i + dist_marker().len() <= k < j ==> p0[k] != 0x2F)
    &&& p1 == p0.subrange(0, i) + src_marker() + p0.subrange(i + dist_marker().len() as int, j)
        + assets_marker() + p0.subrange(j + 1, p0.len() as int)
}

/// Whether `p1` is `p0` with a `dist/<name>/` level rewritten to
/// `src/<name>/assets/`: the shape left behind when a build copies
/// assets from the src directory into dist and both carry the same key.
pub open spec fn spec_src_to_dist(p0: Seq<u8>, p1: Seq<u8>) -> bool {
    exists|i: int, j: int| splits_as_dist_copy(p0, p1, i, j)
}

/// Whether the two paths of a duplicate asset key are a dist/src mirror
/// pair.
pub fn is_src_to_dist(path0: &[u8], path1: &[u8]) -> (r: bool)
    ensures
        r == spec_src_to_dist(path0@, path1@),
{
    let n = path0.len();
    let marker = "/dist/".as_bytes();
    let ml = marker.len();
    proof {
        assert(path0@.len() == n as int);
        assert(marker@ == dist_marker());
        assert(dist_marker().len() == ml as int);
        reveal_strlit("/dist/");
        assert(vstd::utf8::is_ascii_chars("/dist/"@));
        vstd::utf8::is_ascii_chars_encode_utf8("/dist/"@);
        assert(ml == 6);
    }
    if n < ml {
        return false;
    }
    let mut i: usize = 0;
    while i <= n - ml
        invariant
            path0@.len() == n,
            marker@ == dist_marker(),
            dist_marker().len() == ml,
            1 <= ml <= n <= usize::MAX,
            0 <= i <= n - ml + 1,
            forall|i2: int, j2: int|
                0 <= i2 < i ==> !splits_as_dist_copy(path0@, path1@, i2, j2),
        decreases n - ml - i + 1,
    {
        if bytes_matches_at(path0, marker, i) {
            let mut j: usize = i + ml;
            while j < n && path0[j] != 0x2F
                invariant
                    path0@.len() == n,
                    i + ml <= j <= n,
                    forall|k: int| i + ml <= k < j ==> path0@[k] != 0x2F,
                decreases n - j,
            {
                j = j + 1;
            }
            if j < n {
                let mut t: Vec<u8> = Vec::new();
                bytes_extend_range(&mut t, path0, 0, i);
                bytes_extend(&mut t, "/src/".as_bytes());
                bytes_extend_range(&mut t, path0, i + ml, j);
                bytes_extend(&mut t, "/assets/".as_bytes());
                bytes_extend_range(&mut t, path0, j + 1, n);
                proof {
                    assert(t@ =~= path0@.subrange(0, i as int) + src_marker() + path0@.subrange(
                        i + dist_marker().len() as int,
                        j as int,
                    ) + assets_marker() + path0@.subrange(j + 1, path0@.len() as int));
                }
                if bytes_eq(t.as_slice(), path1) {
                    proof {
                        assert(splits_as_dist_copy(path0@, path1@, i as int, j as int));
                    }
                    return true;
                }
                proof {
                    assert forall|j2: int| !splits_as_dist_copy(
                        path0@,
                        path1@,
                        i as int,
                        j2,
                    ) by {
                        if splits_as_dist_copy(path0@, path1@, i as int, j2) {
                            if j2 < j {
                                assert(path0@[j2] != 0x2F);
                            } else if j2 > j {
                                assert(path0@[j as int] != 0x2F);
                            } else {
                                assert(path1@ == t@);
                            }
                        }
                    }
                }
            } else {
                proof {
                    assert forall|j2: int| !splits_as_dist_copy(
                        path0@,
                        path1@,
                        i as int,
                        j2,
                    ) by {
                        if splits_as_dist_copy(path0@, path1@, i as int, j2) {
                            assert(path0@[j2] != 0x2F);
                        }
                    }
                }
            }
        } else {
            proof {
                assert forall|j2: int| !splits_as_dist_copy(path0@, path1@, i as int, j2) by {
                    if splits_as_dist_copy(path0@, path1@, i as int, j2) {
                        assert(path0@.subrange(i as int, i + dist_marker().len() as int)
                            == marker@);
                    }
                }
            }
        }
        i = i + 1;
    }
    proof {
        assert forall|i2: int, j2: int| !splits_as_dist_copy(path0@, path1@, i2, j2) by {
            if splits_as_dist_copy(path0@, path1@, i2, j2) {
                assert(0 <= i2 < i);
            }
        }
    }
    false
}

/// Whether a sync failure is a duplicate asset key whose two paths are a
/// dist/src mirror pair.
pub open spec fn spec_duplicate_asset_key(f: SyncFailure) -> bool {
    f matches SyncFailure::DuplicateAssetKey { path0, path1 } && spec_src_to_dist(path0@, path1@)
}

pub fn duplicate_asset_key_dist_and_src(f: &SyncFailure) -> (r: bool)
    ensures
        r == spec_duplicate_asset_key(*f),
{
    match f {
        SyncFailure::DuplicateAssetKey { path0, path1 } => is_src_to_dist(
            path0.as_slice(),
            path1.as_slice(),
        ),
        SyncFailure::Other => false,
    }
}


/// One diagnosis's fields: a present explanation and suggestion with the
/// given texts.
pub open spec fn diag_is(r: DiagnosedError, e: Seq<char>, a: Seq<char>) -> bool {
    &&& (r.explanation matches Some(x) && x@ == e)
    &&& (r.action_suggestion matches Some(y) && y@ == a)
}

pub open spec fn http_403_explanation() -> Seq<char> {
    "Each canister has a set of controllers. Only those controllers have access to the canister's management functions (like install_code or stop_canister).\nThe principal you are using to call a management function is not part of the controllers."@
}

pub open spec fn http_403_suggestion() -> Seq<char> {
    "To make the management function call succeed, you have to make sure the principal that calls the function is a controller.\nTo see the current controllers of a canister, use the 'dfx canister info (--network ic)' command.\nTo figure out which principal is calling the management function, look at the command you entered:\n    If you used '--wallet <wallet id>', then the wallet's principal (the '<wallet id>') is calling the function.\n    If you used '--no-wallet' or none of the flags, then your own principal is calling the function. You can see your own principal by running 'dfx identity get-principal'.\nTo add a principal to the list of controllers, one of the existing controllers has to add the new principal. The base command to do this is 'dfx canister update-settings --add-controller <controller principal to add> <canister id/name or --all> (--network ic)'.\nIf your wallet is a controller, but not your own principal, then you have to make your wallet perform the call by adding '--wallet <your wallet id>' to the command.\n\nThe most common way this error is solved is by running 'dfx canister update-settings --network ic --wallet \"$(dfx identity get-wallet)\" --all --add-controller \"$(dfx identity get-principal)\"'."@
}

/// The diagnosis of a management call made by a principal that is not a
/// controller.
pub fn diagnose_http_403() -> (r: DiagnosedError)
    ensures
        diag_is(r, http_403_explanation(), http_403_suggestion()),
{
    DiagnosedError::new(
        String::from_str(
            "Each canister has a set of controllers. Only those controllers have access to the canister's management functions (like install_code or stop_canister).\nThe principal you are using to call a management function is not part of the controllers.",
        ),
        String::from_str(
            "To make the management function call succeed, you have to make sure the principal that calls the function is a controller.\nTo see the current controllers of a canister, use the 'dfx canister info (--network ic)' command.\nTo figure out which principal is calling the management function, look at the command you entered:\n    If you used '--wallet <wallet id>', then the wallet's principal (the '<wallet id>') is calling the function.\n    If you used '--no-wallet' or none of the flags, then your own principal is calling the function. You can see your own principal by running 'dfx identity get-principal'.\nTo add a principal to the list of controllers, one of the existing controllers has to add the new principal. The base command to do this is 'dfx canister update-settings --add-controller <controller principal to add> <canister id/name or --all> (--network ic)'.\nIf your wallet is a controller, but not your own principal, then you have to make your wallet perform the call by adding '--wallet <your wallet id>' to the command.\n\nThe most common way this error is solved is by running 'dfx canister update-settings --network ic --wallet \"$(dfx identity get-wallet)\" --all --add-controller \"$(dfx identity get-principal)\"'.",
        ),
    )
}

pub open spec fn local_replica_explanation() -> Seq<char> {
    "You are trying to connect to the local replica but dfx cannot connect to it."@
}

pub open spec fn local_replica_suggestion() -> Seq<char> {
    "Target a different network or run 'dfx start' to start the local replica."@
}

/// The diagnosis of a refused connection to the local replica.
pub fn diagnose_local_replica_not_running() -> (r: DiagnosedError)
    ensures
        diag_is(r, local_replica_explanation(), local_replica_suggestion()),
{
    DiagnosedError::new(
        String::from_str(
            "You are trying to connect to the local replica but dfx cannot connect to it.",
        ),
        String::from_str(
            "Target a different network or run 'dfx start' to start the local replica.",
        ),
    )
}

pub open spec fn subnet_not_authorized_explanation() -> Seq<char> {
    "Subnet is not authorized to respond for the requested canister id."@
}

pub open spec fn subnet_not_authorized_suggestion() -> Seq<char> {
    "If you are connecting to a node directly instead of a boundary node, try using --provisional-create-canister-effective-canister-id with a canister id in the subnet's canister range. First non-root subnet: 5v3p4-iyaaa-aaaaa-qaaaa-cai, second non-root subnet: jrlun-jiaaa-aaaab-aaaaa-cai"@
}

/// The diagnosis of a subnet that is not authorized to answer for the
/// requested identifier.
pub fn subnet_not_authorized() -> (r: DiagnosedError)
    ensures
        diag_is(r, subnet_not_authorized_explanation(), subnet_not_authorized_suggestion()),
{
    DiagnosedError::new(
        String::from_str("Subnet is not authorized to respond for the requested canister id."),
        String::from_str(
            "If you are connecting to a node directly instead of a boundary node, try using --provisional-create-canister-effective-canister-id with a canister id in the subnet's canister range. First non-root subnet: 5v3p4-iyaaa-aaaaa-qaaaa-cai, second non-root subnet: jrlun-jiaaa-aaaab-aaaaa-cai",
        ),
    )
}

pub open spec fn duplicate_asset_key_explanation() -> Seq<char> {
    "An asset key was found in both the dist and src directories.\nOne or both of the following are a likely explanation:\n    - webpack.config.js is configured to copy assets from the src directory to the dist/ directory.\n    - there are leftover files in the dist/ directory from a previous build."@
}

pub open spec fn duplicate_asset_key_suggestion() -> Seq<char> {
    "Perform the following steps:\n    1. Remove the CopyPlugin step from webpack.config.js.  It looks like this:\n        new CopyPlugin({\n              patterns: [\n                {\n                  from: path.join(__dirname, \"src\", frontendDirectory, \"assets\"),\n                  to: path.join(__dirname, \"dist\", frontendDirectory),\n                },\n              ],\n            }),\n    2. Delete all files from the dist/ directory.\"\n\nSee also release notes: https://forum.dfinity.org/t/dfx-0-11-0-is-promoted-with-breaking-changes/14327"@
}

/// The diagnosis of an asset key found in both the dist and src trees.
pub fn diagnose_duplicate_asset_key_dist_and_src() -> (r: DiagnosedError)
    ensures
        diag_is(r, duplicate_asset_key_explanation(), duplicate_asset_key_suggestion()),
{
    DiagnosedError::new(
        String::from_str(
            "An asset key was found in both the dist and src directories.\nOne or both of the following are a likely explanation:\n    - webpack.config.js is configured to copy assets from the src directory to the dist/ directory.\n    - there are leftover files in the dist/ directory from a previous build.",
        ),
        String::from_str(
            "Perform the following steps:\n    1. Remove the CopyPlugin step from webpack.config.js.  It looks like this:\n        new CopyPlugin({\n              patterns: [\n                {\n                  from: path.join(__dirname, \"src\", frontendDirectory, \"assets\"),\n                  to: path.join(__dirname, \"dist\", frontendDirectory),\n                },\n              ],\n            }),\n    2. Delete all files from the dist/ directory.\"\n\nSee also release notes: https://forum.dfinity.org/t/dfx-0-11-0-is-promoted-with-breaking-changes/14327",
        ),
    )
}

pub open spec fn bad_wallet_explanation() -> Seq<char> {
    "A wallet has been previously configured (e.g. via `dfx identity set-wallet`).\nHowever, it did not contain a function that dfx was looking for.\nThis may be because:\n    - a wallet was correctly installed, but is outdated\n    - `dfx identity set-wallet` was used on a non-wallet canister"@
}

pub open spec fn bad_wallet_suggestion() -> Seq<char> {
    "If you have had the wallet for a while, then you may need to update it with\n`dfx wallet upgrade`. The release notes indicate when there is a new wallet.\nIf you recently ran `dfx identity set-wallet`, and the canister may have been\nwrong, you can set a new wallet with\n`dfx identity set-wallet <PRINCIPAL> --identity <IDENTITY>`.\nIf you're using a local replica and configuring a wallet was a mistake, you can\nrecreate the replica with `dfx stop && dfx start --clean` to start over."@
}

/// The diagnosis of a configured wallet that lacks the called function.
pub fn diagnose_bad_wallet() -> (r: DiagnosedError)
    ensures
        diag_is(r, bad_wallet_explanation(), bad_wallet_suggestion()),
{
    DiagnosedError::new(
        String::from_str(
            "A wallet has been previously configured (e.g. via `dfx identity set-wallet`).\nHowever, it did not contain a function that dfx was looking for.\nThis may be because:\n    - a wallet was correctly installed, but is outdated\n    - `dfx identity set-wallet` was used on a non-wallet canister",
        ),
        String::from_str(
            "If you have had the wallet for a while, then you may need to update it with\n`dfx wallet upgrade`. The release notes indicate when there is a new wallet.\nIf you recently ran `dfx identity set-wallet`, and the canister may have been\nwrong, you can set a new wallet with\n`dfx identity set-wallet <PRINCIPAL> --identity <IDENTITY>`.\nIf you're using a local replica and configuring a wallet was a mistake, you can\nrecreate the replica with `dfx stop && dfx start --clean` to start over.",
        ),
    )
}

pub open spec fn cycles_ledger_not_found_explanation() -> Seq<char> {
    "Cycles ledger with canister ID 'um5iw-rqaaa-aaaaq-qaaba-cai' is not installed."@
}

pub open spec fn cycles_ledger_not_found_suggestion() -> Seq<char> {
    "Run the command with '--ic' flag if you want to manage the cycles on the mainnet."@
}

/// The diagnosis of a missing cycles ledger.
pub fn diagnose_cycles_ledger_not_found() -> (r: DiagnosedError)
    ensures
        diag_is(r, cycles_ledger_not_found_explanation(), cycles_ledger_not_found_suggestion()),
{
    DiagnosedError::new(
        String::from_str(
            "Cycles ledger with canister ID 'um5iw-rqaaa-aaaaq-qaaba-cai' is not installed.",
        ),
        String::from_str(
            "Run the command with '--ic' flag if you want to manage the cycles on the mainnet.",
        ),
    )
}

pub open spec fn ledger_not_found_explanation() -> Seq<char> {
    "ICP Ledger with canister ID 'ryjl3-tyaaa-aaaaa-aaaba-cai' is not installed."@
}

pub open spec fn ledger_not_found_suggestion() -> Seq<char> {
    "Run the command with '--ic' flag if you want to manage the ICP on the mainnet."@
}

/// The diagnosis of a missing token ledger.
pub fn diagnose_ledger_not_found() -> (r: DiagnosedError)
    ensures
        diag_is(r, ledger_not_found_explanation(), ledger_not_found_suggestion()),
{
    DiagnosedError::new(
        String::from_str(
            "ICP Ledger with canister ID 'ryjl3-tyaaa-aaaaa-aaaba-cai' is not installed.",
        ),
        String::from_str(
            "Run the command with '--ic' flag if you want to manage the ICP on the mainnet.",
        ),
    )
}

pub open spec fn insufficient_cycles_explanation() -> Seq<char> {
    "Insufficient cycles balance to create the canister."@
}

/// The flag the suggested command carries for a network other than the
/// local one; an unknown or local network context adds nothing.
pub open spec fn network_flag_suffix(ctx: Option<String>) -> Seq<char> {
    match ctx {
        Some(v) => {
            if vstd::utf8::encode_utf8(v@) == vstd::utf8::encode_utf8("local"@) {
                Seq::empty()
            } else {
                " --network "@ + v@
            }
        },
        None => Seq::empty(),
    }
}

pub open spec fn insufficient_cycles_suggestion(ctx: Option<String>) -> Seq<char> {
    "Please top up your cycles balance by converting ICP to cycles like below:\n'dfx cycles convert --amount=0.123"@
        + network_flag_suffix(ctx) + "'"@
}

/// The diagnosis of an insufficient cycles balance, suggesting a top-up
/// on the current network context.
pub fn diagnose_insufficient_cycles(network_context: &Option<String>) -> (r: DiagnosedError)
    ensures
        (r.explanation matches Some(e) && e@ == insufficient_cycles_explanation()),
        (r.action_suggestion matches Some(a) && a@ == insufficient_cycles_suggestion(
            *network_context,
        )),
{
    let mut suggestion = String::from_str(
        "Please top up your cycles balance by converting ICP to cycles like below:\n'dfx cycles convert --amount=0.123",
    );
    match network_context {
        Some(v) => {
            if !bytes_eq(v.as_str().as_bytes(), "local".as_bytes()) {
                suggestion.append(" --network ");
                suggestion.append(v.as_str());
            }
        },
        None => {},
    }
    suggestion.append("'");
    proof {
        assert(suggestion@ =~= insufficient_cycles_suggestion(*network_context));
    }
    DiagnosedError::new(
        String::from_str("Insufficient cycles balance to create the canister."),
        suggestion,
    )
}

/// The closed set of diagnoses the table can give.
#[derive(Clone, Copy, Debug, PartialEq, Eq, Structural)]
pub enum DiagnosisKind {
    AlreadyDiagnosed,
    BadWallet,
    NotAController,
    SubnetNotAuthorized,
    CyclesLedgerNotFound,
    LedgerNotFound,
    LocalReplicaNotRunning,
    DuplicateAssetKey,
    InsufficientCycles,
    Unknown,
}

/// The dispatch over the closed, tagged error classification, in the
/// order the recognizers are consulted.
pub open spec fn classify(d: Diagnosable) -> DiagnosisKind {
    match d.cause {
        ErrorCause::AlreadyDiagnosed { .. } => DiagnosisKind::AlreadyDiagnosed,
        ErrorCause::Agent { failure } => {
            if spec_wallet_method_not_found(failure) {
                DiagnosisKind::BadWallet
            } else if spec_not_a_controller(failure) {
                DiagnosisKind::NotAController
            } else if failure is CertificateNotAuthorized {
                DiagnosisKind::SubnetNotAuthorized
            } else if contains_sub(
                d.rendered@,
                vstd::utf8::encode_utf8("Canister um5iw-rqaaa-aaaaq-qaaba-cai not found"@),
            ) {
                DiagnosisKind::CyclesLedgerNotFound
            } else if contains_sub(
                d.rendered@,
                vstd::utf8::encode_utf8("Canister ryjl3-tyaaa-aaaaa-aaaba-cai not found"@),
            ) {
                DiagnosisKind::LedgerNotFound
            } else if spec_local_connect_failure(failure) {
                DiagnosisKind::LocalReplicaNotRunning
            } else {
                DiagnosisKind::Unknown
            }
        },
        ErrorCause::RootKeyFetchAgent { failure } => {
            if spec_local_connect_failure(failure) {
                DiagnosisKind::LocalReplicaNotRunning
            } else {
                DiagnosisKind::Unknown
            }
        },
        ErrorCause::Sync { failure } => {
            if spec_duplicate_asset_key(failure) {
                DiagnosisKind::DuplicateAssetKey
            } else {
                DiagnosisKind::Unknown
            }
        },
        ErrorCause::CreateCanister { failure } => {
            if failure is InsufficientFunds {
                DiagnosisKind::InsufficientCycles
            } else {
                DiagnosisKind::Unknown
            }
        },
        ErrorCause::Other => DiagnosisKind::Unknown,
    }
}

/// Attempts to give helpful suggestions on how to resolve an error: the
/// lookup from the error's classification to its diagnosis.  An error
/// that already carries a diagnosis is handed through unchanged; an
/// unrecognized error yields the empty diagnosis.
pub fn diagnose(error: &Diagnosable, network_context: &Option<String>) -> (r: DiagnosedError)
    ensures
        ({
            let k = classify(*error);
            &&& (k == DiagnosisKind::AlreadyDiagnosed ==> (error.cause
                matches ErrorCause::AlreadyDiagnosed { diagnosed } && opt_string_eqv(
                r.explanation,
                diagnosed.explanation,
            ) && opt_string_eqv(r.action_suggestion, diagnosed.action_suggestion)))
            &&& (k == DiagnosisKind::BadWallet ==> diag_is(
                r,
                bad_wallet_explanation(),
                bad_wallet_suggestion(),
            ))
            &&& (k == DiagnosisKind::NotAController ==> diag_is(
                r,
                http_403_explanation(),
                http_403_suggestion(),
            ))
            &&& (k == DiagnosisKind::SubnetNotAuthorized ==> diag_is(
                r,
                subnet_not_authorized_explanation(),
                subnet_not_authorized_suggestion(),
            ))
            &&& (k == DiagnosisKind::CyclesLedgerNotFound ==> diag_is(
                r,
                cycles_ledger_not_found_explanation(),
                cycles_ledger_not_found_suggestion(),
            ))
            &&& (k == DiagnosisKind::LedgerNotFound ==> diag_is(
                r,
                ledger_not_found_explanation(),
                ledger_not_found_suggestion(),
            ))
            &&& (k == DiagnosisKind::LocalReplicaNotRunning ==> diag_is(
                r,
                local_replica_explanation(),
                local_replica_suggestion(),
            ))
            &&& (k == DiagnosisKind::DuplicateAssetKey ==> diag_is(
                r,
                duplicate_asset_key_explanation(),
                duplicate_asset_key_suggestion(),
            ))
            &&& (k == DiagnosisKind::InsufficientCycles ==> (r.explanation matches Some(e) && e@
                == insufficient_cycles_explanation()) && (r.action_suggestion matches Some(a)
                && a@ == insufficient_cycles_suggestion(*network_context)))
            &&& (k == DiagnosisKind::Unknown ==> r.explanation is None && r.action_suggestion
                is None)
        }),
{
    match &error.cause {
        ErrorCause::AlreadyDiagnosed { diagnosed } => DiagnosedError {
            explanation: clone_opt_string(&diagnosed.explanation),
            action_suggestion: clone_opt_string(&diagnosed.action_suggestion),
        },
        ErrorCause::Agent { failure } => {
            if wallet_method_not_found(failure) {
                diagnose_bad_wallet()
            } else if not_a_controller(failure) {
                diagnose_http_403()
            } else if matches!(failure, AgentFailure::CertificateNotAuthorized) {
                subnet_not_authorized()
            } else if cycles_ledger_not_found(error.rendered.as_slice()) {
                diagnose_cycles_ledger_not_found()
            } else if ledger_not_found(error.rendered.as_slice()) {
                diagnose_ledger_not_found()
            } else if local_replica_not_running(&error.cause) {
                diagnose_local_replica_not_running()
            } else {
                DiagnosedError::default()
            }
        },
        ErrorCause::RootKeyFetchAgent { .. } => {
            if local_replica_not_running(&error.cause) {
                diagnose_local_replica_not_running()
            } else {
                DiagnosedError::default()
            }
        },
        ErrorCause::Sync { failure } => {
            if duplicate_asset_key_dist_and_src(failure) {
                diagnose_duplicate_asset_key_dist_and_src()
            } else {
                DiagnosedError::default()
            }
        },
        ErrorCause::CreateCanister { failure } => {
            if insufficient_cycles(failure) {
                diagnose_insufficient_cycles(network_context)
            } else {
                DiagnosedError::default()
            }
        },
        ErrorCause::Other => DiagnosedError::default(),
    }
}

} // verus!
