//! The content-addressed local module cache.
//!
//! `ensure_cached` proceeds in steps: resolve the authoritative hash,
//! probe the on-disk representations (uncompressed first, then
//! compressed) and recompute the hash of the first one found, and on a
//! miss delete the identifier's whole directory, recreate it, redownload,
//! and persist with atomic replacement.  The filesystem and the download
//! are performed by the caller step by step; every decision between the
//! steps is made here.
use vstd::prelude::*;
use vstd::string::StringExecFns;
use crate::errors::PullError;
use crate::integrity::{hex_decoded, is_hex_encoding, sha256, sha256_of, bytes_eq};
use crate::manifest::{Manifest, ResolvedModule, clone_opt_string, clone_ids};

verus! {

/// A hexadecimal string that denotes exactly the bytes `b`.
pub open spec fn is_hex_of(s: Seq<char>, b: Seq<u8>) -> bool {
    &&& is_hex_encoding(vstd::utf8::encode_utf8(s))
    &&& hex_decoded(vstd::utf8::encode_utf8(s)) == b
}

/// A representation of the module bytes found on disk.
pub struct DiskRepresentation {
    pub gzip: bool,
    pub bytes: Vec<u8>,
}

/// Probes the two on-disk representations in fixed order: uncompressed
/// first, then compressed.  The first one that exists is inspected and
/// the probe stops there, without falling back to the other.
pub fn probe_representation(
    uncompressed: Option<Vec<u8>>,
    compressed: Option<Vec<u8>>,
) -> (r: Option<DiskRepresentation>)
    ensures
        match r {
            Some(d) => {
                if uncompressed is Some {
                    !d.gzip && d.bytes@ == uncompressed.unwrap()@
                } else {
                    d.gzip && (compressed matches Some(b) && d.bytes@ == b@)
                }
            },
            None => uncompressed is None && compressed is None,
        },
{
    match uncompressed {
        Some(bytes) => Some(DiskRepresentation { gzip: false, bytes }),
        None => match compressed {
            Some(bytes) => Some(DiskRepresentation { gzip: true, bytes }),
            None => None,
        },
    }
}

/// The decision after holding the found representation against the
/// authoritative hash.
pub enum CacheDecision {
    /// The found bytes, freshly rehashed, equal the authoritative hash:
    /// no download happens.
    Hit { gzip: bool, wasm_hash_download: String },
    /// Nothing was found, or the first found representation does not
    /// match: the entry is invalidated and redownloaded.
    Miss,
}

/// Recomputes the hash of the representation found by the probe and
/// decides hit or miss.  A cached representation is never trusted from a
/// prior run: its hash is always recomputed from the bytes read.
pub fn evaluate_cache(found: &Option<DiskRepresentation>, hash_on_chain: &Vec<u8>) -> (r:
    CacheDecision)
    ensures
        match r {
            CacheDecision::Hit { gzip, wasm_hash_download } => {
                &&& found matches Some(d) && gzip == d.gzip && sha256_of(d.bytes@)
                    == hash_on_chain@
                &&& found matches Some(d) && is_hex_of(wasm_hash_download@, sha256_of(d.bytes@))
            },
            CacheDecision::Miss => match *found {
                Some(d) => sha256_of(d.bytes@) != hash_on_chain@,
                None => true,
            },
        },
{
    match found {
        Some(d) => {
            let recomputed = sha256(d.bytes.as_slice());
            if bytes_eq(recomputed.as_slice(), hash_on_chain.as_slice()) {
                let encoded = crate::integrity::hex_encode(recomputed.as_slice());
                CacheDecision::Hit { gzip: d.gzip, wasm_hash_download: encoded }
            } else {
                CacheDecision::Miss
            }
        },
        None => CacheDecision::Miss,
    }
}

/// One filesystem or network step of the miss-recovery and persistence
/// plan.
#[derive(Clone, Copy, Debug, PartialEq, Eq, Structural)]
pub enum CacheAction {
    /// Remove the identifier's whole cache directory.
    RemoveModuleDir,
    /// Recreate the identifier's cache directory.
    CreateModuleDir,
    /// Download the artifact bytes from the manifest's artifact URL.
    DownloadArtifact,
    /// Write the bytes to a fresh temporary file inside the target's own
    /// directory.
    WriteTempFile,
    /// Atomically rename the temporary file onto the final path.
    RenameIntoPlace,
}

/// The recovery plan on a cache miss: a stale entry is removed entirely
/// before any redownload, never overwritten in place.
pub fn cache_miss_plan(dir_exists: bool) -> (r: Vec<CacheAction>)
    ensures
        dir_exists ==> r@ == seq![
            CacheAction::RemoveModuleDir,
            CacheAction::CreateModuleDir,
            CacheAction::DownloadArtifact,
        ],
        !dir_exists ==> r@ == seq![CacheAction::CreateModuleDir, CacheAction::DownloadArtifact],
{
    let mut plan: Vec<CacheAction> = Vec::new();
    if dir_exists {
        plan.push(CacheAction::RemoveModuleDir);
    }
    plan.push(CacheAction::CreateModuleDir);
    plan.push(CacheAction::DownloadArtifact);
    proof {
        if dir_exists {
            assert(plan@ =~= seq![
                CacheAction::RemoveModuleDir,
                CacheAction::CreateModuleDir,
                CacheAction::DownloadArtifact,
            ]);
        } else {
            assert(plan@ =~= seq![
                CacheAction::CreateModuleDir,
                CacheAction::DownloadArtifact,
            ]);
        }
    }
    plan
}

/// The persistence plan for any cache file: write to a temporary file in
/// the same directory, then rename it into place.  A final path is never
/// written directly, so a concurrent reader observes either the complete
/// previous content or the complete new content.
pub fn persist_plan() -> (r: Vec<CacheAction>)
    ensures
        r@ == seq![CacheAction::WriteTempFile, CacheAction::RenameIntoPlace],
{
    let mut plan: Vec<CacheAction> = Vec::new();
    plan.push(CacheAction::WriteTempFile);
    plan.push(CacheAction::RenameIntoPlace);
    proof {
        assert(plan@ =~= seq![CacheAction::WriteTempFile, CacheAction::RenameIntoPlace]);
    }
    plan
}

/// The result of attempting to decompress a byte string, named: it is a
/// function of the bytes alone.
pub uninterp spec fn gzip_decoded(b: Seq<u8>) -> Option<Seq<u8>>;

/// Relies on flate2's GzDecoder: whether bytes decompress, and to what,
/// depends on the bytes alone.
#[verifier::external_body]
fn try_gzip_decompress(b: &[u8]) -> (r: Option<Vec<u8>>)
    ensures
        r.deep_view() == gzip_decoded(b@),
{
    let mut decoder = flate2::read::GzDecoder::new(b);
    let mut out: Vec<u8> = Vec::new();
    match std::io::Read::read_to_end(&mut decoder, &mut out) {
        Ok(_) => Some(out),
        Err(_) => None,
    }
}

/// What a completed download contributes to the cache record: the hash
/// of the downloaded bytes, recorded unconditionally, and the
/// compression flag, detected by attempting to decompress the bytes.
pub struct DownloadRecord {
    pub wasm_hash_download: String,
    pub gzip: bool,
}

/// Records a downloaded artifact: its freshly computed hash and whether
/// it is compressed.
pub fn process_download(content: &Vec<u8>) -> (r: DownloadRecord)
    ensures
        r.gzip == gzip_decoded(content@) is Some,
        is_hex_of(r.wasm_hash_download@, sha256_of(content@)),
{
    let digest = sha256(content.as_slice());
    let encoded = crate::integrity::hex_encode(digest.as_slice());
    let gzip = try_gzip_decompress(content.as_slice()).is_some();
    DownloadRecord { wasm_hash_download: encoded, gzip }
}

/// Whether a byte string parses as a module the decoder can read, named:
/// a function of the bytes alone.
pub uninterp spec fn wasm_module_parses(w: Seq<u8>) -> bool;

/// The metadata section a module carries under a name, named: a function
/// of the module bytes and the section name alone.
pub uninterp spec fn metadata_section_of(w: Seq<u8>, section: Seq<char>) -> Option<Seq<u8>>;

/// Relies on ic_wasm::utils::parse_wasm (which accepts plain or gzipped
/// module bytes) and ic_wasm::metadata::get_metadata: both results are
/// functions of the module bytes and the section name alone.
#[verifier::external_body]
fn extract_metadata_section(wasm: &[u8], section: &str) -> (r: Result<Option<Vec<u8>>, ()>)
    ensures
        r is Ok <==> wasm_module_parses(wasm@),
        r matches Ok(o) ==> o.deep_view() == metadata_section_of(wasm@, section@),
{
    match ic_wasm::utils::parse_wasm(wasm, false) {
        Ok(module) => Ok(ic_wasm::metadata::get_metadata(&module, section).map(|c| c.to_vec())),
        Err(_) => Err(()),
    }
}

/// Relies on String::from_utf8: it succeeds exactly on valid UTF-8 and
/// returns the decoded characters.
#[verifier::external_body]
fn string_from_utf8(b: Vec<u8>) -> (r: Result<String, ()>)
    ensures
        r is Ok <==> vstd::utf8::valid_utf8(b@),
        r matches Ok(s) ==> s@ == vstd::utf8::decode_utf8(b@),
{
    match String::from_utf8(b) {
        Ok(s) => Ok(s),
        Err(_) => Err(()),
    }
}

/// The three metadata section names the pull layer reads.
pub fn candid_service_section() -> (r: &'static str)
    ensures
        r@ == "candid:service"@,
{
    "candid:service"
}

pub fn candid_args_section() -> (r: &'static str)
    ensures
        r@ == "candid:args"@,
{
    "candid:args"
}

pub fn dfx_section() -> (r: &'static str)
    ensures
        r@ == "dfx"@,
{
    "dfx"
}

/// The ways one section read can fail on given module bytes: the module
/// does not parse, the section is absent, or its bytes are not text.
pub open spec fn section_unreadable(w: Seq<u8>, section: Seq<char>) -> bool {
    ||| !wasm_module_parses(w)
    ||| metadata_section_of(w, section) is None
    ||| (metadata_section_of(w, section) matches Some(b) && !vstd::utf8::valid_utf8(b))
}

/// One metadata section of a module, as text.  A module that does not
/// parse, a missing section, and section bytes that are not valid UTF-8
/// are each a decode error whose message names the stage and the
/// section.
pub fn get_metadata_as_string(wasm: &[u8], section: &str) -> (r: Result<String, PullError>)
    ensures
        match r {
            Ok(s) => {
                &&& wasm_module_parses(wasm@)
                &&& metadata_section_of(wasm@, section@) matches Some(b) && vstd::utf8::valid_utf8(
                    b,
                ) && s@ == vstd::utf8::decode_utf8(b)
            },
            Err(e) => {
                if !wasm_module_parses(wasm@) {
                    e matches PullError::Decode { message } && message@
                        == "failed to read the module bytes as a module"@
                } else if metadata_section_of(wasm@, section@) is None {
                    e matches PullError::Decode { message } && message@ == "failed to get "@
                        + section@ + " metadata from the module"@
                } else {
                    &&& metadata_section_of(wasm@, section@) matches Some(b)
                        && !vstd::utf8::valid_utf8(b)
                    &&& (e matches PullError::Decode { message } && message@
                        == "failed to read "@ + section@ + " metadata as UTF-8 text"@)
                }
            },
        },
{
    match extract_metadata_section(wasm, section) {
        Ok(Some(bytes)) => {
            proof {
                assert(bytes.deep_view() =~= bytes@);
            }
            match string_from_utf8(bytes) {
                Ok(s) => Ok(s),
                Err(_) => {
                    let mut message = String::from_str("failed to read ");
                    message.append(section);
                    message.append(" metadata as UTF-8 text");
                    proof {
                        assert(message@ =~= "failed to read "@ + section@
                            + " metadata as UTF-8 text"@);
                    }
                    Err(PullError::Decode { message })
                },
            }
        },
        Ok(None) => {
            let mut message = String::from_str("failed to get ");
            message.append(section);
            message.append(" metadata from the module");
            proof {
                assert(message@ =~= "failed to get "@ + section@ + " metadata from the module"@);
            }
            Err(PullError::Decode { message })
        },
        Err(_) => Err(
            PullError::Decode {
                message: String::from_str("failed to read the module bytes as a module"),
            },
        ),
    }
}

/// The three sections extracted from a persisted module: the
/// interface-service description (persisted to its own file), the
/// interface-argument descriptor, and the structured declaration that
/// carries dependencies and init data.
pub struct ExtractedSections {
    pub candid_service: String,
    pub candid_args: String,
    pub structured: String,
}

/// Extracts the three metadata sections from the module bytes.  Success
/// is owed exactly when the module parses and all three sections are
/// present as text: an error means the module does not parse, or one of
/// the three sections is absent or not valid UTF-8.
pub fn extract_sections(wasm: &[u8]) -> (r: Result<ExtractedSections, PullError>)
    ensures
        match r {
            Ok(s) => {
                &&& wasm_module_parses(wasm@)
                &&& metadata_section_of(wasm@, "candid:service"@) matches Some(b)
                    && vstd::utf8::valid_utf8(b) && s.candid_service@ == vstd::utf8::decode_utf8(b)
                &&& metadata_section_of(wasm@, "candid:args"@) matches Some(b)
                    && vstd::utf8::valid_utf8(b) && s.candid_args@ == vstd::utf8::decode_utf8(b)
                &&& metadata_section_of(wasm@, "dfx"@) matches Some(b) && vstd::utf8::valid_utf8(b)
                    && s.structured@ == vstd::utf8::decode_utf8(b)
            },
            Err(e) => {
                &&& e is Decode
                &&& (section_unreadable(wasm@, "candid:service"@) || section_unreadable(
                    wasm@,
                    "candid:args"@,
                ) || section_unreadable(wasm@, "dfx"@))
            },
        },
{
    let candid_service = get_metadata_as_string(wasm, candid_service_section())?;
    let candid_args = get_metadata_as_string(wasm, candid_args_section())?;
    let structured = get_metadata_as_string(wasm, dfx_section())?;
    Ok(ExtractedSections { candid_service, candid_args, structured })
}

/// Populates the cache record from the resolved hashes, the compression
/// flag, the extracted interface-argument descriptor, and the structured
/// declaration's dependency and init data.
pub fn assemble_resolved_module(
    wasm_hash: &Vec<u8>,
    wasm_hash_download: String,
    gzip: bool,
    candid_args: String,
    declared: &Manifest,
) -> (r: ResolvedModule)
    ensures
        is_hex_of(r.wasm_hash@, wasm_hash@),
        r.wasm_hash_download@ == wasm_hash_download@,
        r.gzip == gzip,
        r.candid_args@ == candid_args@,
        r.dependencies@ == declared.dependencies@,
        crate::manifest::opt_string_eqv(r.init_guide, declared.init_guide),
        crate::manifest::opt_string_eqv(r.init_arg, declared.init_arg),
{
    ResolvedModule {
        wasm_hash: crate::integrity::hex_encode(wasm_hash.as_slice()),
        wasm_hash_download,
        gzip,
        dependencies: clone_ids(&declared.dependencies),
        init_guide: clone_opt_string(&declared.init_guide),
        init_arg: clone_opt_string(&declared.init_arg),
        candid_args,
    }
}

/// Cache hit: a found representation whose recomputed hash equals the
/// unchanged authoritative hash is always a hit, so no download step is
/// planned for it.
pub proof fn lemma_cache_hit_skips_download(
    found: Option<DiskRepresentation>,
    hash_on_chain: Vec<u8>,
    r: CacheDecision,
)
    requires
        found matches Some(d) && sha256_of(d.bytes@) == hash_on_chain@,
        match r {
            CacheDecision::Hit { gzip, wasm_hash_download } => {
                &&& found matches Some(d) && gzip == d.gzip && sha256_of(d.bytes@)
                    == hash_on_chain@
                &&& found matches Some(d) && is_hex_of(wasm_hash_download@, sha256_of(d.bytes@))
            },
            CacheDecision::Miss => match found {
                Some(d) => sha256_of(d.bytes@) != hash_on_chain@,
                None => true,
            },
        },
    ensures
        r is Hit,
{
}

/// Cache invalidation: a found representation whose recomputed hash
/// differs from the changed authoritative hash is a miss, and the miss
/// plan removes the stale entry before the redownload: the removal step
/// comes first, and the download step comes after it.
pub proof fn lemma_stale_entry_removed_before_redownload(
    found: Option<DiskRepresentation>,
    hash_on_chain: Vec<u8>,
    r: CacheDecision,
    plan: Seq<CacheAction>,
)
    requires
        found matches Some(d) && sha256_of(d.bytes@) != hash_on_chain@,
        match r {
            CacheDecision::Hit { gzip, wasm_hash_download } => {
                &&& found matches Some(d) && gzip == d.gzip && sha256_of(d.bytes@)
                    == hash_on_chain@
                &&& found matches Some(d) && is_hex_of(wasm_hash_download@, sha256_of(d.bytes@))
            },
            CacheDecision::Miss => match found {
                Some(d) => sha256_of(d.bytes@) != hash_on_chain@,
                None => true,
            },
        },
        plan == seq![
            CacheAction::RemoveModuleDir,
            CacheAction::CreateModuleDir,
            CacheAction::DownloadArtifact,
        ],
    ensures
        r is Miss,
        plan[0] == CacheAction::RemoveModuleDir,
        plan[2] == CacheAction::DownloadArtifact,
{
}

} // verus!
