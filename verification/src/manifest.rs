//! The data model of the pull layer: the manifest a module publishes and
//! the cache record a pull produces.
use vstd::prelude::*;
use crate::ModuleId;

verus! {

/// Per-identifier declaration published by a remote module: its direct
/// dependencies, where its artifact lives, and optional hash
/// verification data.
pub struct Manifest {
    pub dependencies: Vec<ModuleId>,
    pub wasm_url: String,
    pub wasm_hash: Option<String>,
    pub wasm_hash_url: Option<String>,
    pub init_guide: Option<String>,
    pub init_arg: Option<String>,
}

/// Per-identifier cache record: the authoritative hash, the hash of the
/// bytes actually downloaded, the compression flag, the dependency list,
/// the init guide and argument, and the extracted interface-argument
/// descriptor.  All hashes are hexadecimal strings.
pub struct ResolvedModule {
    pub wasm_hash: String,
    pub wasm_hash_download: String,
    pub gzip: bool,
    pub dependencies: Vec<ModuleId>,
    pub init_guide: Option<String>,
    pub init_arg: Option<String>,
    pub candid_args: String,
}

/// Spec-level equality of optional strings by their character content.
pub open spec fn opt_string_eqv(a: Option<String>, b: Option<String>) -> bool {
    match (a, b) {
        (Some(x), Some(y)) => x@ == y@,
        (None, None) => true,
        _ => false,
    }
}

/// Clones an optional string.
pub fn clone_opt_string(s: &Option<String>) -> (r: Option<String>)
    ensures
        opt_string_eqv(r, *s),
{
    match s {
        Some(x) => Some(x.clone()),
        None => None,
    }
}

/// Clones a cache record, field by field.
pub fn clone_resolved_module(m: &ResolvedModule) -> (r: ResolvedModule)
    ensures
        r.wasm_hash@ == m.wasm_hash@,
        r.wasm_hash_download@ == m.wasm_hash_download@,
        r.gzip == m.gzip,
        r.dependencies@ == m.dependencies@,
        opt_string_eqv(r.init_guide, m.init_guide),
        opt_string_eqv(r.init_arg, m.init_arg),
        r.candid_args@ == m.candid_args@,
{
    ResolvedModule {
        wasm_hash: m.wasm_hash.clone(),
        wasm_hash_download: m.wasm_hash_download.clone(),
        gzip: m.gzip,
        dependencies: clone_ids(&m.dependencies),
        init_guide: clone_opt_string(&m.init_guide),
        init_arg: clone_opt_string(&m.init_arg),
        candid_args: m.candid_args.clone(),
    }
}

/// Clones a dependency list.
pub fn clone_ids(v: &Vec<ModuleId>) -> (r: Vec<ModuleId>)
    ensures
        r@ == v@,
{
    let mut out: Vec<ModuleId> = Vec::new();
    let mut k: usize = 0;
    while k < v.len()
        invariant
            0 <= k <= v@.len(),
            out@ == v@.subrange(0, k as int),
        decreases v@.len() - k,
    {
        out.push(v[k]);
        k = k + 1;
    }
    proof {
        assert(out@ =~= v@);
    }
    out
}

} // verus!
