use module_pull::cache::{
    CacheAction, CacheDecision, cache_miss_plan, evaluate_cache,
    extract_sections, get_metadata_as_string, persist_plan, probe_representation,
    process_download,
};
use module_pull::manifest::Manifest;
use module_pull::errors::PullError;
use module_pull::ModuleId;
use sha2::Digest;
use std::io::Write;

fn digest(bytes: &[u8]) -> Vec<u8> {
    sha2::Sha256::digest(bytes).to_vec()
}

fn gzip(bytes: &[u8]) -> Vec<u8> {
    let mut enc = flate2::write::GzEncoder::new(Vec::new(), flate2::Compression::default());
    enc.write_all(bytes).unwrap();
    enc.finish().unwrap()
}

#[test]
fn unchanged_hash_is_a_cache_hit() {
    let bytes = b"module artifact bytes".to_vec();
    let authoritative = digest(&bytes);
    let found = probe_representation(Some(bytes.clone()), None);
    match evaluate_cache(&found, &authoritative) {
        CacheDecision::Hit { gzip, wasm_hash_download } => {
            assert!(!gzip);
            assert_eq!(wasm_hash_download, hex::encode(digest(&bytes)));
        }
        CacheDecision::Miss => panic!("an unchanged hash must be a hit"),
    }
}

#[test]
fn changed_hash_is_a_miss_and_the_plan_deletes_before_redownloading() {
    let bytes = b"stale artifact".to_vec();
    let changed = digest(b"a different artifact");
    let found = probe_representation(Some(bytes), None);
    assert!(matches!(evaluate_cache(&found, &changed), CacheDecision::Miss));
    let plan = cache_miss_plan(true);
    assert_eq!(plan, vec![
        CacheAction::RemoveModuleDir,
        CacheAction::CreateModuleDir,
        CacheAction::DownloadArtifact,
    ]);
    assert_eq!(cache_miss_plan(false), vec![
        CacheAction::CreateModuleDir,
        CacheAction::DownloadArtifact,
    ]);
}

#[test]
fn nothing_on_disk_is_a_miss() {
    let authoritative = digest(b"anything");
    let found = probe_representation(None, None);
    assert!(found.is_none());
    assert!(matches!(evaluate_cache(&found, &authoritative), CacheDecision::Miss));
}

#[test]
fn probe_prefers_the_uncompressed_representation() {
    let plain = b"plain".to_vec();
    let packed = b"packed".to_vec();
    let found = probe_representation(Some(plain.clone()), Some(packed.clone())).unwrap();
    assert!(!found.gzip);
    assert_eq!(found.bytes, plain);
    let only_packed = probe_representation(None, Some(packed.clone())).unwrap();
    assert!(only_packed.gzip);
    assert_eq!(only_packed.bytes, packed);
}

#[test]
fn probe_does_not_fall_back_past_a_mismatching_first_representation() {
    // The uncompressed file is stale while the compressed one would
    // match: the probe stops at the first representation found, so this
    // is still a miss.
    let good = b"good artifact".to_vec();
    let authoritative = digest(&gzip(&good));
    let found = probe_representation(Some(b"stale".to_vec()), Some(gzip(&good)));
    assert!(matches!(evaluate_cache(&found, &authoritative), CacheDecision::Miss));
}

#[test]
fn download_record_detects_compression_and_hashes_unconditionally() {
    let plain = b"uncompressed artifact".to_vec();
    let record = process_download(&plain);
    assert!(!record.gzip);
    assert_eq!(record.wasm_hash_download, hex::encode(digest(&plain)));

    let packed = gzip(b"compressed artifact");
    let record2 = process_download(&packed);
    assert!(record2.gzip);
    assert_eq!(record2.wasm_hash_download, hex::encode(digest(&packed)));
}

#[test]
fn the_recorded_download_hash_matches_the_published_digest_value() {
    // An independently known digest: the downloaded bytes "abc" must be
    // recorded under this exact hexadecimal hash.
    let record = process_download(&b"abc".to_vec());
    assert_eq!(
        record.wasm_hash_download,
        "ba7816bf8f01cfea414140de5dae2223b00361a396177a9cb410ff61f20015ad"
    );
}

#[test]
fn persistence_writes_a_temporary_file_then_renames() {
    assert_eq!(persist_plan(), vec![CacheAction::WriteTempFile, CacheAction::RenameIntoPlace]);
}

fn custom_section(name: &str, data: &[u8]) -> Vec<u8> {
    assert!(name.len() < 128 && name.len() + data.len() + 1 < 128);
    let mut body = vec![name.len() as u8];
    body.extend_from_slice(name.as_bytes());
    body.extend_from_slice(data);
    let mut section = vec![0u8, body.len() as u8];
    section.extend_from_slice(&body);
    section
}

fn module_with_sections() -> Vec<u8> {
    let mut wasm = b"\0asm\x01\x00\x00\x00".to_vec();
    wasm.extend_from_slice(&custom_section("icp:public candid:service", b"service code"));
    wasm.extend_from_slice(&custom_section("icp:public candid:args", b"(nat)"));
    wasm.extend_from_slice(&custom_section(
        "icp:public dfx",
        b"{\"pullable\":{\"dependencies\":[]}}",
    ));
    wasm
}

#[test]
fn metadata_sections_are_extracted_by_name() {
    let wasm = module_with_sections();
    assert_eq!(get_metadata_as_string(&wasm, "candid:args").unwrap(), "(nat)");
    let sections = extract_sections(&wasm).unwrap();
    assert_eq!(sections.candid_service, "service code");
    assert_eq!(sections.candid_args, "(nat)");
    assert_eq!(sections.structured, "{\"pullable\":{\"dependencies\":[]}}");
}

#[test]
fn a_missing_section_is_a_decode_error_naming_the_section() {
    let wasm = module_with_sections();
    match get_metadata_as_string(&wasm, "no such section") {
        Err(PullError::Decode { message }) => {
            assert_eq!(message, "failed to get no such section metadata from the module");
        }
        _ => panic!("expected a decode error for the missing section"),
    }
}

#[test]
fn section_bytes_that_are_not_text_are_a_decode_error_naming_the_section() {
    let mut wasm = b"\0asm\x01\x00\x00\x00".to_vec();
    wasm.extend_from_slice(&custom_section("icp:public candid:args", &[0xff, 0xfe]));
    match get_metadata_as_string(&wasm, "candid:args") {
        Err(PullError::Decode { message }) => {
            assert_eq!(message, "failed to read candid:args metadata as UTF-8 text");
        }
        _ => panic!("expected a decode error for the non-text section"),
    }
}

#[test]
fn unreadable_module_bytes_are_a_decode_error() {
    match get_metadata_as_string(b"not a module", "candid:args") {
        Err(PullError::Decode { message }) => {
            assert_eq!(message, "failed to read the module bytes as a module");
        }
        _ => panic!("expected a decode error for the unreadable module"),
    }
}

#[test]
fn a_module_missing_one_of_the_three_sections_fails_extraction() {
    let mut wasm = b"\0asm\x01\x00\x00\x00".to_vec();
    wasm.extend_from_slice(&custom_section("icp:public candid:service", b"service code"));
    wasm.extend_from_slice(&custom_section("icp:public candid:args", b"(nat)"));
    match extract_sections(&wasm) {
        Err(PullError::Decode { message }) => {
            assert_eq!(message, "failed to get dfx metadata from the module");
        }
        _ => panic!("expected extraction to fail without the structured section"),
    }
}

#[test]
fn assembled_record_carries_hex_hashes_and_declared_data() {
    let authoritative = vec![0xaa, 0x11];
    let declared = Manifest {
        dependencies: vec![ModuleId::new(3), ModuleId::new(9)],
        wasm_url: "https://example.invalid/m.wasm".to_string(),
        wasm_hash: None,
        wasm_hash_url: None,
        init_guide: Some("pass a principal".to_string()),
        init_arg: None,
    };
    let record = module_pull::cache::assemble_resolved_module(
        &authoritative,
        "bb22".to_string(),
        true,
        "(opt nat)".to_string(),
        &declared,
    );
    assert_eq!(record.wasm_hash, "aa11");
    assert_eq!(record.wasm_hash_download, "bb22");
    assert!(record.gzip);
    assert_eq!(record.candid_args, "(opt nat)");
    assert_eq!(record.dependencies.len(), 2);
    assert_eq!(record.dependencies[0].value, 3);
    assert_eq!(record.init_guide, Some("pass a principal".to_string()));
    assert_eq!(record.init_arg, None);
}
