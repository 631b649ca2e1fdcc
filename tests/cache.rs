use tetra::{Cache, Checksum, Digest, Downloader, RecipeSource, Source, TempFile, TetraError, TetraRoot, Verdict};

const HEX: &str = "00ff10a0b1c2d3e4f5061728394a5b6c7d8e9fa0b1c2d3e4f5061728394a5b6c";

fn digest() -> Digest {
    Digest::from_hex(HEX).unwrap()
}

fn root() -> TetraRoot {
    TetraRoot::new(true, Some("/t".to_string()))
}

#[test]
fn digest_hex_round_trip() {
    let d = digest();
    assert_eq!(d.bytes[0], 0x00);
    assert_eq!(d.bytes[1], 0xff);
    assert_eq!(d.bytes[2], 0x10);
    assert_eq!(d.to_hex(), HEX);
    let upper = Digest::from_hex(&HEX.to_uppercase()).unwrap();
    assert!(upper.equals(&d));
    assert_eq!(upper.to_hex(), HEX);
}

#[test]
fn digest_hex_rejects_bad_text() {
    assert!(Digest::from_hex("").is_none());
    assert!(Digest::from_hex(&HEX[..62]).is_none());
    assert!(Digest::from_hex(&format!("{}0", HEX)).is_none());
    assert!(Digest::from_hex(&format!("g{}", &HEX[1..])).is_none());
}

#[test]
fn digest_equality() {
    let a = Digest { bytes: [7; 32] };
    let mut b = a;
    assert!(a.equals(&b));
    b.bytes[31] = 8;
    assert!(!a.equals(&b));
}

#[test]
fn root_override_only_in_debug_builds() {
    assert_eq!(TetraRoot::new(true, Some("/x".to_string())).root, "/x");
    assert_eq!(TetraRoot::new(false, Some("/x".to_string())).root, "/var/tetra");
    assert_eq!(TetraRoot::new(true, None).root, "/var/tetra");
    let r = root();
    assert_eq!(r.repo_dir(), "/t/repo");
    assert_eq!(r.cache_dir(), "/t/cache");
    assert_eq!(r.temp_dir(), "/t/tmp");
    assert_eq!(r.arch_file(), "/t/arch");
}

#[test]
fn cache_path_fans_out_by_prefix() {
    let cache = Cache::new(&root());
    assert_eq!(cache.cache_dir, "/t/cache");
    assert_eq!(cache.get_fanout_dir(&digest()), "/t/cache/00");
    assert_eq!(cache.get_cache_path(&digest()), format!("/t/cache/00/{}", HEX));
}

#[test]
fn validate_missing_entry() {
    let cache = Cache::new(&root());
    let v = cache.validate(&digest(), None);
    assert_eq!(v, Verdict::Missing);
    assert!(!v.is_valid());
    assert!(!v.must_remove());
}

#[test]
fn validate_corrupt_entry_is_removed() {
    let cache = Cache::new(&root());
    let v = cache.validate(&digest(), Some(Digest { bytes: [1; 32] }));
    assert_eq!(v, Verdict::Corrupt);
    assert!(!v.is_valid());
    assert!(v.must_remove());
}

#[test]
fn validate_matching_entry() {
    let cache = Cache::new(&root());
    let v = cache.validate(&digest(), Some(digest()));
    assert_eq!(v, Verdict::Valid);
    assert!(v.is_valid());
    assert!(!v.must_remove());
}

#[test]
fn insert_matching_content() {
    let cache = Cache::new(&root());
    let tmp = TempFile::new(&root(), &digest());
    assert_eq!(tmp.path, format!("/t/tmp/{}", HEX));
    let plan = cache.cache_tmp_file(&tmp, &digest());
    assert_eq!(plan.dir, "/t/cache/00");
    assert_eq!(plan.from, tmp.path);
    assert_eq!(plan.to, format!("/t/cache/00/{}", HEX));
    let v = cache.validate(&digest(), Some(digest()));
    assert_eq!(Cache::finish_insert(v), Ok(()));
}

#[test]
fn insert_mismatching_content() {
    let cache = Cache::new(&root());
    let v = cache.validate(&digest(), Some(Digest { bytes: [2; 32] }));
    assert_eq!(Cache::finish_insert(v), Err(TetraError::ChecksumMismatch));
    assert_eq!(Cache::finish_insert(Verdict::Missing), Err(TetraError::ChecksumMismatch));
}

#[test]
fn recipe_source_checksum() {
    let good = RecipeSource { url: "https://e.x/a.tar".to_string(), hash: HEX.to_string() };
    assert!(good.checksum().unwrap().equals(&digest()));
    assert_eq!(good.url(), "https://e.x/a.tar");
    let bad = RecipeSource { url: String::new(), hash: "xyz".to_string() };
    assert_eq!(bad.checksum().err(), Some(TetraError::InvalidChecksum));
}

#[test]
fn downloader_uses_checksum_for_scratch_file() {
    let src = RecipeSource { url: "https://e.x/a.tar".to_string(), hash: HEX.to_string() };
    let d = Downloader::new(&root(), &src, "pkg").unwrap();
    assert_eq!(d.url, "https://e.x/a.tar");
    assert_eq!(d.name, "pkg");
    assert_eq!(d.tmp_file.path, format!("/t/tmp/{}", HEX));
    let plan = d.send_to_cache(&Cache::new(&root()));
    assert_eq!(plan.from, d.tmp_file.path);
    assert_eq!(plan.to, format!("/t/cache/00/{}", HEX));
    let bad = RecipeSource { url: String::new(), hash: String::new() };
    assert_eq!(Downloader::new(&root(), &bad, "pkg").err().map(|e| e.describe()), Some("checksum is not a valid digest"));
}
