use vstd::prelude::*;
use crate::digest::{encode_hex, Digest};
use crate::error::TetraError;
use crate::source::Source;
use crate::text::{join, path_join, slice};

verus! {

/// The root used when no other is given.
pub open spec fn default_root() -> Seq<char> {
    seq!['/', 'v', 'a', 'r', '/', 't', 'e', 't', 'r', 'a']
}

/// The repository directory under a root.
pub open spec fn repo_dir(root: Seq<char>) -> Seq<char> {
    path_join(root, seq!['r', 'e', 'p', 'o'])
}

/// The cache directory under a root.
pub open spec fn cache_dir(root: Seq<char>) -> Seq<char> {
    path_join(root, seq!['c', 'a', 'c', 'h', 'e'])
}

/// The scratch directory under a root.
pub open spec fn temp_dir(root: Seq<char>) -> Seq<char> {
    path_join(root, seq!['t', 'm', 'p'])
}

/// The file naming the default architecture under a root.
pub open spec fn arch_file(root: Seq<char>) -> Seq<char> {
    path_join(root, seq!['a', 'r', 'c', 'h'])
}

/// The fan-out directory of a digest: the first two hex digits of it.
pub open spec fn fanout_dir(dir: Seq<char>, hash: Seq<u8>) -> Seq<char> {
    path_join(dir, encode_hex(hash).take(2))
}

/// Where the blob with digest `hash` is kept.
pub open spec fn cache_path(dir: Seq<char>, hash: Seq<u8>) -> Seq<char> {
    path_join(fanout_dir(dir, hash), encode_hex(hash))
}

/// The scratch file for a download whose content should hash to `hash`.
pub open spec fn temp_path(root: Seq<char>, hash: Seq<u8>) -> Seq<char> {
    path_join(temp_dir(root), encode_hex(hash))
}

/// The directory that holds repositories, cache and scratch files.
#[derive(Debug)]
pub struct TetraRoot {
    pub root: String,
}

impl TetraRoot {
    /// The root: `root_override` where it is given and this is a debug build,
    /// the default root otherwise.
    pub fn new(debug_build: bool, root_override: Option<String>) -> (r: TetraRoot)
        ensures
            r.root@ == match root_override {
                Some(o) if debug_build => o@,
                _ => default_root(),
            },
    {
        match root_override {
            Some(o) if debug_build => TetraRoot { root: o },
            _ => {
                proof {
                    reveal_strlit("/var/tetra");
                }
                TetraRoot { root: String::from_str("/var/tetra") }
            },
        }
    }

    /// The directory holding one directory per repository.
    pub fn repo_dir(&self) -> (r: String)
        ensures
            r@ == repo_dir(self.root@),
    {
        proof {
            reveal_strlit("repo");
        }
        join(self.root.as_str(), "repo")
    }

    /// The directory of the content-addressed cache.
    pub fn cache_dir(&self) -> (r: String)
        ensures
            r@ == cache_dir(self.root@),
    {
        proof {
            reveal_strlit("cache");
        }
        join(self.root.as_str(), "cache")
    }

    /// The directory of scratch files.
    pub fn temp_dir(&self) -> (r: String)
        ensures
            r@ == temp_dir(self.root@),
    {
        proof {
            reveal_strlit("tmp");
        }
        join(self.root.as_str(), "tmp")
    }

    /// The file that names the default architecture.
    pub fn arch_file(&self) -> (r: String)
        ensures
            r@ == arch_file(self.root@),
    {
        proof {
            reveal_strlit("arch");
        }
        join(self.root.as_str(), "arch")
    }
}

/// A scratch file, named by the digest its content should have.
#[derive(Debug)]
pub struct TempFile {
    pub path: String,
}

impl TempFile {
    pub fn new(root: &TetraRoot, hash: &Digest) -> (r: TempFile)
        ensures
            r.path@ == temp_path(root.root@, hash@),
    {
        let dir = root.temp_dir();
        let name = hash.to_hex();
        TempFile { path: join(dir.as_str(), name.as_str()) }
    }
}

/// What looking at a cache entry found.
#[derive(Debug, Clone, Copy, PartialEq, Eq, Structural)]
pub enum Verdict {
    /// No blob is there.
    Missing,
    /// The blob hashes to the digest it is kept under.
    Valid,
    /// The blob hashes to something else; it must be removed.
    Corrupt,
}

impl Verdict {
    /// Whether the entry can be trusted.
    pub fn is_valid(&self) -> (r: bool)
        ensures
            r == (*self == Verdict::Valid),
    {
        matches!(self, Verdict::Valid)
    }

    /// Whether the blob there must be removed.
    pub fn must_remove(&self) -> (r: bool)
        ensures
            r == (*self == Verdict::Corrupt),
    {
        matches!(self, Verdict::Corrupt)
    }
}

/// The verdict on the entry for `hash`, given the digest of what is stored
/// there, if anything.
pub open spec fn verdict(hash: Seq<u8>, found: Option<Seq<u8>>) -> Verdict {
    match found {
        None => Verdict::Missing,
        Some(d) => if d == hash {
            Verdict::Valid
        } else {
            Verdict::Corrupt
        },
    }
}

/// What an insert returns once the moved blob has been judged.
pub open spec fn insert_result(v: Verdict) -> Result<(), TetraError> {
    if v == Verdict::Valid {
        Ok(())
    } else {
        Err(TetraError::ChecksumMismatch)
    }
}

/// An insert whose scratch file hashes to the digest it is inserted under
/// succeeds, and a later look at that entry finds it valid.
pub proof fn lemma_insert_matching(hash: Seq<u8>, content: Seq<u8>)
    requires
        content == hash,
    ensures
        insert_result(verdict(hash, Some(content))) == Ok::<(), TetraError>(()),
        verdict(hash, Some(content)) == Verdict::Valid,
{
}

/// An insert whose scratch file hashes to another digest fails with a
/// checksum mismatch, and the moved blob is judged corrupt, to be removed.
pub proof fn lemma_insert_mismatch(hash: Seq<u8>, content: Seq<u8>)
    requires
        content != hash,
    ensures
        insert_result(verdict(hash, Some(content))) == Err::<(), TetraError>(
            TetraError::ChecksumMismatch,
        ),
        verdict(hash, Some(content)) == Verdict::Corrupt,
{
}

/// The file-system steps of an insert: make `dir`, then move `from` to `to`.
#[derive(Debug)]
pub struct InsertPlan {
    pub dir: String,
    pub from: String,
    pub to: String,
}

/// A cache of blobs, each kept under the hex digest of its content, in a
/// directory named by the digest's first two hex digits.
#[derive(Debug)]
pub struct Cache {
    pub cache_dir: String,
}

impl Cache {
    pub fn new(root: &TetraRoot) -> (r: Cache)
        ensures
            r.cache_dir@ == cache_dir(root.root@),
    {
        Cache { cache_dir: root.cache_dir() }
    }

    /// The fan-out directory for `hash`.
    pub fn get_fanout_dir(&self, hash: &Digest) -> (r: String)
        ensures
            r@ == fanout_dir(self.cache_dir@, hash@),
    {
        let hex = hash.to_hex();
        let prefix = slice(hex.as_str(), 0, 2);
        join(self.cache_dir.as_str(), prefix.as_str())
    }

    /// Where the blob with digest `hash` is kept.
    pub fn get_cache_path(&self, hash: &Digest) -> (r: String)
        ensures
            r@ == cache_path(self.cache_dir@, hash@),
    {
        let dir = self.get_fanout_dir(hash);
        let hex = hash.to_hex();
        join(dir.as_str(), hex.as_str())
    }

    /// Judges the entry for `hash`, given the digest of the file at
    /// `get_cache_path(hash)`, or `None` when there is no file. An absent
    /// entry is missing and nothing is to be done; one that hashes to
    /// something else is corrupt and must be removed.
    pub fn validate(&self, hash: &Digest, found: Option<Digest>) -> (r: Verdict)
        ensures
            r == verdict(hash@, match found {
                Some(d) => Some(d@),
                None => None,
            }),
            found is None ==> r == Verdict::Missing,
            found matches Some(d) ==> (r == Verdict::Valid <==> d@ == hash@),
            found matches Some(d) ==> (r == Verdict::Corrupt <==> d@ != hash@),
    {
        match found {
            None => Verdict::Missing,
            Some(d) => if d.equals(hash) {
                Verdict::Valid
            } else {
                Verdict::Corrupt
            },
        }
    }

    /// The steps that move `tmp_file` into the cache under `hash`.
    pub fn cache_tmp_file(&self, tmp_file: &TempFile, hash: &Digest) -> (r: InsertPlan)
        ensures
            r.dir@ == fanout_dir(self.cache_dir@, hash@),
            r.from@ == tmp_file.path@,
            r.to@ == cache_path(self.cache_dir@, hash@),
    {
        InsertPlan {
            dir: self.get_fanout_dir(hash),
            from: tmp_file.path.clone(),
            to: self.get_cache_path(hash),
        }
    }

    /// The result of an insert, given the verdict on the entry after the
    /// move: anything but a valid blob is a checksum mismatch.
    pub fn finish_insert(v: Verdict) -> (r: Result<(), TetraError>)
        ensures
            r == insert_result(v),
    {
        if v.is_valid() {
            Ok(())
        } else {
            Err(TetraError::ChecksumMismatch)
        }
    }
}

/// Fetches one source into the cache through a scratch file.
#[derive(Debug)]
pub struct Downloader {
    pub url: String,
    pub checksum: Digest,
    pub tmp_file: TempFile,
    pub name: String,
}

impl Downloader {
    /// A downloader for `source`, labelled `name`; `InvalidChecksum` when the
    /// source's checksum cannot be read.
    pub fn new<T: Source>(root: &TetraRoot, source: &T, name: &str) -> (r: Result<
        Downloader,
        TetraError,
    >)
        ensures
            r is Ok <==> source.checksum_spec() is Some,
            r matches Err(e) ==> e == TetraError::InvalidChecksum,
            r matches Ok(d) ==> {
                &&& source.checksum_spec() == Some(d.checksum@)
                &&& d.url@ == source.url_spec()
                &&& d.tmp_file.path@ == temp_path(root.root@, d.checksum@)
                &&& d.name@ == name@
            },
    {
        let checksum = match source.checksum() {
            Ok(c) => c,
            Err(e) => return Err(e),
        };
        let tmp_file = TempFile::new(root, &checksum);
        Ok(Downloader { url: source.url(), checksum, tmp_file, name: String::from_str(name) })
    }

    /// The steps that move the downloaded scratch file into `cache`.
    pub fn send_to_cache(&self, cache: &Cache) -> (r: InsertPlan)
        ensures
            r.dir@ == fanout_dir(cache.cache_dir@, self.checksum@),
            r.from@ == self.tmp_file.path@,
            r.to@ == cache_path(cache.cache_dir@, self.checksum@),
    {
        cache.cache_tmp_file(&self.tmp_file, &self.checksum)
    }
}

} // verus!
