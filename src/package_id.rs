use vstd::prelude::*;
use crate::text::{find_first, find_last, first_index, last_index, slice, split, split_on, strings_view};

verus! {

/// The repository named when an identifier names none.
pub open spec fn default_repo() -> Seq<char> {
    seq!['d', 'e', 'f', 'a', 'u', 'l', 't']
}

/// The version named when an identifier names none.
pub open spec fn latest() -> Seq<char> {
    seq!['l', 'a', 't', 'e', 's', 't']
}

/// The parts of a package identifier, as text.
pub struct PackageIdView {
    pub repo: Seq<char>,
    pub name: Seq<char>,
    pub version: Seq<char>,
    pub flavours: Seq<Seq<char>>,
    pub arch: Option<Seq<char>>,
}

/// What is left of `s` once the architecture after the last `#` is cut off.
pub open spec fn without_arch(s: Seq<char>) -> Seq<char> {
    let h = last_index(s, '#');
    if h >= 0 { s.take(h) } else { s }
}

/// What is left of `s` once the repository before the first `/` is cut off.
pub open spec fn without_repo(s: Seq<char>) -> Seq<char> {
    let p = first_index(s, '/');
    if p >= 0 { s.skip(p + 1) } else { s }
}

/// The version, then the flavours, named by the part of an identifier
/// that follows its repository.
pub open spec fn version_and_flavours(rest: Seq<char>) -> Seq<Seq<char>> {
    let at = first_index(rest, '@');
    let colon = first_index(rest, ':');
    if at >= 0 {
        split_on(rest.skip(at + 1), ':')
    } else if colon >= 0 {
        seq![latest()] + split_on(rest.skip(colon + 1), ':')
    } else {
        seq![latest()]
    }
}

/// The identifier spelled by `s`: `repo/name@version:flavour...#arch`,
/// every part but the name optional.
pub open spec fn parse_id(s: Seq<char>) -> PackageIdView {
    let h = last_index(s, '#');
    let rest = without_arch(s);
    let slash = first_index(rest, '/');
    let tail = without_repo(rest);
    let at = first_index(tail, '@');
    let colon = first_index(tail, ':');
    let parts = version_and_flavours(tail);
    PackageIdView {
        repo: if slash >= 0 { rest.take(slash) } else { default_repo() },
        name: if at >= 0 { tail.take(at) } else if colon >= 0 { tail.take(colon) } else { tail },
        version: if parts[0].len() == 0 { latest() } else { parts[0] },
        flavours: parts.skip(1),
        arch: if h >= 0 { Some(s.skip(h + 1)) } else { None },
    }
}

/// A package identifier: the repository, package, version, flavours and
/// architecture that a recipe is looked up by.
#[derive(Debug)]
pub struct PackageId {
    pub repo: String,
    pub name: String,
    pub version: String,
    pub flavours: Vec<String>,
    pub arch: Option<String>,
}

impl View for PackageId {
    type V = PackageIdView;

    open spec fn view(&self) -> PackageIdView {
        PackageIdView {
            repo: self.repo@,
            name: self.name@,
            version: self.version@,
            flavours: strings_view(self.flavours@),
            arch: match self.arch {
                Some(a) => Some(a@),
                None => None,
            },
        }
    }
}

fn latest_string() -> (r: String)
    ensures
        r@ == latest(),
{
    proof {
        reveal_strlit("latest");
    }
    String::from_str("latest")
}

impl PackageId {
    /// Reads an identifier. Nothing is rejected: a part that is not there
    /// takes its default.
    pub fn from_id_str(s: String) -> (r: PackageId)
        ensures
            r@ == parse_id(s@),
    {
        let s = s.as_str();
        let n = s.unicode_len();
        let (rest, arch) = match find_last(s, '#') {
            Some(pos) => (slice(s, 0, pos), Some(slice(s, pos + 1, n))),
            None => (slice(s, 0, n), None),
        };
        assert(rest@ == without_arch(s@)) by {
            assert(s@.subrange(0, n as int) =~= s@);
        }
        let rest = rest.as_str();
        let rn = rest.unicode_len();
        let (repo, tail) = match find_first(rest, '/') {
            Some(pos) => (slice(rest, 0, pos), slice(rest, pos + 1, rn)),
            None => {
                proof {
                    reveal_strlit("default");
                }
                (String::from_str("default"), slice(rest, 0, rn))
            },
        };
        assert(tail@ == without_repo(rest@)) by {
            assert(rest@.subrange(0, rn as int) =~= rest@);
        }
        let tail = tail.as_str();
        let tn = tail.unicode_len();
        let (name, version, flavours) = match find_first(tail, '@') {
            Some(pos) => {
                let mut parts = split(slice(tail, pos + 1, tn).as_str(), ':');
                proof {
                    crate::text::lemma_split_nonempty(tail@.skip(pos + 1), ':');
                }
                let first = parts.remove(0);
                let version = if first.unicode_len() == 0 {
                    latest_string()
                } else {
                    first
                };
                assert(strings_view(parts@) =~= version_and_flavours(tail@).skip(1));
                (slice(tail, 0, pos), version, parts)
            },
            None => match find_first(tail, ':') {
                Some(pos) => {
                    let parts = split(slice(tail, pos + 1, tn).as_str(), ':');
                    assert(strings_view(parts@) =~= version_and_flavours(tail@).skip(1));
                    (slice(tail, 0, pos), latest_string(), parts)
                },
                None => {
                    assert(tail@.subrange(0, tn as int) =~= tail@);
                    (slice(tail, 0, tn), latest_string(), Vec::new())
                },
            },
        };
        let r = PackageId { repo, name, version, flavours, arch };
        let ghost p = parse_id(s@);
        assert(r@.repo == p.repo);
        assert(r@.name == p.name);
        assert(r@.version == p.version);
        assert(r@.flavours =~= p.flavours);
        assert(r@.arch == p.arch);
        r
    }
}

} // verus!
