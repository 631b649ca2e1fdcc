use vstd::prelude::*;
use crate::error::TetraError;
use crate::package_id::{PackageId, PackageIdView};
use crate::text::{find_last, join, last_index, path_join, slice};

verus! {

/// The file name of a recipe document.
pub open spec fn recipe_file() -> Seq<char> {
    seq!['r', 'e', 'c', 'i', 'p', 'e', '.', 'y', 'm', 'l']
}

/// The name of a repository's package directory.
pub open spec fn pkgs_name() -> Seq<char> {
    seq!['p', 'k', 'g', 's']
}

/// `base` with each of `parts` appended, in order, as a component.
pub open spec fn join_all(base: Seq<char>, parts: Seq<Seq<char>>) -> Seq<char>
    decreases parts.len(),
{
    if parts.len() == 0 {
        base
    } else {
        path_join(join_all(base, parts.drop_last()), parts.last())
    }
}

/// `pkgs/<first character of name>/<name>`.
pub open spec fn package_dir(pkgs: Seq<char>, id: PackageIdView) -> Seq<char> {
    path_join(path_join(pkgs, seq![id.name[0]]), id.name)
}

/// The package directory with the version appended.
pub open spec fn version_dir(pkgs: Seq<char>, id: PackageIdView) -> Seq<char> {
    path_join(package_dir(pkgs, id), id.version)
}

/// The version directory with each flavour appended, in order.
pub open spec fn flavour_dir(pkgs: Seq<char>, id: PackageIdView) -> Seq<char> {
    join_all(version_dir(pkgs, id), id.flavours)
}

/// The architecture asked for, or else the default one.
pub open spec fn wanted_arch(id: PackageIdView, default_arch: Seq<char>) -> Seq<char> {
    match id.arch {
        Some(a) => a,
        None => default_arch,
    }
}

/// The recipe under the flavour directory for the wanted architecture.
pub open spec fn arch_recipe(pkgs: Seq<char>, id: PackageIdView, default_arch: Seq<char>) -> Seq<
    char,
> {
    path_join(path_join(flavour_dir(pkgs, id), wanted_arch(id, default_arch)), recipe_file())
}

/// The recipe directly under the flavour directory.
pub open spec fn plain_recipe(pkgs: Seq<char>, id: PackageIdView) -> Seq<char> {
    path_join(flavour_dir(pkgs, id), recipe_file())
}

/// Which of the paths of a `ProbePaths` exist: the three directories as
/// directories, the two recipes as files.
#[derive(Debug, Clone, Copy)]
pub struct ProbeResults {
    pub package_dir: bool,
    pub version_dir: bool,
    pub flavour_dir: bool,
    pub arch_recipe: bool,
    pub plain_recipe: bool,
}

/// The paths whose existence decides where an identifier's recipe is.
#[derive(Debug)]
pub struct ProbePaths {
    pub package_dir: String,
    pub version_dir: String,
    pub flavour_dir: String,
    pub arch_recipe: String,
    pub plain_recipe: String,
}

/// Where the recipe of `id` is, given which of its probe paths exist.
pub open spec fn resolution(
    pkgs: Seq<char>,
    id: PackageIdView,
    default_arch: Seq<char>,
    found: ProbeResults,
) -> Result<Seq<char>, TetraError> {
    if id.name.len() == 0 || !found.package_dir {
        Err(TetraError::PackageNotFound)
    } else if !found.version_dir {
        Err(TetraError::VersionNotFound)
    } else if !found.flavour_dir {
        Err(TetraError::FlavourCombinationNotFound)
    } else if found.arch_recipe {
        Ok(arch_recipe(pkgs, id, default_arch))
    } else if id.arch is Some {
        Err(TetraError::ArchitectureNotSupplied)
    } else if found.plain_recipe {
        Ok(plain_recipe(pkgs, id))
    } else {
        Err(TetraError::RecipeNotFound)
    }
}

/// A package repository: a directory of packages with a name and a
/// description.
#[derive(Debug)]
pub struct Repository {
    pub name: String,
    pub desc: String,
    pub id: String,
    pub pkgs_dir: String,
}

impl Repository {
    /// The repository in directory `path`, with the name and description that
    /// its metadata gives. Its id is the last component of `path`; there is
    /// none when that component is empty.
    pub fn from_meta(path: &str, name: String, desc: String) -> (r: Option<Repository>)
        ensures
            ({
                let slash = last_index(path@, '/');
                let id = path@.skip(slash + 1);
                &&& r is Some <==> id.len() > 0
                &&& r matches Some(repo) ==> {
                    &&& repo.id@ == id
                    &&& repo.name == name
                    &&& repo.desc == desc
                    &&& repo.pkgs_dir@ == path_join(path@, pkgs_name())
                }
            }),
    {
        let n = path.unicode_len();
        let start = match find_last(path, '/') {
            Some(i) => i + 1,
            None => 0,
        };
        let id = slice(path, start, n);
        if id.unicode_len() == 0 {
            return None;
        }
        proof {
            reveal_strlit("pkgs");
        }
        let pkgs_dir = join(path, "pkgs");
        Some(Repository { name, desc, id, pkgs_dir })
    }

    /// The paths to look at for the recipe of `id`; `PackageNotFound` when
    /// its name is empty.
    pub fn probe_paths(&self, id: &PackageId, default_arch: &str) -> (r: Result<
        ProbePaths,
        TetraError,
    >)
        ensures
            r is Err <==> id@.name.len() == 0,
            r matches Err(e) ==> e == TetraError::PackageNotFound,
            r matches Ok(p) ==> {
                &&& p.package_dir@ == package_dir(self.pkgs_dir@, id@)
                &&& p.version_dir@ == version_dir(self.pkgs_dir@, id@)
                &&& p.flavour_dir@ == flavour_dir(self.pkgs_dir@, id@)
                &&& p.arch_recipe@ == arch_recipe(self.pkgs_dir@, id@, default_arch@)
                &&& p.plain_recipe@ == plain_recipe(self.pkgs_dir@, id@)
            },
    {
        let name = id.name.as_str();
        if name.unicode_len() == 0 {
            return Err(TetraError::PackageNotFound);
        }
        let first = slice(name, 0, 1);
        let letter_dir = join(self.pkgs_dir.as_str(), first.as_str());
        assert(first@ =~= seq![id@.name[0]]);
        let package_dir = join(letter_dir.as_str(), name);
        let version_dir = join(package_dir.as_str(), id.version.as_str());
        let mut flavour_dir = version_dir.clone();
        let mut i: usize = 0;
        proof {
            assert(id@.flavours.take(0) =~= Seq::<Seq<char>>::empty());
        }
        while i < id.flavours.len()
            invariant
                0 <= i <= id.flavours.len(),
                id@.flavours.len() == id.flavours@.len(),
                flavour_dir@ == join_all(version_dir@, id@.flavours.take(i as int)),
            decreases id.flavours.len() - i,
        {
            flavour_dir = join(flavour_dir.as_str(), id.flavours[i].as_str());
            proof {
                let t = id@.flavours.take(i + 1);
                assert(t.drop_last() =~= id@.flavours.take(i as int));
                assert(t.last() == id.flavours@[i as int]@);
            }
            i = i + 1;
        }
        assert(id@.flavours.take(i as int) =~= id@.flavours);
        let arch = match &id.arch {
            Some(a) => a.as_str(),
            None => default_arch,
        };
        proof {
            reveal_strlit("recipe.yml");
        }
        let arch_dir = join(flavour_dir.as_str(), arch);
        let arch_recipe = join(arch_dir.as_str(), "recipe.yml");
        let plain_recipe = join(flavour_dir.as_str(), "recipe.yml");
        Ok(ProbePaths { package_dir, version_dir, flavour_dir, arch_recipe, plain_recipe })
    }

    /// The path of the recipe document of `id`, given which of its probe
    /// paths exist. With an architecture in `id` only that architecture's
    /// recipe will do; without one the default architecture's recipe comes
    /// first, then the recipe without an architecture.
    pub fn resolve_package_id(
        &self,
        package_id: &PackageId,
        default_arch: &str,
        found: &ProbeResults,
    ) -> (r: Result<String, TetraError>)
        ensures
            match resolution(self.pkgs_dir@, package_id@, default_arch@, *found) {
                Ok(p) => r matches Ok(q) && q@ == p,
                Err(e) => r == Err::<String, TetraError>(e),
            },
    {
        let paths = match self.probe_paths(package_id, default_arch) {
            Ok(p) => p,
            Err(e) => return Err(e),
        };
        if !found.package_dir {
            return Err(TetraError::PackageNotFound);
        }
        if !found.version_dir {
            return Err(TetraError::VersionNotFound);
        }
        if !found.flavour_dir {
            return Err(TetraError::FlavourCombinationNotFound);
        }
        if found.arch_recipe {
            return Ok(paths.arch_recipe);
        }
        if package_id.arch.is_some() {
            return Err(TetraError::ArchitectureNotSupplied);
        }
        if found.plain_recipe {
            return Ok(paths.plain_recipe);
        }
        Err(TetraError::RecipeNotFound)
    }
}

/// The index of the first repository whose id is `id`.
pub fn select_repository(repos: &Vec<Repository>, id: &String) -> (r: Result<usize, TetraError>)
    ensures
        r is Err <==> forall|j: int| 0 <= j < repos@.len() ==> repos@[j].id@ != id@,
        r matches Err(e) ==> e == TetraError::RepositoryNotFound,
        r matches Ok(i) ==> {
            &&& i < repos@.len()
            &&& repos@[i as int].id@ == id@
            &&& forall|j: int| 0 <= j < i ==> repos@[j].id@ != id@
        },
{
    let mut i: usize = 0;
    while i < repos.len()
        invariant
            0 <= i <= repos@.len(),
            forall|j: int| 0 <= j < i ==> repos@[j].id@ != id@,
        decreases repos.len() - i,
    {
        if repos[i].id == *id {
            return Ok(i);
        }
        i = i + 1;
    }
    Err(TetraError::RepositoryNotFound)
}

} // verus!
