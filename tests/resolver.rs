use tetra::{select_repository, PackageId, ProbePaths, ProbeResults, Repository, TetraError};

/// A fabricated package tree: the directories and files that exist.
struct Tree {
    dirs: Vec<String>,
    files: Vec<String>,
}

impl Tree {
    fn probe(&self, p: &ProbePaths) -> ProbeResults {
        let dir = |s: &String| self.dirs.contains(s);
        let file = |s: &String| self.files.contains(s);
        ProbeResults {
            package_dir: dir(&p.package_dir),
            version_dir: dir(&p.version_dir),
            flavour_dir: dir(&p.flavour_dir),
            arch_recipe: file(&p.arch_recipe),
            plain_recipe: file(&p.plain_recipe),
        }
    }
}

fn local_repo() -> Repository {
    Repository::from_meta("/t/repo/local", "Local".to_string(), "test repo".to_string()).unwrap()
}

fn tree() -> Tree {
    Tree {
        dirs: vec![
            "/t/repo/local/pkgs/p/pkgname".to_string(),
            "/t/repo/local/pkgs/p/pkgname/1.0".to_string(),
            "/t/repo/local/pkgs/p/pkgname/1.0/arch1".to_string(),
            "/t/repo/local/pkgs/k/knownpkg".to_string(),
            "/t/repo/local/pkgs/k/knownpkg/1.0".to_string(),
            "/t/repo/local/pkgs/k/knownpkg/1.0/a".to_string(),
            "/t/repo/local/pkgs/k/knownpkg/1.0/a/b".to_string(),
        ],
        files: vec![
            "/t/repo/local/pkgs/p/pkgname/1.0/arch1/recipe.yml".to_string(),
            "/t/repo/local/pkgs/k/knownpkg/1.0/recipe.yml".to_string(),
            "/t/repo/local/pkgs/k/knownpkg/1.0/a/b/recipe.yml".to_string(),
        ],
    }
}

fn resolve(id: &str, default_arch: &str) -> Result<String, TetraError> {
    let repo = local_repo();
    let id = PackageId::from_id_str(id.to_string());
    let found = match repo.probe_paths(&id, default_arch) {
        Ok(p) => tree().probe(&p),
        Err(e) => return Err(e),
    };
    repo.resolve_package_id(&id, default_arch, &found)
}

#[test]
fn resolve_explicit_arch() {
    assert_eq!(
        resolve("local/pkgname@1.0#arch1", "arch2"),
        Ok("/t/repo/local/pkgs/p/pkgname/1.0/arch1/recipe.yml".to_string())
    );
}

#[test]
fn resolve_explicit_arch_not_supplied() {
    assert_eq!(resolve("local/pkgname@1.0#arch2", "arch2"), Err(TetraError::ArchitectureNotSupplied));
}

#[test]
fn resolve_default_arch_first() {
    assert_eq!(
        resolve("local/pkgname@1.0", "arch1"),
        Ok("/t/repo/local/pkgs/p/pkgname/1.0/arch1/recipe.yml".to_string())
    );
}

#[test]
fn resolve_no_recipe_for_default_arch() {
    assert_eq!(resolve("local/pkgname@1.0", "arch2"), Err(TetraError::RecipeNotFound));
}

#[test]
fn resolve_plain_recipe_fallback() {
    assert_eq!(
        resolve("local/knownpkg@1.0", "arch2"),
        Ok("/t/repo/local/pkgs/k/knownpkg/1.0/recipe.yml".to_string())
    );
}

#[test]
fn resolve_flavours_in_order() {
    assert_eq!(
        resolve("local/knownpkg@1.0:a:b", "x"),
        Ok("/t/repo/local/pkgs/k/knownpkg/1.0/a/b/recipe.yml".to_string())
    );
    assert_eq!(resolve("local/knownpkg@1.0:b:a", "x"), Err(TetraError::FlavourCombinationNotFound));
}

#[test]
fn resolve_unknown_package() {
    assert_eq!(resolve("local/unknownpkg@1.0", "arch1"), Err(TetraError::PackageNotFound));
}

#[test]
fn resolve_unknown_version() {
    assert_eq!(resolve("local/knownpkg@9.9", "arch1"), Err(TetraError::VersionNotFound));
}

#[test]
fn resolve_empty_name() {
    assert_eq!(resolve("local/@1.0", "arch1"), Err(TetraError::PackageNotFound));
}

#[test]
fn probe_paths_are_built_in_order() {
    let repo = local_repo();
    let id = PackageId::from_id_str("local/foo@2:x:y#z".to_string());
    let p = repo.probe_paths(&id, "d").unwrap();
    assert_eq!(p.package_dir, "/t/repo/local/pkgs/f/foo");
    assert_eq!(p.version_dir, "/t/repo/local/pkgs/f/foo/2");
    assert_eq!(p.flavour_dir, "/t/repo/local/pkgs/f/foo/2/x/y");
    assert_eq!(p.arch_recipe, "/t/repo/local/pkgs/f/foo/2/x/y/z/recipe.yml");
    assert_eq!(p.plain_recipe, "/t/repo/local/pkgs/f/foo/2/x/y/recipe.yml");
}

#[test]
fn repository_id_from_directory_name() {
    let repo = local_repo();
    assert_eq!(repo.id, "local");
    assert_eq!(repo.name, "Local");
    assert_eq!(repo.desc, "test repo");
    assert_eq!(repo.pkgs_dir, "/t/repo/local/pkgs");
    assert!(Repository::from_meta("/t/repo/", String::new(), String::new()).is_none());
    let bare = Repository::from_meta("main", String::new(), String::new()).unwrap();
    assert_eq!(bare.id, "main");
    assert_eq!(bare.pkgs_dir, "main/pkgs");
}

#[test]
fn select_repository_by_id() {
    let repos = vec![
        Repository::from_meta("/r/a", String::new(), String::new()).unwrap(),
        Repository::from_meta("/r/local", String::new(), String::new()).unwrap(),
    ];
    assert_eq!(select_repository(&repos, &"local".to_string()), Ok(1));
    assert_eq!(select_repository(&repos, &"other".to_string()), Err(TetraError::RepositoryNotFound));
    assert_eq!(select_repository(&Vec::new(), &"a".to_string()), Err(TetraError::RepositoryNotFound));
}
