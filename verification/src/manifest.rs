use vstd::prelude::*;

use crate::string_map::StringMap;
use crate::text::{ends_with, path_join, path_join_exec, starts_with};

verus! {

/// The fields of a project's `package.json` that the scaffolder reads and writes.
pub struct PackageManifest {
    pub name: String,
    pub private: bool,
    pub package_type: Option<String>,
    pub scripts: StringMap,
    pub dependencies: StringMap,
    pub dev_dependencies: StringMap,
}

/// The scoped package name every generated source imports.
pub open spec fn scoped_package() -> Seq<char> {
    "@astropress-diy/astropress"@
}

/// The unscoped alias that the scaffolder never adds as a dependency.
pub open spec fn bare_alias() -> Seq<char> {
    "astropress"@
}

/// The specifier of the package checked out under `repo_root`.
pub open spec fn local_specifier(repo_root: Seq<char>) -> Seq<char> {
    "file:"@ + path_join(path_join(repo_root, "packages"@), "astropress"@)
}

/// The semver range that pins a published version.
pub open spec fn published_specifier(version: Seq<char>) -> Seq<char> {
    "^"@ + version
}

/// The specifier the scaffolder pins for the scoped package.
pub open spec fn pinned_specifier(
    use_local_package: bool,
    version: Seq<char>,
    repo_root: Seq<char>,
) -> Seq<char> {
    if use_local_package {
        local_specifier(repo_root)
    } else {
        published_specifier(version)
    }
}

/// The scoped package name.
pub fn scoped_package_name() -> (s: String)
    ensures
        s@ == scoped_package(),
{
    "@astropress-diy/astropress".to_owned()
}

/// Pins the dependency the scaffolded project will install: the package
/// checked out under `repo_root` (`file:<repo_root>/packages/astropress`)
/// when `use_local_package`, else the caret range of `published_version`.
/// Only the scoped package's entry changes.
pub fn pin_astropress_dependency(
    manifest: &mut PackageManifest,
    use_local_package: bool,
    published_version: &str,
    repo_root: &str,
)
    ensures
        final(manifest).dependencies@ == old(manifest).dependencies@.insert(
            scoped_package(),
            pinned_specifier(use_local_package, published_version@, repo_root@),
        ),
        final(manifest).name == old(manifest).name,
        final(manifest).private == old(manifest).private,
        final(manifest).package_type == old(manifest).package_type,
        final(manifest).scripts == old(manifest).scripts,
        final(manifest).dev_dependencies == old(manifest).dev_dependencies,
{
    let specifier = if use_local_package {
        let dir = path_join_exec(path_join_exec(repo_root, "packages").as_str(), "astropress");
        proof {
            reveal_strlit("file:");
        }
        let s = "file:".to_owned().concat(dir.as_str());
        proof {
            reveal_strlit("packages");
            reveal_strlit("astropress");
        }
        s
    } else {
        proof {
            reveal_strlit("^");
        }
        "^".to_owned().concat(published_version)
    };
    manifest.dependencies.insert(scoped_package_name(), specifier);
}

/// The specifier pinned for a local checkout names the package directory:
/// it starts with `file:` and ends with `packages/astropress`, wherever
/// the repository lies.
pub proof fn lemma_local_specifier_names_package_dir(repo_root: Seq<char>)
    ensures
        starts_with(local_specifier(repo_root), "file:"@),
        ends_with(local_specifier(repo_root), "packages/astropress"@),
{
    reveal_strlit("file:");
    reveal_strlit("packages");
    reveal_strlit("astropress");
    reveal_strlit("packages/astropress");
    let inner = path_join(repo_root, "packages"@);
    let full = path_join(inner, "astropress"@);
    let s = local_specifier(repo_root);
    assert(inner.len() > 0);
    assert(inner.last() == 's');
    assert(full == inner + seq!['/'] + "astropress"@);
    assert(ends_with(inner, "packages"@)) by {
        if repo_root.len() == 0 {
            assert(inner.subrange(0, inner.len() as int) =~= "packages"@);
        } else if repo_root.last() == '/' {
            assert(inner.subrange(inner.len() - 8, inner.len() as int) =~= "packages"@);
        } else {
            assert(inner.subrange(inner.len() - 8, inner.len() as int) =~= "packages"@);
        }
    }
    assert(s.subrange(0, 5) =~= "file:"@);
    assert(s.subrange(s.len() - 19, s.len() as int) =~= "packages/astropress"@) by {
        assert(inner.subrange(inner.len() - 8, inner.len() as int) =~= "packages"@);
        assert forall|i: int| 0 <= i < 19 implies s.subrange(s.len() - 19, s.len() as int)[i]
            == "packages/astropress"@[i] by {
            if i < 8 {
                assert(s[s.len() - 19 + i] == inner[inner.len() - 8 + i]);
            }
        }
    }
}

/// The pinned specifier is never the in-repository `workspace:` form, which
/// only resolves inside the monorepo.
pub proof fn lemma_pinned_specifier_is_resolvable(
    use_local_package: bool,
    version: Seq<char>,
    repo_root: Seq<char>,
)
    ensures
        !starts_with(pinned_specifier(use_local_package, version, repo_root), "workspace:"@),
        use_local_package ==> starts_with(
            pinned_specifier(use_local_package, version, repo_root),
            "file:"@,
        ),
        !use_local_package ==> starts_with(
            pinned_specifier(use_local_package, version, repo_root),
            "^"@,
        ),
{
    reveal_strlit("workspace:");
    reveal_strlit("file:");
    reveal_strlit("^");
    let s = pinned_specifier(use_local_package, version, repo_root);
    if use_local_package {
        lemma_local_specifier_names_package_dir(repo_root);
        assert(s[0] == 'f');
    } else {
        assert(s[0] == '^');
        assert(s.subrange(0, 1) =~= "^"@);
    }
    if starts_with(s, "workspace:"@) {
        assert(s.subrange(0, 10)[0] == 'w');
    }
}

/// Pinning adds no bare `astropress` dependency: it holds the alias
/// afterwards exactly when it held it before.
pub proof fn lemma_pin_never_adds_bare_alias(deps: Map<Seq<char>, Seq<char>>, specifier: Seq<char>)
    ensures
        deps.insert(scoped_package(), specifier).contains_key(bare_alias()) == deps.contains_key(
            bare_alias(),
        ),
{
    reveal_strlit("astropress");
    reveal_strlit("@astropress-diy/astropress");
    assert(scoped_package().len() != bare_alias().len());
}

} // verus!
