//! What detection knows of a project directory.
//!
//! Detection decides by the existence of marker files alone. The caller probes
//! the file system for the paths that [`marker_paths`] lists and records those
//! that exist in a [`Directory`]; the detectors then work on that record.

use super::base::texts;
use vstd::prelude::*;

verus! {

/// The paths, relative to a project directory, that are known to exist in it.
#[derive(Debug)]
pub struct Directory {
    /// The relative paths that exist, in any order; repeats are harmless.
    pub entries: Vec<String>,
}

impl View for Directory {
    type V = Set<Seq<char>>;

    /// The set of relative paths that exist.
    open spec fn view(&self) -> Set<Seq<char>> {
        Set::new(|path: Seq<char>| texts(self.entries@).contains(path))
    }
}

impl Directory {
    /// A directory in which the given relative paths exist, and no others.
    pub fn new(entries: Vec<String>) -> (directory: Self)
        ensures
            directory.entries == entries,
            forall|path: Seq<char>| directory@.contains(path) <==> texts(entries@).contains(path),
    {
        Directory { entries }
    }

    /// Whether the relative path is among those that exist.
    pub fn contains(&self, path: &str) -> (found: bool)
        ensures
            found == self@.contains(path@),
    {
        let wanted = path.to_string();
        let mut i: usize = 0;
        while i < self.entries.len()
            invariant
                i <= self.entries.len(),
                wanted@ == path@,
                forall|j: int| 0 <= j < i ==> texts(self.entries@)[j] != path@,
            decreases self.entries.len() - i,
        {
            if self.entries[i] == wanted {
                assert(texts(self.entries@)[i as int] == path@);
                return true;
            }
            i += 1;
        }
        false
    }
}

/// The marker paths that the detectors consult, by ecosystem: Python,
/// JavaScript and TypeScript, Rust, PHP.
pub open spec fn markers() -> Seq<Seq<char>> {
    seq![
        "pytest.ini"@,
        "tests"@,
        ".flake8"@,
        ".pylintrc"@,
        "mypy.ini"@,
        "pyproject.toml"@,
        "package.json"@,
        "package-lock.json"@,
        "yarn.lock"@,
        "pnpm-lock.yaml"@,
        ".eslintrc"@,
        ".eslintrc.js"@,
        "jest.config.js"@,
        "tsconfig.json"@,
        ".prettierrc"@,
        ".prettierrc.js"@,
        "Cargo.toml"@,
        "composer.json"@,
        "vendor/bin/phpunit"@,
        "vendor/bin/phpcs"@,
        "vendor/bin/phpstan"@,
        "vendor/bin/php-cs-fixer"@,
    ]
}

/// Whether the directory holds none of the marker paths.
pub open spec fn lacks_every_marker(directory: Set<Seq<char>>) -> bool {
    forall|i: int| 0 <= i < markers().len() ==> !directory.contains(#[trigger] markers()[i])
}

/// Every relative path whose existence detection depends on. A caller that
/// probes exactly these has gathered all that the detectors read.
pub fn marker_paths() -> (paths: Vec<String>)
    ensures
        texts(paths@) == markers(),
{
    let paths = vec![
        "pytest.ini".to_string(),
        "tests".to_string(),
        ".flake8".to_string(),
        ".pylintrc".to_string(),
        "mypy.ini".to_string(),
        "pyproject.toml".to_string(),
        "package.json".to_string(),
        "package-lock.json".to_string(),
        "yarn.lock".to_string(),
        "pnpm-lock.yaml".to_string(),
        ".eslintrc".to_string(),
        ".eslintrc.js".to_string(),
        "jest.config.js".to_string(),
        "tsconfig.json".to_string(),
        ".prettierrc".to_string(),
        ".prettierrc.js".to_string(),
        "Cargo.toml".to_string(),
        "composer.json".to_string(),
        "vendor/bin/phpunit".to_string(),
        "vendor/bin/phpcs".to_string(),
        "vendor/bin/phpstan".to_string(),
        "vendor/bin/php-cs-fixer".to_string(),
    ];
    assert(texts(paths@) =~= markers());
    paths
}

} // verus!
