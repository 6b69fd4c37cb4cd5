//! Tool descriptors and the per-ecosystem detectors that produce them.

pub mod base;
pub mod directory;
pub mod js_tools;
pub mod php_tools;
pub mod python_tools;
pub mod rust_tools;

pub use base::Tool;
pub use directory::Directory;
use base::{tool_views, ToolView};
use crate::config::{default_tools, ToolsConfig, ToolsConfigView};
use directory::lacks_every_marker;
use vstd::prelude::*;

verus! {

/// Every tool that applies to a directory: what each ecosystem's detector
/// finds, one ecosystem after the other in the order Python, JavaScript, Rust,
/// PHP. Nothing is merged: tools of two ecosystems that share a name both stay.
pub open spec fn all_tools(directory: Set<Seq<char>>) -> Seq<ToolView> {
    python_tools::python_tools(directory) + js_tools::js_tools(directory) + rust_tools::rust_tools(
        directory,
    ) + php_tools::php_tools(directory)
}

/// Detect every tool that applies to the given directory.
pub fn detect_tools(directory: &Directory) -> (tools: Vec<Tool>)
    ensures
        tool_views(tools@) == all_tools(directory@),
{
    let mut tools: Vec<Tool> = Vec::new();

    let mut python = python_tools::detect_python_tools(directory);
    tools.append(&mut python);
    assert(tool_views(tools@) =~= python_tools::python_tools(directory@));

    let mut js = js_tools::detect_js_tools(directory);
    let ghost before_js = tools@;
    tools.append(&mut js);
    assert(tool_views(tools@) =~= tool_views(before_js) + js_tools::js_tools(directory@));

    let mut rust = rust_tools::detect_rust_tools(directory);
    let ghost before_rust = tools@;
    tools.append(&mut rust);
    assert(tool_views(tools@) =~= tool_views(before_rust) + rust_tools::rust_tools(directory@));

    let mut php = php_tools::detect_php_tools(directory);
    let ghost before_php = tools@;
    tools.append(&mut php);
    assert(tool_views(tools@) =~= tool_views(before_php) + php_tools::php_tools(directory@));

    tools
}

/// Every tool that applies to a directory when the invocations of the
/// built-in Python tools are overridden. The overrides reach the Python tools
/// only.
pub open spec fn all_tools_with(
    directory: Set<Seq<char>>,
    overrides: ToolsConfigView,
) -> Seq<ToolView> {
    python_tools::python_tools_with(directory, overrides) + js_tools::js_tools(directory)
        + rust_tools::rust_tools(directory) + php_tools::php_tools(directory)
}

/// Detect every tool that applies to the given directory, invoking the
/// built-in Python tools as the overrides say.
pub fn detect_tools_with(directory: &Directory, overrides: &ToolsConfig) -> (tools: Vec<Tool>)
    ensures
        tool_views(tools@) == all_tools_with(directory@, overrides@),
{
    let mut tools: Vec<Tool> = Vec::new();

    let mut python = python_tools::detect_python_tools_with(directory, overrides);
    tools.append(&mut python);
    assert(tool_views(tools@) =~= python_tools::python_tools_with(directory@, overrides@));

    let mut js = js_tools::detect_js_tools(directory);
    let ghost before_js = tools@;
    tools.append(&mut js);
    assert(tool_views(tools@) =~= tool_views(before_js) + js_tools::js_tools(directory@));

    let mut rust = rust_tools::detect_rust_tools(directory);
    let ghost before_rust = tools@;
    tools.append(&mut rust);
    assert(tool_views(tools@) =~= tool_views(before_rust) + rust_tools::rust_tools(directory@));

    let mut php = php_tools::detect_php_tools(directory);
    let ghost before_php = tools@;
    tools.append(&mut php);
    assert(tool_views(tools@) =~= tool_views(before_php) + php_tools::php_tools(directory@));

    tools
}

/// Detection under the built-in invocations is detection without overrides.
pub proof fn lemma_default_overrides_change_nothing(directory: Set<Seq<char>>)
    ensures
        all_tools_with(directory, default_tools()) == all_tools(directory),
{
    python_tools::lemma_default_overrides_are_builtin(directory);
}

/// A directory that holds none of the marker paths yields no tool.
pub proof fn lemma_no_marker_no_tool(directory: Set<Seq<char>>)
    requires
        lacks_every_marker(directory),
    ensures
        all_tools(directory) == Seq::<ToolView>::empty(),
{
    let m = directory::markers();
    assert(m[0] == "pytest.ini"@);
    assert(m[1] == "tests"@);
    assert(m[2] == ".flake8"@);
    assert(m[3] == ".pylintrc"@);
    assert(m[4] == "mypy.ini"@);
    assert(m[5] == "pyproject.toml"@);
    assert(m[6] == "package.json"@);
    assert(m[16] == "Cargo.toml"@);
    assert(m[17] == "composer.json"@);
    assert(all_tools(directory) =~= Seq::<ToolView>::empty());
}

/// A directory whose only ecosystem is Rust yields exactly the four cargo
/// tools, in the order test, clippy, fmt, audit.
pub proof fn lemma_rust_project(directory: Set<Seq<char>>)
    requires
        directory.contains("Cargo.toml"@),
        python_tools::lacks_python_markers(directory),
        !directory.contains("package.json"@),
        !directory.contains("composer.json"@),
    ensures
        all_tools(directory) == seq![
            rust_tools::cargo_test(),
            rust_tools::cargo_clippy(),
            rust_tools::cargo_fmt(),
            rust_tools::cargo_audit(),
        ],
        forall|i: int|
            0 <= i < all_tools(directory).len() ==> (#[trigger] all_tools(directory)[i]).command
                == "cargo"@,
{
    assert(all_tools(directory) =~= rust_tools::rust_tools(directory));
}

/// A yarn project without configured script tools, and without another
/// ecosystem, yields exactly yarn's audit and its report of outdated
/// dependencies, neither with the verb `run`.
pub proof fn lemma_bare_yarn_project(directory: Set<Seq<char>>)
    requires
        directory.contains("package.json"@),
        directory.contains("yarn.lock"@),
        !directory.contains("package-lock.json"@),
        js_tools::lacks_script_markers(directory),
        python_tools::lacks_python_markers(directory),
        !directory.contains("Cargo.toml"@),
        !directory.contains("composer.json"@),
    ensures
        all_tools(directory) == seq![
            js_tools::audit(js_tools::PackageManager::Yarn),
            js_tools::outdated(js_tools::PackageManager::Yarn),
        ],
        all_tools(directory)[0].args == seq!["audit"@],
        all_tools(directory)[1].args == seq!["outdated"@],
{
    assert(all_tools(directory) =~= js_tools::js_tools(directory));
    assert(js_tools::js_tools(directory) =~= seq![
        js_tools::audit(js_tools::PackageManager::Yarn),
        js_tools::outdated(js_tools::PackageManager::Yarn),
    ]);
}

/// An npm project whose only configured script tool is the TypeScript
/// compiler, and without another ecosystem, yields exactly three tools: the
/// compiler's check as `npm run tsc`, then npm's audit and its report of
/// outdated dependencies.
pub proof fn lemma_npm_typescript_project(directory: Set<Seq<char>>)
    requires
        directory.contains("package.json"@),
        directory.contains("package-lock.json"@),
        directory.contains("tsconfig.json"@),
        !directory.contains(".eslintrc"@),
        !directory.contains(".eslintrc.js"@),
        !directory.contains("jest.config.js"@),
        !directory.contains(".prettierrc"@),
        !directory.contains(".prettierrc.js"@),
        python_tools::lacks_python_markers(directory),
        !directory.contains("Cargo.toml"@),
        !directory.contains("composer.json"@),
    ensures
        all_tools(directory) == seq![
            js_tools::typescript(js_tools::PackageManager::Npm),
            js_tools::audit(js_tools::PackageManager::Npm),
            js_tools::outdated(js_tools::PackageManager::Npm),
        ],
        all_tools(directory)[0].command == "npm"@,
        all_tools(directory)[0].args == seq!["run"@, "tsc"@],
{
    assert(all_tools(directory) =~= js_tools::js_tools(directory));
    assert(js_tools::js_tools(directory) =~= seq![
        js_tools::typescript(js_tools::PackageManager::Npm),
        js_tools::audit(js_tools::PackageManager::Npm),
        js_tools::outdated(js_tools::PackageManager::Npm),
    ]);
    assert(seq!["run"@].push("tsc"@) =~= seq!["run"@, "tsc"@]);
}

} // verus!
