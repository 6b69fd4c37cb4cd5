//! Detection of Python tools.

use super::base::{offered, texts, tool_views, Tool, ToolView};
use super::directory::Directory;
use crate::config::{default_tools, ToolConfig, ToolConfigView, ToolsConfig, ToolsConfigView};
use vstd::prelude::*;

verus! {

/// The pytest test runner, run verbosely.
pub open spec fn pytest() -> ToolView {
    ToolView {
        name: "pytest"@,
        command: "pytest"@,
        args: seq!["-v"@],
        category: "testing"@,
        description: "Run Python tests using pytest"@,
    }
}

/// The flake8 style checker.
pub open spec fn flake8() -> ToolView {
    ToolView {
        name: "flake8"@,
        command: "flake8"@,
        args: Seq::empty(),
        category: "linting"@,
        description: "Check Python code style with flake8"@,
    }
}

/// The pylint analyser.
pub open spec fn pylint() -> ToolView {
    ToolView {
        name: "pylint"@,
        command: "pylint"@,
        args: Seq::empty(),
        category: "linting"@,
        description: "Analyze Python code with pylint"@,
    }
}

/// The mypy type checker.
pub open spec fn mypy() -> ToolView {
    ToolView {
        name: "mypy"@,
        command: "mypy"@,
        args: Seq::empty(),
        category: "type-checking"@,
        description: "Check Python types with mypy"@,
    }
}

/// The black formatter, in checking mode.
pub open spec fn black() -> ToolView {
    ToolView {
        name: "black"@,
        command: "black"@,
        args: seq!["--check"@],
        category: "formatting"@,
        description: "Check Python code formatting with black"@,
    }
}

/// The Python tools that apply to a directory. Each tool is decided by its own
/// markers, independently of the others: pytest by `pytest.ini` or a `tests`
/// entry, flake8 by `.flake8`, pylint by `.pylintrc`, mypy by `mypy.ini`, black
/// by `pyproject.toml`.
pub open spec fn python_tools(directory: Set<Seq<char>>) -> Seq<ToolView> {
    offered(directory.contains("pytest.ini"@) || directory.contains("tests"@), pytest())
        + offered(directory.contains(".flake8"@), flake8())
        + offered(directory.contains(".pylintrc"@), pylint())
        + offered(directory.contains("mypy.ini"@), mypy())
        + offered(directory.contains("pyproject.toml"@), black())
}

/// Whether the directory holds none of the markers of the Python tools.
pub open spec fn lacks_python_markers(directory: Set<Seq<char>>) -> bool {
    &&& !directory.contains("pytest.ini"@)
    &&& !directory.contains("tests"@)
    &&& !directory.contains(".flake8"@)
    &&& !directory.contains(".pylintrc"@)
    &&& !directory.contains("mypy.ini"@)
    &&& !directory.contains("pyproject.toml"@)
}

/// Detect Python-specific tools in the given directory.
pub fn detect_python_tools(directory: &Directory) -> (tools: Vec<Tool>)
    ensures
        tool_views(tools@) == python_tools(directory@),
{
    let mut tools: Vec<Tool> = Vec::new();
    let ghost dir = directory@;

    if directory.contains("pytest.ini") || directory.contains("tests") {
        let tool = Tool {
            name: "pytest".to_string(),
            command: "pytest".to_string(),
            args: vec!["-v".to_string()],
            category: "testing".to_string(),
            description: "Run Python tests using pytest".to_string(),
        };
        assert(tool@.args =~= pytest().args);
        tools.push(tool);
    }
    let ghost after_pytest = offered(
        dir.contains("pytest.ini"@) || dir.contains("tests"@),
        pytest(),
    );
    assert(tool_views(tools@) =~= after_pytest);

    if directory.contains(".flake8") {
        let tool = Tool {
            name: "flake8".to_string(),
            command: "flake8".to_string(),
            args: vec![],
            category: "linting".to_string(),
            description: "Check Python code style with flake8".to_string(),
        };
        assert(tool@.args =~= flake8().args);
        tools.push(tool);
    }
    let ghost after_flake8 = after_pytest + offered(dir.contains(".flake8"@), flake8());
    assert(tool_views(tools@) =~= after_flake8);

    if directory.contains(".pylintrc") {
        let tool = Tool {
            name: "pylint".to_string(),
            command: "pylint".to_string(),
            args: vec![],
            category: "linting".to_string(),
            description: "Analyze Python code with pylint".to_string(),
        };
        assert(tool@.args =~= pylint().args);
        tools.push(tool);
    }
    let ghost after_pylint = after_flake8 + offered(dir.contains(".pylintrc"@), pylint());
    assert(tool_views(tools@) =~= after_pylint);

    if directory.contains("mypy.ini") {
        let tool = Tool {
            name: "mypy".to_string(),
            command: "mypy".to_string(),
            args: vec![],
            category: "type-checking".to_string(),
            description: "Check Python types with mypy".to_string(),
        };
        assert(tool@.args =~= mypy().args);
        tools.push(tool);
    }
    let ghost after_mypy = after_pylint + offered(dir.contains("mypy.ini"@), mypy());
    assert(tool_views(tools@) =~= after_mypy);

    if directory.contains("pyproject.toml") {
        let tool = Tool {
            name: "black".to_string(),
            command: "black".to_string(),
            args: vec!["--check".to_string()],
            category: "formatting".to_string(),
            description: "Check Python code formatting with black".to_string(),
        };
        assert(tool@.args =~= black().args);
        tools.push(tool);
    }
    assert(tool_views(tools@) =~= after_mypy + offered(dir.contains("pyproject.toml"@), black()));

    tools
}

/// A built-in tool, invoked as the configuration says: the command and the
/// arguments are the configured ones, the rest is the tool's own.
pub open spec fn configured(tool: ToolView, how: ToolConfigView) -> ToolView {
    ToolView { command: how.command, args: how.args, ..tool }
}

/// The Python tools that apply to a directory when the invocations of pytest,
/// flake8, pylint and mypy are overridden. The markers decide as they do
/// without overrides; black has no override.
pub open spec fn python_tools_with(
    directory: Set<Seq<char>>,
    overrides: ToolsConfigView,
) -> Seq<ToolView> {
    offered(
        directory.contains("pytest.ini"@) || directory.contains("tests"@),
        configured(pytest(), overrides.pytest),
    ) + offered(directory.contains(".flake8"@), configured(flake8(), overrides.flake8)) + offered(
        directory.contains(".pylintrc"@),
        configured(pylint(), overrides.pylint),
    ) + offered(directory.contains("mypy.ini"@), configured(mypy(), overrides.mypy)) + offered(
        directory.contains("pyproject.toml"@),
        black(),
    )
}

/// The tool of the given name, category and description, invoked as `how`
/// says.
fn configured_tool(name: &str, how: &ToolConfig, category: &str, description: &str) -> (tool: Tool)
    ensures
        tool@ == (ToolView {
            name: name@,
            command: how@.command,
            args: how@.args,
            category: category@,
            description: description@,
        }),
{
    let args = how.args.clone();
    assert(texts(args@) =~= texts(how.args@));
    Tool {
        name: name.to_string(),
        command: how.command.clone(),
        args,
        category: category.to_string(),
        description: description.to_string(),
    }
}

/// Detect Python-specific tools in the given directory, invoking pytest,
/// flake8, pylint and mypy as the overrides say.
pub fn detect_python_tools_with(directory: &Directory, overrides: &ToolsConfig) -> (tools: Vec<
    Tool,
>)
    ensures
        tool_views(tools@) == python_tools_with(directory@, overrides@),
{
    let mut tools: Vec<Tool> = Vec::new();
    let ghost dir = directory@;
    let ghost how = overrides@;

    if directory.contains("pytest.ini") || directory.contains("tests") {
        tools.push(
            configured_tool(
                "pytest",
                &overrides.pytest,
                "testing",
                "Run Python tests using pytest",
            ),
        );
    }
    let ghost after_pytest = offered(
        dir.contains("pytest.ini"@) || dir.contains("tests"@),
        configured(pytest(), how.pytest),
    );
    assert(tool_views(tools@) =~= after_pytest);

    if directory.contains(".flake8") {
        tools.push(
            configured_tool(
                "flake8",
                &overrides.flake8,
                "linting",
                "Check Python code style with flake8",
            ),
        );
    }
    let ghost after_flake8 = after_pytest + offered(
        dir.contains(".flake8"@),
        configured(flake8(), how.flake8),
    );
    assert(tool_views(tools@) =~= after_flake8);

    if directory.contains(".pylintrc") {
        tools.push(
            configured_tool(
                "pylint",
                &overrides.pylint,
                "linting",
                "Analyze Python code with pylint",
            ),
        );
    }
    let ghost after_pylint = after_flake8 + offered(
        dir.contains(".pylintrc"@),
        configured(pylint(), how.pylint),
    );
    assert(tool_views(tools@) =~= after_pylint);

    if directory.contains("mypy.ini") {
        tools.push(
            configured_tool(
                "mypy",
                &overrides.mypy,
                "type-checking",
                "Check Python types with mypy",
            ),
        );
    }
    let ghost after_mypy = after_pylint + offered(
        dir.contains("mypy.ini"@),
        configured(mypy(), how.mypy),
    );
    assert(tool_views(tools@) =~= after_mypy);

    if directory.contains("pyproject.toml") {
        let tool = Tool {
            name: "black".to_string(),
            command: "black".to_string(),
            args: vec!["--check".to_string()],
            category: "formatting".to_string(),
            description: "Check Python code formatting with black".to_string(),
        };
        assert(tool@.args =~= black().args);
        tools.push(tool);
    }
    assert(tool_views(tools@) =~= after_mypy + offered(dir.contains("pyproject.toml"@), black()));

    tools
}

/// Overriding the Python tools by their built-in invocations changes
/// nothing.
pub proof fn lemma_default_overrides_are_builtin(directory: Set<Seq<char>>)
    ensures
        python_tools_with(directory, default_tools()) == python_tools(directory),
{
    assert(configured(pytest(), default_tools().pytest) == pytest());
    assert(configured(flake8(), default_tools().flake8) == flake8());
    assert(configured(pylint(), default_tools().pylint) == pylint());
    assert(configured(mypy(), default_tools().mypy) == mypy());
}

} // verus!
