//! Detection of Rust tools.

use super::base::{tool_views, Tool, ToolView};
use super::directory::Directory;
use vstd::prelude::*;

verus! {

/// The project's tests, run by cargo.
pub open spec fn cargo_test() -> ToolView {
    ToolView {
        name: "cargo-test"@,
        command: "cargo"@,
        args: seq!["test"@],
        category: "testing"@,
        description: "Run Rust tests using cargo test"@,
    }
}

/// The clippy linter.
pub open spec fn cargo_clippy() -> ToolView {
    ToolView {
        name: "cargo-clippy"@,
        command: "cargo"@,
        args: seq!["clippy"@],
        category: "linting"@,
        description: "Run Rust linter using clippy"@,
    }
}

/// The formatter, in checking mode.
pub open spec fn cargo_fmt() -> ToolView {
    ToolView {
        name: "cargo-fmt"@,
        command: "cargo"@,
        args: seq!["fmt"@, "--check"@],
        category: "formatting"@,
        description: "Check Rust code formatting"@,
    }
}

/// The audit of the dependencies.
pub open spec fn cargo_audit() -> ToolView {
    ToolView {
        name: "cargo-audit"@,
        command: "cargo"@,
        args: seq!["audit"@],
        category: "security"@,
        description: "Check for security vulnerabilities in dependencies"@,
    }
}

/// The Rust tools that apply to a directory: all four where `Cargo.toml`
/// exists, none where it does not.
pub open spec fn rust_tools(directory: Set<Seq<char>>) -> Seq<ToolView> {
    if directory.contains("Cargo.toml"@) {
        seq![cargo_test(), cargo_clippy(), cargo_fmt(), cargo_audit()]
    } else {
        Seq::empty()
    }
}

/// Detect Rust-specific tools in the given directory.
pub fn detect_rust_tools(directory: &Directory) -> (tools: Vec<Tool>)
    ensures
        tool_views(tools@) == rust_tools(directory@),
{
    let mut tools: Vec<Tool> = Vec::new();

    if !directory.contains("Cargo.toml") {
        assert(tool_views(tools@) =~= rust_tools(directory@));
        return tools;
    }
    let test = Tool {
        name: "cargo-test".to_string(),
        command: "cargo".to_string(),
        args: vec!["test".to_string()],
        category: "testing".to_string(),
        description: "Run Rust tests using cargo test".to_string(),
    };
    assert(test@.args =~= cargo_test().args);
    tools.push(test);

    let clippy = Tool {
        name: "cargo-clippy".to_string(),
        command: "cargo".to_string(),
        args: vec!["clippy".to_string()],
        category: "linting".to_string(),
        description: "Run Rust linter using clippy".to_string(),
    };
    assert(clippy@.args =~= cargo_clippy().args);
    tools.push(clippy);

    let fmt = Tool {
        name: "cargo-fmt".to_string(),
        command: "cargo".to_string(),
        args: vec!["fmt".to_string(), "--check".to_string()],
        category: "formatting".to_string(),
        description: "Check Rust code formatting".to_string(),
    };
    assert(fmt@.args =~= cargo_fmt().args);
    tools.push(fmt);

    let audit = Tool {
        name: "cargo-audit".to_string(),
        command: "cargo".to_string(),
        args: vec!["audit".to_string()],
        category: "security".to_string(),
        description: "Check for security vulnerabilities in dependencies".to_string(),
    };
    assert(audit@.args =~= cargo_audit().args);
    tools.push(audit);

    assert(tool_views(tools@) =~= rust_tools(directory@));
    tools
}

} // verus!
