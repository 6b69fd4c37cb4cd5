//! Detection of PHP tools.

use super::base::{offered, tool_views, Tool, ToolView};
use super::directory::Directory;
use vstd::prelude::*;

verus! {

/// The PHPUnit test runner installed by composer.
pub open spec fn phpunit() -> ToolView {
    ToolView {
        name: "phpunit"@,
        command: "vendor/bin/phpunit"@,
        args: Seq::empty(),
        category: "testing"@,
        description: "Run PHP tests using PHPUnit"@,
    }
}

/// PHP_CodeSniffer installed by composer.
pub open spec fn phpcs() -> ToolView {
    ToolView {
        name: "phpcs"@,
        command: "vendor/bin/phpcs"@,
        args: Seq::empty(),
        category: "linting"@,
        description: "Check PHP code style using PHP_CodeSniffer"@,
    }
}

/// PHPStan installed by composer, asked to analyse.
pub open spec fn phpstan() -> ToolView {
    ToolView {
        name: "phpstan"@,
        command: "vendor/bin/phpstan"@,
        args: seq!["analyse"@],
        category: "static-analysis"@,
        description: "Run static analysis using PHPStan"@,
    }
}

/// PHP CS Fixer installed by composer, asked for a dry run.
pub open spec fn php_cs_fixer() -> ToolView {
    ToolView {
        name: "php-cs-fixer"@,
        command: "vendor/bin/php-cs-fixer"@,
        args: seq!["fix"@, "--dry-run"@],
        category: "formatting"@,
        description: "Check PHP code formatting using PHP CS Fixer"@,
    }
}

/// Composer's validation of its own manifest.
pub open spec fn composer_validate() -> ToolView {
    ToolView {
        name: "composer-validate"@,
        command: "composer"@,
        args: seq!["validate"@],
        category: "dependency"@,
        description: "Validate composer.json file"@,
    }
}

/// The PHP tools that apply to a directory: none without `composer.json`;
/// with it, each vendored tool whose executable exists under `vendor/bin`,
/// then composer's validation, which always applies.
pub open spec fn php_tools(directory: Set<Seq<char>>) -> Seq<ToolView> {
    if !directory.contains("composer.json"@) {
        Seq::empty()
    } else {
        offered(directory.contains("vendor/bin/phpunit"@), phpunit())
            + offered(directory.contains("vendor/bin/phpcs"@), phpcs())
            + offered(directory.contains("vendor/bin/phpstan"@), phpstan())
            + offered(directory.contains("vendor/bin/php-cs-fixer"@), php_cs_fixer())
            + seq![composer_validate()]
    }
}

/// Detect PHP-specific tools in the given directory.
pub fn detect_php_tools(directory: &Directory) -> (tools: Vec<Tool>)
    ensures
        tool_views(tools@) == php_tools(directory@),
{
    let mut tools: Vec<Tool> = Vec::new();
    let ghost dir = directory@;

    if !directory.contains("composer.json") {
        assert(tool_views(tools@) =~= php_tools(dir));
        return tools;
    }
    if directory.contains("vendor/bin/phpunit") {
        let tool = Tool {
            name: "phpunit".to_string(),
            command: "vendor/bin/phpunit".to_string(),
            args: vec![],
            category: "testing".to_string(),
            description: "Run PHP tests using PHPUnit".to_string(),
        };
        assert(tool@.args =~= phpunit().args);
        tools.push(tool);
    }
    let ghost after_phpunit = offered(dir.contains("vendor/bin/phpunit"@), phpunit());
    assert(tool_views(tools@) =~= after_phpunit);

    if directory.contains("vendor/bin/phpcs") {
        let tool = Tool {
            name: "phpcs".to_string(),
            command: "vendor/bin/phpcs".to_string(),
            args: vec![],
            category: "linting".to_string(),
            description: "Check PHP code style using PHP_CodeSniffer".to_string(),
        };
        assert(tool@.args =~= phpcs().args);
        tools.push(tool);
    }
    let ghost after_phpcs = after_phpunit + offered(dir.contains("vendor/bin/phpcs"@), phpcs());
    assert(tool_views(tools@) =~= after_phpcs);

    if directory.contains("vendor/bin/phpstan") {
        let tool = Tool {
            name: "phpstan".to_string(),
            command: "vendor/bin/phpstan".to_string(),
            args: vec!["analyse".to_string()],
            category: "static-analysis".to_string(),
            description: "Run static analysis using PHPStan".to_string(),
        };
        assert(tool@.args =~= phpstan().args);
        tools.push(tool);
    }
    let ghost after_phpstan = after_phpcs + offered(
        dir.contains("vendor/bin/phpstan"@),
        phpstan(),
    );
    assert(tool_views(tools@) =~= after_phpstan);

    if directory.contains("vendor/bin/php-cs-fixer") {
        let tool = Tool {
            name: "php-cs-fixer".to_string(),
            command: "vendor/bin/php-cs-fixer".to_string(),
            args: vec!["fix".to_string(), "--dry-run".to_string()],
            category: "formatting".to_string(),
            description: "Check PHP code formatting using PHP CS Fixer".to_string(),
        };
        assert(tool@.args =~= php_cs_fixer().args);
        tools.push(tool);
    }
    let ghost after_fixer = after_phpstan + offered(
        dir.contains("vendor/bin/php-cs-fixer"@),
        php_cs_fixer(),
    );
    assert(tool_views(tools@) =~= after_fixer);

    let tool = Tool {
        name: "composer-validate".to_string(),
        command: "composer".to_string(),
        args: vec!["validate".to_string()],
        category: "dependency".to_string(),
        description: "Validate composer.json file".to_string(),
    };
    assert(tool@.args =~= composer_validate().args);
    tools.push(tool);
    assert(tool_views(tools@) =~= after_fixer + seq![composer_validate()]);

    tools
}

} // verus!
