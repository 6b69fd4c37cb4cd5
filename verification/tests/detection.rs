use codeguard::config::{Config, ToolConfig};
use codeguard::tools::directory::marker_paths;
use codeguard::tools::js_tools::{detect_js_tools, PackageManager};
use codeguard::tools::php_tools::detect_php_tools;
use codeguard::tools::python_tools::{detect_python_tools, detect_python_tools_with};
use codeguard::tools::rust_tools::detect_rust_tools;
use codeguard::tools::{detect_tools, detect_tools_with, Directory, Tool};

fn dir(paths: &[&str]) -> Directory {
    Directory::new(paths.iter().map(|p| p.to_string()).collect())
}

fn tool(name: &str, command: &str, args: &[&str], category: &str, description: &str) -> Tool {
    Tool {
        name: name.to_string(),
        command: command.to_string(),
        args: args.iter().map(|a| a.to_string()).collect(),
        category: category.to_string(),
        description: description.to_string(),
    }
}

fn names(tools: &[Tool]) -> Vec<String> {
    tools.iter().map(|t| t.name.clone()).collect()
}

fn cargo_tools() -> Vec<Tool> {
    vec![
        tool("cargo-test", "cargo", &["test"], "testing", "Run Rust tests using cargo test"),
        tool("cargo-clippy", "cargo", &["clippy"], "linting", "Run Rust linter using clippy"),
        tool("cargo-fmt", "cargo", &["fmt", "--check"], "formatting", "Check Rust code formatting"),
        tool(
            "cargo-audit",
            "cargo",
            &["audit"],
            "security",
            "Check for security vulnerabilities in dependencies",
        ),
    ]
}

#[test]
fn directory_without_markers_yields_no_tools() {
    assert_eq!(detect_tools(&dir(&[])), Vec::<Tool>::new());
    assert_eq!(detect_tools(&dir(&["README.md", "src", "Makefile"])), Vec::<Tool>::new());
}

#[test]
fn directory_contains_only_what_was_recorded() {
    let d = dir(&["Cargo.toml", "tests"]);
    assert!(d.contains("Cargo.toml"));
    assert!(d.contains("tests"));
    assert!(!d.contains("cargo.toml"));
    assert!(!d.contains("Cargo.tom"));
    assert!(!d.contains(""));
    assert!(!dir(&[]).contains("Cargo.toml"));
}

#[test]
fn marker_paths_lists_every_marker_once() {
    let paths = marker_paths();
    assert_eq!(
        paths,
        vec![
            "pytest.ini",
            "tests",
            ".flake8",
            ".pylintrc",
            "mypy.ini",
            "pyproject.toml",
            "package.json",
            "package-lock.json",
            "yarn.lock",
            "pnpm-lock.yaml",
            ".eslintrc",
            ".eslintrc.js",
            "jest.config.js",
            "tsconfig.json",
            ".prettierrc",
            ".prettierrc.js",
            "Cargo.toml",
            "composer.json",
            "vendor/bin/phpunit",
            "vendor/bin/phpcs",
            "vendor/bin/phpstan",
            "vendor/bin/php-cs-fixer",
        ]
    );
}

#[test]
fn every_marker_present_yields_every_tool() {
    let all = Directory::new(marker_paths());
    assert_eq!(
        names(&detect_tools(&all)),
        vec![
            "pytest",
            "flake8",
            "pylint",
            "mypy",
            "black",
            "ESLint",
            "Jest",
            "TypeScript",
            "Prettier",
            "npm-audit",
            "npm-outdated",
            "cargo-test",
            "cargo-clippy",
            "cargo-fmt",
            "cargo-audit",
            "phpunit",
            "phpcs",
            "phpstan",
            "php-cs-fixer",
            "composer-validate",
        ]
    );
}

#[test]
fn cargo_manifest_alone_yields_the_four_rust_tools() {
    let d = dir(&["Cargo.toml"]);
    assert_eq!(detect_tools(&d), cargo_tools());
    assert_eq!(detect_rust_tools(&d), cargo_tools());
    for t in detect_tools(&d) {
        assert_eq!(t.command, "cargo");
    }
}

#[test]
fn no_cargo_manifest_no_rust_tools() {
    assert!(detect_rust_tools(&dir(&["Cargo.lock", "src"])).is_empty());
}

#[test]
fn yarn_project_yields_audit_and_outdated_without_run() {
    let tools = detect_tools(&dir(&["package.json", "yarn.lock"]));
    assert_eq!(
        tools,
        vec![
            tool(
                "yarn-audit",
                "yarn",
                &["audit"],
                "security",
                "Check for security vulnerabilities in dependencies",
            ),
            tool(
                "yarn-outdated",
                "yarn",
                &["outdated"],
                "dependency",
                "Check for outdated dependencies",
            ),
        ]
    );
    for t in &tools {
        assert!(!t.args.contains(&"run".to_string()));
    }
}

#[test]
fn npm_project_with_tsconfig_yields_three_tools() {
    let tools = detect_tools(&dir(&["package.json", "package-lock.json", "tsconfig.json"]));
    assert_eq!(
        tools,
        vec![
            tool("TypeScript", "npm", &["run", "tsc"], "type-checking", "Check TypeScript types"),
            tool(
                "npm-audit",
                "npm",
                &["audit"],
                "security",
                "Check for security vulnerabilities in dependencies",
            ),
            tool(
                "npm-outdated",
                "npm",
                &["outdated"],
                "dependency",
                "Check for outdated dependencies",
            ),
        ]
    );
}

#[test]
fn package_json_without_lockfile_yields_no_js_tools() {
    assert!(detect_js_tools(&dir(&["package.json"])).is_empty());
    assert!(detect_tools(&dir(&["package.json"])).is_empty());
    let configured = dir(&[
        "package.json",
        ".eslintrc",
        "jest.config.js",
        "tsconfig.json",
        ".prettierrc",
    ]);
    assert!(detect_js_tools(&configured).is_empty());
}

#[test]
fn lockfile_without_package_json_yields_no_js_tools() {
    let d = dir(&["package-lock.json", "yarn.lock", "pnpm-lock.yaml", "tsconfig.json"]);
    assert!(detect_js_tools(&d).is_empty());
}

#[test]
fn lockfile_precedence_is_npm_then_yarn_then_pnpm() {
    assert_eq!(
        PackageManager::detect(&dir(&["pnpm-lock.yaml", "yarn.lock", "package-lock.json"])),
        Some(PackageManager::Npm)
    );
    assert_eq!(
        PackageManager::detect(&dir(&["pnpm-lock.yaml", "yarn.lock"])),
        Some(PackageManager::Yarn)
    );
    assert_eq!(PackageManager::detect(&dir(&["pnpm-lock.yaml"])), Some(PackageManager::Pnpm));
    assert_eq!(PackageManager::detect(&dir(&["package.json"])), None);
}

#[test]
fn package_manager_commands_and_run_verbs() {
    assert_eq!(PackageManager::Npm.get_command(), "npm");
    assert_eq!(PackageManager::Yarn.get_command(), "yarn");
    assert_eq!(PackageManager::Pnpm.get_command(), "pnpm");
    assert_eq!(PackageManager::Npm.get_args(), vec!["run"]);
    assert_eq!(PackageManager::Yarn.get_args(), Vec::<String>::new());
    assert_eq!(PackageManager::Pnpm.get_args(), vec!["run"]);
}

#[test]
fn pnpm_project_with_every_script_tool() {
    let d = dir(&[
        "package.json",
        "pnpm-lock.yaml",
        ".eslintrc.js",
        "jest.config.js",
        "tsconfig.json",
        ".prettierrc.js",
    ]);
    assert_eq!(
        detect_js_tools(&d),
        vec![
            tool(
                "ESLint",
                "pnpm",
                &["run", "lint"],
                "linting",
                "Check JavaScript code style using ESLint",
            ),
            tool("Jest", "pnpm", &["run", "test"], "testing", "Run JavaScript tests using Jest"),
            tool("TypeScript", "pnpm", &["run", "tsc"], "type-checking", "Check TypeScript types"),
            tool(
                "Prettier",
                "pnpm",
                &["run", "format"],
                "formatting",
                "Format code using Prettier",
            ),
            tool(
                "pnpm-audit",
                "pnpm",
                &["audit"],
                "security",
                "Check for security vulnerabilities in dependencies",
            ),
            tool(
                "pnpm-outdated",
                "pnpm",
                &["outdated"],
                "dependency",
                "Check for outdated dependencies",
            ),
        ]
    );
}

#[test]
fn yarn_script_tools_take_the_script_name_alone() {
    let d = dir(&["package.json", "yarn.lock", ".eslintrc", ".prettierrc", "jest.config.js"]);
    let tools = detect_js_tools(&d);
    assert_eq!(names(&tools), vec!["ESLint", "Jest", "Prettier", "yarn-audit", "yarn-outdated"]);
    assert_eq!(tools[0].args, vec!["lint"]);
    assert_eq!(tools[1].args, vec!["test"]);
    assert_eq!(tools[2].args, vec!["format"]);
    assert_eq!(tools[0].command, "yarn");
}

#[test]
fn python_tools_fire_independently() {
    assert_eq!(
        detect_python_tools(&dir(&["pytest.ini"])),
        vec![tool("pytest", "pytest", &["-v"], "testing", "Run Python tests using pytest")]
    );
    assert_eq!(names(&detect_python_tools(&dir(&["tests"]))), vec!["pytest"]);
    assert_eq!(names(&detect_python_tools(&dir(&["tests", "pytest.ini"]))), vec!["pytest"]);
    assert_eq!(
        detect_python_tools(&dir(&[".flake8"])),
        vec![tool("flake8", "flake8", &[], "linting", "Check Python code style with flake8")]
    );
    assert_eq!(
        detect_python_tools(&dir(&[".pylintrc"])),
        vec![tool("pylint", "pylint", &[], "linting", "Analyze Python code with pylint")]
    );
    assert_eq!(
        detect_python_tools(&dir(&["mypy.ini"])),
        vec![tool("mypy", "mypy", &[], "type-checking", "Check Python types with mypy")]
    );
    assert_eq!(
        detect_python_tools(&dir(&["pyproject.toml"])),
        vec![tool(
            "black",
            "black",
            &["--check"],
            "formatting",
            "Check Python code formatting with black",
        )]
    );
    assert!(detect_python_tools(&dir(&["requirements.txt", "setup.py"])).is_empty());
}

#[test]
fn python_tools_come_in_rule_order() {
    let d = dir(&["pyproject.toml", "mypy.ini", ".pylintrc", ".flake8", "tests"]);
    assert_eq!(
        names(&detect_python_tools(&d)),
        vec!["pytest", "flake8", "pylint", "mypy", "black"]
    );
}

#[test]
fn php_tools_need_the_composer_manifest() {
    let vendored = dir(&[
        "vendor/bin/phpunit",
        "vendor/bin/phpcs",
        "vendor/bin/phpstan",
        "vendor/bin/php-cs-fixer",
    ]);
    assert!(detect_php_tools(&vendored).is_empty());
    assert_eq!(
        detect_php_tools(&dir(&["composer.json"])),
        vec![tool(
            "composer-validate",
            "composer",
            &["validate"],
            "dependency",
            "Validate composer.json file",
        )]
    );
}

#[test]
fn php_project_with_every_vendored_tool() {
    let d = dir(&[
        "composer.json",
        "vendor/bin/phpunit",
        "vendor/bin/phpcs",
        "vendor/bin/phpstan",
        "vendor/bin/php-cs-fixer",
    ]);
    assert_eq!(
        detect_php_tools(&d),
        vec![
            tool("phpunit", "vendor/bin/phpunit", &[], "testing", "Run PHP tests using PHPUnit"),
            tool(
                "phpcs",
                "vendor/bin/phpcs",
                &[],
                "linting",
                "Check PHP code style using PHP_CodeSniffer",
            ),
            tool(
                "phpstan",
                "vendor/bin/phpstan",
                &["analyse"],
                "static-analysis",
                "Run static analysis using PHPStan",
            ),
            tool(
                "php-cs-fixer",
                "vendor/bin/php-cs-fixer",
                &["fix", "--dry-run"],
                "formatting",
                "Check PHP code formatting using PHP CS Fixer",
            ),
            tool(
                "composer-validate",
                "composer",
                &["validate"],
                "dependency",
                "Validate composer.json file",
            ),
        ]
    );
    assert_eq!(
        names(&detect_php_tools(&dir(&["composer.json", "vendor/bin/phpstan"]))),
        vec!["phpstan", "composer-validate"]
    );
}

#[test]
fn ecosystems_come_in_registration_order() {
    let d = dir(&["composer.json", "Cargo.toml", "yarn.lock", "package.json", ".flake8"]);
    assert_eq!(
        names(&detect_tools(&d)),
        vec![
            "flake8",
            "yarn-audit",
            "yarn-outdated",
            "cargo-test",
            "cargo-clippy",
            "cargo-fmt",
            "cargo-audit",
            "composer-validate",
        ]
    );
}

#[test]
fn aggregate_is_the_concatenation_of_the_detectors() {
    let d = dir(&["tests", "package.json", "package-lock.json", "Cargo.toml", "composer.json"]);
    let mut expected = detect_python_tools(&d);
    expected.extend(detect_js_tools(&d));
    expected.extend(detect_rust_tools(&d));
    expected.extend(detect_php_tools(&d));
    assert_eq!(detect_tools(&d), expected);
}

#[test]
fn repeated_entries_do_not_repeat_tools() {
    let d = dir(&["Cargo.toml", "Cargo.toml"]);
    assert_eq!(detect_tools(&d), cargo_tools());
}

#[test]
fn default_overrides_detect_the_builtin_tools() {
    let config = Config::default();
    for paths in [
        vec![],
        vec!["tests"],
        vec!["pytest.ini", ".flake8", ".pylintrc", "mypy.ini", "pyproject.toml"],
        vec!["mypy.ini", "Cargo.toml", "package.json", "yarn.lock"],
    ] {
        let d = dir(&paths);
        assert_eq!(detect_python_tools_with(&d, &config.tools), detect_python_tools(&d));
        assert_eq!(detect_tools_with(&d, &config.tools), detect_tools(&d));
    }
}

#[test]
fn overrides_replace_command_and_arguments_only() {
    let mut config = Config::default();
    config.tools.pytest = ToolConfig {
        command: "python3".to_string(),
        args: vec!["-m".to_string(), "pytest".to_string(), "-q".to_string()],
    };
    config.tools.mypy =
        ToolConfig { command: "dmypy".to_string(), args: vec!["check".to_string()] };
    let d = dir(&["tests", "mypy.ini", "pyproject.toml", "Cargo.toml"]);
    let tools = detect_tools_with(&d, &config.tools);
    assert_eq!(
        tools[..3],
        [
            tool(
                "pytest",
                "python3",
                &["-m", "pytest", "-q"],
                "testing",
                "Run Python tests using pytest",
            ),
            tool("mypy", "dmypy", &["check"], "type-checking", "Check Python types with mypy"),
            tool(
                "black",
                "black",
                &["--check"],
                "formatting",
                "Check Python code formatting with black",
            ),
        ]
    );
    assert_eq!(tools[3..], cargo_tools()[..]);
    assert!(detect_python_tools_with(&dir(&[".pylintrc"]), &config.tools)
        .iter()
        .all(|t| t.command == "pylint"));
}
