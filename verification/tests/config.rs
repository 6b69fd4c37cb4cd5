use codeguard::config::Config;

#[test]
fn default_config_has_the_builtin_python_invocations() {
    let config = Config::default();
    assert_eq!(config.tools.pytest.command, "pytest");
    assert_eq!(config.tools.pytest.args, vec!["-v"]);
    assert_eq!(config.tools.flake8.command, "flake8");
    assert!(config.tools.flake8.args.is_empty());
    assert_eq!(config.tools.pylint.command, "pylint");
    assert!(config.tools.pylint.args.is_empty());
    assert_eq!(config.tools.mypy.command, "mypy");
    assert!(config.tools.mypy.args.is_empty());
}

#[test]
fn default_config_display_settings_and_ignores() {
    let config = Config::default();
    assert_eq!(config.ui.theme, "dark");
    assert_eq!(config.ui.max_results, 1000);
    assert!(!config.ui.auto_run_on_start);
    assert_eq!(
        config.ignore_patterns,
        vec!["*.pyc", "__pycache__", ".git", "venv", "node_modules"]
    );
}
