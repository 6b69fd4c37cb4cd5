//! The configuration of a session: overrides for the commands of the built-in
//! Python tools, display settings, and patterns to ignore. How it is stored is
//! the caller's concern.

use crate::tools::base::texts;
use vstd::prelude::*;

verus! {

/// The whole configuration.
#[derive(Debug)]
pub struct Config {
    pub tools: ToolsConfig,
    pub ui: UiConfig,
    pub ignore_patterns: Vec<String>,
}

/// How to invoke each of the built-in Python tools.
#[derive(Debug)]
pub struct ToolsConfig {
    pub pytest: ToolConfig,
    pub flake8: ToolConfig,
    pub pylint: ToolConfig,
    pub mypy: ToolConfig,
}

/// How to invoke one tool.
#[derive(Debug)]
pub struct ToolConfig {
    pub command: String,
    pub args: Vec<String>,
}

/// Display settings.
#[derive(Debug)]
pub struct UiConfig {
    pub theme: String,
    pub max_results: usize,
    pub auto_run_on_start: bool,
}

/// The mathematical value of a [`ToolConfig`].
pub ghost struct ToolConfigView {
    pub command: Seq<char>,
    pub args: Seq<Seq<char>>,
}

/// The mathematical value of a [`ToolsConfig`].
pub ghost struct ToolsConfigView {
    pub pytest: ToolConfigView,
    pub flake8: ToolConfigView,
    pub pylint: ToolConfigView,
    pub mypy: ToolConfigView,
}

/// The mathematical value of a [`UiConfig`].
pub ghost struct UiConfigView {
    pub theme: Seq<char>,
    pub max_results: usize,
    pub auto_run_on_start: bool,
}

/// The mathematical value of a [`Config`].
pub ghost struct ConfigView {
    pub tools: ToolsConfigView,
    pub ui: UiConfigView,
    pub ignore_patterns: Seq<Seq<char>>,
}

impl View for ToolConfig {
    type V = ToolConfigView;

    open spec fn view(&self) -> ToolConfigView {
        ToolConfigView { command: self.command@, args: texts(self.args@) }
    }
}

impl View for ToolsConfig {
    type V = ToolsConfigView;

    open spec fn view(&self) -> ToolsConfigView {
        ToolsConfigView {
            pytest: self.pytest@,
            flake8: self.flake8@,
            pylint: self.pylint@,
            mypy: self.mypy@,
        }
    }
}

impl View for UiConfig {
    type V = UiConfigView;

    open spec fn view(&self) -> UiConfigView {
        UiConfigView {
            theme: self.theme@,
            max_results: self.max_results,
            auto_run_on_start: self.auto_run_on_start,
        }
    }
}

impl View for Config {
    type V = ConfigView;

    open spec fn view(&self) -> ConfigView {
        ConfigView {
            tools: self.tools@,
            ui: self.ui@,
            ignore_patterns: texts(self.ignore_patterns@),
        }
    }
}

/// The built-in invocations of the Python tools: pytest run verbosely, the
/// others without arguments.
pub open spec fn default_tools() -> ToolsConfigView {
    ToolsConfigView {
        pytest: ToolConfigView { command: "pytest"@, args: seq!["-v"@] },
        flake8: ToolConfigView { command: "flake8"@, args: Seq::empty() },
        pylint: ToolConfigView { command: "pylint"@, args: Seq::empty() },
        mypy: ToolConfigView { command: "mypy"@, args: Seq::empty() },
    }
}

/// The configuration of a session that was never configured.
pub open spec fn default_config() -> ConfigView {
    ConfigView {
        tools: default_tools(),
        ui: UiConfigView { theme: "dark"@, max_results: 1000, auto_run_on_start: false },
        ignore_patterns: seq!["*.pyc"@, "__pycache__"@, ".git"@, "venv"@, "node_modules"@],
    }
}

impl Default for Config {
    fn default() -> (config: Self)
        ensures
            config@ == default_config(),
    {
        let config = Config {
            tools: ToolsConfig {
                pytest: ToolConfig { command: "pytest".to_string(), args: vec!["-v".to_string()] },
                flake8: ToolConfig { command: "flake8".to_string(), args: vec![] },
                pylint: ToolConfig { command: "pylint".to_string(), args: vec![] },
                mypy: ToolConfig { command: "mypy".to_string(), args: vec![] },
            },
            ui: UiConfig {
                theme: "dark".to_string(),
                max_results: 1000,
                auto_run_on_start: false,
            },
            ignore_patterns: vec![
                "*.pyc".to_string(),
                "__pycache__".to_string(),
                ".git".to_string(),
                "venv".to_string(),
                "node_modules".to_string(),
            ],
        };
        assert(config@.tools.pytest.args =~= default_tools().pytest.args);
        assert(config@.tools.flake8.args =~= default_tools().flake8.args);
        assert(config@.tools.pylint.args =~= default_tools().pylint.args);
        assert(config@.tools.mypy.args =~= default_tools().mypy.args);
        assert(config@.ignore_patterns =~= default_config().ignore_patterns);
        config
    }
}

} // verus!
