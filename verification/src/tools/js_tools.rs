//! Detection of JavaScript and TypeScript tools.

use super::base::{offered, texts, tool_views, Tool, ToolView};
use super::directory::Directory;
use vstd::prelude::*;

verus! {

/// Package manager types for JavaScript projects.
#[derive(Debug, Clone, Copy, PartialEq, Eq, Structural)]
pub enum PackageManager {
    Npm,
    Yarn,
    Pnpm,
}

impl PackageManager {
    /// The package manager that a directory's lockfile names. Where several
    /// lockfiles exist, `package-lock.json` wins over `yarn.lock`, and
    /// `yarn.lock` over `pnpm-lock.yaml`; without a lockfile there is none.
    pub open spec fn detected(directory: Set<Seq<char>>) -> Option<PackageManager> {
        if directory.contains("package-lock.json"@) {
            Some(PackageManager::Npm)
        } else if directory.contains("yarn.lock"@) {
            Some(PackageManager::Yarn)
        } else if directory.contains("pnpm-lock.yaml"@) {
            Some(PackageManager::Pnpm)
        } else {
            None
        }
    }

    /// The executable of the package manager.
    pub open spec fn command(self) -> Seq<char> {
        match self {
            PackageManager::Npm => "npm"@,
            PackageManager::Yarn => "yarn"@,
            PackageManager::Pnpm => "pnpm"@,
        }
    }

    /// The arguments that must precede the name of a package script: npm and
    /// pnpm want the verb `run`, yarn takes the script's name directly.
    pub open spec fn script_prefix(self) -> Seq<Seq<char>> {
        match self {
            PackageManager::Npm => seq!["run"@],
            PackageManager::Yarn => Seq::empty(),
            PackageManager::Pnpm => seq!["run"@],
        }
    }

    /// The display name of the package manager's audit tool.
    pub open spec fn audit_name(self) -> Seq<char> {
        match self {
            PackageManager::Npm => "npm-audit"@,
            PackageManager::Yarn => "yarn-audit"@,
            PackageManager::Pnpm => "pnpm-audit"@,
        }
    }

    /// The display name of the package manager's tool for outdated packages.
    pub open spec fn outdated_name(self) -> Seq<char> {
        match self {
            PackageManager::Npm => "npm-outdated"@,
            PackageManager::Yarn => "yarn-outdated"@,
            PackageManager::Pnpm => "pnpm-outdated"@,
        }
    }

    /// Detect the package manager of a directory by its lockfile.
    pub fn detect(directory: &Directory) -> (manager: Option<Self>)
        ensures
            manager == Self::detected(directory@),
    {
        if directory.contains("package-lock.json") {
            Some(PackageManager::Npm)
        } else if directory.contains("yarn.lock") {
            Some(PackageManager::Yarn)
        } else if directory.contains("pnpm-lock.yaml") {
            Some(PackageManager::Pnpm)
        } else {
            None
        }
    }

    /// The executable of the package manager.
    pub fn get_command(&self) -> (command: String)
        ensures
            command@ == self.command(),
    {
        match self {
            PackageManager::Npm => "npm".to_string(),
            PackageManager::Yarn => "yarn".to_string(),
            PackageManager::Pnpm => "pnpm".to_string(),
        }
    }

    /// The arguments that precede the name of a package script.
    pub fn get_args(&self) -> (args: Vec<String>)
        ensures
            texts(args@) == self.script_prefix(),
    {
        let args = match self {
            PackageManager::Npm => vec!["run".to_string()],
            PackageManager::Yarn => vec![],
            PackageManager::Pnpm => vec!["run".to_string()],
        };
        assert(texts(args@) =~= self.script_prefix());
        args
    }
}

/// A tool that runs the package script `script` through the package manager.
pub open spec fn script_tool(
    manager: PackageManager,
    name: Seq<char>,
    script: Seq<char>,
    category: Seq<char>,
    description: Seq<char>,
) -> ToolView {
    ToolView {
        name,
        command: manager.command(),
        args: manager.script_prefix().push(script),
        category,
        description,
    }
}

/// ESLint, run as the package script `lint`.
pub open spec fn eslint(manager: PackageManager) -> ToolView {
    script_tool(
        manager,
        "ESLint"@,
        "lint"@,
        "linting"@,
        "Check JavaScript code style using ESLint"@,
    )
}

/// Jest, run as the package script `test`.
pub open spec fn jest(manager: PackageManager) -> ToolView {
    script_tool(manager, "Jest"@, "test"@, "testing"@, "Run JavaScript tests using Jest"@)
}

/// The TypeScript compiler's check, run as the package script `tsc`.
pub open spec fn typescript(manager: PackageManager) -> ToolView {
    script_tool(manager, "TypeScript"@, "tsc"@, "type-checking"@, "Check TypeScript types"@)
}

/// Prettier, run as the package script `format`.
pub open spec fn prettier(manager: PackageManager) -> ToolView {
    script_tool(manager, "Prettier"@, "format"@, "formatting"@, "Format code using Prettier"@)
}

/// The package manager's own audit of the dependencies.
pub open spec fn audit(manager: PackageManager) -> ToolView {
    ToolView {
        name: manager.audit_name(),
        command: manager.command(),
        args: seq!["audit"@],
        category: "security"@,
        description: "Check for security vulnerabilities in dependencies"@,
    }
}

/// The package manager's own report of outdated dependencies.
pub open spec fn outdated(manager: PackageManager) -> ToolView {
    ToolView {
        name: manager.outdated_name(),
        command: manager.command(),
        args: seq!["outdated"@],
        category: "dependency"@,
        description: "Check for outdated dependencies"@,
    }
}

/// The tools that apply once the package manager is known: the four script
/// tools, each by its own configuration file, then the audit and the report of
/// outdated dependencies, which always apply.
pub open spec fn managed_js_tools(
    directory: Set<Seq<char>>,
    manager: PackageManager,
) -> Seq<ToolView> {
    offered(directory.contains(".eslintrc"@) || directory.contains(".eslintrc.js"@), eslint(manager))
        + offered(directory.contains("jest.config.js"@), jest(manager))
        + offered(directory.contains("tsconfig.json"@), typescript(manager))
        + offered(
        directory.contains(".prettierrc"@) || directory.contains(".prettierrc.js"@),
        prettier(manager),
    ) + seq![audit(manager), outdated(manager)]
}

/// The JavaScript and TypeScript tools that apply to a directory: none without
/// `package.json`, none without a lockfile that names a package manager.
pub open spec fn js_tools(directory: Set<Seq<char>>) -> Seq<ToolView> {
    if !directory.contains("package.json"@) {
        Seq::empty()
    } else {
        match PackageManager::detected(directory) {
            Some(manager) => managed_js_tools(directory, manager),
            None => Seq::empty(),
        }
    }
}

/// The tool that runs a package script through the package manager whose
/// executable and script prefix are given.
fn script_tool_of(
    manager: PackageManager,
    command: &String,
    prefix: &Vec<String>,
    name: &str,
    script: &str,
    category: &str,
    description: &str,
) -> (tool: Tool)
    requires
        command@ == manager.command(),
        texts(prefix@) == manager.script_prefix(),
    ensures
        tool@ == script_tool(manager, name@, script@, category@, description@),
{
    let mut args = prefix.clone();
    args.push(script.to_string());
    assert(texts(args@) =~= texts(prefix@).push(script@));
    Tool {
        name: name.to_string(),
        command: command.clone(),
        args,
        category: category.to_string(),
        description: description.to_string(),
    }
}

/// The package manager's audit, and its report of outdated dependencies.
fn manager_tools(manager: PackageManager, command: String) -> (tools: (Tool, Tool))
    requires
        command@ == manager.command(),
    ensures
        tools.0@ == audit(manager),
        tools.1@ == outdated(manager),
{
    let (audit_name, outdated_name) = match manager {
        PackageManager::Npm => ("npm-audit".to_string(), "npm-outdated".to_string()),
        PackageManager::Yarn => ("yarn-audit".to_string(), "yarn-outdated".to_string()),
        PackageManager::Pnpm => ("pnpm-audit".to_string(), "pnpm-outdated".to_string()),
    };
    let audit_tool = Tool {
        name: audit_name,
        command: command.clone(),
        args: vec!["audit".to_string()],
        category: "security".to_string(),
        description: "Check for security vulnerabilities in dependencies".to_string(),
    };
    assert(audit_tool@.args =~= audit(manager).args);
    let outdated_tool = Tool {
        name: outdated_name,
        command,
        args: vec!["outdated".to_string()],
        category: "dependency".to_string(),
        description: "Check for outdated dependencies".to_string(),
    };
    assert(outdated_tool@.args =~= outdated(manager).args);
    (audit_tool, outdated_tool)
}

/// A list with one more tool at its end where a rule applies, and the same
/// list where it does not, has the views of the old list followed by what the
/// rule offers.
proof fn lemma_offer(before: Seq<Tool>, after: Seq<Tool>, applies: bool, tool: ToolView)
    requires
        applies ==> after.len() == before.len() + 1 && after.drop_last() == before && after.last()@
            == tool,
        !applies ==> after == before,
    ensures
        tool_views(after) == tool_views(before) + offered(applies, tool),
{
    assert(tool_views(after) =~= tool_views(before) + offered(applies, tool));
}

/// Detect the tools of a project whose package manager is known.
fn detect_managed_tools(directory: &Directory, pm: PackageManager) -> (tools: Vec<Tool>)
    ensures
        tool_views(tools@) == managed_js_tools(directory@, pm),
{
    let mut tools: Vec<Tool> = Vec::new();
    let pm_cmd = pm.get_command();
    let pm_args = pm.get_args();
    assert(tool_views(tools@) =~= Seq::empty());

    // ESLint
    let ghost before = tools@;
    let eslint_applies = directory.contains(".eslintrc") || directory.contains(".eslintrc.js");
    if eslint_applies {
        tools.push(
            script_tool_of(
                pm,
                &pm_cmd,
                &pm_args,
                "ESLint",
                "lint",
                "linting",
                "Check JavaScript code style using ESLint",
            ),
        );
        assert(tools@.drop_last() =~= before);
    }
    proof {
        lemma_offer(before, tools@, eslint_applies, eslint(pm));
    }

    // Jest
    let ghost before = tools@;
    let jest_applies = directory.contains("jest.config.js");
    if jest_applies {
        tools.push(
            script_tool_of(
                pm,
                &pm_cmd,
                &pm_args,
                "Jest",
                "test",
                "testing",
                "Run JavaScript tests using Jest",
            ),
        );
        assert(tools@.drop_last() =~= before);
    }
    proof {
        lemma_offer(before, tools@, jest_applies, jest(pm));
    }

    // TypeScript
    let ghost before = tools@;
    let typescript_applies = directory.contains("tsconfig.json");
    if typescript_applies {
        tools.push(
            script_tool_of(
                pm,
                &pm_cmd,
                &pm_args,
                "TypeScript",
                "tsc",
                "type-checking",
                "Check TypeScript types",
            ),
        );
        assert(tools@.drop_last() =~= before);
    }
    proof {
        lemma_offer(before, tools@, typescript_applies, typescript(pm));
    }

    // Prettier
    let ghost before = tools@;
    let prettier_applies = directory.contains(".prettierrc") || directory.contains(
        ".prettierrc.js",
    );
    if prettier_applies {
        tools.push(
            script_tool_of(
                pm,
                &pm_cmd,
                &pm_args,
                "Prettier",
                "format",
                "formatting",
                "Format code using Prettier",
            ),
        );
        assert(tools@.drop_last() =~= before);
    }
    proof {
        lemma_offer(before, tools@, prettier_applies, prettier(pm));
    }

    // Package manager specific tools
    let ghost before = tools@;
    let (audit_tool, outdated_tool) = manager_tools(pm, pm_cmd);
    tools.push(audit_tool);
    tools.push(outdated_tool);
    assert(tool_views(tools@) =~= tool_views(before) + seq![audit(pm), outdated(pm)]);
    tools
}

/// Detect Node.js/JavaScript-specific tools in the given directory.
pub fn detect_js_tools(directory: &Directory) -> (tools: Vec<Tool>)
    ensures
        tool_views(tools@) == js_tools(directory@),
{
    // Check for package.json to identify Node.js projects
    if !directory.contains("package.json") {
        let tools: Vec<Tool> = Vec::new();
        assert(tool_views(tools@) =~= Seq::empty());
        return tools;
    }
    match PackageManager::detect(directory) {
        Some(pm) => detect_managed_tools(directory, pm),
        None => {
            let tools: Vec<Tool> = Vec::new();
            assert(tool_views(tools@) =~= Seq::empty());
            tools
        },
    }
}

/// Whether the directory holds none of the configuration files by which the
/// script tools are decided.
pub open spec fn lacks_script_markers(directory: Set<Seq<char>>) -> bool {
    &&& !directory.contains(".eslintrc"@)
    &&& !directory.contains(".eslintrc.js"@)
    &&& !directory.contains("jest.config.js"@)
    &&& !directory.contains("tsconfig.json"@)
    &&& !directory.contains(".prettierrc"@)
    &&& !directory.contains(".prettierrc.js"@)
}

/// Without a lockfile no package manager is known, and a directory yields no
/// JavaScript tool, whatever else it holds.
pub proof fn lemma_no_lockfile_no_js_tool(directory: Set<Seq<char>>)
    requires
        !directory.contains("package-lock.json"@),
        !directory.contains("yarn.lock"@),
        !directory.contains("pnpm-lock.yaml"@),
    ensures
        js_tools(directory) == Seq::<ToolView>::empty(),
{
}

/// With `package.json` and a lockfile, the audit and the report of outdated
/// dependencies close the list, whatever else applies; a tool that runs a
/// package script takes the verb `run` in front of the script's name under npm
/// and pnpm, and the script's name alone under yarn.
pub proof fn lemma_manager_tools(directory: Set<Seq<char>>, manager: PackageManager)
    requires
        directory.contains("package.json"@),
        PackageManager::detected(directory) == Some(manager),
    ensures
        ({
            let tools = js_tools(directory);
            &&& tools.len() >= 2
            &&& tools[tools.len() - 2] == audit(manager)
            &&& tools[tools.len() - 1] == outdated(manager)
        }),
        manager == PackageManager::Yarn ==> typescript(manager).args == seq!["tsc"@],
        manager != PackageManager::Yarn ==> typescript(manager).args == seq!["run"@, "tsc"@],
{
    assert(seq!["run"@].push("tsc"@) =~= seq!["run"@, "tsc"@]);
    assert(Seq::<Seq<char>>::empty().push("tsc"@) =~= seq!["tsc"@]);
}

} // verus!
