//! The tool descriptor, and what running a tool means.
//!
//! Starting a process and waiting for it is the caller's work. The library says
//! which process to start for a tool ([`ToolRunner::invocation`]) and what the
//! way it ended means ([`ToolRunner::run`]).

use vstd::prelude::*;
use vstd::string::StringExecFns;
use vstd::utf8::{decode_utf8, valid_utf8};

verus! {

/// A code analysis or testing tool that can be invoked as an external command.
#[derive(Debug, PartialEq, Eq)]
pub struct Tool {
    /// The display name of the tool.
    pub name: String,
    /// The executable to start.
    pub command: String,
    /// The arguments handed to the executable, in order.
    pub args: Vec<String>,
    /// The category of the tool, such as "testing" or "linting".
    pub category: String,
    /// What the tool does, for a human reader.
    pub description: String,
}

/// The mathematical value of a [`Tool`]: every text as a sequence of characters.
pub ghost struct ToolView {
    pub name: Seq<char>,
    pub command: Seq<char>,
    pub args: Seq<Seq<char>>,
    pub category: Seq<char>,
    pub description: Seq<char>,
}

/// The character sequences of a sequence of strings.
pub open spec fn texts(strings: Seq<String>) -> Seq<Seq<char>> {
    strings.map_values(|s: String| s@)
}

impl View for Tool {
    type V = ToolView;

    open spec fn view(&self) -> ToolView {
        ToolView {
            name: self.name@,
            command: self.command@,
            args: texts(self.args@),
            category: self.category@,
            description: self.description@,
        }
    }
}

/// The mathematical values of a sequence of tools, in the same order.
pub open spec fn tool_views(tools: Seq<Tool>) -> Seq<ToolView> {
    tools.map_values(|tool: Tool| tool@)
}

/// What one rule of a detector contributes: the tool where its condition
/// holds, nothing where it does not.
pub open spec fn offered(applies: bool, tool: ToolView) -> Seq<ToolView> {
    if applies {
        seq![tool]
    } else {
        Seq::empty()
    }
}

impl Clone for Tool {
    fn clone(&self) -> (copy: Self)
        ensures
            copy@ == self@,
    {
        let args = self.args.clone();
        assert(texts(args@) =~= texts(self.args@));
        Tool {
            name: self.name.clone(),
            command: self.command.clone(),
            args,
            category: self.category.clone(),
            description: self.description.clone(),
        }
    }
}

/// The process to start for one run of a tool.
#[derive(Debug, PartialEq, Eq)]
pub struct Invocation {
    /// The executable to start.
    pub program: String,
    /// Its arguments, in order.
    pub args: Vec<String>,
    /// The working directory of the process.
    pub directory: String,
}

/// The mathematical value of an [`Invocation`].
pub ghost struct InvocationView {
    pub program: Seq<char>,
    pub args: Seq<Seq<char>>,
    pub directory: Seq<char>,
}

impl View for Invocation {
    type V = InvocationView;

    open spec fn view(&self) -> InvocationView {
        InvocationView {
            program: self.program@,
            args: texts(self.args@),
            directory: self.directory@,
        }
    }
}

/// What a process that ran to its end left behind.
#[derive(Debug, PartialEq, Eq)]
pub struct ProcessOutput {
    /// Whether the exit status was zero.
    pub success: bool,
    /// The bytes written to standard output.
    pub stdout: Vec<u8>,
    /// The bytes written to standard error.
    pub stderr: Vec<u8>,
}

/// How an attempt to run a process ended.
#[derive(Debug, PartialEq, Eq)]
pub enum Launch {
    /// The process could not be started; the text says why.
    Failed(String),
    /// The process started and ran to its end.
    Exited(ProcessOutput),
}

/// Why a run of a tool gave no output to show.
#[derive(Debug, PartialEq, Eq)]
pub enum RunError {
    /// The executable could not be started; the text says why.
    SpawnError(String),
    /// The process exited with a status other than zero; the text is what it
    /// wrote to standard error.
    ToolFailed(String),
}

/// The mathematical value of a [`RunError`].
pub ghost enum RunErrorView {
    SpawnError(Seq<char>),
    ToolFailed(Seq<char>),
}

impl View for RunError {
    type V = RunErrorView;

    open spec fn view(&self) -> RunErrorView {
        match self {
            RunError::SpawnError(reason) => RunErrorView::SpawnError(reason@),
            RunError::ToolFailed(stderr) => RunErrorView::ToolFailed(stderr@),
        }
    }
}

impl RunError {
    /// The text of the error: the reason for a failure to start, and
    /// `Command failed: ` followed by the standard error text for a failed run.
    pub open spec fn message_text(self) -> Seq<char> {
        match self {
            RunError::SpawnError(reason) => reason@,
            RunError::ToolFailed(stderr) => "Command failed: "@ + stderr@,
        }
    }

    /// The text of the error, for display.
    pub fn message(&self) -> (text: String)
        ensures
            text@ == self.message_text(),
    {
        match self {
            RunError::SpawnError(reason) => reason.clone(),
            RunError::ToolFailed(stderr) => {
                let mut text = "Command failed: ".to_string();
                text.append(stderr.as_str());
                text
            },
        }
    }
}

/// The text that lossy UTF-8 decoding makes of a byte sequence: the decoded
/// characters, with U+FFFD in place of each ill-formed part.
pub uninterp spec fn utf8_lossy(bytes: Seq<u8>) -> Seq<char>;

/// Decodes bytes as UTF-8 without ever failing, by `String::from_utf8_lossy`.
///
/// Not proved, but taken from the documentation of the standard library: the
/// result is a function of the bytes alone, named [`utf8_lossy`], and for
/// well-formed UTF-8 it is the text that the bytes encode.
#[verifier::external_body]
fn decode_lossy(bytes: &Vec<u8>) -> (text: String)
    ensures
        text@ == utf8_lossy(bytes@),
        valid_utf8(bytes@) ==> text@ == decode_utf8(bytes@),
{
    String::from_utf8_lossy(bytes).into_owned()
}

/// What a run means once both streams are decoded: the standard output text
/// where the exit status was zero, else a failure that carries the standard
/// error text.
pub fn conclude(success: bool, stdout: String, stderr: String) -> (result: Result<
    String,
    RunError,
>)
    ensures
        success ==> result == Ok::<String, RunError>(stdout),
        !success ==> result == Err::<String, RunError>(RunError::ToolFailed(stderr)),
{
    if !success {
        return Err(RunError::ToolFailed(stderr));
    }
    Ok(stdout)
}

/// What the way a process ended means for the tool that was run.
///
/// - The process could not be started: a spawn error with the reason.
/// - It exited with a status other than zero: a tool failure with the lossily
///   decoded standard error.
/// - It exited with status zero: the lossily decoded standard output.
pub open spec fn run_result(launched: Launch) -> Result<Seq<char>, RunErrorView> {
    match launched {
        Launch::Failed(reason) => Err(RunErrorView::SpawnError(reason@)),
        Launch::Exited(output) => if output.success {
            Ok(utf8_lossy(output.stdout@))
        } else {
            Err(RunErrorView::ToolFailed(utf8_lossy(output.stderr@)))
        },
    }
}

/// Whether the text in a run's result is what the bytes of the stream encode,
/// where that stream is well-formed UTF-8: standard output after exit status
/// zero, standard error after any other.
pub open spec fn decoded_where_well_formed(
    launched: Launch,
    result: Result<Seq<char>, RunErrorView>,
) -> bool {
    match launched {
        Launch::Failed(_) => true,
        Launch::Exited(output) => if output.success {
            valid_utf8(output.stdout@) ==> result == Ok::<Seq<char>, RunErrorView>(
                decode_utf8(output.stdout@),
            )
        } else {
            valid_utf8(output.stderr@) ==> result == Err::<Seq<char>, RunErrorView>(
                RunErrorView::ToolFailed(decode_utf8(output.stderr@)),
            )
        },
    }
}

/// The mathematical value of what a run returns.
pub open spec fn result_view(result: Result<String, RunError>) -> Result<
    Seq<char>,
    RunErrorView,
> {
    match result {
        Ok(text) => Ok(text@),
        Err(error) => Err(error@),
    }
}

/// Trait for running tools.
pub trait ToolRunner: Send + Sync {
    /// The process that one run in `directory` starts.
    spec fn invocation_in(&self, directory: Seq<char>) -> InvocationView;

    /// What the run yields, given how the process ended.
    spec fn outcome(&self, launched: Launch) -> Result<Seq<char>, RunErrorView>;

    /// The process to start in order to run the tool in the given directory.
    fn invocation(&self, directory: &str) -> (invocation: Invocation)
        ensures
            invocation@ == self.invocation_in(directory@),
    ;

    /// Run the tool: turn the way its process ended into the captured output
    /// or the error.
    fn run(&self, launched: Launch) -> (result: Result<String, RunError>)
        ensures
            result_view(result) == self.outcome(launched),
    ;
}

impl ToolRunner for Tool {
    /// The tool's command with the tool's arguments, in the directory.
    open spec fn invocation_in(&self, directory: Seq<char>) -> InvocationView {
        InvocationView { program: self@.command, args: self@.args, directory }
    }

    open spec fn outcome(&self, launched: Launch) -> Result<Seq<char>, RunErrorView> {
        run_result(launched)
    }

    fn invocation(&self, directory: &str) -> (invocation: Invocation) {
        let args = self.args.clone();
        assert(texts(args@) =~= texts(self.args@));
        Invocation { program: self.command.clone(), args, directory: directory.to_string() }
    }

    fn run(&self, launched: Launch) -> (result: Result<String, RunError>)
        ensures
            decoded_where_well_formed(launched, result_view(result)),
    {
        match launched {
            Launch::Failed(reason) => Err(RunError::SpawnError(reason)),
            Launch::Exited(output) => {
                let stdout = decode_lossy(&output.stdout);
                let stderr = decode_lossy(&output.stderr);
                conclude(output.success, stdout, stderr)
            },
        }
    }
}

} // verus!
