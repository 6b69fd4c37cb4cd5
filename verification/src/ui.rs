//! The state of the interactive session and the rules by which it changes.
//!
//! The session loop itself belongs to the caller: it polls the terminal and
//! starts processes in the background. Once per cycle it hands the controller
//! at most one input event; the controller carries out the command, takes what
//! the background runs have sent since, and says which runs to start.

use crate::config::ToolsConfig;
use crate::tools::base::{
    run_result, tool_views, utf8_lossy, Launch, ProcessOutput, Tool, ToolRunner, ToolView,
};
use crate::tools::directory::Directory;
use crate::tools::{all_tools, all_tools_with, detect_tools, detect_tools_with};
use ratatui::widgets::ListState;
use tokio::sync::mpsc::{Receiver, Sender};
use vstd::prelude::*;

verus! {

/// How long one cycle waits for an input event, in milliseconds.
pub const POLL_MILLIS: u64 = 50;

/// How many results the channel from the background runs to the controller
/// holds before a sender has to wait.
pub const RESULT_CAPACITY: usize = 100;

/// The state of a list widget of ratatui, opaque to the verifier.
#[verifier::external_type_specification]
#[verifier::external_body]
pub struct ExListState(ListState);

/// The sending half of a bounded channel of tokio, opaque to the verifier.
#[verifier::external_type_specification]
#[verifier::external_body]
#[verifier::reject_recursive_types(T)]
pub struct ExSender<T>(Sender<T>);

/// The receiving half of a bounded channel of tokio, opaque to the verifier.
#[verifier::external_type_specification]
#[verifier::external_body]
#[verifier::reject_recursive_types(T)]
pub struct ExReceiver<T>(Receiver<T>);

/// The row that the state of a list widget has selected, if any: what
/// `ListState::selected` returns.
pub uninterp spec fn list_selection(state: ListState) -> Option<usize>;

/// A list state in which no row is selected, by `ListState::default`.
///
/// Not proved: that the new state has no selection, as the widget's source
/// shows.
#[verifier::external_body]
fn new_list_state() -> (state: ListState)
    ensures
        list_selection(state) == None::<usize>,
{
    ListState::default()
}

/// Selects a row of a list, by `ListState::select`.
///
/// Not proved: that the state's selection afterwards is the given one, as the
/// widget's source shows.
#[verifier::external_body]
fn select_row(state: &mut ListState, index: Option<usize>)
    ensures
        list_selection(*final(state)) == index,
{
    state.select(index)
}

/// A bounded channel for log entries, by `tokio::sync::mpsc::channel`, which
/// panics on a capacity of zero. Nothing is claimed of the two halves.
#[verifier::external_body]
fn result_channel(capacity: usize) -> (channel: (
    Sender<(String, String)>,
    Receiver<(String, String)>,
))
    requires
        capacity > 0,
{
    tokio::sync::mpsc::channel(capacity)
}

/// Takes the next entry off the channel without waiting, by
/// `Receiver::try_recv`; `None` where the channel is empty or closed. What
/// comes back depends on what the senders have done by now, so nothing is
/// claimed of it.
#[verifier::external_body]
fn try_receive(receiver: &mut Receiver<(String, String)>) -> (entry: Option<(String, String)>) {
    match receiver.try_recv() {
        Ok(entry) => Some(entry),
        Err(_) => None,
    }
}

/// The keys that the controller tells apart.
#[derive(Debug, Clone, Copy, PartialEq, Eq, Structural)]
pub enum KeyCode {
    /// A character key.
    Char(char),
    /// The up arrow.
    Up,
    /// The down arrow.
    Down,
    /// Any other key.
    Other,
}

/// What happened to a key.
#[derive(Debug, Clone, Copy, PartialEq, Eq, Structural)]
pub enum KeyEventKind {
    Press,
    Repeat,
    Release,
}

/// An input event of the terminal.
#[derive(Debug, Clone, Copy, PartialEq, Eq, Structural)]
pub enum Event {
    /// A key event.
    Key(KeyCode, KeyEventKind),
    /// Anything else: the mouse, a resize, a paste.
    Other,
}

/// A command of the user to the controller.
#[derive(Debug, Clone, Copy, PartialEq, Eq, Structural)]
pub enum Command {
    /// Move the selection one tool up.
    MoveUp,
    /// Move the selection one tool down.
    MoveDown,
    /// Run the selected tool.
    RunSelected,
    /// Run every tool, one after the other.
    RunAll,
    /// Show or hide the help overlay.
    ToggleHelp,
    /// Leave the session.
    Quit,
}

/// The command that an input event stands for, if any. Only key presses
/// count: `q` quits, `?` toggles the help, `r` runs the selected tool, `a` runs
/// all tools, the arrows move the selection. Everything else is ignored.
pub open spec fn command_of(event: Option<Event>) -> Option<Command> {
    match event {
        Some(Event::Key(code, KeyEventKind::Press)) => match code {
            KeyCode::Char(c) => if c == 'q' {
                Some(Command::Quit)
            } else if c == '?' {
                Some(Command::ToggleHelp)
            } else if c == 'r' {
                Some(Command::RunSelected)
            } else if c == 'a' {
                Some(Command::RunAll)
            } else {
                None
            },
            KeyCode::Up => Some(Command::MoveUp),
            KeyCode::Down => Some(Command::MoveDown),
            KeyCode::Other => None,
        },
        _ => None,
    }
}

/// The command that an input event stands for, if any.
pub fn command_for(event: Option<Event>) -> (command: Option<Command>)
    ensures
        command == command_of(event),
{
    match event {
        Some(Event::Key(code, KeyEventKind::Press)) => match code {
            KeyCode::Char(c) => if c == 'q' {
                Some(Command::Quit)
            } else if c == '?' {
                Some(Command::ToggleHelp)
            } else if c == 'r' {
                Some(Command::RunSelected)
            } else if c == 'a' {
                Some(Command::RunAll)
            } else {
                None
            },
            KeyCode::Up => Some(Command::MoveUp),
            KeyCode::Down => Some(Command::MoveDown),
            KeyCode::Other => None,
        },
        _ => None,
    }
}

/// One line of the results log, as mathematics: the tool's name and the text
/// that its run produced.
pub type EntryView = (Seq<char>, Seq<char>);

/// The mathematical values of a sequence of log entries, in the same order.
pub open spec fn entry_views(entries: Seq<(String, String)>) -> Seq<EntryView> {
    entries.map_values(|entry: (String, String)| (entry.0@, entry.1@))
}

/// The mathematical value of an entry that may be missing.
pub open spec fn entry_view(entry: Option<(String, String)>) -> Option<EntryView> {
    match entry {
        Some(entry) => Some((entry.0@, entry.1@)),
        None => None,
    }
}

/// The entry that a finished run contributes to the results log: the tool's
/// name with the captured output where the run succeeded, nothing where the
/// process could not be started or exited with a status other than zero.
pub open spec fn report(tool: ToolView, launched: Launch) -> Option<EntryView> {
    match run_result(launched) {
        Ok(output) => Some((tool.name, output)),
        Err(_) => None,
    }
}

/// An entry that may be missing, as a sequence of one entry or none.
pub open spec fn entry_seq(entry: Option<EntryView>) -> Seq<EntryView> {
    match entry {
        Some(entry) => seq![entry],
        None => Seq::empty(),
    }
}

/// The runs that one command starts: the given tools, one after the other, in
/// one background task. `next` counts the runs that have finished.
#[derive(Debug)]
pub struct Dispatch {
    /// The tools to run, in order.
    pub tools: Vec<Tool>,
    /// The position of the tool to run next; the dispatch is done once it has
    /// reached the number of tools.
    pub next: usize,
}

/// The mathematical value of a [`Dispatch`].
pub ghost struct DispatchView {
    pub tools: Seq<ToolView>,
    pub next: int,
}

impl DispatchView {
    /// Whether every run has finished.
    pub open spec fn done(self) -> bool {
        self.next >= self.tools.len()
    }

    /// The dispatch after its next run has finished: one position further,
    /// or unchanged where it was done already.
    pub open spec fn advanced(self) -> DispatchView {
        if self.done() {
            self
        } else {
            DispatchView { tools: self.tools, next: self.next + 1 }
        }
    }

    /// What the next run sends to the results log once it has ended as
    /// `launched` says: its report, or nothing where the dispatch was done.
    pub open spec fn sent(self, launched: Launch) -> Option<EntryView> {
        if self.done() {
            None
        } else {
            report(self.tools[self.next], launched)
        }
    }

    /// Everything that the dispatch sends to the results log while its next
    /// runs end as `launches` say, one run after the other.
    pub open spec fn sent_during(self, launches: Seq<Launch>) -> Seq<EntryView>
        decreases launches.len(),
    {
        if launches.len() == 0 {
            Seq::empty()
        } else {
            entry_seq(self.sent(launches.first())) + self.advanced().sent_during(
                launches.drop_first(),
            )
        }
    }
}

/// Whether the run at a position ended with exit status zero.
pub open spec fn succeeded(launches: Seq<Launch>) -> spec_fn(int) -> bool {
    |i: int| run_result(launches[i]) is Ok
}

/// The log entry of the successful run at a position.
pub open spec fn entry_at(tools: Seq<ToolView>, launches: Seq<Launch>) -> spec_fn(int) -> EntryView {
    |i: int| (tools[i].name, run_result(launches[i])->Ok_0)
}

/// The entries of the runs that succeeded among the first `count`, in the
/// order of the tool list.
pub open spec fn successes(tools: Seq<ToolView>, launches: Seq<Launch>, count: int) -> Seq<
    EntryView,
> {
    Seq::new(count as nat, |i: int| i).filter(succeeded(launches)).map_values(
        entry_at(tools, launches),
    )
}

impl View for Dispatch {
    type V = DispatchView;

    open spec fn view(&self) -> DispatchView {
        DispatchView { tools: tool_views(self.tools@), next: self.next as int }
    }
}

impl Dispatch {
    /// A dispatch of the given tools, none of them run yet.
    pub fn new(tools: Vec<Tool>) -> (dispatch: Self)
        ensures
            dispatch@ == (DispatchView { tools: tool_views(tools@), next: 0 }),
    {
        Dispatch { tools, next: 0 }
    }

    /// The tool to run now, or `None` once every run has finished. The next
    /// tool is only handed out after [`Dispatch::complete`] has taken the end
    /// of the run before it, so the runs of one dispatch never overlap.
    pub fn pending(&self) -> (tool: Option<&Tool>)
        ensures
            self@.done() <==> tool is None,
            tool matches Some(tool) ==> tool@ == self@.tools[self@.next],
    {
        if self.next < self.tools.len() {
            Some(&self.tools[self.next])
        } else {
            None
        }
    }

    /// Takes the end of the pending run and moves on to the next tool.
    /// Returns the entry to send to the results log, if the run earned one.
    pub fn complete(&mut self, launched: Launch) -> (entry: Option<(String, String)>)
        ensures
            final(self)@ == old(self)@.advanced(),
            entry_view(entry) == old(self)@.sent(launched),
    {
        if self.next >= self.tools.len() {
            return None;
        }
        let tool = &self.tools[self.next];
        let entry = match tool.run(launched) {
            Ok(output) => Some((tool.name.clone(), output)),
            Err(_) => None,
        };
        self.next = self.next + 1;
        entry
    }
}

/// The state of the interactive session.
#[derive(Debug)]
pub struct App {
    /// The detected tools; fixed for the session.
    pub tools: Vec<Tool>,
    /// The position of the selected tool in `tools`.
    pub selected_tool: usize,
    /// The results of the runs that succeeded, as (tool name, output), in the
    /// order in which they arrived.
    pub results: Vec<(String, String)>,
    /// Whether the user has asked to leave.
    pub should_quit: bool,
    /// The project directory, in which the tools run.
    pub directory: String,
    /// The state of the widget that lists the tools.
    pub tools_state: ListState,
    /// The state of the widget that lists the results.
    pub results_state: ListState,
    /// The end of the results channel that background runs send on.
    pub result_sender: Sender<(String, String)>,
    /// The end of the results channel that the controller takes from.
    pub result_receiver: Receiver<(String, String)>,
    /// Whether the help overlay is shown.
    pub show_help: bool,
}

/// The mathematical value of an [`App`]. The channel and the state of the
/// results widget are no part of it: the controller decides nothing by them.
pub ghost struct AppView {
    pub tools: Seq<ToolView>,
    pub selected_tool: int,
    pub results: Seq<EntryView>,
    pub should_quit: bool,
    pub directory: Seq<char>,
    /// The row that the tools widget has selected.
    pub selected_row: Option<usize>,
    pub show_help: bool,
}

/// The last position in a list of `len` tools; 0 for the empty list.
pub open spec fn last_position(len: int) -> int {
    if len > 0 {
        len - 1
    } else {
        0
    }
}

impl AppView {
    /// The selection points at a tool, or the list is empty and the selection
    /// rests at 0.
    pub open spec fn cursor_in_bounds(self) -> bool {
        0 <= self.selected_tool <= last_position(self.tools.len() as int)
    }

    /// The tools widget shows the selection: its selected row is the selected
    /// tool's position.
    pub open spec fn row_follows_cursor(self) -> bool {
        self.selected_row == Some(self.selected_tool as usize)
    }

    /// The selection after a move up: one less, but never below 0.
    pub open spec fn moved_up(self) -> int {
        if self.selected_tool > 0 {
            self.selected_tool - 1
        } else {
            self.selected_tool
        }
    }

    /// The selection after a move down: one more, but never past the last
    /// tool.
    pub open spec fn moved_down(self) -> int {
        if self.selected_tool < last_position(self.tools.len() as int) {
            self.selected_tool + 1
        } else {
            self.selected_tool
        }
    }

    /// The state with the selection at `position`, and the tools widget told
    /// so if that is a change.
    pub open spec fn selecting(self, position: int) -> AppView {
        if position == self.selected_tool {
            self
        } else {
            AppView {
                selected_tool: position,
                selected_row: Some(position as usize),
                ..self
            }
        }
    }

    /// The state after a command. Only the selection and the two flags ever
    /// change: the tool list and the results log are left as they are.
    pub open spec fn applied(self, command: Option<Command>) -> AppView {
        match command {
            Some(Command::MoveUp) => self.selecting(self.moved_up()),
            Some(Command::MoveDown) => self.selecting(self.moved_down()),
            Some(Command::ToggleHelp) => AppView { show_help: !self.show_help, ..self },
            Some(Command::Quit) => AppView { should_quit: true, ..self },
            Some(Command::RunSelected) => self,
            Some(Command::RunAll) => self,
            None => self,
        }
    }

    /// The tools whose runs a command starts, in order; `None` where it starts
    /// no background task. Running the selection starts the one selected
    /// tool, and nothing where no tool is selected; running all starts every
    /// tool of the list.
    pub open spec fn dispatched(self, command: Option<Command>) -> Option<Seq<ToolView>> {
        match command {
            Some(Command::RunSelected) => if 0 <= self.selected_tool < self.tools.len() {
                Some(seq![self.tools[self.selected_tool]])
            } else {
                None
            },
            Some(Command::RunAll) => Some(self.tools),
            _ => None,
        }
    }

    /// The state after the results that have arrived were added to the log,
    /// in the order of their arrival.
    pub open spec fn drained(self, arrived: Seq<EntryView>) -> AppView {
        AppView { results: self.results + arrived, ..self }
    }
}

impl View for App {
    type V = AppView;

    open spec fn view(&self) -> AppView {
        AppView {
            tools: tool_views(self.tools@),
            selected_tool: self.selected_tool as int,
            results: entry_views(self.results@),
            should_quit: self.should_quit,
            directory: self.directory@,
            selected_row: list_selection(self.tools_state),
            show_help: self.show_help,
        }
    }
}

impl Clone for App {
    /// A copy of the session's state with a results channel and widget states
    /// of its own: nothing is selected in its tools widget yet, and what is
    /// sent to the one session never reaches the other.
    fn clone(&self) -> (copy: Self)
        ensures
            copy@ == (AppView { selected_row: None, ..self@ }),
    {
        let mut results: Vec<(String, String)> = Vec::new();
        let mut i: usize = 0;
        while i < self.results.len()
            invariant
                i <= self.results.len(),
                results.len() == i,
                forall|j: int| 0 <= j < i ==> #[trigger] results[j] == self.results[j],
            decreases self.results.len() - i,
        {
            let entry = &self.results[i];
            results.push((entry.0.clone(), entry.1.clone()));
            i += 1;
        }
        assert(entry_views(results@) =~= entry_views(self.results@));
        let (result_sender, result_receiver) = result_channel(RESULT_CAPACITY);
        App {
            tools: copy_tools(&self.tools),
            selected_tool: self.selected_tool,
            results,
            should_quit: self.should_quit,
            directory: self.directory.clone(),
            tools_state: new_list_state(),
            results_state: new_list_state(),
            result_sender,
            result_receiver,
            show_help: self.show_help,
        }
    }
}

/// The mathematical value of a dispatch that may be missing: its tools.
pub open spec fn dispatch_tools(dispatch: Option<Dispatch>) -> Option<Seq<ToolView>> {
    match dispatch {
        Some(dispatch) => Some(dispatch@.tools),
        None => None,
    }
}

impl App {
    /// The session for a project directory: its detected tools with the first
    /// one selected, an empty results log, and both flags down.
    pub fn new(directory: &str, contents: &Directory) -> (app: Self)
        ensures
            app@ == (AppView {
                tools: all_tools(contents@),
                selected_tool: 0,
                results: Seq::empty(),
                should_quit: false,
                directory: directory@,
                selected_row: Some(0),
                show_help: false,
            }),
            app@.cursor_in_bounds(),
            app@.row_follows_cursor(),
    {
        let tools = detect_tools(contents);
        let mut tools_state = new_list_state();
        select_row(&mut tools_state, Some(0));
        let (result_sender, result_receiver) = result_channel(RESULT_CAPACITY);
        let app = App {
            tools,
            selected_tool: 0,
            results: Vec::new(),
            should_quit: false,
            directory: directory.to_string(),
            tools_state,
            results_state: new_list_state(),
            result_sender,
            result_receiver,
            show_help: false,
        };
        assert(app@.results =~= Seq::empty());
        app
    }

    /// The session for a project directory whose built-in Python tools are
    /// invoked as the overrides say; in all else as [`App::new`] makes it.
    pub fn with_overrides(directory: &str, contents: &Directory, overrides: &ToolsConfig) -> (app:
        Self)
        ensures
            app@ == (AppView {
                tools: all_tools_with(contents@, overrides@),
                selected_tool: 0,
                results: Seq::empty(),
                should_quit: false,
                directory: directory@,
                selected_row: Some(0),
                show_help: false,
            }),
            app@.cursor_in_bounds(),
            app@.row_follows_cursor(),
    {
        let tools = detect_tools_with(contents, overrides);
        let mut tools_state = new_list_state();
        select_row(&mut tools_state, Some(0));
        let (result_sender, result_receiver) = result_channel(RESULT_CAPACITY);
        let app = App {
            tools,
            selected_tool: 0,
            results: Vec::new(),
            should_quit: false,
            directory: directory.to_string(),
            tools_state,
            results_state: new_list_state(),
            result_sender,
            result_receiver,
            show_help: false,
        };
        assert(app@.results =~= Seq::empty());
        app
    }

    /// Carries out one command and says which runs to start for it.
    pub fn handle_command(&mut self, command: Option<Command>) -> (dispatch: Option<Dispatch>)
        ensures
            final(self)@ == old(self)@.applied(command),
            dispatch_tools(dispatch) == old(self)@.dispatched(command),
            dispatch matches Some(dispatch) ==> dispatch@.next == 0,
    {
        match command {
            Some(Command::Quit) => {
                self.should_quit = true;
                None
            },
            Some(Command::ToggleHelp) => {
                self.show_help = !self.show_help;
                None
            },
            Some(Command::RunSelected) => {
                if self.selected_tool < self.tools.len() {
                    let tool = self.tools[self.selected_tool].clone();
                    let batch = vec![tool];
                    assert(tool_views(batch@) =~= seq![self@.tools[self@.selected_tool]]);
                    Some(Dispatch::new(batch))
                } else {
                    None
                }
            },
            Some(Command::RunAll) => {
                let batch = copy_tools(&self.tools);
                Some(Dispatch::new(batch))
            },
            Some(Command::MoveUp) => {
                if self.selected_tool > 0 {
                    self.selected_tool -= 1;
                    select_row(&mut self.tools_state, Some(self.selected_tool));
                }
                None
            },
            Some(Command::MoveDown) => {
                if self.selected_tool < self.tools.len().saturating_sub(1) {
                    self.selected_tool += 1;
                    select_row(&mut self.tools_state, Some(self.selected_tool));
                }
                None
            },
            None => None,
        }
    }

    /// Adds the results that have arrived to the log, in the order of their
    /// arrival.
    pub fn drain(&mut self, arrived: Vec<(String, String)>)
        ensures
            final(self)@ == old(self)@.drained(entry_views(arrived@)),
    {
        let mut arrived = arrived;
        let ghost before = self.results@;
        let ghost added = arrived@;
        self.results.append(&mut arrived);
        assert(entry_views(self.results@) =~= entry_views(before) + entry_views(added));
    }

    /// Takes what the background runs have sent since the last cycle and adds
    /// it to the log, in the order in which it was sent. What has arrived is
    /// not for the controller to say; whatever it is, this is all that
    /// changes.
    pub fn receive(&mut self)
        ensures
            exists|arrived: Seq<EntryView>| final(self)@ == old(self)@.drained(arrived),
    {
        let mut arrived: Vec<(String, String)> = Vec::new();
        let ghost before = self@;
        // One entry is added in every round, and no list holds more than
        // `usize::MAX` entries.
        while arrived.len() < usize::MAX
            invariant
                self@ == before,
            decreases usize::MAX - arrived.len(),
        {
            match try_receive(&mut self.result_receiver) {
                Some(entry) => arrived.push(entry),
                None => break,
            }
        }
        let ghost added = entry_views(arrived@);
        self.drain(arrived);
        assert(self@ == before.drained(added));
    }

    /// One cycle of the controller: carries out the command that the input
    /// event stands for, if there was an event and it stands for one, then
    /// adds the results that have arrived to the log. Returns the runs to
    /// start.
    pub fn handle_events(&mut self, event: Option<Event>) -> (dispatch: Option<Dispatch>)
        ensures
            exists|arrived: Seq<EntryView>|
                final(self)@ == old(self)@.applied(command_of(event)).drained(arrived),
            dispatch_tools(dispatch) == old(self)@.dispatched(command_of(event)),
            dispatch matches Some(dispatch) ==> dispatch@.next == 0,
    {
        let dispatch = self.handle_command(command_for(event));
        self.receive();
        dispatch
    }
}

/// The entries of the runs at the positions `first`, `first + 1`, ... of the
/// tool list, `count` of them, where run `first + i` ended as `launches[i]`
/// says.
spec fn sent_from(tools: Seq<ToolView>, first: int, launches: Seq<Launch>, count: int) -> Seq<
    EntryView,
>
    decreases count,
{
    if count <= 0 {
        Seq::empty()
    } else {
        sent_from(tools, first, launches, count - 1) + entry_seq(
            report(tools[first + count - 1], launches[count - 1]),
        )
    }
}

proof fn lemma_sent_from_first(tools: Seq<ToolView>, first: int, launches: Seq<Launch>, count: int)
    requires
        1 <= count <= launches.len(),
    ensures
        sent_from(tools, first, launches, count) == entry_seq(report(tools[first], launches[0]))
            + sent_from(tools, first + 1, launches.drop_first(), count - 1),
    decreases count,
{
    let rest = launches.drop_first();
    if count == 1 {
        assert(sent_from(tools, first, launches, 0) =~= Seq::empty());
        assert(sent_from(tools, first + 1, rest, 0) =~= Seq::empty());
        assert(sent_from(tools, first, launches, 1) =~= entry_seq(
            report(tools[first], launches[0]),
        ));
    } else {
        lemma_sent_from_first(tools, first, launches, count - 1);
        assert(rest[count - 2] == launches[count - 1]);
        let last = entry_seq(report(tools[first + count - 1], launches[count - 1]));
        assert(sent_from(tools, first + 1, rest, count - 1) == sent_from(
            tools,
            first + 1,
            rest,
            count - 2,
        ) + last);
        assert(sent_from(tools, first, launches, count) =~= entry_seq(
            report(tools[first], launches[0]),
        ) + sent_from(tools, first + 1, rest, count - 1));
    }
}

proof fn lemma_sent_during(dispatch: DispatchView, launches: Seq<Launch>)
    requires
        0 <= dispatch.next,
        dispatch.next + launches.len() <= dispatch.tools.len(),
    ensures
        dispatch.sent_during(launches) == sent_from(
            dispatch.tools,
            dispatch.next,
            launches,
            launches.len() as int,
        ),
    decreases launches.len(),
{
    if launches.len() > 0 {
        lemma_sent_during(dispatch.advanced(), launches.drop_first());
        lemma_sent_from_first(dispatch.tools, dispatch.next, launches, launches.len() as int);
    }
}

proof fn lemma_sent_from_start(tools: Seq<ToolView>, launches: Seq<Launch>, count: int)
    requires
        0 <= count,
    ensures
        sent_from(tools, 0, launches, count) == successes(tools, launches, count),
    decreases count,
{
    reveal(Seq::filter);
    let positions = Seq::new(count as nat, |i: int| i);
    if count == 0 {
        assert(positions.filter(succeeded(launches)) =~= Seq::empty());
        assert(successes(tools, launches, count) =~= Seq::empty());
    } else {
        lemma_sent_from_start(tools, launches, count - 1);
        let before = Seq::new((count - 1) as nat, |i: int| i);
        assert(positions.drop_last() =~= before);
        assert(positions.last() == count - 1);
        let kept = before.filter(succeeded(launches));
        if succeeded(launches)(count - 1) {
            assert(positions.filter(succeeded(launches)) == kept.push(count - 1));
            assert(kept.push(count - 1).map_values(entry_at(tools, launches)) =~= kept.map_values(
                entry_at(tools, launches),
            ) + seq![entry_at(tools, launches)(count - 1)]);
        } else {
            assert(positions.filter(succeeded(launches)) == kept);
        }
        assert(sent_from(tools, 0, launches, count) =~= successes(tools, launches, count));
    }
}

/// A dispatch sends results for exactly those of its runs that were started
/// and exited with status zero, each as the tool's name with the captured
/// output, in the order of the tool list.
pub proof fn lemma_dispatch_reports_successes_in_order(
    dispatch: DispatchView,
    launches: Seq<Launch>,
)
    requires
        dispatch.next == 0,
        launches.len() <= dispatch.tools.len(),
    ensures
        dispatch.sent_during(launches) == successes(
            dispatch.tools,
            launches,
            launches.len() as int,
        ),
{
    lemma_sent_during(dispatch, launches);
    lemma_sent_from_start(dispatch.tools, launches, launches.len() as int);
}

/// Running all tools adds to the results log, once every run has ended and
/// what it sent has arrived, the entries of the runs that succeeded, in the
/// order of the tool list, and changes nothing else.
pub proof fn lemma_run_all_logs_successes(state: AppView, launches: Seq<Launch>)
    requires
        launches.len() == state.tools.len(),
    ensures
        state.dispatched(Some(Command::RunAll)) == Some(state.tools),
        ({
            let dispatch = DispatchView { tools: state.tools, next: 0 };
            let after = state.applied(Some(Command::RunAll)).drained(
                dispatch.sent_during(launches),
            );
            after == (AppView {
                results: state.results + successes(
                    state.tools,
                    launches,
                    state.tools.len() as int,
                ),
                ..state
            })
        }),
{
    lemma_dispatch_reports_successes_in_order(
        DispatchView { tools: state.tools, next: 0 },
        launches,
    );
}

/// The controller takes commands while runs are under way: a command changes
/// nothing that an arrival changes, so it makes no difference whether the
/// command or the arrival comes first.
pub proof fn lemma_commands_and_arrivals_commute(
    state: AppView,
    command: Option<Command>,
    arrived: Seq<EntryView>,
)
    ensures
        state.applied(command).drained(arrived) == state.drained(arrived).applied(command),
        state.drained(arrived).dispatched(command) == state.dispatched(command),
{
}

/// A run whose process could not be started, or exited with a status other
/// than zero, adds nothing to the results log.
pub proof fn lemma_failed_run_leaves_log(state: AppView, tool: ToolView, launched: Launch)
    requires
        launched is Failed || !launched->Exited_0.success,
    ensures
        report(tool, launched) is None,
        state.drained(entry_seq(report(tool, launched))) == state,
{
    assert(state.results + Seq::<EntryView>::empty() =~= state.results);
}

/// A run that exits with status zero adds exactly one entry to the results
/// log: the tool's name with the decoded standard output, at the end.
pub proof fn lemma_successful_run_adds_one_entry(
    state: AppView,
    tool: ToolView,
    output: ProcessOutput,
)
    requires
        output.success,
    ensures
        ({
            let after = state.drained(entry_seq(report(tool, Launch::Exited(output))));
            &&& after.results == state.results.push((tool.name, utf8_lossy(output.stdout@)))
            &&& after.results.len() == state.results.len() + 1
        }),
{
    let entry = (tool.name, utf8_lossy(output.stdout@));
    assert(state.results + seq![entry] =~= state.results.push(entry));
}

/// No command and no arrival changes the tool list, and the results log only
/// ever grows at its end: what was logged stays, in place.
pub proof fn lemma_cycle_keeps_tools_and_log(
    state: AppView,
    command: Option<Command>,
    arrived: Seq<EntryView>,
)
    ensures
        ({
            let after = state.applied(command).drained(arrived);
            &&& after.tools == state.tools
            &&& after.directory == state.directory
            &&& after.results.len() == state.results.len() + arrived.len()
            &&& after.results.subrange(0, state.results.len() as int) == state.results
        }),
{
    let after = state.applied(command).drained(arrived);
    assert(after.results.subrange(0, state.results.len() as int) =~= state.results);
}

/// The selection is clamped to the tool list: moving up from the first tool
/// and moving down from the last change nothing, on an empty list neither
/// move changes anything, and no cycle of the controller takes the selection
/// out of bounds.
pub proof fn lemma_selection_is_clamped(state: AppView, command: Option<Command>)
    requires
        state.cursor_in_bounds(),
    ensures
        state.selected_tool == 0 ==> state.applied(Some(Command::MoveUp)) == state,
        state.selected_tool == last_position(state.tools.len() as int) ==> state.applied(
            Some(Command::MoveDown),
        ) == state,
        state.tools.len() == 0 ==> state.applied(Some(Command::MoveUp)) == state && state.applied(
            Some(Command::MoveDown),
        ) == state,
        state.applied(command).cursor_in_bounds(),
        forall|arrived: Seq<EntryView>|
            (#[trigger] state.applied(command).drained(arrived)).cursor_in_bounds(),
{
}

/// Once the tools widget shows the selection, it shows it after every cycle
/// of the controller.
pub proof fn lemma_row_follows_cursor(
    state: AppView,
    command: Option<Command>,
    arrived: Seq<EntryView>,
)
    requires
        state.row_follows_cursor(),
    ensures
        state.applied(command).drained(arrived).row_follows_cursor(),
{
}

/// A copy of a list of tools, for a background task to own.
fn copy_tools(tools: &Vec<Tool>) -> (copy: Vec<Tool>)
    ensures
        tool_views(copy@) == tool_views(tools@),
{
    let copy = tools.clone();
    assert(tool_views(copy@) =~= tool_views(tools@));
    copy
}

} // verus!
