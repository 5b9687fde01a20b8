use crate::cmds::catalogs::{CreateCatalog, GetCatalog, GetCatalogs};
use crate::cmds::databases::GetDatabases;
use crate::cmds::partitions::{GetPartitionNamesByParts, GetPartitions};
use crate::cmds::tables::{CreateTable, DropTable, GetTable, ListTables};
use crate::error::{CliError, CliErrorView};
use crate::metastore::{
    stamped, Duplicate, Request, RequestView, Response, ResponseView, Table, TableView,
};
use crate::render::{
    error_document, error_document_writable, settle, spec_error_document, spec_settle,
    too_long_for_yaml,
};
use vstd::prelude::*;

verus! {

/// The format of the document that is printed.
#[derive(Debug, Clone, Copy, PartialEq, Eq, Structural)]
pub enum Format {
    Json,
    Yaml,
}

impl Default for Format {
    fn default() -> (r: Format)
        ensures
            r == Format::Json,
    {
        Format::Json
    }
}

/// The commands of the client.
#[derive(Debug, Clone, PartialEq, Eq)]
pub enum Commands {
    GetTable(GetTable),
    GetCatalog(GetCatalog),
    GetCatalogs(GetCatalogs),
    GetPartitions(GetPartitions),
    GetPartitionNamesByParts(GetPartitionNamesByParts),
    GetDatabases(GetDatabases),
    CreateCatalog(CreateCatalog),
    CreateTable(CreateTable),
    ListTables(ListTables),
    DropTable(DropTable),
}

/// A parsed command line: the metastore's Thrift endpoint (such as
/// `host.com:9083`), the output format and the command.
#[derive(Debug, Clone, PartialEq, Eq)]
pub struct Cli {
    pub metastore_url: String,
    pub format: Format,
    pub command: Commands,
}

/// How far a run has got.
#[derive(Debug, Clone, PartialEq, Eq)]
pub enum Stage {
    /// Nothing has happened yet.
    Start,
    /// The connection to the metastore is being opened.
    Connecting,
    /// The call whose answer is the command's result is pending.
    AwaitingReply,
    /// `list-tables`: the search for matching table names is pending.
    AwaitingTableNames,
    /// `create-table`: the current time is being read.
    AwaitingClock,
    /// `create-table`: the definition is being read; holds the creation time.
    AwaitingDefinition(i32),
    /// `create-table`: the table has been sent and its creation is pending.
    AwaitingCreation(Table),
    /// `drop-table`: the user is being asked to confirm.
    AwaitingConfirmation,
    /// The result is being written out.
    AwaitingRendering,
    /// The run is over.
    Done,
}

pub enum StageView {
    Start,
    Connecting,
    AwaitingReply,
    AwaitingTableNames,
    AwaitingClock,
    AwaitingDefinition(i32),
    AwaitingCreation(TableView),
    AwaitingConfirmation,
    AwaitingRendering,
    Done,
}

impl View for Stage {
    type V = StageView;

    open spec fn view(&self) -> StageView {
        match self {
            Stage::Start => StageView::Start,
            Stage::Connecting => StageView::Connecting,
            Stage::AwaitingReply => StageView::AwaitingReply,
            Stage::AwaitingTableNames => StageView::AwaitingTableNames,
            Stage::AwaitingClock => StageView::AwaitingClock,
            Stage::AwaitingDefinition(t) => StageView::AwaitingDefinition(*t),
            Stage::AwaitingCreation(t) => StageView::AwaitingCreation(t@),
            Stage::AwaitingConfirmation => StageView::AwaitingConfirmation,
            Stage::AwaitingRendering => StageView::AwaitingRendering,
            Stage::Done => StageView::Done,
        }
    }
}

/// What the driver of a run reports back: the outcome of the action it was
/// last given.
#[derive(Debug, PartialEq, Eq)]
pub enum Event {
    /// The run starts.
    Begin,
    /// The connection was opened, or the error that prevented it.
    Connected(Result<(), CliError>),
    /// The answer of the metastore to the call, or the call's error.
    Replied(Result<Response, CliError>),
    /// The current time, in seconds since the Unix epoch.
    Clock(u64),
    /// The table read from the definition file, or the error that prevented it.
    Loaded(Result<Table, CliError>),
    /// The user's answer to the question.
    Confirmed(bool),
    /// The written document, or the serialiser's message.
    Rendered(Result<String, String>),
}

/// What the driver of a run is asked to do next.
#[derive(Debug, PartialEq, Eq)]
pub enum Action {
    /// Open a connection to the metastore at this endpoint.
    Connect(String),
    /// Make this call on the metastore.
    Call(Request),
    /// Read the current time.
    ReadClock,
    /// Read a table from the definition file at `path`, written in `format`.
    Load { path: String, format: Format },
    /// Ask the user this yes-or-no question.
    Confirm(String),
    /// Write this result as a document in this format.
    Render(Format, Response),
    /// The run is over with this result: the document to print, or the failure.
    Finish(Result<String, CliError>),
    /// The event did not answer the pending action; nothing to do.
    Idle,
}

pub enum ActionView {
    Connect(Seq<char>),
    Call(RequestView),
    ReadClock,
    Load { path: Seq<char>, format: Format },
    Confirm(Seq<char>),
    Render(Format, ResponseView),
    Finish(Result<Seq<char>, CliErrorView>),
    Idle,
}

pub open spec fn result_view(r: Result<String, CliError>) -> Result<Seq<char>, CliErrorView> {
    match r {
        Ok(s) => Ok(s@),
        Err(e) => Err(e@),
    }
}

impl View for Action {
    type V = ActionView;

    open spec fn view(&self) -> ActionView {
        match self {
            Action::Connect(url) => ActionView::Connect(url@),
            Action::Call(request) => ActionView::Call(request@),
            Action::ReadClock => ActionView::ReadClock,
            Action::Load { path, format } => ActionView::Load { path: path@, format: *format },
            Action::Confirm(question) => ActionView::Confirm(question@),
            Action::Render(format, response) => ActionView::Render(*format, response@),
            Action::Finish(r) => ActionView::Finish(result_view(*r)),
            Action::Idle => ActionView::Idle,
        }
    }
}

/// The next stage and action, or the error that the run reports as a document.
pub enum Outcome {
    Step(StageView, ActionView),
    ReportError(CliError),
}

/// The opening move of a command, once the connection is open.
pub open spec fn spec_opening(command: Commands) -> Outcome {
    match command {
        Commands::GetTable(c) => Outcome::Step(StageView::AwaitingReply, ActionView::Call(c.spec_call())),
        Commands::GetCatalog(c) => Outcome::Step(StageView::AwaitingReply, ActionView::Call(c.spec_call())),
        Commands::GetCatalogs(_) => Outcome::Step(StageView::AwaitingReply, ActionView::Call(RequestView::GetCatalogs)),
        Commands::GetPartitions(c) => Outcome::Step(StageView::AwaitingReply, ActionView::Call(c.spec_call())),
        Commands::GetPartitionNamesByParts(c) => Outcome::Step(StageView::AwaitingReply, ActionView::Call(c.spec_call())),
        Commands::GetDatabases(_) => Outcome::Step(StageView::AwaitingReply, ActionView::Call(RequestView::GetAllDatabases)),
        Commands::CreateCatalog(c) => Outcome::Step(StageView::AwaitingReply, ActionView::Call(c.spec_call())),
        Commands::CreateTable(_) => Outcome::Step(StageView::AwaitingClock, ActionView::ReadClock),
        Commands::ListTables(c) => Outcome::Step(StageView::AwaitingTableNames, ActionView::Call(c.spec_call())),
        Commands::DropTable(c) => Outcome::Step(StageView::AwaitingConfirmation, ActionView::Confirm(c.spec_prompt())),
    }
}

/// A command's result goes out as a document: a value is written in the
/// chosen format, an error is reported in an error document.
pub open spec fn spec_serialize(f: Format, v: Result<ResponseView, CliError>) -> Outcome {
    match v {
        Ok(t) => Outcome::Step(StageView::AwaitingRendering, ActionView::Render(f, t)),
        Err(e) => Outcome::ReportError(e),
    }
}

/// Whether the command's result is empty, whatever its call answers:
/// creating a catalog and dropping a table print nothing but `null`.
pub open spec fn returns_nothing(command: Commands) -> bool {
    command is DropTable || command is CreateCatalog
}

/// What a run of `cli` does on `event` in `stage`.
pub open spec fn spec_next(cli: Cli, stage: StageView, event: Event) -> Outcome {
    let ignored = Outcome::Step(stage, ActionView::Idle);
    match stage {
        StageView::Start => match event {
            Event::Begin => Outcome::Step(StageView::Connecting, ActionView::Connect(cli.metastore_url@)),
            _ => ignored,
        },
        StageView::Connecting => match event {
            Event::Connected(Ok(())) => spec_opening(cli.command),
            Event::Connected(Err(e)) => Outcome::Step(StageView::Done, ActionView::Finish(Err(e@))),
            _ => ignored,
        },
        StageView::AwaitingReply => match event {
            Event::Replied(Ok(v)) => if returns_nothing(cli.command) {
                spec_serialize(cli.format, Ok(ResponseView::Nothing))
            } else {
                spec_serialize(cli.format, Ok(v@))
            },
            Event::Replied(Err(e)) => spec_serialize(cli.format, Err(e)),
            _ => ignored,
        },
        StageView::AwaitingTableNames => match (event, cli.command) {
            (Event::Replied(Ok(Response::Names(names))), Commands::ListTables(c)) =>
                Outcome::Step(StageView::AwaitingReply, ActionView::Call(c.spec_fetch(names.deep_view()))),
            (Event::Replied(Err(e)), Commands::ListTables(_)) => spec_serialize(cli.format, Err(e)),
            _ => ignored,
        },
        StageView::AwaitingClock => match (event, cli.command) {
            (Event::Clock(seconds), Commands::CreateTable(c)) => Outcome::Step(
                StageView::AwaitingDefinition(seconds as i32),
                ActionView::Load { path: c.table_definition_file@, format: c.format },
            ),
            _ => ignored,
        },
        StageView::AwaitingDefinition(seconds) => match event {
            Event::Loaded(Ok(t)) => Outcome::Step(
                StageView::AwaitingCreation(stamped(t@, seconds)),
                ActionView::Call(RequestView::CreateTable { table: stamped(t@, seconds) }),
            ),
            Event::Loaded(Err(e)) => spec_serialize(cli.format, Err(e)),
            _ => ignored,
        },
        StageView::AwaitingCreation(t) => match event {
            Event::Replied(Ok(_)) => spec_serialize(cli.format, Ok(ResponseView::Table { table: t })),
            Event::Replied(Err(e)) => spec_serialize(cli.format, Err(e)),
            _ => ignored,
        },
        StageView::AwaitingConfirmation => match (event, cli.command) {
            (Event::Confirmed(true), Commands::DropTable(c)) =>
                Outcome::Step(StageView::AwaitingReply, ActionView::Call(c.spec_call())),
            (Event::Confirmed(false), Commands::DropTable(_)) =>
                spec_serialize(cli.format, Ok(ResponseView::Nothing)),
            _ => ignored,
        },
        StageView::AwaitingRendering => match event {
            Event::Rendered(written) => Outcome::Step(
                StageView::Done,
                ActionView::Finish(result_view(spec_settle(cli.format, written))),
            ),
            _ => ignored,
        },
        StageView::Done => ignored,
    }
}

/// Whether going to `stage` with `action` carries out `outcome` in format
/// `f`.  An error report ends the run successfully, with the document that
/// reports the error as its output; only a YAML document whose error text is
/// too long for a scalar cannot be written, and the run then fails with the
/// YAML serialisation error.
pub open spec fn carries_out(f: Format, outcome: Outcome, stage: Stage, action: Action) -> bool {
    match outcome {
        Outcome::Step(s, a) => stage@ == s && action@ == a,
        Outcome::ReportError(e) => {
            &&& stage@ == StageView::Done
            &&& if error_document_writable(f, e) {
                action matches Action::Finish(Ok(document)) && document@ == spec_error_document(f, e)
            } else {
                action matches Action::Finish(Err(CliError::YamlSerdeError(message)))
                    && message@ == too_long_for_yaml()
            }
        },
    }
}

/// Whether the driver may hand `event` to a run of `cli` in `stage`: a clock
/// reading taken for a new table must fit the table's 32-bit creation time.
pub open spec fn admissible(cli: Cli, stage: StageView, event: Event) -> bool {
    (stage is AwaitingClock && cli.command is CreateTable && event is Clock) ==> event->Clock_0 <= i32::MAX
}

/// A command's result goes out as a document.
pub fn serialize(f: Format, v: Result<Response, CliError>) -> (r: (Stage, Action))
    ensures
        carries_out(
            f,
            spec_serialize(
                f,
                match v {
                    Ok(t) => Ok(t@),
                    Err(e) => Err(e),
                },
            ),
            r.0,
            r.1,
        ),
{
    match v {
        Ok(t) => (Stage::AwaitingRendering, Action::Render(f, t)),
        Err(e) => {
            let document = error_document(f, &e);
            (Stage::Done, Action::Finish(settle(f, document)))
        },
    }
}

impl Cli {
    /// The opening move of the command, once the connection is open.
    fn opening(&self) -> (r: (Stage, Action))
        ensures
            carries_out(self.format, spec_opening(self.command), r.0, r.1),
    {
        match &self.command {
            Commands::GetTable(c) => (Stage::AwaitingReply, Action::Call(c.call())),
            Commands::GetCatalog(c) => (Stage::AwaitingReply, Action::Call(c.call())),
            Commands::GetCatalogs(c) => (Stage::AwaitingReply, Action::Call(c.call())),
            Commands::GetPartitions(c) => (Stage::AwaitingReply, Action::Call(c.call())),
            Commands::GetPartitionNamesByParts(c) => (Stage::AwaitingReply, Action::Call(c.call())),
            Commands::GetDatabases(c) => (Stage::AwaitingReply, Action::Call(c.call())),
            Commands::CreateCatalog(c) => (Stage::AwaitingReply, Action::Call(c.call())),
            Commands::CreateTable(_) => (Stage::AwaitingClock, Action::ReadClock),
            Commands::ListTables(c) => (Stage::AwaitingTableNames, Action::Call(c.call())),
            Commands::DropTable(c) => (Stage::AwaitingConfirmation, Action::Confirm(c.prompt())),
        }
    }

    /// Runs the client one step: given how far the run has got and what
    /// happened since, returns the new stage and what to do next.
    ///
    /// A run starts in `Stage::Start` with `Event::Begin` and is over when
    /// the action is `Action::Finish`.  It first connects to the metastore;
    /// a connection failure ends the run with that failure.  Then the
    /// command makes its calls; the command's result, or its error, is
    /// written as a document in the chosen format and the run ends with it.
    pub fn run(&self, stage: Stage, event: Event) -> (r: (Stage, Action))
        requires
            admissible(*self, stage@, event),
        ensures
            carries_out(self.format, spec_next(*self, stage@, event), r.0, r.1),
    {
        let f = self.format;
        match stage {
            Stage::Start => match event {
                Event::Begin => (Stage::Connecting, Action::Connect(self.metastore_url.clone())),
                _ => (Stage::Start, Action::Idle),
            },
            Stage::Connecting => match event {
                Event::Connected(Ok(())) => self.opening(),
                Event::Connected(Err(e)) => (Stage::Done, Action::Finish(Err(e))),
                _ => (Stage::Connecting, Action::Idle),
            },
            Stage::AwaitingReply => match event {
                Event::Replied(Ok(v)) => match &self.command {
                    Commands::DropTable(_) | Commands::CreateCatalog(_) => {
                        serialize(f, Ok(Response::Nothing))
                    },
                    _ => serialize(f, Ok(v)),
                },
                Event::Replied(Err(e)) => serialize(f, Err(e)),
                _ => (Stage::AwaitingReply, Action::Idle),
            },
            Stage::AwaitingTableNames => match (event, &self.command) {
                (Event::Replied(Ok(Response::Names(names))), Commands::ListTables(c)) => {
                    (Stage::AwaitingReply, Action::Call(c.fetch(names)))
                },
                (Event::Replied(Err(e)), Commands::ListTables(_)) => serialize(f, Err(e)),
                _ => (Stage::AwaitingTableNames, Action::Idle),
            },
            Stage::AwaitingClock => match (event, &self.command) {
                (Event::Clock(seconds), Commands::CreateTable(c)) => {
                    let created = CreateTable::creation_time(seconds);
                    (
                        Stage::AwaitingDefinition(created),
                        Action::Load { path: c.table_definition_file.clone(), format: c.format },
                    )
                },
                _ => (Stage::AwaitingClock, Action::Idle),
            },
            Stage::AwaitingDefinition(seconds) => match event {
                Event::Loaded(Ok(t)) => {
                    let mut table = t;
                    table.stamp(seconds);
                    let sent = table.duplicate();
                    (Stage::AwaitingCreation(table), Action::Call(Request::CreateTable(sent)))
                },
                Event::Loaded(Err(e)) => serialize(f, Err(e)),
                _ => (Stage::AwaitingDefinition(seconds), Action::Idle),
            },
            Stage::AwaitingCreation(t) => match event {
                Event::Replied(Ok(_)) => serialize(f, Ok(Response::Table(t))),
                Event::Replied(Err(e)) => serialize(f, Err(e)),
                _ => (Stage::AwaitingCreation(t), Action::Idle),
            },
            Stage::AwaitingConfirmation => match (event, &self.command) {
                (Event::Confirmed(true), Commands::DropTable(c)) => {
                    (Stage::AwaitingReply, Action::Call(c.call()))
                },
                (Event::Confirmed(false), Commands::DropTable(_)) => serialize(f, Ok(Response::Nothing)),
                _ => (Stage::AwaitingConfirmation, Action::Idle),
            },
            Stage::AwaitingRendering => match event {
                Event::Rendered(written) => (Stage::Done, Action::Finish(settle(f, written))),
                _ => (Stage::AwaitingRendering, Action::Idle),
            },
            Stage::Done => (Stage::Done, Action::Idle),
        }
    }
}

} // verus!
