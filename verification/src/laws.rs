//! Properties that hold of every run of the client.

use crate::cli::{
    Commands, carries_out, returns_nothing, spec_next, Action, ActionView, Cli, Event, Format, Outcome, Stage,
    StageView,
};
use crate::render::{error_document_writable, spec_error_document, too_long_for_yaml};
use crate::error::CliError;
use crate::metastore::{stamped, CatalogView, RequestView, Response, ResponseView, Table};
use vstd::prelude::*;

verus! {

/// How many steps a run still has to go, at most, from a stage.
pub open spec fn remaining(stage: StageView) -> nat {
    match stage {
        StageView::Start => 6,
        StageView::Connecting => 5,
        StageView::AwaitingTableNames => 4,
        StageView::AwaitingClock => 4,
        StageView::AwaitingConfirmation => 4,
        StageView::AwaitingDefinition(_) => 3,
        StageView::AwaitingCreation(_) => 2,
        StageView::AwaitingReply => 2,
        StageView::AwaitingRendering => 1,
        StageView::Done => 0,
    }
}

/// Every event either leaves the run where it was, asking for nothing, or
/// moves it strictly closer to its end; the run ends (finishes) exactly when
/// it reaches `Done`, and once done it ignores every event.  So a run ends
/// after at most six steps that do something.
pub proof fn law_run_progresses(cli: Cli, stage: StageView, event: Event)
    ensures
        match spec_next(cli, stage, event) {
            Outcome::Step(next, action) => {
                ||| (next == stage && action is Idle)
                ||| (remaining(next) < remaining(stage) && (action is Finish <==> next is Done))
            },
            Outcome::ReportError(_) => !(stage is Done),
        },
        stage is Done ==> spec_next(cli, stage, event) == Outcome::Step(stage, ActionView::Idle),
{
}

/// A run is determined by what happens: two steps taken from the same stage
/// on the same event reach the same stage with the same action.
pub proof fn law_run_is_determined(
    cli: Cli,
    stage: StageView,
    event: Event,
    first: (Stage, Action),
    second: (Stage, Action),
)
    requires
        carries_out(cli.format, spec_next(cli, stage, event), first.0, first.1),
        carries_out(cli.format, spec_next(cli, stage, event), second.0, second.1),
    ensures
        first.0@ == second.0@,
        first.1@ == second.1@,
{
}

/// A reported error ends the run successfully, its output the document
/// that reports the error.  The one exception is a YAML document whose error
/// text is longer than a YAML scalar can be: the run then fails with the YAML
/// serialisation error.  A JSON document can always be written.
pub proof fn law_reported_errors_succeed(f: Format, failure: CliError, stage: Stage, action: Action)
    requires
        carries_out(f, Outcome::ReportError(failure), stage, action),
    ensures
        stage@ == StageView::Done,
        f is Json ==> error_document_writable(f, failure),
        error_document_writable(f, failure) ==> (action matches Action::Finish(Ok(document))
            && document@ == spec_error_document(f, failure)),
        !error_document_writable(f, failure) ==> (action matches Action::Finish(
            Err(CliError::YamlSerdeError(message)),
        ) && message@ == too_long_for_yaml()),
{
}

/// A run does nothing before it connects: its first step connects to the
/// metastore's endpoint, and a connection failure ends the run with that
/// failure, before any call is made.
pub proof fn law_connects_first(cli: Cli, event: Event, failure: CliError)
    ensures
        spec_next(cli, StageView::Start, event) == (if event is Begin {
            Outcome::Step(StageView::Connecting, ActionView::Connect(cli.metastore_url@))
        } else {
            Outcome::Step(StageView::Start, ActionView::Idle)
        }),
        spec_next(cli, StageView::Connecting, Event::Connected(Err(failure)))
            == Outcome::Step(StageView::Done, ActionView::Finish(Err(failure@))),
{
}

/// Everything a run writes is written in the format of the command line:
/// each result to render, and (through `carries_out`) each error document.
pub proof fn law_output_in_chosen_format(cli: Cli, stage: StageView, event: Event)
    ensures
        spec_next(cli, stage, event) matches Outcome::Step(_, ActionView::Render(f, _)) ==> f
            == cli.format,
{
}

/// A failed call or an unreadable definition does not make the run fail:
/// the error is reported as a document.
pub proof fn law_command_errors_are_reported(cli: Cli, failure: CliError, seconds: i32, t: Table)
    ensures
        spec_next(cli, StageView::AwaitingReply, Event::Replied(Err(failure)))
            == Outcome::ReportError(failure),
        cli.command is ListTables ==> spec_next(
            cli,
            StageView::AwaitingTableNames,
            Event::Replied(Err(failure)),
        ) == Outcome::ReportError(failure),
        spec_next(cli, StageView::AwaitingDefinition(seconds), Event::Loaded(Err(failure)))
            == Outcome::ReportError(failure),
        spec_next(cli, StageView::AwaitingCreation(t@), Event::Replied(Err(failure)))
            == Outcome::ReportError(failure),
{
}

/// The written document is the output of the run; when it cannot be written
/// the run fails with the serialisation error of the chosen format.
pub proof fn law_rendering_ends_the_run(cli: Cli, document: String, message: String)
    ensures
        spec_next(cli, StageView::AwaitingRendering, Event::Rendered(Ok(document)))
            == Outcome::Step(StageView::Done, ActionView::Finish(Ok(document@))),
        spec_next(cli, StageView::AwaitingRendering, Event::Rendered(Err(message)))
            == Outcome::Step(
            StageView::Done,
            ActionView::Finish(
                Err(
                    match cli.format {
                        Format::Json => CliError::JsonSerdeError(message),
                        Format::Yaml => CliError::YamlSerdeError(message),
                    }@,
                ),
            ),
        ),
{
}

/// `create-table` reads the definition file the command names, in the
/// command's own input format (whatever the output format), stamps the table
/// with the time it read, sends it, and returns exactly the table it sent:
/// the definition read from the file with its creation time set and every
/// other field unchanged.
pub proof fn law_created_table_is_returned(
    cli: Cli,
    seconds: u64,
    definition: Table,
    answer: Response,
)
    requires
        cli.command is CreateTable,
        seconds <= i32::MAX,
    ensures
        ({
            let created = seconds as i32;
            let sent = stamped(definition@, created);
            &&& created == seconds
            &&& spec_next(cli, StageView::AwaitingClock, Event::Clock(seconds)) == Outcome::Step(
                StageView::AwaitingDefinition(created),
                ActionView::Load {
                    path: cli.command->CreateTable_0.table_definition_file@,
                    format: cli.command->CreateTable_0.format,
                },
            )
            &&& spec_next(cli, StageView::AwaitingDefinition(created), Event::Loaded(Ok(definition)))
                == Outcome::Step(
                StageView::AwaitingCreation(sent),
                ActionView::Call(RequestView::CreateTable { table: sent }),
            )
            &&& spec_next(cli, StageView::AwaitingCreation(sent), Event::Replied(Ok(answer)))
                == Outcome::Step(
                StageView::AwaitingRendering,
                ActionView::Render(cli.format, ResponseView::Table { table: sent }),
            )
        }),
{
}

/// `drop-table` drops the table if and only if the user confirms, naming the
/// command's database and table and deleting the data exactly when the
/// command asks it to; its result is empty either way.
pub proof fn law_drop_needs_confirmation(cli: Cli, answer: Response)
    requires
        cli.command is DropTable,
    ensures
        spec_next(cli, StageView::AwaitingConfirmation, Event::Confirmed(true)) == Outcome::Step(
            StageView::AwaitingReply,
            ActionView::Call(
                RequestView::DropTable {
                    dbname: cli.command->DropTable_0.db_name@,
                    tbl_name: cli.command->DropTable_0.table_name@,
                    delete_data: cli.command->DropTable_0.delete,
                },
            ),
        ),
        spec_next(cli, StageView::AwaitingConfirmation, Event::Confirmed(false)) == Outcome::Step(
            StageView::AwaitingRendering,
            ActionView::Render(cli.format, ResponseView::Nothing),
        ),
        spec_next(cli, StageView::AwaitingReply, Event::Replied(Ok(answer))) == Outcome::Step(
            StageView::AwaitingRendering,
            ActionView::Render(cli.format, ResponseView::Nothing),
        ),
{
}

/// `list-tables` fetches exactly the tables whose names the search returned,
/// from the same database.
pub proof fn law_listed_names_are_fetched(cli: Cli, names: Vec<String>)
    requires
        cli.command is ListTables,
    ensures
        spec_next(cli, StageView::AwaitingTableNames, Event::Replied(Ok(Response::Names(names))))
            == Outcome::Step(
            StageView::AwaitingReply,
            ActionView::Call(
                RequestView::GetTableObjectsByName {
                    dbname: cli.command->ListTables_0.db_name@,
                    tbl_names: names.deep_view(),
                },
            ),
        ),
{
}

/// `create-catalog` and `drop-table` have an empty result, whatever their
/// call answers.
pub proof fn law_unit_commands_print_nothing(cli: Cli, answer: Response)
    requires
        cli.command is CreateCatalog || cli.command is DropTable,
    ensures
        spec_next(cli, StageView::AwaitingReply, Event::Replied(Ok(answer))) == Outcome::Step(
            StageView::AwaitingRendering,
            ActionView::Render(cli.format, ResponseView::Nothing),
        ),
{
}

/// The answer to any other single-call command is its result, unchanged.
pub proof fn law_answer_is_result(cli: Cli, answer: Response)
    requires
        !returns_nothing(cli.command),
    ensures
        spec_next(cli, StageView::AwaitingReply, Event::Replied(Ok(answer))) == Outcome::Step(
            StageView::AwaitingRendering,
            ActionView::Render(cli.format, answer@),
        ),
{
}

/// Whether a run of `command` can be in `stage`: the stages that belong to
/// one command are reached only by that command.
pub open spec fn reachable_by(command: Commands, stage: StageView) -> bool {
    match stage {
        StageView::AwaitingTableNames => command is ListTables,
        StageView::AwaitingClock => command is CreateTable,
        StageView::AwaitingDefinition(_) => command is CreateTable,
        StageView::AwaitingCreation(_) => command is CreateTable,
        StageView::AwaitingConfirmation => command is DropTable,
        _ => true,
    }
}

/// Whether `request` is one of the calls that `command` makes.
pub open spec fn call_of(command: Commands, request: RequestView) -> bool {
    match command {
        Commands::GetTable(c) => request == c.spec_call(),
        Commands::GetCatalog(c) => request == c.spec_call(),
        Commands::GetCatalogs(_) => request == RequestView::GetCatalogs,
        Commands::GetPartitions(c) => request == c.spec_call(),
        Commands::GetPartitionNamesByParts(c) => request == c.spec_call(),
        Commands::GetDatabases(_) => request == RequestView::GetAllDatabases,
        Commands::CreateCatalog(c) => request == c.spec_call(),
        Commands::CreateTable(_) => request is CreateTable,
        Commands::ListTables(c) => request == c.spec_call() || (request matches RequestView::GetTableObjectsByName { dbname, .. } && dbname == c.db_name@),
        Commands::DropTable(c) => request == c.spec_call(),
    }
}

/// A run makes only its own command's calls: it begins in a stage that
/// every command reaches, each step keeps it in stages of its command, and
/// every call asked for from such a stage is one of the command's calls.
pub proof fn law_runs_make_only_their_commands_calls(cli: Cli, stage: StageView, event: Event)
    requires
        reachable_by(cli.command, stage),
    ensures
        reachable_by(cli.command, StageView::Start),
        spec_next(cli, stage, event) matches Outcome::Step(next, action) ==> {
            &&& reachable_by(cli.command, next)
            &&& action matches ActionView::Call(request) ==> call_of(cli.command, request)
        },
{
}

/// Once connected, each command opens with its own call, built from the
/// command's own arguments and nothing else: every name, pattern, value list
/// and limit is passed on unchanged, `get-partitions` asks for ten names,
/// `create-catalog` sends the catalog with the given name, description and
/// location (each as given, independently of the others), `create-table`
/// first reads the clock, and `drop-table` first asks the user about the
/// named table.
pub proof fn law_commands_open_with_their_own_call(cli: Cli)
    ensures
        ({
            let opened = spec_next(cli, StageView::Connecting, Event::Connected(Ok(())));
            match cli.command {
                Commands::GetTable(c) => opened == Outcome::Step(
                    StageView::AwaitingReply,
                    ActionView::Call(
                        RequestView::GetTableObjectsByName {
                            dbname: c.database@,
                            tbl_names: c.table.deep_view(),
                        },
                    ),
                ),
                Commands::GetCatalog(c) => opened == Outcome::Step(
                    StageView::AwaitingReply,
                    ActionView::Call(RequestView::GetCatalog { catalog_name: Some(c.name@) }),
                ),
                Commands::GetCatalogs(_) => opened == Outcome::Step(
                    StageView::AwaitingReply,
                    ActionView::Call(RequestView::GetCatalogs),
                ),
                Commands::GetPartitions(c) => opened == Outcome::Step(
                    StageView::AwaitingReply,
                    ActionView::Call(
                        RequestView::GetPartitionNames {
                            db_name: c.database@,
                            tbl_name: c.table@,
                            max_parts: 10,
                        },
                    ),
                ),
                Commands::GetPartitionNamesByParts(c) => opened == Outcome::Step(
                    StageView::AwaitingReply,
                    ActionView::Call(
                        RequestView::GetPartitionNamesPs {
                            db_name: c.database@,
                            tbl_name: c.table@,
                            part_vals: c.part_vals.deep_view(),
                            max_parts: c.max_parts,
                        },
                    ),
                ),
                Commands::GetDatabases(_) => opened == Outcome::Step(
                    StageView::AwaitingReply,
                    ActionView::Call(RequestView::GetAllDatabases),
                ),
                Commands::CreateCatalog(c) => opened == Outcome::Step(
                    StageView::AwaitingReply,
                    ActionView::Call(
                        RequestView::CreateCatalog {
                            catalog: Some(
                                CatalogView {
                                    name: Some(c.name@),
                                    description: c.description.deep_view(),
                                    location_uri: c.location_uri.deep_view(),
                                },
                            ),
                        },
                    ),
                ),
                Commands::CreateTable(_) => opened == Outcome::Step(
                    StageView::AwaitingClock,
                    ActionView::ReadClock,
                ),
                Commands::ListTables(c) => opened == Outcome::Step(
                    StageView::AwaitingTableNames,
                    ActionView::Call(
                        RequestView::GetTables { db_name: c.db_name@, pattern: c.name_glob@ },
                    ),
                ),
                Commands::DropTable(c) => opened == Outcome::Step(
                    StageView::AwaitingConfirmation,
                    ActionView::Confirm("Delete "@ + c.table_name@ + "?"@),
                ),
            }
        }),
{
}

} // verus!
