use nektar::cli::{Action, Cli, Commands, Event, Format, Stage};
use nektar::cmds::catalogs::{CreateCatalog, GetCatalog, GetCatalogs};
use nektar::cmds::databases::GetDatabases;
use nektar::cmds::partitions::{GetPartitionNamesByParts, GetPartitions};
use nektar::cmds::tables::{CreateTable, DropTable, GetTable, ListTables};
use nektar::error::CliError;
use nektar::metastore::{
    Catalog, CreateCatalogRequest, GetCatalogRequest, GetCatalogResponse, GetCatalogsResponse,
    Request, Response, Table,
};

const METASTORE_HOST: &str = "localhost";
const METASTORE_PORT: u16 = 9083;

fn endpoint() -> String {
    format!("{}:{}", METASTORE_HOST, METASTORE_PORT)
}

fn cli(format: Format, command: Commands) -> Cli {
    Cli { metastore_url: endpoint(), format, command }
}

/// Starts a run and opens the connection; returns the stage and the first
/// action of the command.
fn connected(c: &Cli) -> (Stage, Action) {
    let (stage, action) = c.run(Stage::Start, Event::Begin);
    assert_eq!(stage, Stage::Connecting);
    assert_eq!(action, Action::Connect(endpoint()));
    c.run(stage, Event::Connected(Ok(())))
}

fn table(name: &str) -> Table {
    Table {
        table_name: Some(name.to_string()),
        db_name: Some("default".to_string()),
        owner: Some("hive".to_string()),
        create_time: None,
        last_access_time: Some(0),
        retention: Some(0),
        sd: None,
        partition_keys: Some(vec![]),
        parameters: Some(vec![("k".to_string(), "v".to_string())]),
        view_original_text: None,
        view_expanded_text: None,
        table_type: Some("MANAGED_TABLE".to_string()),
        temporary: None,
        rewrite_enabled: None,
        cat_name: Some("hive".to_string()),
    }
}

#[test]
fn test_get_default_catalog() {
    let c = cli(Format::Json, Commands::GetCatalog(GetCatalog { name: "hive".to_string() }));
    let (stage, action) = connected(&c);
    assert_eq!(stage, Stage::AwaitingReply);
    assert_eq!(
        action,
        Action::Call(Request::GetCatalog(GetCatalogRequest { name: Some("hive".to_string()) }))
    );
    let catalog = GetCatalogResponse {
        catalog: Some(Catalog {
            name: Some("hive".to_string()),
            description: Some("Default catalog for Hive".to_string()),
            location_uri: Some("file:/opt/hive/data/warehouse".to_string()),
        }),
    };
    let (stage, action) = c.run(stage, Event::Replied(Ok(Response::Catalog(catalog.clone()))));
    assert_eq!(stage, Stage::AwaitingRendering);
    assert_eq!(action, Action::Render(Format::Json, Response::Catalog(catalog)));
    let document = r#"{"catalog":{"name":"hive"}}"#.to_string();
    let (stage, action) = c.run(stage, Event::Rendered(Ok(document.clone())));
    assert_eq!(stage, Stage::Done);
    assert_eq!(action, Action::Finish(Ok(document)));
}

#[test]
fn test_create_and_get_catalog() {
    let catalog_name = "test";
    let create = cli(
        Format::Json,
        Commands::CreateCatalog(CreateCatalog {
            name: catalog_name.to_string(),
            location_uri: Some("file:/opt/hive/data/warehouse".to_string()),
            description: Some("a description".to_string()),
        }),
    );
    let (stage, action) = connected(&create);
    let created = Catalog {
        name: Some(catalog_name.to_string()),
        description: Some("a description".to_string()),
        location_uri: Some("file:/opt/hive/data/warehouse".to_string()),
    };
    assert_eq!(
        action,
        Action::Call(Request::CreateCatalog(CreateCatalogRequest { catalog: Some(created.clone()) }))
    );
    let (stage, action) = create.run(stage, Event::Replied(Ok(Response::Nothing)));
    assert_eq!(action, Action::Render(Format::Json, Response::Nothing));
    let (stage, action) = create.run(stage, Event::Rendered(Ok("null".to_string())));
    assert_eq!(stage, Stage::Done);
    assert_eq!(action, Action::Finish(Ok("null".to_string())));

    let get = cli(Format::Json, Commands::GetCatalog(GetCatalog { name: catalog_name.to_string() }));
    let (stage, action) = connected(&get);
    assert_eq!(
        action,
        Action::Call(Request::GetCatalog(GetCatalogRequest { name: Some(catalog_name.to_string()) }))
    );
    let answer = Response::Catalog(GetCatalogResponse { catalog: Some(created) });
    let (stage, action) = get.run(stage, Event::Replied(Ok(answer.clone())));
    assert_eq!(action, Action::Render(Format::Json, answer));
    let document =
        r#"{"catalog":{"name":"test","description":"a description","location_uri":"file:/opt/hive/data/warehouse"}}"#
            .to_string();
    let (_, action) = get.run(stage, Event::Rendered(Ok(document.clone())));
    match action {
        Action::Finish(Ok(out)) => {
            assert!(serde_json::from_str::<serde_json::Value>(&out).is_ok());
            assert_eq!(out, document);
        }
        other => panic!("unexpected action {:?}", other),
    }
}

#[test]
fn connection_failure_ends_the_run_with_it() {
    let c = cli(Format::Json, Commands::GetDatabases(GetDatabases));
    let (stage, _) = c.run(Stage::Start, Event::Begin);
    let failure = CliError::ThriftError("Connection refused (os error 111)".to_string());
    let (stage, action) = c.run(stage, Event::Connected(Err(failure.clone())));
    assert_eq!(stage, Stage::Done);
    assert_eq!(action, Action::Finish(Err(failure)));
}

#[test]
fn call_failure_is_reported_as_a_json_document() {
    let c = cli(Format::Json, Commands::GetDatabases(GetDatabases));
    let (stage, action) = connected(&c);
    assert_eq!(action, Action::Call(Request::GetAllDatabases));
    let (stage, action) =
        c.run(stage, Event::Replied(Err(CliError::ThriftError("boom".to_string()))));
    assert_eq!(stage, Stage::Done);
    assert_eq!(action, Action::Finish(Ok(r#"{"error":{"message":"boom"}}"#.to_string())));
}

#[test]
fn call_failure_is_reported_as_a_yaml_document() {
    let c = cli(Format::Yaml, Commands::GetCatalogs(GetCatalogs));
    let (stage, action) = connected(&c);
    assert_eq!(action, Action::Call(Request::GetCatalogs));
    let (_, action) = c.run(stage, Event::Replied(Err(CliError::ThriftError("boom".to_string()))));
    assert_eq!(action, Action::Finish(Ok("error:\n  message: boom\n".to_string())));
}

#[test]
fn get_catalogs_renders_the_names() {
    let c = cli(Format::Yaml, Commands::GetCatalogs(GetCatalogs));
    let (stage, _) = connected(&c);
    let answer = Response::Catalogs(GetCatalogsResponse {
        names: Some(vec!["hive".to_string(), "spark".to_string()]),
    });
    let (stage, action) = c.run(stage, Event::Replied(Ok(answer.clone())));
    assert_eq!(stage, Stage::AwaitingRendering);
    assert_eq!(action, Action::Render(Format::Yaml, answer));
}

#[test]
fn get_partitions_asks_for_ten_names() {
    let c = cli(
        Format::Json,
        Commands::GetPartitions(GetPartitions { database: "db".to_string(), table: "t".to_string() }),
    );
    let (stage, action) = connected(&c);
    assert_eq!(stage, Stage::AwaitingReply);
    assert_eq!(
        action,
        Action::Call(Request::GetPartitionNames {
            db_name: "db".to_string(),
            tbl_name: "t".to_string(),
            max_parts: 10
        })
    );
}

#[test]
fn get_partition_names_by_parts_passes_values_and_limit() {
    let c = cli(
        Format::Json,
        Commands::GetPartitionNamesByParts(GetPartitionNamesByParts {
            database: "db".to_string(),
            table: "t".to_string(),
            part_vals: vec!["2024".to_string(), "01".to_string()],
            max_parts: 1,
        }),
    );
    let (_, action) = connected(&c);
    assert_eq!(
        action,
        Action::Call(Request::GetPartitionNamesPs {
            db_name: "db".to_string(),
            tbl_name: "t".to_string(),
            part_vals: vec!["2024".to_string(), "01".to_string()],
            max_parts: 1
        })
    );
}

#[test]
fn get_table_fetches_the_named_tables() {
    let c = cli(
        Format::Json,
        Commands::GetTable(GetTable {
            database: "default".to_string(),
            table: vec!["a".to_string(), "b".to_string()],
        }),
    );
    let (stage, action) = connected(&c);
    assert_eq!(
        action,
        Action::Call(Request::GetTableObjectsByName {
            dbname: "default".to_string(),
            tbl_names: vec!["a".to_string(), "b".to_string()]
        })
    );
    let answer = Response::Tables(vec![table("a"), table("b")]);
    let (_, action) = c.run(stage, Event::Replied(Ok(answer.clone())));
    assert_eq!(action, Action::Render(Format::Json, answer));
}

#[test]
fn list_tables_fetches_the_names_it_found() {
    let c = cli(
        Format::Json,
        Commands::ListTables(ListTables { db_name: "default".to_string(), name_glob: "*".to_string() }),
    );
    let (stage, action) = connected(&c);
    assert_eq!(stage, Stage::AwaitingTableNames);
    assert_eq!(
        action,
        Action::Call(Request::GetTables { db_name: "default".to_string(), pattern: "*".to_string() })
    );
    let names = vec!["x".to_string(), "y".to_string()];
    let (stage, action) = c.run(stage, Event::Replied(Ok(Response::Names(names.clone()))));
    assert_eq!(stage, Stage::AwaitingReply);
    assert_eq!(
        action,
        Action::Call(Request::GetTableObjectsByName { dbname: "default".to_string(), tbl_names: names })
    );
    let answer = Response::Tables(vec![table("x"), table("y")]);
    let (stage, action) = c.run(stage, Event::Replied(Ok(answer.clone())));
    assert_eq!(stage, Stage::AwaitingRendering);
    assert_eq!(action, Action::Render(Format::Json, answer));
}

#[test]
fn list_tables_reports_a_failed_search() {
    let c = cli(
        Format::Json,
        Commands::ListTables(ListTables { db_name: "nope".to_string(), name_glob: "*".to_string() }),
    );
    let (stage, _) = connected(&c);
    let (stage, action) =
        c.run(stage, Event::Replied(Err(CliError::ThriftError("no such database".to_string()))));
    assert_eq!(stage, Stage::Done);
    assert_eq!(action, Action::Finish(Ok(r#"{"error":{"message":"no such database"}}"#.to_string())));
}

#[test]
fn create_table_stamps_sends_and_returns_the_table() {
    let c = cli(
        Format::Json,
        Commands::CreateTable(CreateTable {
            format: Format::Yaml,
            table_definition_file: "table.yaml".to_string(),
        }),
    );
    let (stage, action) = connected(&c);
    assert_eq!(stage, Stage::AwaitingClock);
    assert_eq!(action, Action::ReadClock);
    let (stage, action) = c.run(stage, Event::Clock(1_700_000_000));
    assert_eq!(stage, Stage::AwaitingDefinition(1_700_000_000));
    assert_eq!(action, Action::Load { path: "table.yaml".to_string(), format: Format::Yaml });
    let (stage, action) = c.run(stage, Event::Loaded(Ok(table("events"))));
    let mut sent = table("events");
    sent.create_time = Some(1_700_000_000);
    assert_eq!(stage, Stage::AwaitingCreation(sent.clone()));
    assert_eq!(action, Action::Call(Request::CreateTable(sent.clone())));
    let (stage, action) = c.run(stage, Event::Replied(Ok(Response::Nothing)));
    assert_eq!(stage, Stage::AwaitingRendering);
    assert_eq!(action, Action::Render(Format::Json, Response::Table(sent)));
}

#[test]
fn create_table_reports_an_unreadable_definition() {
    let c = cli(
        Format::Json,
        Commands::CreateTable(CreateTable {
            format: Format::Json,
            table_definition_file: "missing.json".to_string(),
        }),
    );
    let (stage, _) = connected(&c);
    let (stage, _) = c.run(stage, Event::Clock(0));
    let (stage, action) =
        c.run(stage, Event::Loaded(Err(CliError::ThriftError("No such file".to_string()))));
    assert_eq!(stage, Stage::Done);
    assert_eq!(action, Action::Finish(Ok(r#"{"error":{"message":"No such file"}}"#.to_string())));
}

#[test]
fn create_table_reports_a_refused_creation() {
    let c = cli(
        Format::Json,
        Commands::CreateTable(CreateTable {
            format: Format::Json,
            table_definition_file: "t.json".to_string(),
        }),
    );
    let (stage, _) = connected(&c);
    let (stage, _) = c.run(stage, Event::Clock(5));
    let (stage, _) = c.run(stage, Event::Loaded(Ok(table("t"))));
    let (stage, action) =
        c.run(stage, Event::Replied(Err(CliError::ThriftError("exists".to_string()))));
    assert_eq!(stage, Stage::Done);
    assert_eq!(action, Action::Finish(Ok(r#"{"error":{"message":"exists"}}"#.to_string())));
}

fn drop_cli() -> Cli {
    cli(
        Format::Json,
        Commands::DropTable(DropTable {
            db_name: "default".to_string(),
            table_name: "events".to_string(),
            delete: true,
        }),
    )
}

#[test]
fn drop_table_asks_first_and_drops_when_confirmed() {
    let c = drop_cli();
    let (stage, action) = connected(&c);
    assert_eq!(stage, Stage::AwaitingConfirmation);
    assert_eq!(action, Action::Confirm("Delete events?".to_string()));
    let (stage, action) = c.run(stage, Event::Confirmed(true));
    assert_eq!(stage, Stage::AwaitingReply);
    assert_eq!(
        action,
        Action::Call(Request::DropTable {
            dbname: "default".to_string(),
            name: "events".to_string(),
            delete_data: true
        })
    );
    let (stage, action) = c.run(stage, Event::Replied(Ok(Response::Nothing)));
    assert_eq!(stage, Stage::AwaitingRendering);
    assert_eq!(action, Action::Render(Format::Json, Response::Nothing));
}

#[test]
fn drop_table_does_nothing_when_declined() {
    let c = drop_cli();
    let (stage, _) = connected(&c);
    let (stage, action) = c.run(stage, Event::Confirmed(false));
    assert_eq!(stage, Stage::AwaitingRendering);
    assert_eq!(action, Action::Render(Format::Json, Response::Nothing));
}

#[test]
fn rendering_failure_is_the_format_serde_error() {
    let c = cli(Format::Yaml, Commands::GetDatabases(GetDatabases));
    let (stage, _) = connected(&c);
    let (stage, _) = c.run(stage, Event::Replied(Ok(Response::Names(vec![]))));
    let (stage, action) = c.run(stage, Event::Rendered(Err("bad".to_string())));
    assert_eq!(stage, Stage::Done);
    assert_eq!(action, Action::Finish(Err(CliError::YamlSerdeError("bad".to_string()))));

    let c = cli(Format::Json, Commands::GetDatabases(GetDatabases));
    let (stage, _) = connected(&c);
    let (stage, _) = c.run(stage, Event::Replied(Ok(Response::Names(vec![]))));
    let (_, action) = c.run(stage, Event::Rendered(Err("bad".to_string())));
    assert_eq!(action, Action::Finish(Err(CliError::JsonSerdeError("bad".to_string()))));
}

#[test]
fn unexpected_events_are_ignored() {
    let c = cli(Format::Json, Commands::GetDatabases(GetDatabases));
    assert_eq!(c.run(Stage::Start, Event::Confirmed(true)), (Stage::Start, Action::Idle));
    assert_eq!(
        c.run(Stage::Connecting, Event::Clock(1)),
        (Stage::Connecting, Action::Idle)
    );
    assert_eq!(
        c.run(Stage::AwaitingClock, Event::Clock(1)),
        (Stage::AwaitingClock, Action::Idle)
    );
    assert_eq!(c.run(Stage::Done, Event::Begin), (Stage::Done, Action::Idle));
    let l = cli(
        Format::Json,
        Commands::ListTables(ListTables { db_name: "d".to_string(), name_glob: "*".to_string() }),
    );
    assert_eq!(
        l.run(Stage::AwaitingTableNames, Event::Replied(Ok(Response::Nothing))),
        (Stage::AwaitingTableNames, Action::Idle)
    );
}

#[test]
fn create_catalog_result_is_nothing_whatever_the_answer() {
    let c = cli(
        Format::Json,
        Commands::CreateCatalog(CreateCatalog {
            name: "c".to_string(),
            location_uri: None,
            description: None,
        }),
    );
    let (stage, _) = connected(&c);
    let (stage, action) = c.run(stage, Event::Replied(Ok(Response::Names(vec!["x".to_string()]))));
    assert_eq!(stage, Stage::AwaitingRendering);
    assert_eq!(action, Action::Render(Format::Json, Response::Nothing));
}

#[test]
fn metastore_error_on_get_databases_is_an_ok_document() {
    let c = cli(Format::Json, Commands::GetDatabases(GetDatabases));
    let (stage, _) = connected(&c);
    let (_, action) = c.run(stage, Event::Replied(Err(CliError::ThriftError("boom".to_string()))));
    match action {
        Action::Finish(Ok(out)) => {
            let value: serde_json::Value = serde_json::from_str(&out).unwrap();
            assert_eq!(value["error"]["message"], serde_json::Value::String("boom".to_string()));
        }
        other => panic!("unexpected action {:?}", other),
    }
}
