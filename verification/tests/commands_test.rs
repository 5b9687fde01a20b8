use nektar::cli::Format;
use nektar::cmds::catalogs::{CreateCatalog, GetCatalog};
use nektar::cmds::partitions::PARTITION_NAMES_LIMIT;
use nektar::cmds::tables::{CreateTable, DropTable};
use nektar::metastore::{
    Catalog, CreateCatalogRequest, Duplicate, FieldSchema, GetCatalogRequest, Order, SerDeInfo,
    StorageDescriptor, Table,
};

#[test]
fn get_catalog_into_request() {
    let request: GetCatalogRequest = GetCatalog { name: "hive".to_string() }.into();
    assert_eq!(request, GetCatalogRequest { name: Some("hive".to_string()) });
}

#[test]
fn create_catalog_into_catalog_and_request() {
    let cmd = CreateCatalog {
        name: "c".to_string(),
        location_uri: Some("s3://bucket".to_string()),
        description: None,
    };
    let catalog: Catalog = cmd.clone().into();
    assert_eq!(
        catalog,
        Catalog { name: Some("c".to_string()), description: None, location_uri: Some("s3://bucket".to_string()) }
    );
    let request: CreateCatalogRequest = cmd.into();
    assert_eq!(request, CreateCatalogRequest { catalog: Some(catalog) });
}

#[test]
fn drop_table_prompt() {
    let cmd = DropTable { db_name: "d".to_string(), table_name: "t1".to_string(), delete: false };
    assert_eq!(cmd.prompt(), "Delete t1?");
}

#[test]
fn creation_time_is_the_seconds() {
    assert_eq!(CreateTable::creation_time(0), 0);
    assert_eq!(CreateTable::creation_time(i32::MAX as u64), i32::MAX);
    let cmd = CreateTable { format: Format::Json, table_definition_file: "f".to_string() };
    assert_eq!(cmd.format, Format::Json);
}

#[test]
fn partition_names_limit_is_ten() {
    assert_eq!(PARTITION_NAMES_LIMIT, 10);
}

#[test]
fn stamp_sets_only_the_creation_time() {
    let column = FieldSchema {
        name: Some("id".to_string()),
        type_: Some("bigint".to_string()),
        comment: None,
    };
    let mut t = Table {
        table_name: Some("t".to_string()),
        db_name: Some("d".to_string()),
        owner: None,
        create_time: Some(1),
        last_access_time: None,
        retention: None,
        sd: Some(StorageDescriptor {
            cols: Some(vec![column.clone()]),
            location: Some("file:/tmp/t".to_string()),
            input_format: None,
            output_format: None,
            compressed: Some(false),
            num_buckets: Some(-1),
            serde_info: Some(SerDeInfo {
                name: None,
                serialization_lib: Some("lib".to_string()),
                parameters: Some(vec![]),
            }),
            bucket_cols: Some(vec![]),
            sort_cols: Some(vec![Order { col: Some("id".to_string()), order: Some(1) }]),
            parameters: None,
            stored_as_sub_directories: None,
        }),
        partition_keys: Some(vec![column]),
        parameters: None,
        view_original_text: None,
        view_expanded_text: None,
        table_type: None,
        temporary: Some(false),
        rewrite_enabled: None,
        cat_name: None,
    };
    let before = t.clone();
    t.stamp(42);
    assert_eq!(t.create_time, Some(42));
    let mut expected = before.clone();
    expected.create_time = Some(42);
    assert_eq!(t, expected);
    assert_eq!(t.duplicate(), t);
}
