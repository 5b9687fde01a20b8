use vstd::prelude::*;

verus! {

/// Copying a value so that the copy has the same contents.
pub trait Duplicate: Sized + DeepView {
    fn duplicate(&self) -> (r: Self)
        ensures
            r.deep_view() == self.deep_view(),
    ;
}

impl Duplicate for String {
    fn duplicate(&self) -> (r: String) {
        self.clone()
    }
}

impl Duplicate for i16 {
    fn duplicate(&self) -> (r: i16) {
        *self
    }
}

impl Duplicate for i32 {
    fn duplicate(&self) -> (r: i32) {
        *self
    }
}

impl Duplicate for bool {
    fn duplicate(&self) -> (r: bool) {
        *self
    }
}

impl<A: Duplicate, B: Duplicate> Duplicate for (A, B) {
    fn duplicate(&self) -> (r: (A, B)) {
        (self.0.duplicate(), self.1.duplicate())
    }
}

impl<T: Duplicate> Duplicate for Option<T> {
    fn duplicate(&self) -> (r: Option<T>) {
        match self {
            Some(t) => Some(t.duplicate()),
            None => None,
        }
    }
}

impl<T: Duplicate> Duplicate for Vec<T> {
    fn duplicate(&self) -> (r: Vec<T>) {
        let mut r: Vec<T> = Vec::new();
        let n: usize = self.len();
        for i in 0..n
            invariant
                n == self.len(),
                r.len() == i,
                forall|j: int| 0 <= j < i ==> #[trigger] r@[j].deep_view() == self@[j].deep_view(),
        {
            r.push(self[i].duplicate());
        }
        assert(r.deep_view() =~= self.deep_view());
        r
    }
}

/// A column of a table: name, type and comment.
#[derive(Debug, Clone, PartialEq, Eq)]
pub struct FieldSchema {
    pub name: Option<String>,
    pub type_: Option<String>,
    pub comment: Option<String>,
}

pub struct FieldSchemaView {
    pub name: Option<Seq<char>>,
    pub type_: Option<Seq<char>>,
    pub comment: Option<Seq<char>>,
}

impl View for FieldSchema {
    type V = FieldSchemaView;

    open spec fn view(&self) -> FieldSchemaView {
        FieldSchemaView {
            name: self.name.deep_view(),
            type_: self.type_.deep_view(),
            comment: self.comment.deep_view(),
        }
    }
}

impl DeepView for FieldSchema {
    type V = FieldSchemaView;

    open spec fn deep_view(&self) -> FieldSchemaView {
        self@
    }
}

impl Duplicate for FieldSchema {
    fn duplicate(&self) -> (r: FieldSchema) {
        FieldSchema {
            name: self.name.duplicate(),
            type_: self.type_.duplicate(),
            comment: self.comment.duplicate(),
        }
    }
}

/// A sort order on a column.
#[derive(Debug, Clone, PartialEq, Eq)]
pub struct Order {
    pub col: Option<String>,
    pub order: Option<i32>,
}

pub struct OrderView {
    pub col: Option<Seq<char>>,
    pub order: Option<i32>,
}

impl View for Order {
    type V = OrderView;

    open spec fn view(&self) -> OrderView {
        OrderView { col: self.col.deep_view(), order: self.order }
    }
}

impl DeepView for Order {
    type V = OrderView;

    open spec fn deep_view(&self) -> OrderView {
        self@
    }
}

impl Duplicate for Order {
    fn duplicate(&self) -> (r: Order) {
        Order { col: self.col.duplicate(), order: self.order }
    }
}

/// Serialisation settings of a table's storage.
#[derive(Debug, Clone, PartialEq, Eq)]
pub struct SerDeInfo {
    pub name: Option<String>,
    pub serialization_lib: Option<String>,
    pub parameters: Option<Vec<(String, String)>>,
}

pub struct SerDeInfoView {
    pub name: Option<Seq<char>>,
    pub serialization_lib: Option<Seq<char>>,
    pub parameters: Option<Seq<(Seq<char>, Seq<char>)>>,
}

impl View for SerDeInfo {
    type V = SerDeInfoView;

    open spec fn view(&self) -> SerDeInfoView {
        SerDeInfoView {
            name: self.name.deep_view(),
            serialization_lib: self.serialization_lib.deep_view(),
            parameters: self.parameters.deep_view(),
        }
    }
}

impl DeepView for SerDeInfo {
    type V = SerDeInfoView;

    open spec fn deep_view(&self) -> SerDeInfoView {
        self@
    }
}

impl Duplicate for SerDeInfo {
    fn duplicate(&self) -> (r: SerDeInfo) {
        SerDeInfo {
            name: self.name.duplicate(),
            serialization_lib: self.serialization_lib.duplicate(),
            parameters: self.parameters.duplicate(),
        }
    }
}

/// Where and how a table's data is stored.
#[derive(Debug, Clone, PartialEq, Eq)]
pub struct StorageDescriptor {
    pub cols: Option<Vec<FieldSchema>>,
    pub location: Option<String>,
    pub input_format: Option<String>,
    pub output_format: Option<String>,
    pub compressed: Option<bool>,
    pub num_buckets: Option<i32>,
    pub serde_info: Option<SerDeInfo>,
    pub bucket_cols: Option<Vec<String>>,
    pub sort_cols: Option<Vec<Order>>,
    pub parameters: Option<Vec<(String, String)>>,
    pub stored_as_sub_directories: Option<bool>,
}

pub struct StorageDescriptorView {
    pub cols: Option<Seq<FieldSchemaView>>,
    pub location: Option<Seq<char>>,
    pub input_format: Option<Seq<char>>,
    pub output_format: Option<Seq<char>>,
    pub compressed: Option<bool>,
    pub num_buckets: Option<i32>,
    pub serde_info: Option<SerDeInfoView>,
    pub bucket_cols: Option<Seq<Seq<char>>>,
    pub sort_cols: Option<Seq<OrderView>>,
    pub parameters: Option<Seq<(Seq<char>, Seq<char>)>>,
    pub stored_as_sub_directories: Option<bool>,
}

impl View for StorageDescriptor {
    type V = StorageDescriptorView;

    open spec fn view(&self) -> StorageDescriptorView {
        StorageDescriptorView {
            cols: self.cols.deep_view(),
            location: self.location.deep_view(),
            input_format: self.input_format.deep_view(),
            output_format: self.output_format.deep_view(),
            compressed: self.compressed,
            num_buckets: self.num_buckets,
            serde_info: self.serde_info.deep_view(),
            bucket_cols: self.bucket_cols.deep_view(),
            sort_cols: self.sort_cols.deep_view(),
            parameters: self.parameters.deep_view(),
            stored_as_sub_directories: self.stored_as_sub_directories,
        }
    }
}

impl DeepView for StorageDescriptor {
    type V = StorageDescriptorView;

    open spec fn deep_view(&self) -> StorageDescriptorView {
        self@
    }
}

impl Duplicate for StorageDescriptor {
    fn duplicate(&self) -> (r: StorageDescriptor) {
        StorageDescriptor {
            cols: self.cols.duplicate(),
            location: self.location.duplicate(),
            input_format: self.input_format.duplicate(),
            output_format: self.output_format.duplicate(),
            compressed: self.compressed,
            num_buckets: self.num_buckets,
            serde_info: self.serde_info.duplicate(),
            bucket_cols: self.bucket_cols.duplicate(),
            sort_cols: self.sort_cols.duplicate(),
            parameters: self.parameters.duplicate(),
            stored_as_sub_directories: self.stored_as_sub_directories,
        }
    }
}

/// A table of the metastore.
#[derive(Debug, Clone, PartialEq, Eq)]
pub struct Table {
    pub table_name: Option<String>,
    pub db_name: Option<String>,
    pub owner: Option<String>,
    pub create_time: Option<i32>,
    pub last_access_time: Option<i32>,
    pub retention: Option<i32>,
    pub sd: Option<StorageDescriptor>,
    pub partition_keys: Option<Vec<FieldSchema>>,
    pub parameters: Option<Vec<(String, String)>>,
    pub view_original_text: Option<String>,
    pub view_expanded_text: Option<String>,
    pub table_type: Option<String>,
    pub temporary: Option<bool>,
    pub rewrite_enabled: Option<bool>,
    pub cat_name: Option<String>,
}

pub struct TableView {
    pub table_name: Option<Seq<char>>,
    pub db_name: Option<Seq<char>>,
    pub owner: Option<Seq<char>>,
    pub create_time: Option<i32>,
    pub last_access_time: Option<i32>,
    pub retention: Option<i32>,
    pub sd: Option<StorageDescriptorView>,
    pub partition_keys: Option<Seq<FieldSchemaView>>,
    pub parameters: Option<Seq<(Seq<char>, Seq<char>)>>,
    pub view_original_text: Option<Seq<char>>,
    pub view_expanded_text: Option<Seq<char>>,
    pub table_type: Option<Seq<char>>,
    pub temporary: Option<bool>,
    pub rewrite_enabled: Option<bool>,
    pub cat_name: Option<Seq<char>>,
}

impl View for Table {
    type V = TableView;

    open spec fn view(&self) -> TableView {
        TableView {
            table_name: self.table_name.deep_view(),
            db_name: self.db_name.deep_view(),
            owner: self.owner.deep_view(),
            create_time: self.create_time,
            last_access_time: self.last_access_time,
            retention: self.retention,
            sd: self.sd.deep_view(),
            partition_keys: self.partition_keys.deep_view(),
            parameters: self.parameters.deep_view(),
            view_original_text: self.view_original_text.deep_view(),
            view_expanded_text: self.view_expanded_text.deep_view(),
            table_type: self.table_type.deep_view(),
            temporary: self.temporary,
            rewrite_enabled: self.rewrite_enabled,
            cat_name: self.cat_name.deep_view(),
        }
    }
}

impl DeepView for Table {
    type V = TableView;

    open spec fn deep_view(&self) -> TableView {
        self@
    }
}

impl Duplicate for Table {
    fn duplicate(&self) -> (r: Table) {
        Table {
            table_name: self.table_name.duplicate(),
            db_name: self.db_name.duplicate(),
            owner: self.owner.duplicate(),
            create_time: self.create_time,
            last_access_time: self.last_access_time,
            retention: self.retention,
            sd: self.sd.duplicate(),
            partition_keys: self.partition_keys.duplicate(),
            parameters: self.parameters.duplicate(),
            view_original_text: self.view_original_text.duplicate(),
            view_expanded_text: self.view_expanded_text.duplicate(),
            table_type: self.table_type.duplicate(),
            temporary: self.temporary,
            rewrite_enabled: self.rewrite_enabled,
            cat_name: self.cat_name.duplicate(),
        }
    }
}

/// The table `t` with its creation time replaced by `seconds`.
pub open spec fn stamped(t: TableView, seconds: i32) -> TableView {
    TableView { create_time: Some(seconds), ..t }
}

impl Table {
    /// Sets the creation time, leaving every other field as it was.
    pub fn stamp(&mut self, seconds: i32)
        ensures
            final(self)@ == stamped(old(self)@, seconds),
    {
        self.create_time = Some(seconds);
    }
}

/// A catalog: a namespace above databases.
#[derive(Debug, Clone, PartialEq, Eq)]
pub struct Catalog {
    pub name: Option<String>,
    pub description: Option<String>,
    pub location_uri: Option<String>,
}

pub struct CatalogView {
    pub name: Option<Seq<char>>,
    pub description: Option<Seq<char>>,
    pub location_uri: Option<Seq<char>>,
}

impl View for Catalog {
    type V = CatalogView;

    open spec fn view(&self) -> CatalogView {
        CatalogView {
            name: self.name.deep_view(),
            description: self.description.deep_view(),
            location_uri: self.location_uri.deep_view(),
        }
    }
}

impl DeepView for Catalog {
    type V = CatalogView;

    open spec fn deep_view(&self) -> CatalogView {
        self@
    }
}

/// The argument of the `get_catalog` call.
#[derive(Debug, Clone, PartialEq, Eq)]
pub struct GetCatalogRequest {
    pub name: Option<String>,
}

/// The argument of the `create_catalog` call.
#[derive(Debug, Clone, PartialEq, Eq)]
pub struct CreateCatalogRequest {
    pub catalog: Option<Catalog>,
}

/// The answer to the `get_catalog` call.
#[derive(Debug, Clone, PartialEq, Eq)]
pub struct GetCatalogResponse {
    pub catalog: Option<Catalog>,
}

/// The answer to the `get_catalogs` call.
#[derive(Debug, Clone, PartialEq, Eq)]
pub struct GetCatalogsResponse {
    pub names: Option<Vec<String>>,
}

/// A call to the metastore, with its arguments.
#[derive(Debug, Clone, PartialEq, Eq)]
pub enum Request {
    GetCatalog(GetCatalogRequest),
    GetCatalogs,
    CreateCatalog(CreateCatalogRequest),
    GetAllDatabases,
    GetPartitionNames { db_name: String, tbl_name: String, max_parts: i16 },
    GetPartitionNamesPs {
        db_name: String,
        tbl_name: String,
        part_vals: Vec<String>,
        max_parts: i16,
    },
    GetTableObjectsByName { dbname: String, tbl_names: Vec<String> },
    GetTables { db_name: String, pattern: String },
    CreateTable(Table),
    DropTable { dbname: String, name: String, delete_data: bool },
}

pub enum RequestView {
    GetCatalog { catalog_name: Option<Seq<char>> },
    GetCatalogs,
    CreateCatalog { catalog: Option<CatalogView> },
    GetAllDatabases,
    GetPartitionNames { db_name: Seq<char>, tbl_name: Seq<char>, max_parts: i16 },
    GetPartitionNamesPs {
        db_name: Seq<char>,
        tbl_name: Seq<char>,
        part_vals: Seq<Seq<char>>,
        max_parts: i16,
    },
    GetTableObjectsByName { dbname: Seq<char>, tbl_names: Seq<Seq<char>> },
    GetTables { db_name: Seq<char>, pattern: Seq<char> },
    CreateTable { table: TableView },
    DropTable { dbname: Seq<char>, tbl_name: Seq<char>, delete_data: bool },
}

impl View for Request {
    type V = RequestView;

    open spec fn view(&self) -> RequestView {
        match self {
            Request::GetCatalog(r) => RequestView::GetCatalog { catalog_name: r.name.deep_view() },
            Request::GetCatalogs => RequestView::GetCatalogs,
            Request::CreateCatalog(r) => RequestView::CreateCatalog {
                catalog: r.catalog.deep_view(),
            },
            Request::GetAllDatabases => RequestView::GetAllDatabases,
            Request::GetPartitionNames { db_name, tbl_name, max_parts } =>
                RequestView::GetPartitionNames {
                    db_name: db_name@,
                    tbl_name: tbl_name@,
                    max_parts: *max_parts,
                },
            Request::GetPartitionNamesPs { db_name, tbl_name, part_vals, max_parts } =>
                RequestView::GetPartitionNamesPs {
                    db_name: db_name@,
                    tbl_name: tbl_name@,
                    part_vals: part_vals.deep_view(),
                    max_parts: *max_parts,
                },
            Request::GetTableObjectsByName { dbname, tbl_names } =>
                RequestView::GetTableObjectsByName {
                    dbname: dbname@,
                    tbl_names: tbl_names.deep_view(),
                },
            Request::GetTables { db_name, pattern } => RequestView::GetTables {
                db_name: db_name@,
                pattern: pattern@,
            },
            Request::CreateTable(t) => RequestView::CreateTable { table: t@ },
            Request::DropTable { dbname, name, delete_data } => RequestView::DropTable {
                dbname: dbname@,
                tbl_name: name@,
                delete_data: *delete_data,
            },
        }
    }
}

/// What a successful run produces before it is written out: the answer of
/// the metastore, the table that was created, or nothing.
#[derive(Debug, Clone, PartialEq, Eq)]
pub enum Response {
    Catalog(GetCatalogResponse),
    Catalogs(GetCatalogsResponse),
    Names(Vec<String>),
    Tables(Vec<Table>),
    Table(Table),
    Nothing,
}

pub enum ResponseView {
    Catalog { catalog: Option<CatalogView> },
    Catalogs { catalog_names: Option<Seq<Seq<char>>> },
    Names { names: Seq<Seq<char>> },
    Tables { tables: Seq<TableView> },
    Table { table: TableView },
    Nothing,
}

impl View for Response {
    type V = ResponseView;

    open spec fn view(&self) -> ResponseView {
        match self {
            Response::Catalog(r) => ResponseView::Catalog { catalog: r.catalog.deep_view() },
            Response::Catalogs(r) => ResponseView::Catalogs { catalog_names: r.names.deep_view() },
            Response::Names(names) => ResponseView::Names { names: names.deep_view() },
            Response::Tables(tables) => ResponseView::Tables { tables: tables.deep_view() },
            Response::Table(t) => ResponseView::Table { table: t@ },
            Response::Nothing => ResponseView::Nothing,
        }
    }
}

} // verus!
