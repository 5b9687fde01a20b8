use crate::cli::Format;
use crate::metastore::{Request, RequestView};
use vstd::prelude::*;

verus! {

/// Get tables by database and table names.
#[derive(Debug, Clone, PartialEq, Eq)]
pub struct GetTable {
    pub database: String,
    pub table: Vec<String>,
}

impl GetTable {
    /// The call that fetches the named tables of the database.
    pub open spec fn spec_call(self) -> RequestView {
        RequestView::GetTableObjectsByName {
            dbname: self.database@,
            tbl_names: self.table.deep_view(),
        }
    }

    pub fn call(&self) -> (r: Request)
        ensures
            r@ == self.spec_call(),
    {
        let tbl_names = self.table.clone();
        assert(tbl_names.deep_view() =~= self.table.deep_view());
        Request::GetTableObjectsByName { dbname: self.database.clone(), tbl_names }
    }
}

/// Create a table from a table definition file.
#[derive(Debug, Clone, PartialEq, Eq)]
pub struct CreateTable {
    /// The format of the table definition file.
    pub format: Format,
    /// The path of the table definition file.
    pub table_definition_file: String,
}

impl CreateTable {
    /// The creation time given to the table: the seconds since the Unix
    /// epoch, which must fit in an `i32`.
    pub fn creation_time(seconds: u64) -> (r: i32)
        requires
            seconds <= i32::MAX,
        ensures
            r == seconds,
    {
        seconds as i32
    }
}

/// Drop a single table by database and table name.
#[derive(Debug, Clone, PartialEq, Eq)]
pub struct DropTable {
    pub db_name: String,
    pub table_name: String,
    /// Whether the table's data is deleted too.
    pub delete: bool,
}

impl DropTable {
    /// The question put to the user before the table is dropped.
    pub open spec fn spec_prompt(self) -> Seq<char> {
        "Delete "@ + self.table_name@ + "?"@
    }

    pub fn prompt(&self) -> (r: String)
        ensures
            r@ == self.spec_prompt(),
    {
        let question = String::from_str("Delete ");
        let question = question.concat(self.table_name.as_str());
        question.concat("?")
    }

    /// The call that drops the table.
    pub open spec fn spec_call(self) -> RequestView {
        RequestView::DropTable {
            dbname: self.db_name@,
            tbl_name: self.table_name@,
            delete_data: self.delete,
        }
    }

    pub fn call(&self) -> (r: Request)
        ensures
            r@ == self.spec_call(),
    {
        Request::DropTable {
            dbname: self.db_name.clone(),
            name: self.table_name.clone(),
            delete_data: self.delete,
        }
    }
}

/// Get the tables of a database whose names match a pattern.
#[derive(Debug, Clone, PartialEq, Eq)]
pub struct ListTables {
    pub db_name: String,
    /// The pattern on table names; `*` matches every name.
    pub name_glob: String,
}

impl ListTables {
    /// The call that lists the names of the matching tables.
    pub open spec fn spec_call(self) -> RequestView {
        RequestView::GetTables { db_name: self.db_name@, pattern: self.name_glob@ }
    }

    pub fn call(&self) -> (r: Request)
        ensures
            r@ == self.spec_call(),
    {
        Request::GetTables { db_name: self.db_name.clone(), pattern: self.name_glob.clone() }
    }

    /// The call that fetches the tables named `names` in the database.
    pub open spec fn spec_fetch(self, names: Seq<Seq<char>>) -> RequestView {
        RequestView::GetTableObjectsByName { dbname: self.db_name@, tbl_names: names }
    }

    pub fn fetch(&self, names: Vec<String>) -> (r: Request)
        ensures
            r@ == self.spec_fetch(names.deep_view()),
    {
        Request::GetTableObjectsByName { dbname: self.db_name.clone(), tbl_names: names }
    }
}

} // verus!
