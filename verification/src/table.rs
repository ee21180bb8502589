//! Tables: the row types that define their columns, and the configurations
//! with which a connection is opened.
use vstd::prelude::*;
use std::any::TypeId;
use std::sync::Arc;
use rusqlite::Connection;
use tabled::builder::Builder;
use crate::connection::DbConnection;
use crate::error::DbError;
use crate::row_id::RowId;

verus! {

/// The name and Rust type of one column of a row type.
#[derive(Debug)]
pub struct FieldTypeInfo {
    pub name: String,
    pub type_id: TypeId,
}

impl FieldTypeInfo {
    /// The column's name.
    pub fn name(&self) -> (r: &String)
        ensures
            r == &self.name,
    {
        &self.name
    }

    /// The Rust type of the column's values.
    pub fn type_id(&self) -> (r: TypeId)
        ensures
            r == self.type_id,
    {
        self.type_id
    }
}

/// A struct that defines a table's columns, one field per column.
///
/// Implementations are written for each row type (usually generated); the
/// data layer calls them when it sets up a connection and when it lists or
/// shows rows.
pub trait TableRow: Sized + std::fmt::Debug {
    /// Creates the table named `table_name` on `connection` if it does not
    /// exist yet.
    fn setup(connection: &mut Connection, table_name: String) -> Result<(), DbError>;

    /// Reads one row of the table into a value of this type.
    fn from_table_row(
        db_connection: &mut DbConnection,
        table_name: String,
        row_id: RowId,
    ) -> Result<Self, DbError>;

    /// Pushes the names of the fields as a header record into a table
    /// builder.
    fn push_tabled_header(builder: &mut Builder);

    /// Pushes the values of one row as a record into a table builder.
    fn push_tabled_record(
        builder: &mut Builder,
        db_connection: &mut DbConnection,
        table_name: String,
        row_id: RowId,
    );

    /// All the fields of one row, as text.
    fn get_fields_as_strings(
        db_connection: &mut DbConnection,
        table_name: String,
        row_id: RowId,
    ) -> Vec<String>;

    /// The names and types of the fields.
    fn field_types() -> Vec<FieldTypeInfo>;
}

/// The operations of one row type that a table configuration reaches: those
/// that do not take a connection (a configuration is part of a connection).
trait RowType: Send + Sync {
    /// `r` is a result that the row type's `setup` can give when called with
    /// `connection` and `table_name`.
    spec fn setup_call(&self, connection: &mut Connection, table_name: String, r: Result<
        (),
        DbError,
    >) -> bool;

    /// `builder` can be what the row type's `push_tabled_header` is called
    /// with.
    spec fn header_call(&self, builder: &mut Builder) -> bool;

    /// `r` is a list that the row type's `field_types` can give.
    spec fn field_types_call(&self, r: Vec<FieldTypeInfo>) -> bool;

    fn setup(&self, connection: &mut Connection, table_name: String) -> (r: Result<(), DbError>)
        ensures
            exists|m: &mut Connection|
                *m == *old(connection) && *final(m) == *final(connection) && self.setup_call(
                    m,
                    table_name,
                    r,
                ),
    ;

    fn push_tabled_header(&self, builder: &mut Builder)
        ensures
            exists|m: &mut Builder|
                *m == *old(builder) && *final(m) == *final(builder) && self.header_call(m),
    ;

    fn field_types(&self) -> (r: Vec<FieldTypeInfo>)
        ensures
            self.field_types_call(r),
    ;
}

/// The row type `T` as a `RowType`.
struct RowTypeOf<T> {
    row: core::marker::PhantomData<T>,
}

impl<T: TableRow + Send + Sync> RowType for RowTypeOf<T> {
    spec fn setup_call(&self, connection: &mut Connection, table_name: String, r: Result<
        (),
        DbError,
    >) -> bool {
        call_ensures(T::setup, (connection, table_name), r)
    }

    spec fn header_call(&self, builder: &mut Builder) -> bool {
        call_ensures(T::push_tabled_header, (builder,), ())
    }

    spec fn field_types_call(&self, r: Vec<FieldTypeInfo>) -> bool {
        call_ensures(T::field_types, (), r)
    }

    fn setup(&self, connection: &mut Connection, table_name: String) -> (r: Result<(), DbError>) {
        let ghost name = table_name;
        let r = T::setup(connection, table_name);
        proof {
            assert(exists|m: &mut Connection|
                *m == *old(connection) && *final(m) == *final(connection) && call_ensures(
                    T::setup,
                    (m, name),
                    r,
                ));
            let m = choose|m: &mut Connection|
                *m == *old(connection) && *final(m) == *final(connection) && call_ensures(
                    T::setup,
                    (m, name),
                    r,
                );
            assert(self.setup_call(m, name, r));
        }
        r
    }

    fn push_tabled_header(&self, builder: &mut Builder) {
        T::push_tabled_header(builder);
        proof {
            assert(exists|m: &mut Builder|
                *m == *old(builder) && *final(m) == *final(builder) && call_ensures(
                    T::push_tabled_header,
                    (m,),
                    (),
                ));
            let m = choose|m: &mut Builder|
                *m == *old(builder) && *final(m) == *final(builder) && call_ensures(
                    T::push_tabled_header,
                    (m,),
                    (),
                );
            assert(self.header_call(m));
        }
    }

    fn field_types(&self) -> (r: Vec<FieldTypeInfo>) {
        T::field_types()
    }
}

/// A configuration for a SQL table: its name and the row type whose
/// operations set it up and show it. Used when opening a database
/// connection to ensure all needed tables exist.
pub struct TableConfig {
    /// The name of the table.
    pub table_name: String,
    row_type: Arc<Box<dyn RowType>>,
}

impl TableConfig {
    /// The name of the table.
    pub closed spec fn name_spec(&self) -> Seq<char> {
        self.table_name@
    }

    /// The name of the table, as a `String`.
    pub closed spec fn table_name_value(&self) -> String {
        self.table_name
    }

    /// `r` is a result that this table's row type's `setup` can give when
    /// called with `connection` and `table_name`.
    pub closed spec fn setup_call(
        &self,
        connection: &mut Connection,
        table_name: String,
        r: Result<(), DbError>,
    ) -> bool {
        self.row_type.setup_call(connection, table_name, r)
    }

    /// `builder` can be what this table's row type's `push_tabled_header` is
    /// called with.
    pub closed spec fn header_call(&self, builder: &mut Builder) -> bool {
        self.row_type.header_call(builder)
    }

    /// `r` is a list that this table's row type's `field_types` can give.
    pub closed spec fn field_types_call(&self, r: Vec<FieldTypeInfo>) -> bool {
        self.row_type.field_types_call(r)
    }

    /// The name of the table.
    pub fn name(&self) -> (r: &String)
        ensures
            r@ == self.name_spec(),
            *r == self.table_name_value(),
    {
        &self.table_name
    }

    /// A configuration for a table named `table_name` whose rows are of type
    /// `T`: its operations are those of `T`.
    pub fn new<T: TableRow + Send + Sync + 'static>(table_name: &str) -> (r: TableConfig)
        ensures
            r.name_spec() == table_name@,
            forall|c: &mut Connection, name: String, out: Result<(), DbError>|
                r.setup_call(c, name, out) == call_ensures(T::setup, (c, name), out),
            forall|b: &mut Builder| r.header_call(b) == call_ensures(T::push_tabled_header, (b,), ()),
            forall|v: Vec<FieldTypeInfo>| r.field_types_call(v) == call_ensures(T::field_types, (), v),
    {
        let row_type: Box<dyn RowType> = Box::new(RowTypeOf::<T> { row: core::marker::PhantomData });
        let shared = Arc::new(row_type);
        let r = TableConfig { table_name: String::from_str(table_name), row_type: shared };
        r
    }

    /// Sets the table up on a connection: the row type's `setup`.
    pub fn setup(&self, connection: &mut Connection, table_name: String) -> (r: Result<(), DbError>)
        ensures
            exists|m: &mut Connection|
                *m == *old(connection) && *final(m) == *final(connection) && self.setup_call(
                    m,
                    table_name,
                    r,
                ),
    {
        let ghost name = table_name;
        let r = self.row_type.setup(connection, table_name);
        proof {
            let m = choose|m: &mut Connection|
                *m == *old(connection) && *final(m) == *final(connection)
                    && self.row_type.setup_call(m, name, r);
            assert(self.setup_call(m, name, r));
        }
        r
    }

    /// Pushes the header record of the row type into a table builder: the row
    /// type's `push_tabled_header`.
    pub fn push_tabled_header(&self, builder: &mut Builder)
        ensures
            exists|m: &mut Builder|
                *m == *old(builder) && *final(m) == *final(builder) && self.header_call(m),
    {
        self.row_type.push_tabled_header(builder);
        proof {
            let m = choose|m: &mut Builder|
                *m == *old(builder) && *final(m) == *final(builder) && self.row_type.header_call(m);
            assert(self.header_call(m));
        }
    }

    /// The names and types of the row type's fields: the row type's
    /// `field_types`.
    pub fn field_types(&self) -> (r: Vec<FieldTypeInfo>)
        ensures
            self.field_types_call(r),
    {
        self.row_type.field_types()
    }
}

impl Clone for TableConfig {
    /// A configuration for the same table and row type.
    fn clone(&self) -> (r: TableConfig)
        ensures
            r.name_spec() == self.name_spec(),
    {
        TableConfig { table_name: self.table_name.clone(), row_type: self.row_type.clone() }
    }
}

/// The table configurations registered before a connection is opened, in
/// the order in which they were added.
pub struct DbTableConfigsRes(pub Vec<TableConfig>);

impl Default for DbTableConfigsRes {
    /// No configurations.
    fn default() -> (r: DbTableConfigsRes)
        ensures
            r.0@.len() == 0,
    {
        DbTableConfigsRes(Vec::new())
    }
}

impl DbTableConfigsRes {
    /// Registers one more table configuration, after the others.
    pub fn add_table(&mut self, config: TableConfig)
        ensures
            final(self).0@ == old(self).0@.push(config),
    {
        self.0.push(config);
    }
}

} // verus!
