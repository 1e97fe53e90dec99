use vstd::prelude::*;
use crate::error::RepoError;

verus! {

/// The storage type of a column.
#[derive(Debug, Clone, Copy, PartialEq, Eq, Structural)]
pub enum ColumnType {
    /// Text; enums are stored as their string tokens.
    Text,
    /// A timestamp with microsecond precision.
    Timestamp,
    /// A double-precision floating-point number.
    Double,
}

/// One column: its name, storage type and whether it may hold null.
#[derive(Debug, Clone, PartialEq, Eq)]
pub struct ColumnDescriptor {
    pub name: String,
    pub column_type: ColumnType,
    pub nullable: bool,
}

/// A secondary index over one column.
#[derive(Debug, Clone, PartialEq, Eq)]
pub struct IndexDescriptor {
    pub name: String,
    pub column: String,
    pub is_unique: bool,
    pub ascending: bool,
}

/// The layout of one table: its name, primary key, columns in order and
/// secondary indexes.
#[derive(Debug, Clone, PartialEq, Eq)]
pub struct TableSchema {
    pub table_name: String,
    pub primary_key_name: String,
    pub primary_key_columns: Vec<String>,
    pub columns: Vec<ColumnDescriptor>,
    pub indexes: Vec<IndexDescriptor>,
}

/// A column as name, type and nullability.
pub type ColumnView = (Seq<char>, ColumnType, bool);

/// An index as name, column, uniqueness and ascending order.
pub type IndexView = (Seq<char>, Seq<char>, bool, bool);

pub struct SchemaView {
    pub table_name: Seq<char>,
    pub primary_key_name: Seq<char>,
    pub primary_key_columns: Seq<Seq<char>>,
    pub columns: Seq<ColumnView>,
    pub indexes: Seq<IndexView>,
}

impl View for ColumnDescriptor {
    type V = ColumnView;

    open spec fn view(&self) -> ColumnView {
        (self.name@, self.column_type, self.nullable)
    }
}

impl View for IndexDescriptor {
    type V = IndexView;

    open spec fn view(&self) -> IndexView {
        (self.name@, self.column@, self.is_unique, self.ascending)
    }
}

pub open spec fn texts_view(v: Seq<String>) -> Seq<Seq<char>> {
    v.map_values(|s: String| s@)
}

impl View for TableSchema {
    type V = SchemaView;

    open spec fn view(&self) -> SchemaView {
        SchemaView {
            table_name: self.table_name@,
            primary_key_name: self.primary_key_name@,
            primary_key_columns: texts_view(self.primary_key_columns@),
            columns: self.columns@.map_values(|c: ColumnDescriptor| c@),
            indexes: self.indexes@.map_values(|x: IndexDescriptor| x@),
        }
    }
}

/// The live layout agrees with the expected one: same table name, same
/// primary key, and every expected column and index present as declared.
pub open spec fn schema_agrees(expected: SchemaView, live: SchemaView) -> bool {
    &&& live.table_name == expected.table_name
    &&& live.primary_key_name == expected.primary_key_name
    &&& live.primary_key_columns == expected.primary_key_columns
    &&& forall|i: int| 0 <= i < expected.columns.len() ==> #[trigger] live.columns.contains(expected.columns[i])
    &&& forall|i: int| 0 <= i < expected.indexes.len() ==> #[trigger] live.indexes.contains(expected.indexes[i])
}

fn same_texts(a: &Vec<String>, b: &Vec<String>) -> (r: bool)
    ensures
        r == (texts_view(a@) == texts_view(b@)),
{
    if a.len() != b.len() {
        assert(texts_view(a@).len() != texts_view(b@).len());
        return false;
    }
    let n = a.len();
    let mut i: usize = 0;
    while i < n
        invariant
            n == a@.len(),
            n == b@.len(),
            i <= n,
            forall|j: int| 0 <= j < i ==> #[trigger] a@[j]@ == b@[j]@,
        decreases n - i,
    {
        if a[i] != b[i] {
            assert(texts_view(a@)[i as int] != texts_view(b@)[i as int]);
            return false;
        }
        i = i + 1;
    }
    assert(texts_view(a@) =~= texts_view(b@));
    true
}

fn has_column(cols: &Vec<ColumnDescriptor>, c: &ColumnDescriptor) -> (r: bool)
    ensures
        r == cols@.map_values(|x: ColumnDescriptor| x@).contains(c@),
{
    let ghost vs = cols@.map_values(|x: ColumnDescriptor| x@);
    let n = cols.len();
    let mut i: usize = 0;
    while i < n
        invariant
            n == cols@.len(),
            vs == cols@.map_values(|x: ColumnDescriptor| x@),
            i <= n,
            forall|j: int| 0 <= j < i ==> #[trigger] vs[j] != c@,
        decreases n - i,
    {
        let x = &cols[i];
        if x.name == c.name && x.column_type == c.column_type && x.nullable == c.nullable {
            assert(vs[i as int] == c@);
            return true;
        }
        i = i + 1;
    }
    false
}

fn has_index(idxs: &Vec<IndexDescriptor>, c: &IndexDescriptor) -> (r: bool)
    ensures
        r == idxs@.map_values(|x: IndexDescriptor| x@).contains(c@),
{
    let ghost vs = idxs@.map_values(|x: IndexDescriptor| x@);
    let n = idxs.len();
    let mut i: usize = 0;
    while i < n
        invariant
            n == idxs@.len(),
            vs == idxs@.map_values(|x: IndexDescriptor| x@),
            i <= n,
            forall|j: int| 0 <= j < i ==> #[trigger] vs[j] != c@,
        decreases n - i,
    {
        let x = &idxs[i];
        if x.name == c.name && x.column == c.column && x.is_unique == c.is_unique
            && x.ascending == c.ascending {
            assert(vs[i as int] == c@);
            return true;
        }
        i = i + 1;
    }
    false
}

/// Checks a live table layout against the expected one.
pub fn verify_schema(expected: &TableSchema, live: &TableSchema) -> (r: Result<(), RepoError>)
    ensures
        r == (if schema_agrees(expected@, live@) {
            Ok::<(), RepoError>(())
        } else {
            Err(RepoError::SchemaMismatch)
        }),
{
    if live.table_name != expected.table_name || live.primary_key_name != expected.primary_key_name
        || !same_texts(&live.primary_key_columns, &expected.primary_key_columns) {
        return Err(RepoError::SchemaMismatch);
    }
    let n = expected.columns.len();
    let mut i: usize = 0;
    while i < n
        invariant
            n == expected.columns@.len(),
            i <= n,
            forall|j: int| 0 <= j < i ==> #[trigger] live@.columns.contains(expected@.columns[j]),
        decreases n - i,
    {
        if !has_column(&live.columns, &expected.columns[i]) {
            assert(!live@.columns.contains(expected@.columns[i as int]));
            return Err(RepoError::SchemaMismatch);
        }
        i = i + 1;
    }
    let m = expected.indexes.len();
    let mut k: usize = 0;
    while k < m
        invariant
            m == expected.indexes@.len(),
            k <= m,
            forall|j: int| 0 <= j < n ==> #[trigger] live@.columns.contains(expected@.columns[j]),
            forall|j: int| 0 <= j < k ==> #[trigger] live@.indexes.contains(expected@.indexes[j]),
        decreases m - k,
    {
        if !has_index(&live.indexes, &expected.indexes[k]) {
            assert(!live@.indexes.contains(expected@.indexes[k as int]));
            return Err(RepoError::SchemaMismatch);
        }
        k = k + 1;
    }
    Ok(())
}

fn column(name: &str, column_type: ColumnType, nullable: bool) -> (r: ColumnDescriptor)
    ensures
        r@ == (name@, column_type, nullable),
{
    ColumnDescriptor { name: name.to_owned(), column_type, nullable }
}

/// The expected layout of the provider table.
pub open spec fn provider_layout() -> SchemaView {
    SchemaView {
        table_name: "copy_trading_provider"@,
        primary_key_name: "copy_trading_provider_pk"@,
        primary_key_columns: seq!["id"@],
        columns: seq![
            ("id"@, ColumnType::Text, false),
            ("trader_id"@, ColumnType::Text, false),
            ("account_id"@, ColumnType::Text, false),
            ("status"@, ColumnType::Text, false),
            ("create_date"@, ColumnType::Timestamp, false),
        ],
        indexes: seq![],
    }
}

/// The expected layout of the subscription table.
pub open spec fn subscription_layout() -> SchemaView {
    SchemaView {
        table_name: "copy_trading_subscription"@,
        primary_key_name: "copy_trading_subscription_pk"@,
        primary_key_columns: seq!["id"@],
        columns: seq![
            ("id"@, ColumnType::Text, false),
            ("provider_id"@, ColumnType::Text, false),
            ("trader_id"@, ColumnType::Text, false),
            ("account_id"@, ColumnType::Text, false),
            ("status"@, ColumnType::Text, false),
            ("copy_trading_coefficient"@, ColumnType::Double, false),
            ("pl_force_stop_loss"@, ColumnType::Double, true),
        ],
        indexes: seq![
            ("copy_trading_subscription_provider_id_index"@, "provider_id"@, false, true),
        ],
    }
}

/// The expected layout of the position table.
pub open spec fn position_layout() -> SchemaView {
    SchemaView {
        table_name: "copy_trading_position"@,
        primary_key_name: "copy_trading_position_pk"@,
        primary_key_columns: seq!["id"@],
        columns: seq![
            ("id"@, ColumnType::Text, false),
            ("provider_id"@, ColumnType::Text, false),
            ("subscription_id"@, ColumnType::Text, false),
            ("source_position_id"@, ColumnType::Text, false),
            ("position_type"@, ColumnType::Text, false),
        ],
        indexes: seq![],
    }
}

pub fn provider_schema() -> (r: TableSchema)
    ensures
        r@ == provider_layout(),
{
    let columns = vec![
        column("id", ColumnType::Text, false),
        column("trader_id", ColumnType::Text, false),
        column("account_id", ColumnType::Text, false),
        column("status", ColumnType::Text, false),
        column("create_date", ColumnType::Timestamp, false),
    ];
    let r = TableSchema {
        table_name: "copy_trading_provider".to_owned(),
        primary_key_name: "copy_trading_provider_pk".to_owned(),
        primary_key_columns: vec!["id".to_owned()],
        columns,
        indexes: Vec::new(),
    };
    assert(r@.primary_key_columns =~= provider_layout().primary_key_columns);
    assert(r@.columns =~= provider_layout().columns);
    assert(r@.indexes =~= provider_layout().indexes);
    r
}

pub fn subscription_schema() -> (r: TableSchema)
    ensures
        r@ == subscription_layout(),
{
    let columns = vec![
        column("id", ColumnType::Text, false),
        column("provider_id", ColumnType::Text, false),
        column("trader_id", ColumnType::Text, false),
        column("account_id", ColumnType::Text, false),
        column("status", ColumnType::Text, false),
        column("copy_trading_coefficient", ColumnType::Double, false),
        column("pl_force_stop_loss", ColumnType::Double, true),
    ];
    let index = IndexDescriptor {
        name: "copy_trading_subscription_provider_id_index".to_owned(),
        column: "provider_id".to_owned(),
        is_unique: false,
        ascending: true,
    };
    let r = TableSchema {
        table_name: "copy_trading_subscription".to_owned(),
        primary_key_name: "copy_trading_subscription_pk".to_owned(),
        primary_key_columns: vec!["id".to_owned()],
        columns,
        indexes: vec![index],
    };
    assert(r@.primary_key_columns =~= subscription_layout().primary_key_columns);
    assert(r@.columns =~= subscription_layout().columns);
    assert(r@.indexes =~= subscription_layout().indexes);
    r
}

pub fn position_schema() -> (r: TableSchema)
    ensures
        r@ == position_layout(),
{
    let columns = vec![
        column("id", ColumnType::Text, false),
        column("provider_id", ColumnType::Text, false),
        column("subscription_id", ColumnType::Text, false),
        column("source_position_id", ColumnType::Text, false),
        column("position_type", ColumnType::Text, false),
    ];
    let r = TableSchema {
        table_name: "copy_trading_position".to_owned(),
        primary_key_name: "copy_trading_position_pk".to_owned(),
        primary_key_columns: vec!["id".to_owned()],
        columns,
        indexes: Vec::new(),
    };
    assert(r@.primary_key_columns =~= position_layout().primary_key_columns);
    assert(r@.columns =~= position_layout().columns);
    assert(r@.indexes =~= position_layout().indexes);
    r
}

} // verus!
