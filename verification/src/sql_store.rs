//! The binary bundle: the tables the exports are stored in, the SQL
//! statements that create, fill and read them, and the rows that carry an
//! export, with its series of samples encoded with postcard.
use vstd::prelude::*;
use crate::decimal::{decimal, push_decimal};
use crate::exports::{
    ActivationDelayExport, CallbackDurationExport, MessageLatencyExport, MessagesDelayExport,
    PublicationDelayExport, RosChannelCompleteName, RosInterfaceCompleteName,
};

verus! {

/// The format version of the bundle.
pub const STORE_VERSION: usize = 1;

/// A column of a table: its name and its type and constraints.
#[derive(Debug, Clone, Copy)]
pub struct TableColumn {
    name: &'static str,
    constraints: &'static str,
}

impl TableColumn {
    pub closed spec fn spec_name(&self) -> Seq<char> {
        self.name@
    }

    pub closed spec fn spec_constraints(&self) -> Seq<char> {
        self.constraints@
    }

    /// A column with the given name and constraints (for example
    /// `INT PRIMARY KEY`).
    pub fn new(name: &'static str, constraints: &'static str) -> (c: Self)
        ensures
            c.spec_name() == name@,
            c.spec_constraints() == constraints@,
    {
        TableColumn { name, constraints }
    }

    pub fn name(&self) -> (s: &'static str)
        ensures
            s@ == self.spec_name(),
    {
        self.name
    }

    pub fn constraints(&self) -> (s: &'static str)
        ensures
            s@ == self.spec_constraints(),
    {
        self.constraints
    }
}

/// A table: its name and its columns, in order.
pub struct TableSchema {
    pub table: &'static str,
    pub columns: Vec<TableColumn>,
}

/// The names and constraints of columns.
pub open spec fn columns_view(cols: Seq<TableColumn>) -> Seq<(Seq<char>, Seq<char>)> {
    cols.map_values(|c: TableColumn| (c.spec_name(), c.spec_constraints()))
}

/// The parts joined with `sep` between each two.
pub open spec fn join(parts: Seq<Seq<char>>, sep: Seq<char>) -> Seq<char>
    decreases parts.len(),
{
    if parts.len() == 0 {
        Seq::empty()
    } else if parts.len() == 1 {
        parts[0]
    } else {
        join(parts.drop_last(), sep) + sep + parts.last()
    }
}

/// `<name> <constraints>` of each column.
pub open spec fn column_definitions(cols: Seq<TableColumn>) -> Seq<Seq<char>> {
    cols.map_values(|c: TableColumn| c.spec_name() + " "@ + c.spec_constraints())
}

/// The name of each column.
pub open spec fn column_names(cols: Seq<TableColumn>) -> Seq<Seq<char>> {
    cols.map_values(|c: TableColumn| c.spec_name())
}

/// `?1`, `?2`, ... up to `?n`.
pub open spec fn placeholders(n: nat) -> Seq<Seq<char>> {
    Seq::new(n, |i: int| "?"@ + decimal((i + 1) as nat))
}

pub open spec fn spec_create_table(s: TableSchema) -> Seq<char> {
    "CREATE TABLE IF NOT EXISTS "@ + s.table@ + " ("@ + join(column_definitions(s.columns@), ", "@)
        + ")"@
}

pub open spec fn spec_insert(s: TableSchema) -> Seq<char> {
    "INSERT INTO "@ + s.table@ + " ("@ + join(column_names(s.columns@), ", "@) + ") VALUES ("@
        + join(placeholders(s.columns@.len()), ", "@) + ")"@
}

pub open spec fn spec_select_by_id(s: TableSchema) -> Seq<char> {
    "SELECT "@ + join(column_names(s.columns@), ", "@) + " FROM "@ + s.table@ + " WHERE id = ?1"@
}

/// Appends `sep` followed by `part`, or `part` alone at the start.
fn push_part(out: &mut String, first: bool, sep: &str, part: &str)
    ensures
        final(out)@ == old(out)@ + (if first {
            Seq::empty()
        } else {
            sep@
        }) + part@,
{
    let ghost o = out@;
    if !first {
        out.append(sep);
    }
    out.append(part);
    proof {
        if first {
            assert(out@ =~= o + Seq::<char>::empty() + part@);
        }
    }
}

fn column_definition_list(cols: &Vec<TableColumn>) -> (s: String)
    ensures
        s@ == join(column_definitions(cols@), ", "@),
{
    let mut s = String::new();
    let mut i: usize = 0;
    proof {
        assert(column_definitions(cols@).take(0) =~= Seq::<Seq<char>>::empty());
    }
    while i < cols.len()
        invariant
            i <= cols@.len(),
            s@ == join(column_definitions(cols@).take(i as int), ", "@),
        decreases cols@.len() - i,
    {
        let c = cols[i];
        let ghost parts = column_definitions(cols@);
        proof {
            assert(parts.take(i + 1).drop_last() =~= parts.take(i as int));
        }
        let mut def = c.name().to_owned();
        def.append(" ");
        def.append(c.constraints());
        push_part(&mut s, i == 0, ", ", def.as_str());
        proof {
            assert(parts.take(i + 1).last() == def@);
            if i == 0 {
                assert(s@ =~= join(parts.take(1), ", "@));
            }
        }
        i = i + 1;
    }
    proof {
        assert(column_definitions(cols@).take(cols@.len() as int) =~= column_definitions(cols@));
    }
    s
}

fn column_name_list(cols: &Vec<TableColumn>) -> (s: String)
    ensures
        s@ == join(column_names(cols@), ", "@),
{
    let mut s = String::new();
    let mut i: usize = 0;
    proof {
        assert(column_names(cols@).take(0) =~= Seq::<Seq<char>>::empty());
    }
    while i < cols.len()
        invariant
            i <= cols@.len(),
            s@ == join(column_names(cols@).take(i as int), ", "@),
        decreases cols@.len() - i,
    {
        let ghost parts = column_names(cols@);
        proof {
            assert(parts.take(i + 1).drop_last() =~= parts.take(i as int));
        }
        push_part(&mut s, i == 0, ", ", cols[i].name());
        proof {
            if i == 0 {
                assert(s@ =~= join(parts.take(1), ", "@));
            }
        }
        i = i + 1;
    }
    proof {
        assert(column_names(cols@).take(cols@.len() as int) =~= column_names(cols@));
    }
    s
}

fn placeholder_list(n: usize) -> (s: String)
    ensures
        s@ == join(placeholders(n as nat), ", "@),
{
    let mut s = String::new();
    let mut i: usize = 0;
    proof {
        assert(placeholders(n as nat).take(0) =~= Seq::<Seq<char>>::empty());
    }
    while i < n
        invariant
            i <= n,
            s@ == join(placeholders(n as nat).take(i as int), ", "@),
        decreases n - i,
    {
        let ghost parts = placeholders(n as nat);
        proof {
            assert(parts.take(i + 1).drop_last() =~= parts.take(i as int));
        }
        let mut p = "?".to_owned();
        push_decimal(&mut p, i as u64 + 1);
        push_part(&mut s, i == 0, ", ", p.as_str());
        proof {
            assert(parts.take(i + 1).last() == p@);
            if i == 0 {
                assert(s@ =~= join(parts.take(1), ", "@));
            }
        }
        i = i + 1;
    }
    proof {
        assert(placeholders(n as nat).take(n as int) =~= placeholders(n as nat));
    }
    s
}

impl TableSchema {
    /// `CREATE TABLE IF NOT EXISTS <table> (<name> <constraints>, ...)`.
    pub fn create_table_statement(&self) -> (s: String)
        ensures
            s@ == spec_create_table(*self),
    {
        let mut s = "CREATE TABLE IF NOT EXISTS ".to_owned();
        s.append(self.table);
        s.append(" (");
        let defs = column_definition_list(&self.columns);
        s.append(defs.as_str());
        s.append(")");
        s
    }

    /// `INSERT INTO <table> (<names>) VALUES (?1, ..., ?n)`.
    pub fn insert_statement(&self) -> (s: String)
        ensures
            s@ == spec_insert(*self),
    {
        let mut s = "INSERT INTO ".to_owned();
        s.append(self.table);
        s.append(" (");
        let names = column_name_list(&self.columns);
        s.append(names.as_str());
        s.append(") VALUES (");
        let marks = placeholder_list(self.columns.len());
        s.append(marks.as_str());
        s.append(")");
        s
    }

    /// `SELECT <names> FROM <table> WHERE id = ?1`.
    pub fn select_by_id_statement(&self) -> (s: String)
        ensures
            s@ == spec_select_by_id(*self),
    {
        let mut s = "SELECT ".to_owned();
        let names = column_name_list(&self.columns);
        s.append(names.as_str());
        s.append(" FROM ");
        s.append(self.table);
        s.append(" WHERE id = ?1");
        s
    }
}

/// The columns of the tables of series named by an interface.
pub open spec fn interface_columns(samples: Seq<char>) -> Seq<(Seq<char>, Seq<char>)> {
    seq![("id"@, "INT PRIMARY KEY"@), ("node"@, "TEXT"@), ("interface"@, "TEXT"@), (samples, "BLOB"@)]
}

fn interface_schema(table: &'static str, samples: &'static str) -> (s: TableSchema)
    ensures
        s.table == table,
        columns_view(s.columns@) == interface_columns(samples@),
{
    let columns = vec![
        TableColumn::new("id", "INT PRIMARY KEY"),
        TableColumn::new("node", "TEXT"),
        TableColumn::new("interface", "TEXT"),
        TableColumn::new(samples, "BLOB"),
    ];
    assert(columns_view(columns@) =~= interface_columns(samples@));
    TableSchema { table, columns }
}

/// The table of message latencies.
pub fn message_latency_schema() -> (s: TableSchema)
    ensures
        s.table@ == "message_latency"@,
        columns_view(s.columns@) == seq![
            ("id"@, "INT PRIMARY KEY"@),
            ("source_node"@, "TEXT"@),
            ("destination_node"@, "TEXT"@),
            ("topic"@, "TEXT"@),
            ("latencies"@, "BLOB"@),
        ],
{
    let columns = vec![
        TableColumn::new("id", "INT PRIMARY KEY"),
        TableColumn::new("source_node", "TEXT"),
        TableColumn::new("destination_node", "TEXT"),
        TableColumn::new("topic", "TEXT"),
        TableColumn::new("latencies", "BLOB"),
    ];
    let s = TableSchema { table: "message_latency", columns };
    assert(columns_view(s.columns@) =~= seq![
        ("id"@, "INT PRIMARY KEY"@),
        ("source_node"@, "TEXT"@),
        ("destination_node"@, "TEXT"@),
        ("topic"@, "TEXT"@),
        ("latencies"@, "BLOB"@),
    ]);
    s
}

/// The table of message delays.
pub fn message_delay_schema() -> (s: TableSchema)
    ensures
        s.table@ == "message_delay"@,
        columns_view(s.columns@) == interface_columns("delays"@),
{
    interface_schema("message_delay", "delays")
}

/// The table of callback durations.
pub fn callback_duration_schema() -> (s: TableSchema)
    ensures
        s.table@ == "callback_duration"@,
        columns_view(s.columns@) == interface_columns("durations"@),
{
    interface_schema("callback_duration", "durations")
}

/// The table of publication delays.
pub fn publication_delay_schema() -> (s: TableSchema)
    ensures
        s.table@ == "publication_delay"@,
        columns_view(s.columns@) == interface_columns("delays"@),
{
    interface_schema("publication_delay", "delays")
}

/// The table of activation delays.
pub fn activation_delay_schema() -> (s: TableSchema)
    ensures
        s.table@ == "activation_delay"@,
        columns_view(s.columns@) == interface_columns("delays"@),
{
    interface_schema("activation_delay", "delays")
}

/// The table of element overviews.
pub fn node_overview_schema() -> (s: TableSchema)
    ensures
        s.table@ == "node_overview"@,
        columns_view(s.columns@) == seq![
            ("id"@, "INT PRIMARY KEY"@),
            ("element_type"@, "TEXT"@),
            ("analyses"@, "BLOB"@),
        ],
{
    let columns = vec![
        TableColumn::new("id", "INT PRIMARY KEY"),
        TableColumn::new("element_type", "TEXT"),
        TableColumn::new("analyses", "BLOB"),
    ];
    let s = TableSchema { table: "node_overview", columns };
    assert(columns_view(s.columns@) =~= seq![
        ("id"@, "INT PRIMARY KEY"@),
        ("element_type"@, "TEXT"@),
        ("analyses"@, "BLOB"@),
    ]);
    s
}

/// The table of the bundle's metadata.
pub fn metadata_schema() -> (s: TableSchema)
    ensures
        s.table@ == "metadata"@,
        columns_view(s.columns@) == seq![("id"@, "INT PRIMARY KEY"@), ("version"@, "INT"@)],
{
    let columns = vec![TableColumn::new("id", "INT PRIMARY KEY"), TableColumn::new("version", "INT")];
    let s = TableSchema { table: "metadata", columns };
    assert(columns_view(s.columns@) =~= seq![("id"@, "INT PRIMARY KEY"@), ("version"@, "INT"@)]);
    s
}

/// The table of drawn graphs.
pub fn dependency_graph_schema() -> (s: TableSchema)
    ensures
        s.table@ == "graphs"@,
        columns_view(s.columns@) == seq![
            ("id"@, "INT PRIMARY KEY"@),
            ("name"@, "TEXT"@),
            ("graph"@, "TEXT"@),
        ],
{
    let columns = vec![
        TableColumn::new("id", "INT PRIMARY KEY"),
        TableColumn::new("name", "TEXT"),
        TableColumn::new("graph", "TEXT"),
    ];
    let s = TableSchema { table: "graphs", columns };
    assert(columns_view(s.columns@) =~= seq![
        ("id"@, "INT PRIMARY KEY"@),
        ("name"@, "TEXT"@),
        ("graph"@, "TEXT"@),
    ]);
    s
}

/// The drawn dependency graph, stored under identifier zero.
pub struct DependencyGraph {
    pub graph: String,
}

#[verifier::external_type_specification]
#[verifier::external_body]
pub struct ExPostcardError(postcard::Error);

/// The bytes postcard's `to_allocvec` makes of a series of samples, or none
/// where it fails.
pub uninterp spec fn postcard_samples_encoding(samples: Seq<i64>) -> Option<Seq<u8>>;

/// The series of samples postcard's `from_bytes` reads from bytes, or none
/// where it fails.
pub uninterp spec fn postcard_samples_decoding(bytes: Seq<u8>) -> Option<Seq<i64>>;

/// Calls `postcard::to_allocvec` on a series of samples. Claimed: the result
/// is the encoding that `postcard_samples_encoding` names for the samples,
/// and an error exactly where that names none.
#[verifier::external_body]
fn postcard_encode(samples: &Vec<i64>) -> (r: Result<Vec<u8>, postcard::Error>)
    ensures
        match r {
            Ok(b) => postcard_samples_encoding(samples@) == Some(b@),
            Err(_) => postcard_samples_encoding(samples@) is None,
        },
{
    postcard::to_allocvec(samples)
}

/// Calls `postcard::from_bytes` for a series of samples. Claimed: the
/// result is what `postcard_samples_decoding` names for the bytes, and bytes
/// that postcard made of a series read back as that series.
#[verifier::external_body]
fn postcard_decode(bytes: &Vec<u8>) -> (r: Result<Vec<i64>, postcard::Error>)
    ensures
        match r {
            Ok(v) => postcard_samples_decoding(bytes@) == Some(v@),
            Err(_) => postcard_samples_decoding(bytes@) is None,
        },
        forall|s: Seq<i64>|
            postcard_samples_encoding(s) == Some(bytes@) ==> match r {
                Ok(v) => v@ == s,
                Err(_) => false,
            },
{
    postcard::from_bytes(bytes.as_slice())
}

/// A series of samples that could not be encoded or decoded.
#[derive(Debug, Clone, Copy, PartialEq, Eq, Structural)]
pub enum SampleCodingError {
    Encode,
    Decode,
}

/// The bytes of a series of samples.
pub fn encode_samples(samples: &Vec<i64>) -> (r: Result<Vec<u8>, SampleCodingError>)
    ensures
        match r {
            Ok(b) => postcard_samples_encoding(samples@) == Some(b@),
            Err(e) => e == SampleCodingError::Encode && postcard_samples_encoding(samples@) is None,
        },
{
    match postcard_encode(samples) {
        Ok(b) => Ok(b),
        Err(_) => Err(SampleCodingError::Encode),
    }
}

/// The series of samples in bytes; bytes made from a series give it back.
pub fn decode_samples(bytes: &Vec<u8>) -> (r: Result<Vec<i64>, SampleCodingError>)
    ensures
        match r {
            Ok(v) => postcard_samples_decoding(bytes@) == Some(v@),
            Err(e) => e == SampleCodingError::Decode && postcard_samples_decoding(bytes@) is None,
        },
        forall|s: Seq<i64>|
            postcard_samples_encoding(s) == Some(bytes@) ==> match r {
                Ok(v) => v@ == s,
                Err(_) => false,
            },
{
    match postcard_decode(bytes) {
        Ok(v) => Ok(v),
        Err(_) => Err(SampleCodingError::Decode),
    }
}

/// A row of a table of series named by an interface.
pub struct InterfaceRow {
    pub id: i64,
    pub node: String,
    pub interface: String,
    pub samples: Vec<u8>,
}

/// A row of the table of message latencies.
pub struct ChannelRow {
    pub id: i64,
    pub source_node: String,
    pub destination_node: String,
    pub topic: String,
    pub latencies: Vec<u8>,
}

fn interface_row(id: usize, name: &RosInterfaceCompleteName, samples: &Vec<i64>) -> (r: Result<InterfaceRow, SampleCodingError>)
    ensures
        match r {
            Ok(row) => {
                &&& row.id == id as i64
                &&& row.node@ == name.node@
                &&& row.interface@ == name.interface@
                &&& postcard_samples_encoding(samples@) == Some(row.samples@)
            },
            Err(e) => e == SampleCodingError::Encode && postcard_samples_encoding(samples@) is None,
        },
{
    let bytes = encode_samples(samples)?;
    Ok(InterfaceRow { id: id as i64, node: name.node.clone(), interface: name.interface.clone(), samples: bytes })
}

/// The fields of an interface row: its identifier, its name, and its samples
/// where they decode.
fn interface_fields(row: &InterfaceRow) -> (r: (usize, RosInterfaceCompleteName, Result<Vec<i64>, SampleCodingError>))
    ensures
        r.0 == row.id as usize,
        r.1.node@ == row.node@,
        r.1.interface@ == row.interface@,
        match r.2 {
            Ok(v) => postcard_samples_decoding(row.samples@) == Some(v@),
            Err(e) => e == SampleCodingError::Decode && postcard_samples_decoding(row.samples@) is None,
        },
        forall|s: Seq<i64>|
            postcard_samples_encoding(s) == Some(row.samples@) ==> match r.2 {
                Ok(v) => v@ == s,
                Err(_) => false,
            },
{
    let samples = decode_samples(&row.samples);
    (row.id as usize, RosInterfaceCompleteName { interface: row.interface.clone(), node: row.node.clone() }, samples)
}

impl ActivationDelayExport {
    /// The row of this series: the identifier as a signed integer, the
    /// names, and the samples encoded.
    pub fn to_row(&self) -> (r: Result<InterfaceRow, SampleCodingError>)
        ensures
            match r {
                Ok(row) => {
                    &&& row.id == self.id as i64
                    &&& row.node@ == self.name.node@
                    &&& row.interface@ == self.name.interface@
                    &&& postcard_samples_encoding(self.activation_delays@) == Some(row.samples@)
                },
                Err(e) => e == SampleCodingError::Encode && postcard_samples_encoding(self.activation_delays@) is None,
            },
    {
        interface_row(self.id, &self.name, &self.activation_delays)
    }

    /// The series a row holds, where its samples decode; a row made from a
    /// series gives that series back.
    pub fn try_from_row(row: &InterfaceRow) -> (r: Result<Self, SampleCodingError>)
        ensures
            match r {
                Ok(e) => {
                    &&& e.id == row.id as usize
                    &&& e.name.node@ == row.node@
                    &&& e.name.interface@ == row.interface@
                    &&& postcard_samples_decoding(row.samples@) == Some(e.activation_delays@)
                },
                Err(e) => e == SampleCodingError::Decode && postcard_samples_decoding(row.samples@) is None,
            },
            forall|s: Seq<i64>|
                postcard_samples_encoding(s) == Some(row.samples@) ==> match r {
                    Ok(e) => e.activation_delays@ == s,
                    Err(_) => false,
                },
    {
        match decode_samples(&row.samples) {
            Ok(_) => Ok(Self::from_row(row)),
            Err(e) => Err(e),
        }
    }

    /// The series a row holds, for a row whose samples decode.
    pub fn from_row(row: &InterfaceRow) -> (e: Self)
        requires
            postcard_samples_decoding(row.samples@) is Some,
        ensures
            e.id == row.id as usize,
            e.name.node@ == row.node@,
            e.name.interface@ == row.interface@,
            postcard_samples_decoding(row.samples@) == Some(e.activation_delays@),
            forall|s: Seq<i64>| postcard_samples_encoding(s) == Some(row.samples@) ==> e.activation_delays@ == s,
    {
        let (id, name, samples) = interface_fields(row);
        match samples {
            Ok(v) => ActivationDelayExport { id, name, activation_delays: v },
            Err(_) => vstd::pervasive::unreached(),
        }
    }
}

impl PublicationDelayExport {
    /// The row of this series: the identifier as a signed integer, the
    /// names, and the samples encoded.
    pub fn to_row(&self) -> (r: Result<InterfaceRow, SampleCodingError>)
        ensures
            match r {
                Ok(row) => {
                    &&& row.id == self.id as i64
                    &&& row.node@ == self.name.node@
                    &&& row.interface@ == self.name.interface@
                    &&& postcard_samples_encoding(self.publication_delays@) == Some(row.samples@)
                },
                Err(e) => e == SampleCodingError::Encode && postcard_samples_encoding(self.publication_delays@) is None,
            },
    {
        interface_row(self.id, &self.name, &self.publication_delays)
    }

    /// The series a row holds, where its samples decode; a row made from a
    /// series gives that series back.
    pub fn try_from_row(row: &InterfaceRow) -> (r: Result<Self, SampleCodingError>)
        ensures
            match r {
                Ok(e) => {
                    &&& e.id == row.id as usize
                    &&& e.name.node@ == row.node@
                    &&& e.name.interface@ == row.interface@
                    &&& postcard_samples_decoding(row.samples@) == Some(e.publication_delays@)
                },
                Err(e) => e == SampleCodingError::Decode && postcard_samples_decoding(row.samples@) is None,
            },
            forall|s: Seq<i64>|
                postcard_samples_encoding(s) == Some(row.samples@) ==> match r {
                    Ok(e) => e.publication_delays@ == s,
                    Err(_) => false,
                },
    {
        match decode_samples(&row.samples) {
            Ok(_) => Ok(Self::from_row(row)),
            Err(e) => Err(e),
        }
    }

    /// The series a row holds, for a row whose samples decode.
    pub fn from_row(row: &InterfaceRow) -> (e: Self)
        requires
            postcard_samples_decoding(row.samples@) is Some,
        ensures
            e.id == row.id as usize,
            e.name.node@ == row.node@,
            e.name.interface@ == row.interface@,
            postcard_samples_decoding(row.samples@) == Some(e.publication_delays@),
            forall|s: Seq<i64>| postcard_samples_encoding(s) == Some(row.samples@) ==> e.publication_delays@ == s,
    {
        let (id, name, samples) = interface_fields(row);
        match samples {
            Ok(v) => PublicationDelayExport { id, name, publication_delays: v },
            Err(_) => vstd::pervasive::unreached(),
        }
    }
}

impl MessagesDelayExport {
    /// The row of this series: the identifier as a signed integer, the
    /// names, and the samples encoded.
    pub fn to_row(&self) -> (r: Result<InterfaceRow, SampleCodingError>)
        ensures
            match r {
                Ok(row) => {
                    &&& row.id == self.id as i64
                    &&& row.node@ == self.name.node@
                    &&& row.interface@ == self.name.interface@
                    &&& postcard_samples_encoding(self.messages_delays@) == Some(row.samples@)
                },
                Err(e) => e == SampleCodingError::Encode && postcard_samples_encoding(self.messages_delays@) is None,
            },
    {
        interface_row(self.id, &self.name, &self.messages_delays)
    }

    /// The series a row holds, where its samples decode; a row made from a
    /// series gives that series back.
    pub fn try_from_row(row: &InterfaceRow) -> (r: Result<Self, SampleCodingError>)
        ensures
            match r {
                Ok(e) => {
                    &&& e.id == row.id as usize
                    &&& e.name.node@ == row.node@
                    &&& e.name.interface@ == row.interface@
                    &&& postcard_samples_decoding(row.samples@) == Some(e.messages_delays@)
                },
                Err(e) => e == SampleCodingError::Decode && postcard_samples_decoding(row.samples@) is None,
            },
            forall|s: Seq<i64>|
                postcard_samples_encoding(s) == Some(row.samples@) ==> match r {
                    Ok(e) => e.messages_delays@ == s,
                    Err(_) => false,
                },
    {
        match decode_samples(&row.samples) {
            Ok(_) => Ok(Self::from_row(row)),
            Err(e) => Err(e),
        }
    }

    /// The series a row holds, for a row whose samples decode.
    pub fn from_row(row: &InterfaceRow) -> (e: Self)
        requires
            postcard_samples_decoding(row.samples@) is Some,
        ensures
            e.id == row.id as usize,
            e.name.node@ == row.node@,
            e.name.interface@ == row.interface@,
            postcard_samples_decoding(row.samples@) == Some(e.messages_delays@),
            forall|s: Seq<i64>| postcard_samples_encoding(s) == Some(row.samples@) ==> e.messages_delays@ == s,
    {
        let (id, name, samples) = interface_fields(row);
        match samples {
            Ok(v) => MessagesDelayExport { id, name, messages_delays: v },
            Err(_) => vstd::pervasive::unreached(),
        }
    }
}

impl CallbackDurationExport {
    /// The row of this series: the identifier as a signed integer, the
    /// names, and the samples encoded.
    pub fn to_row(&self) -> (r: Result<InterfaceRow, SampleCodingError>)
        ensures
            match r {
                Ok(row) => {
                    &&& row.id == self.id as i64
                    &&& row.node@ == self.name.node@
                    &&& row.interface@ == self.name.interface@
                    &&& postcard_samples_encoding(self.callback_durations@) == Some(row.samples@)
                },
                Err(e) => e == SampleCodingError::Encode && postcard_samples_encoding(self.callback_durations@) is None,
            },
    {
        interface_row(self.id, &self.name, &self.callback_durations)
    }

    /// The series a row holds, where its samples decode; a row made from a
    /// series gives that series back.
    pub fn try_from_row(row: &InterfaceRow) -> (r: Result<Self, SampleCodingError>)
        ensures
            match r {
                Ok(e) => {
                    &&& e.id == row.id as usize
                    &&& e.name.node@ == row.node@
                    &&& e.name.interface@ == row.interface@
                    &&& postcard_samples_decoding(row.samples@) == Some(e.callback_durations@)
                },
                Err(e) => e == SampleCodingError::Decode && postcard_samples_decoding(row.samples@) is None,
            },
            forall|s: Seq<i64>|
                postcard_samples_encoding(s) == Some(row.samples@) ==> match r {
                    Ok(e) => e.callback_durations@ == s,
                    Err(_) => false,
                },
    {
        match decode_samples(&row.samples) {
            Ok(_) => Ok(Self::from_row(row)),
            Err(e) => Err(e),
        }
    }

    /// The series a row holds, for a row whose samples decode.
    pub fn from_row(row: &InterfaceRow) -> (e: Self)
        requires
            postcard_samples_decoding(row.samples@) is Some,
        ensures
            e.id == row.id as usize,
            e.name.node@ == row.node@,
            e.name.interface@ == row.interface@,
            postcard_samples_decoding(row.samples@) == Some(e.callback_durations@),
            forall|s: Seq<i64>| postcard_samples_encoding(s) == Some(row.samples@) ==> e.callback_durations@ == s,
    {
        let (id, name, samples) = interface_fields(row);
        match samples {
            Ok(v) => CallbackDurationExport { id, name, callback_durations: v },
            Err(_) => vstd::pervasive::unreached(),
        }
    }
}

impl MessageLatencyExport {
    /// The row of this series: the identifier as a signed integer, the
    /// names, and the latencies encoded.
    pub fn to_row(&self) -> (r: Result<ChannelRow, SampleCodingError>)
        ensures
            match r {
                Ok(row) => {
                    &&& row.id == self.id as i64
                    &&& row.source_node@ == self.name.source_node@
                    &&& row.destination_node@ == self.name.destination_node@
                    &&& row.topic@ == self.name.topic@
                    &&& postcard_samples_encoding(self.messages_latencies@) == Some(row.latencies@)
                },
                Err(e) => e == SampleCodingError::Encode && postcard_samples_encoding(self.messages_latencies@) is None,
            },
    {
        let bytes = encode_samples(&self.messages_latencies)?;
        Ok(ChannelRow {
            id: self.id as i64,
            source_node: self.name.source_node.clone(),
            destination_node: self.name.destination_node.clone(),
            topic: self.name.topic.clone(),
            latencies: bytes,
        })
    }

    /// The series a row holds, where its latencies decode; a row made from
    /// a series gives that series back.
    pub fn try_from_row(row: &ChannelRow) -> (r: Result<Self, SampleCodingError>)
        ensures
            match r {
                Ok(e) => {
                    &&& e.id == row.id as usize
                    &&& e.name.source_node@ == row.source_node@
                    &&& e.name.destination_node@ == row.destination_node@
                    &&& e.name.topic@ == row.topic@
                    &&& postcard_samples_decoding(row.latencies@) == Some(e.messages_latencies@)
                },
                Err(e) => e == SampleCodingError::Decode && postcard_samples_decoding(row.latencies@) is None,
            },
            forall|s: Seq<i64>|
                postcard_samples_encoding(s) == Some(row.latencies@) ==> match r {
                    Ok(e) => e.messages_latencies@ == s,
                    Err(_) => false,
                },
    {
        match decode_samples(&row.latencies) {
            Ok(_) => Ok(Self::from_row(row)),
            Err(e) => Err(e),
        }
    }

    /// The series a row holds, for a row whose latencies decode.
    pub fn from_row(row: &ChannelRow) -> (e: Self)
        requires
            postcard_samples_decoding(row.latencies@) is Some,
        ensures
            e.id == row.id as usize,
            e.name.source_node@ == row.source_node@,
            e.name.destination_node@ == row.destination_node@,
            e.name.topic@ == row.topic@,
            postcard_samples_decoding(row.latencies@) == Some(e.messages_latencies@),
            forall|s: Seq<i64>| postcard_samples_encoding(s) == Some(row.latencies@) ==> e.messages_latencies@ == s,
    {
        match decode_samples(&row.latencies) {
            Ok(latencies) => MessageLatencyExport {
                id: row.id as usize,
                name: RosChannelCompleteName {
                    source_node: row.source_node.clone(),
                    destination_node: row.destination_node.clone(),
                    topic: row.topic.clone(),
                },
                messages_latencies: latencies,
            },
            Err(_) => vstd::pervasive::unreached(),
        }
    }
}

} // verus!
