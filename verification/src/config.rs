//! The configuration model: the generic value tree that a configuration
//! document parses into, the structured schema description drawn from it,
//! and the validation that draws it.

use vstd::prelude::*;
use crate::text::str_eq;
use crate::DbError;

verus! {

/// A scalar seed value.
#[derive(Debug)]
pub enum Scalar {
    Null,
    Bool(bool),
    Int(i64),
    Text(String),
}

/// A generic configuration value: what a structured configuration document
/// holds after generic parsing. An object is an ordered list of key/value
/// pairs, so table, column and row order is the document's own order.
#[derive(Debug)]
pub enum ConfigValue {
    Null,
    Bool(bool),
    Int(i64),
    Text(String),
    Array(Vec<ConfigValue>),
    Object(Vec<(String, ConfigValue)>),
}

/// The mathematical value of a scalar.
pub enum ScalarModel {
    Null,
    Bool(bool),
    Int(i64),
    Text(Seq<char>),
}

/// The mathematical value of a column: its name, its declared type (carried
/// verbatim, never validated against a type system) and its raw constraints.
pub struct ColumnModel {
    pub name: Seq<char>,
    pub ctype: Seq<char>,
    pub constraints: Seq<Seq<char>>,
}

/// The mathematical value of one seed row: column names paired with values,
/// in document order.
pub struct RowModel {
    pub entries: Seq<(Seq<char>, ScalarModel)>,
}

/// The mathematical value of a table: its name, its declared columns and its
/// seed rows.
pub struct TableModel {
    pub name: Seq<char>,
    pub columns: Seq<ColumnModel>,
    pub rows: Seq<RowModel>,
}

/// A declared column: name, declared type and raw constraint strings.
#[derive(Debug)]
pub struct ColumnSpec {
    pub name: String,
    pub ctype: String,
    pub constraints: Vec<String>,
}

/// One seed row: column names paired with scalar values.
#[derive(Debug)]
pub struct RowSpec {
    pub entries: Vec<(String, Scalar)>,
}

/// A declared table with its columns and its seed rows (empty where the
/// document carries no seed data for it).
#[derive(Debug)]
pub struct TableSpec {
    pub name: String,
    pub columns: Vec<ColumnSpec>,
    pub rows: Vec<RowSpec>,
}

/// A validated configuration: the declared tables, in document order.
#[derive(Debug)]
pub struct Config {
    pub tables: Vec<TableSpec>,
}

impl View for Scalar {
    type V = ScalarModel;

    open spec fn view(&self) -> ScalarModel {
        match *self {
            Scalar::Null => ScalarModel::Null,
            Scalar::Bool(b) => ScalarModel::Bool(b),
            Scalar::Int(i) => ScalarModel::Int(i),
            Scalar::Text(s) => ScalarModel::Text(s@),
        }
    }
}

impl DeepView for Scalar {
    type V = ScalarModel;

    open spec fn deep_view(&self) -> ScalarModel {
        self.view()
    }
}

impl View for ColumnSpec {
    type V = ColumnModel;

    open spec fn view(&self) -> ColumnModel {
        ColumnModel {
            name: self.name@,
            ctype: self.ctype@,
            constraints: self.constraints.deep_view(),
        }
    }
}

impl DeepView for ColumnSpec {
    type V = ColumnModel;

    open spec fn deep_view(&self) -> ColumnModel {
        self.view()
    }
}

impl View for RowSpec {
    type V = RowModel;

    open spec fn view(&self) -> RowModel {
        RowModel { entries: self.entries.deep_view() }
    }
}

impl DeepView for RowSpec {
    type V = RowModel;

    open spec fn deep_view(&self) -> RowModel {
        self.view()
    }
}

impl View for TableSpec {
    type V = TableModel;

    open spec fn view(&self) -> TableModel {
        TableModel {
            name: self.name@,
            columns: self.columns.deep_view(),
            rows: self.rows.deep_view(),
        }
    }
}

impl DeepView for TableSpec {
    type V = TableModel;

    open spec fn deep_view(&self) -> TableModel {
        self.view()
    }
}

impl View for Config {
    type V = Seq<TableModel>;

    open spec fn view(&self) -> Seq<TableModel> {
        self.tables.deep_view()
    }
}

impl Scalar {
    /// An equal copy of the value.
    pub fn duplicate(&self) -> (r: Scalar)
        ensures
            r@ == self@,
    {
        match self {
            Scalar::Null => Scalar::Null,
            Scalar::Bool(b) => Scalar::Bool(*b),
            Scalar::Int(i) => Scalar::Int(*i),
            Scalar::Text(s) => Scalar::Text(s.clone()),
        }
    }
}

/// The value of the first field named `key` in an object's field list.
pub open spec fn obj_get(fields: Seq<(String, ConfigValue)>, key: Seq<char>) -> Option<
    ConfigValue,
>
    decreases fields.len(),
{
    if fields.len() == 0 {
        None
    } else if fields.first().0@ == key {
        Some(fields.first().1)
    } else {
        obj_get(fields.drop_first(), key)
    }
}

/// Whether every element of the sequence is present.
pub open spec fn all_some<T>(s: Seq<Option<T>>) -> bool {
    forall|i: int| 0 <= i < s.len() ==> s[i] is Some
}

/// The elements of a sequence of present values.
pub open spec fn unwrap_all<T>(s: Seq<Option<T>>) -> Seq<T> {
    s.map_values(|o: Option<T>| o->Some_0)
}

/// The model of a constraint entry: it must be a string.
pub open spec fn constraint_model(v: ConfigValue) -> Option<Seq<char>> {
    match v {
        ConfigValue::Text(s) => Some(s@),
        _ => None,
    }
}

/// The model of a scalar entry: anything but an array or an object.
pub open spec fn scalar_model(v: ConfigValue) -> Option<ScalarModel> {
    match v {
        ConfigValue::Null => Some(ScalarModel::Null),
        ConfigValue::Bool(b) => Some(ScalarModel::Bool(b)),
        ConfigValue::Int(i) => Some(ScalarModel::Int(i)),
        ConfigValue::Text(s) => Some(ScalarModel::Text(s@)),
        _ => None,
    }
}

/// The model of one column entry. A column is malformed — has no model —
/// where it is not an object, lacks a `name`, `type` or `constraints` field,
/// its name or type is not a string, or its constraint list is not an array
/// of strings.
pub open spec fn column_model(v: ConfigValue) -> Option<ColumnModel> {
    match v {
        ConfigValue::Object(fields) => {
            match (
                obj_get(fields@, "name"@),
                obj_get(fields@, "type"@),
                obj_get(fields@, "constraints"@),
            ) {
                (
                    Some(ConfigValue::Text(n)),
                    Some(ConfigValue::Text(t)),
                    Some(ConfigValue::Array(cs)),
                ) => {
                    let cms = cs@.map_values(|c: ConfigValue| constraint_model(c));
                    if all_some(cms) {
                        Some(ColumnModel { name: n@, ctype: t@, constraints: unwrap_all(cms) })
                    } else {
                        None
                    }
                },
                _ => None,
            }
        },
        _ => None,
    }
}

/// The model of one seed row: an object whose values are all scalars.
pub open spec fn row_model(v: ConfigValue) -> Option<RowModel> {
    match v {
        ConfigValue::Object(fields) => {
            if forall|i: int| 0 <= i < fields@.len() ==> scalar_model(#[trigger] fields@[i].1)
                is Some {
                Some(
                    RowModel {
                        entries: Seq::new(
                            fields@.len(),
                            |i: int| (fields@[i].0@, scalar_model(fields@[i].1)->Some_0),
                        ),
                    },
                )
            } else {
                None
            }
        },
        _ => None,
    }
}

/// The models of a table's seed rows: an absent `data` field means no rows;
/// a present one must be an array of well-formed rows.
pub open spec fn rows_model(fields: Seq<(String, ConfigValue)>) -> Option<Seq<RowModel>> {
    match obj_get(fields, "data"@) {
        Option::None => Some(Seq::empty()),
        Option::Some(ConfigValue::Array(rs)) => {
            let rms = rs@.map_values(|r: ConfigValue| row_model(r));
            if all_some(rms) {
                Some(unwrap_all(rms))
            } else {
                None
            }
        },
        Option::Some(_) => None,
    }
}

/// The model of one table entry: an object carrying a `columns` array of
/// well-formed columns and, optionally, a `data` array of well-formed rows.
/// A table entry without a `columns` array is malformed.
pub open spec fn table_model(name: Seq<char>, v: ConfigValue) -> Option<TableModel> {
    match v {
        ConfigValue::Object(fields) => {
            match obj_get(fields@, "columns"@) {
                Option::Some(ConfigValue::Array(cols)) => {
                    let cms = cols@.map_values(|c: ConfigValue| column_model(c));
                    if all_some(cms) {
                        match rows_model(fields@) {
                            Option::Some(rows) => Some(
                                TableModel { name, columns: unwrap_all(cms), rows },
                            ),
                            Option::None => None,
                        }
                    } else {
                        None
                    }
                },
                _ => None,
            }
        },
        _ => None,
    }
}

/// The model of a whole configuration. A document without a `tables` object
/// declares no tables; one whose `tables` object holds a malformed table
/// entry has no model.
pub open spec fn config_model(v: ConfigValue) -> Option<Seq<TableModel>> {
    match v {
        ConfigValue::Object(fields) => {
            match obj_get(fields@, "tables"@) {
                Option::Some(ConfigValue::Object(tbls)) => {
                    let tms = Seq::new(
                        tbls@.len(),
                        |i: int| table_model(tbls@[i].0@, tbls@[i].1),
                    );
                    if all_some(tms) {
                        Some(unwrap_all(tms))
                    } else {
                        None
                    }
                },
                _ => Some(Seq::empty()),
            }
        },
        _ => Some(Seq::empty()),
    }
}

/// Looks a key up in an object's field list: the first field with that name.
fn obj_get_exec<'a>(fields: &'a Vec<(String, ConfigValue)>, key: &str) -> (r: Option<
    &'a ConfigValue,
>)
    ensures
        match r {
            Some(cv) => obj_get(fields@, key@) == Some(*cv),
            None => obj_get(fields@, key@) is None,
        },
{
    proof {
        assert(fields@.subrange(0, fields@.len() as int) =~= fields@);
    }
    let mut i: usize = 0;
    while i < fields.len()
        invariant
            0 <= i <= fields@.len(),
            obj_get(fields@, key@) == obj_get(
                fields@.subrange(i as int, fields@.len() as int),
                key@,
            ),
        decreases fields@.len() - i,
    {
        proof {
            let rest = fields@.subrange(i as int, fields@.len() as int);
            assert(rest.first() == fields@[i as int]);
            assert(rest.drop_first() =~= fields@.subrange(i as int + 1, fields@.len() as int));
        }
        if str_eq(fields[i].0.as_str(), key) {
            return Some(&fields[i].1);
        }
        i += 1;
    }
    None
}

/// Validates one column entry, or reports the configuration malformed.
#[verifier::loop_isolation(false)]
fn parse_column(v: &ConfigValue) -> (r: Result<ColumnSpec, DbError>)
    ensures
        match column_model(*v) {
            Some(cm) => r is Ok && r->Ok_0@ == cm,
            None => r == Err::<ColumnSpec, DbError>(DbError::ConfigMalformed),
        },
{
    match v {
        ConfigValue::Object(fields) => {
            let nv = obj_get_exec(fields, "name");
            let tv = obj_get_exec(fields, "type");
            let cv = obj_get_exec(fields, "constraints");
            match (nv, tv, cv) {
                (
                    Some(ConfigValue::Text(n)),
                    Some(ConfigValue::Text(t)),
                    Some(ConfigValue::Array(cs)),
                ) => {
                    let ghost cms = cs@.map_values(|c: ConfigValue| constraint_model(c));
                    let mut constraints: Vec<String> = Vec::new();
                    let mut i: usize = 0;
                    while i < cs.len()
                        invariant
                            0 <= i <= cs@.len(),
                            cms == cs@.map_values(|c: ConfigValue| constraint_model(c)),
                            constraints@.len() == i,
                            forall|j: int|
                                0 <= j < i ==> #[trigger] cms[j] is Some
                                    && constraints.deep_view()[j] == cms[j]->Some_0,
                        decreases cs@.len() - i,
                    {
                        match &cs[i] {
                            ConfigValue::Text(s) => {
                                constraints.push(s.clone());
                            },
                            _ => {
                                proof {
                                    assert(!all_some(cms)) by {
                                        assert(cms[i as int] is None);
                                    }
                                }
                                return Err(DbError::ConfigMalformed);
                            },
                        }
                        i += 1;
                    }
                    proof {
                        assert(all_some(cms));
                        assert(constraints.deep_view() =~= unwrap_all(cms));
                    }
                    Ok(ColumnSpec { name: n.clone(), ctype: t.clone(), constraints })
                },
                _ => Err(DbError::ConfigMalformed),
            }
        },
        _ => Err(DbError::ConfigMalformed),
    }
}

/// Validates one seed row, or reports the configuration malformed.
#[verifier::loop_isolation(false)]
fn parse_row(v: &ConfigValue) -> (r: Result<RowSpec, DbError>)
    ensures
        match row_model(*v) {
            Some(rm) => r is Ok && r->Ok_0@ == rm,
            None => r == Err::<RowSpec, DbError>(DbError::ConfigMalformed),
        },
{
    match v {
        ConfigValue::Object(fields) => {
            let mut entries: Vec<(String, Scalar)> = Vec::new();
            let mut i: usize = 0;
            while i < fields.len()
                invariant
                    0 <= i <= fields@.len(),
                    entries@.len() == i,
                    forall|j: int|
                        0 <= j < i ==> scalar_model(#[trigger] fields@[j].1) is Some
                            && entries.deep_view()[j] == (
                        fields@[j].0@,
                        scalar_model(fields@[j].1)->Some_0,
                    ),
                decreases fields@.len() - i,
            {
                match &fields[i].1 {
                    ConfigValue::Null => {
                        entries.push((fields[i].0.clone(), Scalar::Null));
                    },
                    ConfigValue::Bool(b) => {
                        entries.push((fields[i].0.clone(), Scalar::Bool(*b)));
                    },
                    ConfigValue::Int(n) => {
                        entries.push((fields[i].0.clone(), Scalar::Int(*n)));
                    },
                    ConfigValue::Text(s) => {
                        entries.push((fields[i].0.clone(), Scalar::Text(s.clone())));
                    },
                    _ => {
                        proof {
                            assert(scalar_model(fields@[i as int].1) is None);
                        }
                        return Err(DbError::ConfigMalformed);
                    },
                }
                i += 1;
            }
            proof {
                let rm = RowModel {
                    entries: Seq::new(
                        fields@.len(),
                        |j: int| (fields@[j].0@, scalar_model(fields@[j].1)->Some_0),
                    ),
                };
                assert(entries.deep_view() =~= rm.entries);
            }
            Ok(RowSpec { entries })
        },
        _ => Err(DbError::ConfigMalformed),
    }
}

/// Validates one table entry, or reports the configuration malformed.
#[verifier::loop_isolation(false)]
fn parse_table(name: &String, v: &ConfigValue) -> (r: Result<TableSpec, DbError>)
    ensures
        match table_model(name@, *v) {
            Some(tm) => r is Ok && r->Ok_0@ == tm,
            None => r == Err::<TableSpec, DbError>(DbError::ConfigMalformed),
        },
{
    match v {
        ConfigValue::Object(fields) => {
            match obj_get_exec(fields, "columns") {
                Some(ConfigValue::Array(cols)) => {
                    let ghost cms = cols@.map_values(|c: ConfigValue| column_model(c));
                    let mut columns: Vec<ColumnSpec> = Vec::new();
                    let mut i: usize = 0;
                    while i < cols.len()
                        invariant
                            0 <= i <= cols@.len(),
                            cms == cols@.map_values(|c: ConfigValue| column_model(c)),
                            columns@.len() == i,
                            forall|j: int|
                                0 <= j < i ==> #[trigger] cms[j] is Some
                                    && columns.deep_view()[j] == cms[j]->Some_0,
                        decreases cols@.len() - i,
                    {
                        match parse_column(&cols[i]) {
                            Ok(c) => {
                                columns.push(c);
                            },
                            Err(e) => {
                                proof {
                                    assert(!all_some(cms)) by {
                                        assert(cms[i as int] is None);
                                    }
                                }
                                return Err(e);
                            },
                        }
                        i += 1;
                    }
                    proof {
                        assert(all_some(cms));
                        assert(columns.deep_view() =~= unwrap_all(cms));
                    }
                    let mut rows: Vec<RowSpec> = Vec::new();
                    match obj_get_exec(fields, "data") {
                        None => {
                            proof {
                                assert(rows.deep_view() =~= Seq::<RowModel>::empty());
                            }
                        },
                        Some(ConfigValue::Array(rs)) => {
                            let ghost rms = rs@.map_values(|r: ConfigValue| row_model(r));
                            let mut i: usize = 0;
                            while i < rs.len()
                                invariant
                                    0 <= i <= rs@.len(),
                                    rms == rs@.map_values(|r: ConfigValue| row_model(r)),
                                    rows@.len() == i,
                                    forall|j: int|
                                        0 <= j < i ==> #[trigger] rms[j] is Some
                                            && rows.deep_view()[j] == rms[j]->Some_0,
                                decreases rs@.len() - i,
                            {
                                match parse_row(&rs[i]) {
                                    Ok(row) => {
                                        rows.push(row);
                                    },
                                    Err(e) => {
                                        proof {
                                            assert(!all_some(rms)) by {
                                                assert(rms[i as int] is None);
                                            }
                                        }
                                        return Err(e);
                                    },
                                }
                                i += 1;
                            }
                            proof {
                                assert(all_some(rms));
                                assert(rows.deep_view() =~= unwrap_all(rms));
                                assert(rows_model(fields@) == Some(unwrap_all(rms)));
                            }
                        },
                        Some(_) => {
                            return Err(DbError::ConfigMalformed);
                        },
                    }
                    Ok(TableSpec { name: name.clone(), columns, rows })
                },
                _ => Err(DbError::ConfigMalformed),
            }
        },
        _ => Err(DbError::ConfigMalformed),
    }
}

/// Validates a configuration document against the expected shape and draws
/// the structured schema description from it, or reports it malformed.
///
/// A document without a `tables` object declares no tables and yields an
/// empty configuration; a malformed table, column or row entry fails the
/// whole validation, so a partially validated schema is never returned.
#[verifier::loop_isolation(false)]
pub fn parse_config(v: &ConfigValue) -> (r: Result<Config, DbError>)
    ensures
        match config_model(*v) {
            Some(ts) => r is Ok && r->Ok_0@ == ts,
            None => r == Err::<Config, DbError>(DbError::ConfigMalformed),
        },
{
    match v {
        ConfigValue::Object(fields) => {
            match obj_get_exec(fields, "tables") {
                Some(ConfigValue::Object(tbls)) => {
                    let ghost tms = Seq::new(
                        tbls@.len(),
                        |i: int| table_model(tbls@[i].0@, tbls@[i].1),
                    );
                    let mut tables: Vec<TableSpec> = Vec::new();
                    let mut i: usize = 0;
                    while i < tbls.len()
                        invariant
                            0 <= i <= tbls@.len(),
                            tms == Seq::new(
                                tbls@.len(),
                                |j: int| table_model(tbls@[j].0@, tbls@[j].1),
                            ),
                            tables@.len() == i,
                            forall|j: int|
                                0 <= j < i ==> #[trigger] tms[j] is Some
                                    && tables.deep_view()[j] == tms[j]->Some_0,
                        decreases tbls@.len() - i,
                    {
                        match parse_table(&tbls[i].0, &tbls[i].1) {
                            Ok(t) => {
                                tables.push(t);
                            },
                            Err(e) => {
                                proof {
                                    assert(!all_some(tms)) by {
                                        assert(tms[i as int] is None);
                                    }
                                }
                                return Err(e);
                            },
                        }
                        i += 1;
                    }
                    proof {
                        assert(all_some(tms));
                        let cfg = Config { tables };
                        assert(cfg@ =~= unwrap_all(tms));
                    }
                    Ok(Config { tables })
                },
                _ => Ok(Config { tables: Vec::new() }),
            }
        },
        _ => Ok(Config { tables: Vec::new() }),
    }
}

} // verus!
