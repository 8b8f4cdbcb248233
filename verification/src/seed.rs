//! The seed loader's planning: which parameterized insert statements a
//! table's seed rows yield, validated against the declared columns. Planning
//! is pure; handing the plan to the engine happens elsewhere.

use vstd::prelude::*;
use vstd::string::StringExecFns;
use crate::config::ColumnModel;
use crate::config::RowModel;
use crate::config::RowSpec;
use crate::config::Scalar;
use crate::config::ScalarModel;
use crate::config::TableModel;
use crate::config::TableSpec;
use crate::text::join;
use crate::text::join_strings;
use crate::text::str_eq;
use crate::DbError;

verus! {

/// The column names a row names, in the row's own order.
pub open spec fn row_keys(r: RowModel) -> Seq<Seq<char>> {
    r.entries.map_values(|e: (Seq<char>, ScalarModel)| e.0)
}

/// The values a row carries, in the row's own order.
pub open spec fn row_values(r: RowModel) -> Seq<ScalarModel> {
    r.entries.map_values(|e: (Seq<char>, ScalarModel)| e.1)
}

/// The names of a table's declared columns, in declaration order.
pub open spec fn column_names(t: TableModel) -> Seq<Seq<char>> {
    t.columns.map_values(|c: ColumnModel| c.name)
}

/// One placeholder per row value.
pub open spec fn placeholders(n: nat) -> Seq<Seq<char>> {
    Seq::new(n, |i: int| "?"@)
}

/// The parameterized insert statement one seed row yields: the row's own
/// column names, then one placeholder per value, so no seed value is ever
/// interpolated into the statement text.
pub open spec fn insert_statement(table: Seq<char>, r: RowModel) -> Seq<char> {
    "INSERT INTO "@ + table + " ("@ + join(row_keys(r), ", "@) + ") VALUES ("@ + join(
        placeholders(r.entries.len()),
        ", "@,
    ) + ");"@
}

/// A seed row fits its table when it names at least one column, names no
/// column twice, and names only declared columns. This is a deliberate
/// design choice for what a matching column set means: a row may name a
/// strict subset of the declared columns, and a column it leaves out takes
/// whatever the engine's own default gives it. A row that does not fit is a
/// configuration-shape failure for the whole run, never silently skipped.
pub open spec fn row_fits(t: TableModel, r: RowModel) -> bool {
    &&& r.entries.len() > 0
    &&& row_keys(r).no_duplicates()
    &&& forall|i: int|
        0 <= i < r.entries.len() ==> column_names(t).contains(#[trigger] r.entries[i].0)
}

/// All seed rows of a table fit it.
pub open spec fn rows_fit(t: TableModel) -> bool {
    forall|i: int| 0 <= i < t.rows.len() ==> row_fits(t, #[trigger] t.rows[i])
}

/// Whether the table declares a column of this name.
#[verifier::loop_isolation(false)]
fn has_column(t: &TableSpec, name: &str) -> (r: bool)
    ensures
        r == column_names(t@).contains(name@),
{
    let mut i: usize = 0;
    while i < t.columns.len()
        invariant
            0 <= i <= t.columns@.len(),
            forall|j: int| 0 <= j < i ==> #[trigger] column_names(t@)[j] != name@,
        decreases t.columns@.len() - i,
    {
        if str_eq(t.columns[i].name.as_str(), name) {
            proof {
                assert(column_names(t@)[i as int] == name@);
            }
            return true;
        }
        i += 1;
    }
    false
}

/// Builds the parameterized insert statement and the parameter list for one
/// seed row, or reports the configuration malformed where the row does not
/// fit the table.
#[verifier::loop_isolation(false)]
fn plan_row(t: &TableSpec, row: &RowSpec) -> (r: Result<(String, Vec<Scalar>), DbError>)
    ensures
        match r {
            Ok(p) => row_fits(t@, row@) && p.0@ == insert_statement(t@.name, row@)
                && p.1.deep_view() == row_values(row@),
            Err(e) => e == DbError::ConfigMalformed && !row_fits(t@, row@),
        },
{
    if row.entries.len() == 0 {
        return Err(DbError::ConfigMalformed);
    }
    let mut keys: Vec<String> = Vec::new();
    let mut marks: Vec<String> = Vec::new();
    let mut vals: Vec<Scalar> = Vec::new();
    let mut i: usize = 0;
    while i < row.entries.len()
        invariant
            0 <= i <= row.entries@.len(),
            keys@.len() == i,
            marks@.len() == i,
            vals@.len() == i,
            forall|j: int| 0 <= j < i ==> keys.deep_view()[j] == #[trigger] row@.entries[j].0,
            forall|j: int| 0 <= j < i ==> vals.deep_view()[j] == #[trigger] row@.entries[j].1,
            forall|j: int| 0 <= j < i ==> #[trigger] marks.deep_view()[j] == "?"@,
            forall|j: int|
                0 <= j < i ==> column_names(t@).contains(#[trigger] row@.entries[j].0),
            forall|j1: int, j2: int|
                0 <= j1 < j2 < i ==> #[trigger] row@.entries[j1].0 != #[trigger] row@.entries[j2].0,
        decreases row.entries@.len() - i,
    {
        let key = &row.entries[i].0;
        proof {
            assert(key@ == row@.entries[i as int].0);
        }
        if !has_column(t, key.as_str()) {
            proof {
                assert(!row_fits(t@, row@)) by {
                    assert(!column_names(t@).contains(row@.entries[i as int].0));
                }
            }
            return Err(DbError::ConfigMalformed);
        }
        let mut j: usize = 0;
        while j < keys.len()
            invariant
                0 <= j <= i,
                forall|l: int| 0 <= l < j ==> #[trigger] row@.entries[l].0 != key@,
            decreases i - j,
        {
            if str_eq(keys[j].as_str(), key.as_str()) {
                proof {
                    assert(row_keys(row@)[j as int] == row@.entries[j as int].0);
                    assert(row_keys(row@)[i as int] == row@.entries[i as int].0);
                    assert(!row_keys(row@).no_duplicates());
                }
                return Err(DbError::ConfigMalformed);
            }
            j += 1;
        }
        let ghost pre_keys = keys.deep_view();
        let ghost pre_marks = marks.deep_view();
        let ghost pre_vals = vals.deep_view();
        keys.push(key.clone());
        marks.push(String::from_str("?"));
        vals.push(row.entries[i].1.duplicate());
        proof {
            assert(keys.deep_view() =~= pre_keys.push(row@.entries[i as int].0));
            assert(marks.deep_view() =~= pre_marks.push("?"@));
            assert(vals.deep_view() =~= pre_vals.push(row@.entries[i as int].1));
        }
        i += 1;
    }
    let mut sql = String::from_str("INSERT INTO ");
    sql.append(t.name.as_str());
    sql.append(" (");
    let jk = join_strings(&keys, ", ");
    sql.append(jk.as_str());
    sql.append(") VALUES (");
    let jm = join_strings(&marks, ", ");
    sql.append(jm.as_str());
    sql.append(");");
    proof {
        assert(keys.deep_view() =~= row_keys(row@));
        assert(marks.deep_view() =~= placeholders(row@.entries.len()));
        assert(vals.deep_view() =~= row_values(row@));
        assert(row_keys(row@).no_duplicates()) by {
            assert(forall|j1: int, j2: int|
                0 <= j1 < row_keys(row@).len() && 0 <= j2 < row_keys(row@).len() && j1 != j2
                    ==> #[trigger] row_keys(row@)[j1] != #[trigger] row_keys(row@)[j2]) by {
                assert(forall|j1: int, j2: int|
                    0 <= j1 < j2 < row@.entries.len() ==> #[trigger] row@.entries[j1].0
                        != #[trigger] row@.entries[j2].0);
            }
        }
    }
    Ok((sql, vals))
}

/// Plans a table's seeding: nothing where the table was already seeded, else
/// one parameterized insert per seed row, in row order. A row that does not
/// fit the declared columns fails the whole plan, whether or not the table
/// was already seeded, so nothing malformed ever reaches the engine.
#[verifier::loop_isolation(false)]
pub fn plan_table_seed(t: &TableSpec, already_seeded: bool) -> (r: Result<
    Vec<(String, Vec<Scalar>)>,
    DbError,
>)
    ensures
        match r {
            Ok(plan) => rows_fit(t@) && (if already_seeded {
                plan@.len() == 0
            } else {
                &&& plan@.len() == t@.rows.len()
                &&& forall|i: int|
                    0 <= i < plan@.len() ==> (#[trigger] plan@[i]).0@ == insert_statement(
                        t@.name,
                        t@.rows[i],
                    ) && plan@[i].1.deep_view() == row_values(t@.rows[i])
            }),
            Err(e) => e == DbError::ConfigMalformed && !rows_fit(t@),
        },
{
    let mut plan: Vec<(String, Vec<Scalar>)> = Vec::new();
    let mut i: usize = 0;
    while i < t.rows.len()
        invariant
            0 <= i <= t.rows@.len(),
            plan@.len() == i,
            forall|j: int|
                0 <= j < i ==> (#[trigger] plan@[j]).0@ == insert_statement(t@.name, t@.rows[j])
                    && plan@[j].1.deep_view() == row_values(t@.rows[j]),
            forall|j: int| 0 <= j < i ==> row_fits(t@, #[trigger] t@.rows[j]),
        decreases t.rows@.len() - i,
    {
        proof {
            assert(t@.rows[i as int] == t.rows@[i as int]@);
        }
        match plan_row(t, &t.rows[i]) {
            Ok(p) => {
                plan.push(p);
            },
            Err(e) => {
                proof {
                    assert(!rows_fit(t@)) by {
                        assert(!row_fits(t@, t@.rows[i as int]));
                    }
                }
                return Err(e);
            },
        }
        i += 1;
    }
    if already_seeded {
        Ok(Vec::new())
    } else {
        Ok(plan)
    }
}

/// The probe statement the seed loader uses to see whether a table already
/// holds at least one row.
pub open spec fn count_statement(table: Seq<char>) -> Seq<char> {
    "SELECT COUNT(*) FROM "@ + table + ";"@
}

/// Builds the probe statement for one table.
pub fn count_sql(name: &String) -> (r: String)
    ensures
        r@ == count_statement(name@),
{
    let mut sql = String::from_str("SELECT COUNT(*) FROM ");
    sql.append(name.as_str());
    sql.append(";");
    sql
}

} // verus!
