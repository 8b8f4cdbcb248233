//! Applying compiled statements to the storage connection, seeding the
//! tables, and the startup lifecycle decision.

use vstd::prelude::*;
use vstd::string::StringExecFns;
use crate::compile::compile_config;
use crate::compile::statements_of;
use crate::config::Config;
use crate::config::ConfigValue;
use crate::config::Scalar;
use crate::config::TableModel;
use crate::config::config_model;
use crate::config::parse_config;
use crate::seed::count_sql;
use crate::seed::plan_table_seed;
use crate::seed::rows_fit;
use crate::storage::execute_statement;
use crate::storage::execute_with_params;
use crate::storage::query_single_i64;
use crate::storage::scalar_to_sql;
use crate::DbError;

verus! {

/// Whether every seed row of every table fits its table.
pub open spec fn all_rows_fit(ts: Seq<TableModel>) -> bool {
    forall|i: int| 0 <= i < ts.len() ==> rows_fit(#[trigger] ts[i])
}

/// Whether no table of the configuration carries seed rows.
pub open spec fn no_seed_rows(ts: Seq<TableModel>) -> bool {
    forall|i: int| 0 <= i < ts.len() ==> (#[trigger] ts[i]).rows.len() == 0
}

/// Executes compiled statements against the connection, in order. The first
/// statement the engine rejects aborts the batch: later statements are not
/// attempted, and the failure is reported as `StorageExecutionFailed`. An
/// empty batch reaches no engine call and always succeeds.
pub fn apply_schema(conn: &rusqlite::Connection, stmts: &Vec<String>) -> (r: Result<
    usize,
    DbError,
>)
    ensures
        r is Ok ==> r->Ok_0 == stmts@.len(),
        r is Err ==> r->Err_0 == DbError::StorageExecutionFailed,
        stmts@.len() == 0 ==> r is Ok,
{
    let mut i: usize = 0;
    while i < stmts.len()
        invariant
            0 <= i <= stmts@.len(),
        decreases stmts@.len() - i,
    {
        match execute_statement(conn, stmts[i].as_str()) {
            Ok(_) => {},
            Err(_) => {
                return Err(DbError::StorageExecutionFailed);
            },
        }
        i += 1;
    }
    Ok(i)
}

/// Compiles the configuration document and applies the resulting statements
/// to the connection, in declared table order. A malformed document fails
/// with `ConfigMalformed` before anything reaches the engine; a rejected
/// statement fails with `StorageExecutionFailed` and aborts the batch.
///
/// Every statement uses the create-if-absent form, so applying the same
/// configuration to an already-provisioned database creates nothing twice.
/// A document declaring no tables reaches no engine call and always
/// succeeds.
pub fn create_database_from_config(conn: &rusqlite::Connection, v: &ConfigValue) -> (r: Result<
    (),
    DbError,
>)
    ensures
        config_model(*v) is None <==> r == Err::<(), DbError>(DbError::ConfigMalformed),
        config_model(*v) is Some ==> r is Ok || r == Err::<(), DbError>(
            DbError::StorageExecutionFailed,
        ),
        config_model(*v) is Some && config_model(*v)->Some_0.len() == 0 ==> r is Ok,
{
    let stmts = match compile_config(v) {
        Ok(s) => s,
        Err(e) => {
            return Err(e);
        },
    };
    proof {
        assert(stmts@.len() == statements_of(config_model(*v)->Some_0).len());
    }
    match apply_schema(conn, &stmts) {
        Ok(_) => Ok(()),
        Err(e) => Err(e),
    }
}

/// Seeds every table of the configuration document that carries seed rows,
/// in declared table order. A table that already holds at least one row is
/// skipped — a designed no-op, not an error — so reseeding never duplicates
/// rows; the skip flows through `plan_table_seed`'s flag, which then plans
/// no statements. Every insert is parameterized: seed values never appear in
/// the statement text. A malformed document, or a seed row naming an
/// undeclared or repeated column, fails with `ConfigMalformed` before
/// anything is written; an engine failure aborts the run with
/// `StorageExecutionFailed`. A document without seed rows reaches no engine
/// call and always succeeds.
#[verifier::loop_isolation(false)]
pub fn insert_data_from_config(conn: &rusqlite::Connection, v: &ConfigValue) -> (r: Result<
    (),
    DbError,
>)
    ensures
        match config_model(*v) {
            Some(ts) => {
                &&& (r == Err::<(), DbError>(DbError::ConfigMalformed) <==> !all_rows_fit(ts))
                &&& all_rows_fit(ts) ==> r is Ok || r == Err::<(), DbError>(
                    DbError::StorageExecutionFailed,
                )
                &&& no_seed_rows(ts) ==> r is Ok
            },
            None => r == Err::<(), DbError>(DbError::ConfigMalformed),
        },
{
    let cfg = match parse_config(v) {
        Ok(c) => c,
        Err(e) => {
            return Err(e);
        },
    };
    // Validation pass: hold every table's rows to the declared columns
    // before anything is written; with the skip flag set, nothing is built.
    let mut i: usize = 0;
    while i < cfg.tables.len()
        invariant
            0 <= i <= cfg.tables@.len(),
            forall|j: int| 0 <= j < i ==> rows_fit(#[trigger] cfg@[j]),
        decreases cfg.tables@.len() - i,
    {
        proof {
            assert(cfg@[i as int] == cfg.tables@[i as int]@);
        }
        match plan_table_seed(&cfg.tables[i], true) {
            Ok(_) => {},
            Err(e) => {
                proof {
                    assert(!all_rows_fit(cfg@)) by {
                        assert(!rows_fit(cfg@[i as int]));
                    }
                    assert(!no_seed_rows(cfg@)) by {
                        if cfg@[i as int].rows.len() == 0 {
                            assert(rows_fit(cfg@[i as int]));
                        }
                    }
                }
                return Err(e);
            },
        }
        i += 1;
    }
    proof {
        assert(all_rows_fit(cfg@));
    }
    // Seeding pass: probe each table that carries seed rows; the probe's
    // outcome drives the plan through the skip flag.
    let mut i: usize = 0;
    while i < cfg.tables.len()
        invariant
            0 <= i <= cfg.tables@.len(),
            all_rows_fit(cfg@),
        decreases cfg.tables@.len() - i,
    {
        if cfg.tables[i].rows.len() > 0 {
            proof {
                assert(!no_seed_rows(cfg@)) by {
                    assert(cfg@[i as int].rows.len() > 0);
                }
            }
            let sql = count_sql(&cfg.tables[i].name);
            let existing = match query_single_i64(conn, sql.as_str()) {
                Ok(n) => n,
                Err(_) => {
                    return Err(DbError::StorageExecutionFailed);
                },
            };
            let plan = match plan_table_seed(&cfg.tables[i], existing != 0) {
                Ok(p) => p,
                Err(e) => {
                    // the validation pass proved every row fits, so this arm
                    // stands in contradiction and is never reached
                    proof {
                        assert(cfg@[i as int] == cfg.tables@[i as int]@);
                        assert(rows_fit(cfg@[i as int]));
                    }
                    return Err(e);
                },
            };
            let mut k: usize = 0;
            while k < plan.len()
                invariant
                    0 <= k <= plan@.len(),
                decreases plan@.len() - k,
            {
                let mut params: Vec<rusqlite::types::Value> = Vec::new();
                let mut m: usize = 0;
                while m < plan[k].1.len()
                    invariant
                        0 <= m <= plan@[k as int].1@.len(),
                    decreases plan@[k as int].1@.len() - m,
                {
                    params.push(scalar_to_sql(&plan[k].1[m]));
                    m += 1;
                }
                match execute_with_params(conn, plan[k].0.as_str(), params) {
                    Ok(_) => {},
                    Err(_) => {
                        return Err(DbError::StorageExecutionFailed);
                    },
                }
                k += 1;
            }
        }
        i += 1;
    }
    Ok(())
}

/// What a provisioning run does, decided once at startup from whether the
/// database file already exists.
#[derive(Clone, Copy, Debug, PartialEq, Eq, Structural)]
pub enum ProvisionPlan {
    /// No database yet: create the tables and seed the initial data.
    InitializeFresh,
    /// A database exists: drop the known tables, recreate them, reseed.
    ResetExisting,
}

/// The lifecycle driver's one decision: an absent database file initializes
/// fresh, a present one is reset. There are no intermediate states.
pub fn provision_plan(db_exists: bool) -> (r: ProvisionPlan)
    ensures
        r == (if db_exists {
            ProvisionPlan::ResetExisting
        } else {
            ProvisionPlan::InitializeFresh
        }),
{
    if db_exists {
        ProvisionPlan::ResetExisting
    } else {
        ProvisionPlan::InitializeFresh
    }
}

/// The drop statement for one table.
pub open spec fn drop_statement(table: Seq<char>) -> Seq<char> {
    "DROP TABLE IF EXISTS "@ + table + ";"@
}

/// Builds the drop statements a reset runs before recreating the schema:
/// one per table, in reverse declaration order, so a table stands dropped
/// before any table it references (references point at earlier tables).
#[verifier::loop_isolation(false)]
pub fn drop_statements(cfg: &Config) -> (r: Vec<String>)
    ensures
        r@.len() == cfg@.len(),
        forall|i: int|
            0 <= i < r@.len() ==> #[trigger] r.deep_view()[i] == drop_statement(
                cfg@[cfg@.len() - 1 - i].name,
            ),
{
    let n = cfg.tables.len();
    let mut out: Vec<String> = Vec::new();
    let mut i: usize = 0;
    while i < n
        invariant
            0 <= i <= cfg.tables@.len(),
            n == cfg.tables@.len(),
            out@.len() == i,
            forall|j: int|
                0 <= j < i ==> #[trigger] out.deep_view()[j] == drop_statement(
                    cfg@[cfg@.len() - 1 - j].name,
                ),
        decreases n - i,
    {
        let idx = n - 1 - i;
        let mut s = String::from_str("DROP TABLE IF EXISTS ");
        s.append(cfg.tables[idx].name.as_str());
        s.append(";");
        proof {
            assert(cfg@[idx as int] == cfg.tables@[idx as int]@);
        }
        let ghost pre = out.deep_view();
        out.push(s);
        proof {
            assert(out.deep_view() =~= pre.push(drop_statement(cfg@[idx as int].name)));
        }
        i += 1;
    }
    out
}

} // verus!
