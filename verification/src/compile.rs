//! The constraint classifier and the table-definition compiler.

use vstd::prelude::*;
use vstd::string::StringExecFns;
use crate::config::ColumnModel;
use crate::config::Config;
use crate::config::ConfigValue;
use crate::config::TableModel;
use crate::config::TableSpec;
use crate::config::config_model;
use crate::config::parse_config;
use crate::text::is_fk_constraint;
use crate::text::is_foreign_key;
use crate::text::join;
use crate::text::join_strings;
use crate::text::lemma_join_concat;
use crate::DbError;

verus! {

/// The inline constraints of a constraint list: everything not marked as a
/// foreign-key clause, in declaration order.
pub open spec fn inline_of(cs: Seq<Seq<char>>) -> Seq<Seq<char>> {
    cs.filter(|c: Seq<char>| !is_fk_constraint(c))
}

/// The foreign-key clauses of a constraint list, in declaration order.
pub open spec fn fks_of(cs: Seq<Seq<char>>) -> Seq<Seq<char>> {
    cs.filter(|c: Seq<char>| is_fk_constraint(c))
}

/// One compiled column definition: name and type, then the inline
/// constraints joined by single spaces. A column without inline constraints
/// compiles to `name type` alone, with no trailing separator.
pub open spec fn column_def(c: ColumnModel) -> Seq<char> {
    let inline = inline_of(c.constraints);
    if inline.len() == 0 {
        c.name + " "@ + c.ctype
    } else {
        c.name + " "@ + c.ctype + " "@ + join(inline, " "@)
    }
}

/// All column definitions of a table, in declaration order.
pub open spec fn column_defs(cols: Seq<ColumnModel>) -> Seq<Seq<char>> {
    cols.map_values(|c: ColumnModel| column_def(c))
}

/// All foreign-key clauses a table's columns yield, relocated to table
/// scope: clauses of earlier columns first, each column's clauses in their
/// own declaration order.
pub open spec fn table_fks(cols: Seq<ColumnModel>) -> Seq<Seq<char>>
    decreases cols.len(),
{
    if cols.len() == 0 {
        Seq::empty()
    } else {
        table_fks(cols.drop_last()) + fks_of(cols.last().constraints)
    }
}

/// The one table-definition statement a table compiles to: create-if-absent,
/// then all column definitions followed by all foreign-key clauses,
/// comma-joined.
pub open spec fn table_statement(t: TableModel) -> Seq<char> {
    "CREATE TABLE IF NOT EXISTS "@ + t.name + " ("@ + join(
        column_defs(t.columns) + table_fks(t.columns),
        ", "@,
    ) + ");"@
}

/// The compiled statements of a configuration: one per table, in the
/// configuration's declared table order.
pub open spec fn statements_of(ts: Seq<TableModel>) -> Seq<Seq<char>> {
    ts.map_values(|t: TableModel| table_statement(t))
}

/// Extending a constraint list by one entry extends exactly one side of the
/// partition by that entry.
proof fn lemma_partition_step(s: Seq<Seq<char>>, i: int)
    requires
        0 <= i < s.len(),
    ensures
        is_fk_constraint(s[i]) ==> fks_of(s.subrange(0, i + 1)) == fks_of(
            s.subrange(0, i),
        ).push(s[i]) && inline_of(s.subrange(0, i + 1)) == inline_of(s.subrange(0, i)),
        !is_fk_constraint(s[i]) ==> inline_of(s.subrange(0, i + 1)) == inline_of(
            s.subrange(0, i),
        ).push(s[i]) && fks_of(s.subrange(0, i + 1)) == fks_of(s.subrange(0, i)),
{
    assert(s.subrange(0, i + 1).drop_last() =~= s.subrange(0, i));
    assert(s.subrange(0, i + 1).last() == s[i]);
    reveal(Seq::filter);
}

/// Extending a column list by one column appends its definition.
proof fn lemma_column_defs_step(cols: Seq<ColumnModel>, i: int)
    requires
        0 <= i < cols.len(),
    ensures
        column_defs(cols.subrange(0, i + 1)) == column_defs(cols.subrange(0, i)).push(
            column_def(cols[i]),
        ),
{
    assert(column_defs(cols.subrange(0, i + 1)) =~= column_defs(cols.subrange(0, i)).push(
        column_def(cols[i]),
    ));
}

/// Extending a column list by one column appends its foreign-key clauses.
proof fn lemma_table_fks_step(cols: Seq<ColumnModel>, i: int)
    requires
        0 <= i < cols.len(),
    ensures
        table_fks(cols.subrange(0, i + 1)) == table_fks(cols.subrange(0, i)) + fks_of(
            cols[i].constraints,
        ),
{
    assert(cols.subrange(0, i + 1).drop_last() =~= cols.subrange(0, i));
    assert(cols.subrange(0, i + 1).last() == cols[i]);
}

/// Splits a raw constraint list into inline constraints and foreign-key
/// clauses. Relative order is preserved within each side, and every
/// constraint lands on exactly one side.
#[verifier::loop_isolation(false)]
pub fn classify_constraints(cs: &Vec<String>) -> (r: (Vec<String>, Vec<String>))
    ensures
        r.0.deep_view() == inline_of(cs.deep_view()),
        r.1.deep_view() == fks_of(cs.deep_view()),
{
    proof {
        reveal(Seq::filter);
        assert(cs.deep_view().subrange(0, 0) =~= Seq::<Seq<char>>::empty());
    }
    let mut inline: Vec<String> = Vec::new();
    let mut fks: Vec<String> = Vec::new();
    let mut i: usize = 0;
    while i < cs.len()
        invariant
            0 <= i <= cs@.len(),
            inline.deep_view() == inline_of(cs.deep_view().subrange(0, i as int)),
            fks.deep_view() == fks_of(cs.deep_view().subrange(0, i as int)),
        decreases cs@.len() - i,
    {
        proof {
            lemma_partition_step(cs.deep_view(), i as int);
        }
        if is_foreign_key(cs[i].as_str()) {
            let ghost pre = fks.deep_view();
            fks.push(cs[i].clone());
            proof {
                assert(fks.deep_view() =~= pre.push(cs.deep_view()[i as int]));
            }
        } else {
            let ghost pre = inline.deep_view();
            inline.push(cs[i].clone());
            proof {
                assert(inline.deep_view() =~= pre.push(cs.deep_view()[i as int]));
            }
        }
        i += 1;
    }
    proof {
        assert(cs.deep_view().subrange(0, cs@.len() as int) =~= cs.deep_view());
    }
    (inline, fks)
}

/// Compiles one table to its table-definition statement.
#[verifier::loop_isolation(false)]
pub fn compile_table(t: &TableSpec) -> (r: String)
    ensures
        r@ == table_statement(t@),
{
    let ghost cols = t.columns.deep_view();
    proof {
        assert(cols.subrange(0, 0) =~= Seq::<ColumnModel>::empty());
        assert(column_defs(Seq::empty()) =~= Seq::<Seq<char>>::empty());
    }
    let mut parts: Vec<String> = Vec::new();
    let mut all_fks: Vec<String> = Vec::new();
    let mut i: usize = 0;
    while i < t.columns.len()
        invariant
            0 <= i <= cols.len(),
            parts.deep_view() == column_defs(cols.subrange(0, i as int)),
            all_fks.deep_view() == table_fks(cols.subrange(0, i as int)),
        decreases cols.len() - i,
    {
        let col = &t.columns[i];
        let (inline, fk) = classify_constraints(&col.constraints);
        let mut def = col.name.clone();
        def.append(" ");
        def.append(col.ctype.as_str());
        if inline.len() > 0 {
            def.append(" ");
            let joined = join_strings(&inline, " ");
            def.append(joined.as_str());
        }
        proof {
            assert(def@ == column_def(cols[i as int]));
        }
        let ghost pre_parts = parts.deep_view();
        parts.push(def);
        proof {
            lemma_column_defs_step(cols, i as int);
            assert(parts.deep_view() =~= pre_parts.push(column_def(cols[i as int])));
        }
        let ghost fkdv = fk.deep_view();
        let mut k: usize = 0;
        while k < fk.len()
            invariant
                0 <= k <= fkdv.len(),
                all_fks.deep_view() == table_fks(cols.subrange(0, i as int)) + fkdv.subrange(
                    0,
                    k as int,
                ),
            decreases fkdv.len() - k,
        {
            let ghost pre = all_fks.deep_view();
            all_fks.push(fk[k].clone());
            proof {
                assert(all_fks.deep_view() =~= pre.push(fkdv[k as int]));
                assert(pre.push(fkdv[k as int]) =~= table_fks(cols.subrange(0, i as int))
                    + fkdv.subrange(0, (k + 1) as int));
            }
            k += 1;
        }
        proof {
            assert(fkdv.subrange(0, fkdv.len() as int) =~= fkdv);
            lemma_table_fks_step(cols, i as int);
        }
        i += 1;
    }
    proof {
        assert(cols.subrange(0, cols.len() as int) =~= cols);
    }
    let ghost fk_all = all_fks.deep_view();
    let mut k: usize = 0;
    while k < all_fks.len()
        invariant
            0 <= k <= fk_all.len(),
            fk_all == all_fks.deep_view(),
            all_fks@.len() == fk_all.len(),
            parts.deep_view() == column_defs(cols) + fk_all.subrange(0, k as int),
        decreases fk_all.len() - k,
    {
        let ghost pre = parts.deep_view();
        parts.push(all_fks[k].clone());
        proof {
            assert(parts.deep_view() =~= pre.push(fk_all[k as int]));
            assert(pre.push(fk_all[k as int]) =~= column_defs(cols) + fk_all.subrange(
                0,
                (k + 1) as int,
            ));
        }
        k += 1;
    }
    proof {
        assert(fk_all.subrange(0, fk_all.len() as int) =~= fk_all);
        assert(column_defs(cols) + fk_all.subrange(0, 0) =~= column_defs(cols));
    }
    let mut sql = String::from_str("CREATE TABLE IF NOT EXISTS ");
    sql.append(t.name.as_str());
    sql.append(" (");
    let joined = join_strings(&parts, ", ");
    sql.append(joined.as_str());
    sql.append(");");
    sql
}

/// Compiles a validated configuration: exactly one table-definition
/// statement per table, in the configuration's declared table order.
#[verifier::loop_isolation(false)]
pub fn compile_schema(cfg: &Config) -> (r: Vec<String>)
    ensures
        r.deep_view() == statements_of(cfg@),
{
    let mut out: Vec<String> = Vec::new();
    let mut i: usize = 0;
    while i < cfg.tables.len()
        invariant
            0 <= i <= cfg.tables@.len(),
            out@.len() == i,
            forall|j: int|
                0 <= j < i ==> out.deep_view()[j] == #[trigger] table_statement(cfg@[j]),
        decreases cfg.tables@.len() - i,
    {
        let stmt = compile_table(&cfg.tables[i]);
        out.push(stmt);
        i += 1;
    }
    proof {
        assert(out.deep_view() =~= statements_of(cfg@));
    }
    out
}

/// Compiles a configuration document: validates its shape and produces the
/// table-definition statements, or fails with `ConfigMalformed` and produces
/// none.
pub fn compile_config(v: &ConfigValue) -> (r: Result<Vec<String>, DbError>)
    ensures
        match config_model(*v) {
            Some(ts) => r is Ok && r->Ok_0.deep_view() == statements_of(ts),
            None => r == Err::<Vec<String>, DbError>(DbError::ConfigMalformed),
        },
{
    match parse_config(v) {
        Ok(cfg) => Ok(compile_schema(&cfg)),
        Err(e) => Err(e),
    }
}

/// Law: compiling yields exactly one statement per table, one-to-one and in
/// the configuration's declared table order.
pub proof fn lemma_one_statement_per_table(ts: Seq<TableModel>)
    ensures
        statements_of(ts).len() == ts.len(),
        forall|i: int|
            0 <= i < ts.len() ==> statements_of(ts)[i] == #[trigger] table_statement(ts[i]),
{
}

/// Law: the classifier partitions a constraint list exactly once: the two
/// sides' lengths sum to the whole, the inline side holds no foreign-key
/// clause, and the foreign-key side holds nothing else.
pub proof fn lemma_classifier_partitions(cs: Seq<Seq<char>>)
    ensures
        inline_of(cs).len() + fks_of(cs).len() == cs.len(),
        forall|i: int|
            0 <= i < inline_of(cs).len() ==> !is_fk_constraint(#[trigger] inline_of(cs)[i]),
        forall|i: int| 0 <= i < fks_of(cs).len() ==> is_fk_constraint(#[trigger] fks_of(cs)[i]),
    decreases cs.len(),
{
    broadcast use vstd::seq_lib::group_filter_ensures;

    reveal(Seq::filter);
    if cs.len() > 0 {
        lemma_classifier_partitions(cs.drop_last());
    }
}

/// Law: in a compiled statement every foreign-key clause stands after every
/// column definition, whatever the position of the column that carried it;
/// with no foreign-key clauses the statement holds the column definitions
/// alone, with no trailing separator.
pub proof fn lemma_foreign_keys_after_columns(t: TableModel)
    requires
        t.columns.len() > 0,
    ensures
        table_fks(t.columns).len() > 0 ==> table_statement(t) == "CREATE TABLE IF NOT EXISTS "@
            + t.name + " ("@ + (join(column_defs(t.columns), ", "@) + ", "@ + join(
            table_fks(t.columns),
            ", "@,
        )) + ");"@,
        table_fks(t.columns).len() == 0 ==> table_statement(t) == "CREATE TABLE IF NOT EXISTS "@
            + t.name + " ("@ + join(column_defs(t.columns), ", "@) + ");"@,
{
    assert(column_defs(t.columns).len() == t.columns.len());
    if table_fks(t.columns).len() > 0 {
        lemma_join_concat(column_defs(t.columns), table_fks(t.columns), ", "@);
    } else {
        assert(column_defs(t.columns) + table_fks(t.columns) =~= column_defs(t.columns));
    }
}

/// Law: a column with an empty constraint list compiles to its name and type
/// alone, with no trailing tokens or separators.
pub proof fn lemma_bare_column(c: ColumnModel)
    requires
        c.constraints.len() == 0,
    ensures
        column_def(c) == c.name + " "@ + c.ctype,
{
    reveal(Seq::filter);
    assert(inline_of(c.constraints).len() == 0);
}

/// Law: every compiled statement uses the create-if-absent form, so applying
/// a configuration to a database that already holds its tables repeats no
/// table creation.
pub proof fn lemma_statement_is_create_if_absent(t: TableModel)
    ensures
        "CREATE TABLE IF NOT EXISTS "@.is_prefix_of(table_statement(t)),
{
    let p = "CREATE TABLE IF NOT EXISTS "@;
    assert(table_statement(t).subrange(0, p.len() as int) =~= p);
}

/// Law: every statement a configuration compiles to uses the
/// create-if-absent form, whatever the tables hold.
pub proof fn lemma_all_statements_create_if_absent(ts: Seq<TableModel>)
    ensures
        forall|i: int|
            0 <= i < ts.len() ==> "CREATE TABLE IF NOT EXISTS "@.is_prefix_of(
                #[trigger] statements_of(ts)[i],
            ),
{
    assert forall|i: int|
        0 <= i < ts.len() implies "CREATE TABLE IF NOT EXISTS "@.is_prefix_of(
        #[trigger] statements_of(ts)[i],
    ) by {
        lemma_statement_is_create_if_absent(ts[i]);
    }
}

} // verus!
