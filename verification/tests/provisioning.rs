use database_creator::DbError;
use database_creator::apply::ProvisionPlan;
use database_creator::apply::create_database_from_config;
use database_creator::apply::drop_statements;
use database_creator::apply::insert_data_from_config;
use database_creator::apply::provision_plan;
use database_creator::compile::classify_constraints;
use database_creator::compile::compile_config;
use database_creator::config::ConfigValue;
use database_creator::config::parse_config;
use database_creator::seed::plan_table_seed;

fn text(v: &str) -> ConfigValue {
    ConfigValue::Text(v.to_string())
}

fn column(name: &str, ctype: &str, constraints: &[&str]) -> ConfigValue {
    ConfigValue::Object(vec![
        ("name".to_string(), text(name)),
        ("type".to_string(), text(ctype)),
        (
            "constraints".to_string(),
            ConfigValue::Array(constraints.iter().map(|c| text(c)).collect()),
        ),
    ])
}

fn table(columns: Vec<ConfigValue>) -> ConfigValue {
    ConfigValue::Object(vec![("columns".to_string(), ConfigValue::Array(columns))])
}

fn table_with_data(columns: Vec<ConfigValue>, data: Vec<ConfigValue>) -> ConfigValue {
    ConfigValue::Object(vec![
        ("columns".to_string(), ConfigValue::Array(columns)),
        ("data".to_string(), ConfigValue::Array(data)),
    ])
}

fn row(entries: Vec<(&str, ConfigValue)>) -> ConfigValue {
    ConfigValue::Object(entries.into_iter().map(|(k, v)| (k.to_string(), v)).collect())
}

fn config(tables: Vec<(&str, ConfigValue)>) -> ConfigValue {
    ConfigValue::Object(vec![(
        "tables".to_string(),
        ConfigValue::Object(tables.into_iter().map(|(n, t)| (n.to_string(), t)).collect()),
    )])
}

fn person_config() -> ConfigValue {
    config(vec![(
        "person",
        table(vec![
            column("id", "INTEGER", &["PRIMARY KEY"]),
            column("age", "INTEGER", &[]),
        ]),
    )])
}

fn seeded_config() -> ConfigValue {
    config(vec![(
        "person",
        table_with_data(
            vec![
                column("id", "INTEGER", &["PRIMARY KEY"]),
                column("name", "TEXT", &[]),
            ],
            vec![
                row(vec![("id", ConfigValue::Int(1)), ("name", text("ada"))]),
                row(vec![("id", ConfigValue::Int(2)), ("name", text("grace"))]),
            ],
        ),
    )])
}

fn table_count(conn: &rusqlite::Connection) -> i64 {
    conn.query_row(
        "SELECT COUNT(*) FROM sqlite_master WHERE type = 'table'",
        [],
        |r| r.get(0),
    )
    .unwrap()
}

fn row_count(conn: &rusqlite::Connection, table: &str) -> i64 {
    conn.query_row(&format!("SELECT COUNT(*) FROM {table}"), [], |r| r.get(0))
        .unwrap()
}

#[test]
fn compiles_person_table() {
    let stmts = compile_config(&person_config()).unwrap();
    assert_eq!(stmts.len(), 1);
    assert_eq!(
        stmts[0],
        "CREATE TABLE IF NOT EXISTS person (id INTEGER PRIMARY KEY, age INTEGER);"
    );
}

#[test]
fn foreign_key_clause_trails_all_columns() {
    let cfg = config(vec![(
        "orders",
        table(vec![
            column(
                "person_id",
                "INTEGER",
                &["NOT NULL", "FOREIGN KEY(person_id) REFERENCES person(id)"],
            ),
            column("amount", "INTEGER", &[]),
        ]),
    )]);
    let stmts = compile_config(&cfg).unwrap();
    assert_eq!(
        stmts[0],
        "CREATE TABLE IF NOT EXISTS orders (person_id INTEGER NOT NULL, amount INTEGER, \
         FOREIGN KEY(person_id) REFERENCES person(id));"
    );
}

#[test]
fn one_statement_per_table_in_declared_order() {
    let cfg = config(vec![
        ("alpha", table(vec![column("a", "TEXT", &[])])),
        ("beta", table(vec![column("b", "TEXT", &[])])),
        ("gamma", table(vec![column("c", "TEXT", &[])])),
    ]);
    let stmts = compile_config(&cfg).unwrap();
    assert_eq!(stmts.len(), 3);
    assert!(stmts[0].starts_with("CREATE TABLE IF NOT EXISTS alpha "));
    assert!(stmts[1].starts_with("CREATE TABLE IF NOT EXISTS beta "));
    assert!(stmts[2].starts_with("CREATE TABLE IF NOT EXISTS gamma "));
}

#[test]
fn bare_column_has_no_trailing_tokens() {
    let cfg = config(vec![("t", table(vec![column("age", "INTEGER", &[])]))]);
    let stmts = compile_config(&cfg).unwrap();
    assert_eq!(stmts[0], "CREATE TABLE IF NOT EXISTS t (age INTEGER);");
}

#[test]
fn classifier_splits_and_preserves_order() {
    let cs = vec![
        "NOT NULL".to_string(),
        "FOREIGN KEY(a) REFERENCES b(c)".to_string(),
        "UNIQUE".to_string(),
        "FOREIGN KEY(d) REFERENCES e(f)".to_string(),
    ];
    let (inline, fks) = classify_constraints(&cs);
    assert_eq!(inline, vec!["NOT NULL".to_string(), "UNIQUE".to_string()]);
    assert_eq!(
        fks,
        vec![
            "FOREIGN KEY(a) REFERENCES b(c)".to_string(),
            "FOREIGN KEY(d) REFERENCES e(f)".to_string(),
        ]
    );
}

#[test]
fn foreign_key_prefix_is_exact() {
    let cs = vec![
        "FOREIGN KEY(x) REFERENCES y(z)".to_string(),
        "foreign key(x) references y(z)".to_string(),
        "FOREIGN".to_string(),
    ];
    let (inline, fks) = classify_constraints(&cs);
    assert_eq!(fks, vec!["FOREIGN KEY(x) REFERENCES y(z)".to_string()]);
    assert_eq!(inline.len(), 2);
}

#[test]
fn missing_columns_is_malformed_and_applies_nothing() {
    let cfg = config(vec![
        ("good", table(vec![column("id", "INTEGER", &[])])),
        ("bad", ConfigValue::Object(vec![])),
    ]);
    assert_eq!(compile_config(&cfg), Err(DbError::ConfigMalformed));
    let conn = rusqlite::Connection::open_in_memory().unwrap();
    assert_eq!(
        create_database_from_config(&conn, &cfg),
        Err(DbError::ConfigMalformed)
    );
    assert_eq!(table_count(&conn), 0);
}

#[test]
fn malformed_column_shapes_are_rejected() {
    // name missing
    let no_name = config(vec![(
        "t",
        table(vec![ConfigValue::Object(vec![
            ("type".to_string(), text("TEXT")),
            ("constraints".to_string(), ConfigValue::Array(vec![])),
        ])]),
    )]);
    assert_eq!(compile_config(&no_name), Err(DbError::ConfigMalformed));
    // constraints not an array
    let bad_constraints = config(vec![(
        "t",
        table(vec![ConfigValue::Object(vec![
            ("name".to_string(), text("id")),
            ("type".to_string(), text("INTEGER")),
            ("constraints".to_string(), text("NOT NULL")),
        ])]),
    )]);
    assert_eq!(compile_config(&bad_constraints), Err(DbError::ConfigMalformed));
    // a constraint entry that is not a string
    let bad_entry = config(vec![(
        "t",
        table(vec![ConfigValue::Object(vec![
            ("name".to_string(), text("id")),
            ("type".to_string(), text("INTEGER")),
            ("constraints".to_string(), ConfigValue::Array(vec![ConfigValue::Int(1)])),
        ])]),
    )]);
    assert_eq!(compile_config(&bad_entry), Err(DbError::ConfigMalformed));
}

#[test]
fn document_without_tables_compiles_to_nothing() {
    let empty = ConfigValue::Object(vec![]);
    assert_eq!(compile_config(&empty).unwrap().len(), 0);
    let not_an_object = ConfigValue::Object(vec![("tables".to_string(), ConfigValue::Int(5))]);
    assert_eq!(compile_config(&not_an_object).unwrap().len(), 0);
    let scalar_root = ConfigValue::Int(3);
    assert_eq!(compile_config(&scalar_root).unwrap().len(), 0);
}

#[test]
fn empty_tables_document_provisions_ok() {
    let cfg = config(vec![]);
    let conn = rusqlite::Connection::open_in_memory().unwrap();
    assert_eq!(create_database_from_config(&conn, &cfg), Ok(()));
    assert_eq!(insert_data_from_config(&conn, &cfg), Ok(()));
    assert_eq!(table_count(&conn), 0);
}

#[test]
fn document_without_seed_rows_seeds_ok() {
    // no table carries data, so seeding reaches no engine call at all:
    // it succeeds even though no table was ever created
    let cfg = person_config();
    let conn = rusqlite::Connection::open_in_memory().unwrap();
    assert_eq!(insert_data_from_config(&conn, &cfg), Ok(()));
}

#[test]
fn applying_twice_is_idempotent() {
    let cfg = person_config();
    let conn = rusqlite::Connection::open_in_memory().unwrap();
    assert_eq!(create_database_from_config(&conn, &cfg), Ok(()));
    let after_first = table_count(&conn);
    assert_eq!(create_database_from_config(&conn, &cfg), Ok(()));
    assert_eq!(table_count(&conn), after_first);
    assert_eq!(after_first, 1);
}

#[test]
fn seeding_twice_inserts_rows_once() {
    let cfg = seeded_config();
    let conn = rusqlite::Connection::open_in_memory().unwrap();
    assert_eq!(create_database_from_config(&conn, &cfg), Ok(()));
    assert_eq!(insert_data_from_config(&conn, &cfg), Ok(()));
    assert_eq!(row_count(&conn, "person"), 2);
    assert_eq!(insert_data_from_config(&conn, &cfg), Ok(()));
    assert_eq!(row_count(&conn, "person"), 2);
}

#[test]
fn seeded_values_arrive_parameterized() {
    let cfg = config(vec![(
        "notes",
        table_with_data(
            vec![
                column("id", "INTEGER", &["PRIMARY KEY"]),
                column("body", "TEXT", &[]),
                column("done", "INTEGER", &[]),
                column("extra", "TEXT", &[]),
            ],
            vec![row(vec![
                ("id", ConfigValue::Int(7)),
                ("body", text("it's a 'quoted' value; DROP TABLE notes;--")),
                ("done", ConfigValue::Bool(true)),
                ("extra", ConfigValue::Null),
            ])],
        ),
    )]);
    let conn = rusqlite::Connection::open_in_memory().unwrap();
    assert_eq!(create_database_from_config(&conn, &cfg), Ok(()));
    assert_eq!(insert_data_from_config(&conn, &cfg), Ok(()));
    let (body, done, extra): (String, i64, Option<String>) = conn
        .query_row("SELECT body, done, extra FROM notes WHERE id = 7", [], |r| {
            Ok((r.get(0)?, r.get(1)?, r.get(2)?))
        })
        .unwrap();
    assert_eq!(body, "it's a 'quoted' value; DROP TABLE notes;--");
    assert_eq!(done, 1);
    assert_eq!(extra, None);
    assert_eq!(row_count(&conn, "notes"), 1);
}

#[test]
fn row_naming_undeclared_column_is_malformed() {
    let cfg = config(vec![(
        "person",
        table_with_data(
            vec![column("id", "INTEGER", &["PRIMARY KEY"])],
            vec![row(vec![("id", ConfigValue::Int(1)), ("ghostly", text("x"))])],
        ),
    )]);
    let conn = rusqlite::Connection::open_in_memory().unwrap();
    assert_eq!(create_database_from_config(&conn, &cfg), Ok(()));
    assert_eq!(insert_data_from_config(&conn, &cfg), Err(DbError::ConfigMalformed));
    assert_eq!(row_count(&conn, "person"), 0);
}

#[test]
fn empty_row_is_malformed() {
    let cfg = config(vec![(
        "person",
        table_with_data(vec![column("id", "INTEGER", &[])], vec![row(vec![])]),
    )]);
    let conn = rusqlite::Connection::open_in_memory().unwrap();
    assert_eq!(create_database_from_config(&conn, &cfg), Ok(()));
    assert_eq!(insert_data_from_config(&conn, &cfg), Err(DbError::ConfigMalformed));
}

#[test]
fn row_value_of_nested_shape_is_malformed() {
    let cfg = config(vec![(
        "person",
        table_with_data(
            vec![column("id", "INTEGER", &[])],
            vec![row(vec![("id", ConfigValue::Array(vec![]))])],
        ),
    )]);
    assert_eq!(parse_config(&cfg).unwrap_err(), DbError::ConfigMalformed);
}

#[test]
fn data_field_must_be_an_array() {
    let cfg = config(vec![(
        "person",
        ConfigValue::Object(vec![
            ("columns".to_string(), ConfigValue::Array(vec![column("id", "INTEGER", &[])])),
            ("data".to_string(), text("nope")),
        ]),
    )]);
    assert_eq!(parse_config(&cfg).unwrap_err(), DbError::ConfigMalformed);
}

#[test]
fn rejected_statement_reports_execution_failure() {
    let cfg = config(vec![(
        "not a valid identifier!",
        table(vec![column("id", "INTEGER", &[])]),
    )]);
    let conn = rusqlite::Connection::open_in_memory().unwrap();
    assert_eq!(
        create_database_from_config(&conn, &cfg),
        Err(DbError::StorageExecutionFailed)
    );
}

#[test]
fn seeding_a_missing_table_reports_execution_failure() {
    let cfg = seeded_config();
    let conn = rusqlite::Connection::open_in_memory().unwrap();
    // the table was never created, so the probe query fails
    assert_eq!(
        insert_data_from_config(&conn, &cfg),
        Err(DbError::StorageExecutionFailed)
    );
}

#[test]
fn seed_plan_is_empty_for_seeded_table() {
    let cfg = parse_config(&seeded_config()).unwrap();
    let skipped = plan_table_seed(&cfg.tables[0], true).unwrap();
    assert_eq!(skipped.len(), 0);
    let planned = plan_table_seed(&cfg.tables[0], false).unwrap();
    assert_eq!(planned.len(), 2);
    assert_eq!(planned[0].0, "INSERT INTO person (id, name) VALUES (?, ?);");
    assert_eq!(planned[0].1.len(), 2);
}

#[test]
fn duplicate_row_key_is_malformed() {
    let cfg = parse_config(&config(vec![(
        "person",
        table_with_data(
            vec![column("id", "INTEGER", &[])],
            vec![row(vec![("id", ConfigValue::Int(1)), ("id", ConfigValue::Int(2))])],
        ),
    )]))
    .unwrap();
    assert_eq!(
        plan_table_seed(&cfg.tables[0], false).unwrap_err(),
        DbError::ConfigMalformed
    );
}

#[test]
fn drop_statements_run_in_reverse_declaration_order() {
    let cfg = parse_config(&config(vec![
        ("person", table(vec![column("id", "INTEGER", &[])])),
        (
            "orders",
            table(vec![column(
                "person_id",
                "INTEGER",
                &["FOREIGN KEY(person_id) REFERENCES person(id)"],
            )]),
        ),
    ]))
    .unwrap();
    let drops = drop_statements(&cfg);
    assert_eq!(
        drops,
        vec![
            "DROP TABLE IF EXISTS orders;".to_string(),
            "DROP TABLE IF EXISTS person;".to_string(),
        ]
    );
}

#[test]
fn lifecycle_decision_follows_file_existence() {
    assert_eq!(provision_plan(false), ProvisionPlan::InitializeFresh);
    assert_eq!(provision_plan(true), ProvisionPlan::ResetExisting);
}

#[test]
fn reset_sequence_drops_recreates_and_reseeds() {
    let doc = seeded_config();
    let conn = rusqlite::Connection::open_in_memory().unwrap();
    assert_eq!(create_database_from_config(&conn, &doc), Ok(()));
    assert_eq!(insert_data_from_config(&conn, &doc), Ok(()));
    // a database exists: the driver resets it
    assert_eq!(provision_plan(true), ProvisionPlan::ResetExisting);
    let cfg = parse_config(&doc).unwrap();
    for stmt in drop_statements(&cfg) {
        conn.execute(&stmt, []).unwrap();
    }
    assert_eq!(table_count(&conn), 0);
    assert_eq!(create_database_from_config(&conn, &doc), Ok(()));
    assert_eq!(insert_data_from_config(&conn, &doc), Ok(()));
    assert_eq!(row_count(&conn, "person"), 2);
}
