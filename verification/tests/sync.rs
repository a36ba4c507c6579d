use db_sync::catalog::{
    drop_function_statement, drop_policy_statement, drop_type_statement, FunctionRow, PolicyRow,
    TypeRow,
};
use db_sync::collect::{
    sequence_ignore_operations, str_to_function_statements, str_to_rls_statements, SourceStatement,
};
use db_sync::errors::SyncError;
use db_sync::order::{is_types_file, order_function_files, SqlFile};
use db_sync::report::{format_as_bullet_list, function_statements, render_sync_error};
use db_sync::run::{build_script, build_sync_plan, ExecStep, FileSource, SyncRun, SETUP_STATEMENT};
use db_sync::statement::{validate_function_schema, validate_rls_schema, Error, NameNode, Stmt};
use std::cell::Cell;

fn qual(schema: &str, name: &str) -> Vec<NameNode> {
    vec![
        NameNode::Str(schema.to_string()),
        NameNode::Str(name.to_string()),
    ]
}

fn schemas(names: &[&str]) -> Vec<String> {
    names.iter().map(|s| s.to_string()).collect()
}

fn stmt(text: &str, parsed: Stmt) -> SourceStatement {
    SourceStatement {
        text: text.to_string(),
        parsed,
    }
}

fn sql_file(path: &str, name: &str, statements: &[&str]) -> SqlFile {
    SqlFile {
        path: path.to_string(),
        name: name.to_string(),
        statements: statements.iter().map(|s| s.to_string()).collect(),
    }
}

#[test]
fn function_statement_in_allowed_schema_is_accepted() {
    let allow = schemas(&["app"]);
    let s = Stmt::CreateFunction {
        name: qual("app", "f"),
    };
    assert_eq!(validate_function_schema(&s, &allow), Ok(()));
}

#[test]
fn function_statement_outside_allow_list_is_rejected() {
    let allow = schemas(&["app"]);
    let s = Stmt::CreateFunction {
        name: qual("other", "f"),
    };
    assert_eq!(
        validate_function_schema(&s, &allow),
        Err(Error::InvalidSchema("other".to_string()))
    );
}

#[test]
fn empty_allow_list_rejects_every_qualified_statement() {
    let allow = schemas(&[]);
    let s = Stmt::CreateDomain {
        name: qual("app", "d"),
    };
    assert_eq!(
        validate_function_schema(&s, &allow),
        Err(Error::InvalidSchema("app".to_string()))
    );
}

#[test]
fn unqualified_name_is_rejected_with_no_schema() {
    let allow = schemas(&["app"]);
    let s = Stmt::CreateFunction {
        name: vec![NameNode::Str("f".to_string())],
    };
    assert_eq!(validate_function_schema(&s, &allow), Err(Error::NoSchema));
}

#[test]
fn absent_object_node_is_rejected_with_no_schema() {
    let allow = schemas(&["app"]);
    let s = Stmt::CreateEnum {
        name: vec![NameNode::Str("app".to_string()), NameNode::Absent],
    };
    assert_eq!(validate_function_schema(&s, &allow), Err(Error::NoSchema));
}

#[test]
fn non_string_schema_node_is_rejected_with_no_schema() {
    let allow = schemas(&["app"]);
    let s = Stmt::CreateRange {
        name: vec![NameNode::Other, NameNode::Str("r".to_string())],
    };
    assert_eq!(validate_function_schema(&s, &allow), Err(Error::NoSchema));
}

#[test]
fn composite_type_without_relation_is_rejected_with_no_schema() {
    let allow = schemas(&["app"]);
    let s = Stmt::CreateCompositeType { target: None };
    assert_eq!(validate_function_schema(&s, &allow), Err(Error::NoSchema));
    let unqualified = Stmt::CreateCompositeType {
        target: Some(String::new()),
    };
    assert_eq!(
        validate_function_schema(&unqualified, &allow),
        Err(Error::NoSchema)
    );
}

#[test]
fn unsupported_statement_kind_is_rejected() {
    let allow = schemas(&["app"]);
    assert_eq!(
        validate_function_schema(&Stmt::Other, &allow),
        Err(Error::InvalidStatement)
    );
    let policy = Stmt::CreatePolicy {
        table: Some("app".to_string()),
    };
    assert_eq!(
        validate_function_schema(&policy, &allow),
        Err(Error::InvalidStatement)
    );
}

#[test]
fn rls_policy_on_allowed_schema_is_accepted() {
    let allow = schemas(&["app"]);
    let s = Stmt::CreatePolicy {
        table: Some("app".to_string()),
    };
    assert_eq!(validate_rls_schema(&s, &allow), Ok(()));
}

#[test]
fn rls_policy_outside_allow_list_is_rejected() {
    let allow = schemas(&["app"]);
    let s = Stmt::CreatePolicy {
        table: Some("other".to_string()),
    };
    assert_eq!(
        validate_rls_schema(&s, &allow),
        Err(Error::InvalidSchema("other".to_string()))
    );
}

#[test]
fn rls_category_rejects_non_policy_statements() {
    let allow = schemas(&["app"]);
    let s = Stmt::CreateFunction {
        name: qual("app", "f"),
    };
    assert_eq!(validate_rls_schema(&s, &allow), Err(Error::InvalidStatement));
}

#[test]
fn collector_returns_all_texts_of_a_valid_file() {
    let allow = schemas(&["app"]);
    let statements = vec![
        stmt("CREATE TYPE app.t AS (x int)", Stmt::CreateCompositeType {
            target: Some("app".to_string()),
        }),
        stmt("CREATE FUNCTION app.f() RETURNS int LANGUAGE sql AS $$ SELECT 1 $$", Stmt::CreateFunction {
            name: qual("app", "f"),
        }),
    ];
    let r = str_to_function_statements(&statements, "fns/a.sql".to_string(), &allow);
    let (path, texts) = r.expect("valid file");
    assert_eq!(path, "fns/a.sql");
    assert_eq!(
        texts,
        vec![
            "CREATE TYPE app.t AS (x int)".to_string(),
            "CREATE FUNCTION app.f() RETURNS int LANGUAGE sql AS $$ SELECT 1 $$".to_string(),
        ]
    );
}

#[test]
fn collector_fails_with_the_first_invalid_statement() {
    let allow = schemas(&["app"]);
    let statements = vec![
        stmt("CREATE FUNCTION app.f() ...", Stmt::CreateFunction {
            name: qual("app", "f"),
        }),
        stmt("CREATE FUNCTION other.g() ...", Stmt::CreateFunction {
            name: qual("other", "g"),
        }),
        stmt("CREATE TABLE app.t ()", Stmt::Other),
    ];
    let r = str_to_function_statements(&statements, "fns/a.sql".to_string(), &allow);
    match r {
        Err(SyncError::FunctionStatement {
            cause,
            path,
            statement,
            schemas: ss,
        }) => {
            assert_eq!(cause, Error::InvalidSchema("other".to_string()));
            assert_eq!(path, "fns/a.sql");
            assert_eq!(statement, "CREATE FUNCTION other.g() ...");
            assert_eq!(ss, vec!["app".to_string()]);
        }
        other => panic!("expected a function statement error, got {:?}", other),
    }
}

#[test]
fn rls_collector_reports_its_own_error_kind() {
    let allow = schemas(&["app"]);
    let statements = vec![stmt("CREATE POLICY p ON other.t", Stmt::CreatePolicy {
        table: Some("other".to_string()),
    })];
    let r = str_to_rls_statements(&statements, "rls/p.sql".to_string(), &allow);
    match r {
        Err(SyncError::RlsStatement { cause, .. }) => {
            assert_eq!(cause, Error::InvalidSchema("other".to_string()));
        }
        other => panic!("expected an RLS statement error, got {:?}", other),
    }
}

#[test]
fn types_files_sort_before_all_other_files() {
    let files = vec![
        sql_file("fns/a.sql", "a.sql", &["A"]),
        sql_file("fns/types.sql", "types.sql", &["T1"]),
        sql_file("fns/b.sql", "b.sql", &["B"]),
        sql_file("fns/sub/types.sql", "types.sql", &["T2"]),
    ];
    let ordered = order_function_files(files);
    let names: Vec<&str> = ordered.iter().map(|f| f.name.as_str()).collect();
    assert_eq!(names, vec!["types.sql", "types.sql", "a.sql", "b.sql"]);
    let paths: Vec<&str> = ordered.iter().map(|f| f.path.as_str()).collect();
    assert_eq!(
        paths,
        vec!["fns/types.sql", "fns/sub/types.sql", "fns/a.sql", "fns/b.sql"]
    );
    assert!(is_types_file(&ordered[0]));
    assert!(!is_types_file(&ordered[2]));
}

#[test]
fn drop_statements_are_exactly_quoted() {
    let p = PolicyRow {
        schema: "app".to_string(),
        table: "t".to_string(),
        policy: "p".to_string(),
    };
    assert_eq!(drop_policy_statement(&p), "DROP POLICY \"p\" ON \"app\".\"t\"");
    let f = FunctionRow {
        schema: "app".to_string(),
        name: "f".to_string(),
        arguments: "integer, text".to_string(),
    };
    assert_eq!(
        drop_function_statement(&f),
        "DROP FUNCTION \"app\".\"f\"(integer, text) CASCADE"
    );
    let t = TypeRow {
        schema: "app".to_string(),
        name: "tp".to_string(),
    };
    assert_eq!(drop_type_statement(&t), "DROP TYPE \"app\".\"tp\" CASCADE");
}

fn small_plan() -> db_sync::run::SyncPlan {
    let function_files = vec![
        FileSource {
            path: "fns/types.sql".to_string(),
            name: "types.sql".to_string(),
            statements: vec![stmt("CREATE TYPE app.t AS (x int)", Stmt::CreateCompositeType {
                target: Some("app".to_string()),
            })],
        },
        FileSource {
            path: "fns/f.sql".to_string(),
            name: "f.sql".to_string(),
            statements: vec![stmt("CREATE FUNCTION app.f() ...", Stmt::CreateFunction {
                name: qual("app", "f"),
            })],
        },
    ];
    let rls_files = vec![FileSource {
        path: "rls/p.sql".to_string(),
        name: "p.sql".to_string(),
        statements: vec![stmt("CREATE POLICY p ON app.t ...", Stmt::CreatePolicy {
            table: Some("app".to_string()),
        })],
    }];
    build_sync_plan(function_files, rls_files, &schemas(&["app"]), &schemas(&["app"]))
        .expect("plan should build")
}

#[test]
fn sync_succeeds_for_function_in_allowed_schema() {
    let function_files = vec![FileSource {
        path: "fns/f.sql".to_string(),
        name: "f.sql".to_string(),
        statements: vec![stmt("CREATE FUNCTION app.f() ...", Stmt::CreateFunction {
            name: qual("app", "f"),
        })],
    }];
    let plan = build_sync_plan(function_files, vec![], &schemas(&["app"]), &schemas(&["app"]))
        .expect("plan should build");
    assert_eq!(plan.function_files.len(), 1);
    assert_eq!(plan.function_files[0].statements, vec![
        "CREATE FUNCTION app.f() ...".to_string()
    ]);
    let script = build_script(&plan, &vec![], &vec![], &vec![]);
    assert_eq!(script.len(), 2);
    assert_eq!(script[0], ExecStep::Setup {
        text: SETUP_STATEMENT.to_string()
    });
    assert_eq!(script[1], ExecStep::Apply {
        path: "fns/f.sql".to_string(),
        text: "CREATE FUNCTION app.f() ...".to_string(),
    });
    let mut run = SyncRun::new(script);
    while run.next_step().is_some() {
        run.step_succeeded();
    }
    assert!(run.may_commit());
}

#[test]
fn sync_fails_before_any_mutation_for_a_foreign_schema() {
    let function_files = vec![FileSource {
        path: "fns/f.sql".to_string(),
        name: "f.sql".to_string(),
        statements: vec![stmt("CREATE FUNCTION other.f() ...", Stmt::CreateFunction {
            name: qual("other", "f"),
        })],
    }];
    let r = build_sync_plan(function_files, vec![], &schemas(&["app"]), &schemas(&["app"]));
    match r {
        Err(SyncError::FunctionStatement { cause, .. }) => {
            assert_eq!(cause, Error::InvalidSchema("other".to_string()));
        }
        other => panic!("expected a function statement error, got {:?}", other),
    }
}

#[test]
fn script_orders_drops_setup_then_applies() {
    let plan = small_plan();
    let policies = vec![PolicyRow {
        schema: "app".to_string(),
        table: "t".to_string(),
        policy: "p".to_string(),
    }];
    let functions = vec![FunctionRow {
        schema: "app".to_string(),
        name: "f".to_string(),
        arguments: String::new(),
    }];
    let types = vec![TypeRow {
        schema: "app".to_string(),
        name: "t".to_string(),
    }];
    let script = build_script(&plan, &policies, &functions, &types);
    assert_eq!(script.len(), 7);
    assert_eq!(script[0], ExecStep::Drop {
        text: "DROP POLICY \"p\" ON \"app\".\"t\"".to_string()
    });
    assert_eq!(script[1], ExecStep::Drop {
        text: "DROP FUNCTION \"app\".\"f\"() CASCADE".to_string()
    });
    assert_eq!(script[2], ExecStep::Drop {
        text: "DROP TYPE \"app\".\"t\" CASCADE".to_string()
    });
    assert_eq!(script[3], ExecStep::Setup {
        text: "SET check_function_bodies = FALSE;".to_string()
    });
    assert_eq!(script[4], ExecStep::Apply {
        path: "fns/types.sql".to_string(),
        text: "CREATE TYPE app.t AS (x int)".to_string(),
    });
    assert_eq!(script[5], ExecStep::Apply {
        path: "fns/f.sql".to_string(),
        text: "CREATE FUNCTION app.f() ...".to_string(),
    });
    assert_eq!(script[6], ExecStep::Apply {
        path: "rls/p.sql".to_string(),
        text: "CREATE POLICY p ON app.t ...".to_string(),
    });
}

#[test]
fn failed_rls_step_reports_file_and_statement_and_blocks_commit() {
    let plan = small_plan();
    let script = build_script(&plan, &vec![], &vec![], &vec![]);
    let mut run = SyncRun::new(script);
    let mut error = None;
    loop {
        let is_rls_policy = match run.next_step() {
            None => break,
            Some(step) => matches!(
                step,
                ExecStep::Apply { text, .. } if text.starts_with("CREATE POLICY")
            ),
        };
        if is_rls_policy {
            error = Some(run.step_failed("relation \"app.t\" does not exist".to_string()));
        } else {
            run.step_succeeded();
        }
    }
    match error {
        Some(SyncError::Execution {
            message,
            path,
            statement,
        }) => {
            assert_eq!(message, "relation \"app.t\" does not exist");
            assert_eq!(path, "rls/p.sql");
            assert_eq!(statement, "CREATE POLICY p ON app.t ...");
        }
        other => panic!("expected an execution error, got {:?}", other),
    }
    assert!(!run.may_commit());
    assert!(run.next_step().is_none());
}

#[test]
fn failed_drop_step_reports_a_database_error_and_blocks_commit() {
    let plan = build_sync_plan(vec![], vec![], &schemas(&["app"]), &schemas(&["app"]))
        .expect("empty plan");
    let policies = vec![PolicyRow {
        schema: "app".to_string(),
        table: "t".to_string(),
        policy: "p".to_string(),
    }];
    let script = build_script(&plan, &policies, &vec![], &vec![]);
    let mut run = SyncRun::new(script);
    assert!(run.next_step().is_some());
    let e = run.step_failed("permission denied".to_string());
    assert_eq!(e, SyncError::Db {
        message: "permission denied".to_string()
    });
    assert!(!run.may_commit());
    assert!(run.next_step().is_none());
}

#[test]
fn rebuilding_the_plan_from_unchanged_sources_gives_the_same_script() {
    let plan_a = small_plan();
    let plan_b = small_plan();
    assert_eq!(plan_a, plan_b);
    let rows = (
        vec![PolicyRow {
            schema: "app".to_string(),
            table: "t".to_string(),
            policy: "p".to_string(),
        }],
        vec![FunctionRow {
            schema: "app".to_string(),
            name: "f".to_string(),
            arguments: String::new(),
        }],
        vec![TypeRow {
            schema: "app".to_string(),
            name: "t".to_string(),
        }],
    );
    let script_a = build_script(&plan_a, &rows.0, &rows.1, &rows.2);
    let script_b = build_script(&plan_b, &rows.0, &rows.1, &rows.2);
    assert_eq!(script_a, script_b);
}

#[test]
fn sequence_stops_at_the_first_failure() {
    let values = vec![1u32, 2, 3, 4];
    let calls = Cell::new(0usize);
    let r = sequence_ignore_operations(&values, |v: &u32| {
        calls.set(calls.get() + 1);
        if *v == 3 {
            Err("three")
        } else {
            Ok(())
        }
    });
    assert_eq!(r, Err("three"));
    assert_eq!(calls.get(), 3);
}

#[test]
fn sequence_succeeds_when_every_call_does() {
    let values = vec![1u32, 2, 3];
    let r: Result<(), ()> = sequence_ignore_operations(&values, |_v: &u32| Ok(()));
    assert_eq!(r, Ok(()));
}

#[test]
fn bullet_list_renders_one_line_per_entry() {
    assert_eq!(format_as_bullet_list(&vec![]), "");
    assert_eq!(
        format_as_bullet_list(&schemas(&["app"])),
        "    - app"
    );
    assert_eq!(
        format_as_bullet_list(&schemas(&["app", "auth"])),
        "    - app\n    - auth"
    );
}

#[test]
fn function_kind_list_matches_the_recognized_kinds() {
    assert_eq!(
        function_statements(),
        vec![
            "CREATE FUNCTION".to_string(),
            "CREATE TYPE".to_string(),
            "CREATE DOMAIN".to_string(),
            "CREATE ENUM".to_string(),
            "CREATE RANGE".to_string(),
        ]
    );
}

#[test]
fn invalid_schema_diagnostic_names_the_schema_and_the_allow_list() {
    let e = SyncError::FunctionStatement {
        cause: Error::InvalidSchema("other".to_string()),
        path: "fns/f.sql".to_string(),
        statement: "CREATE FUNCTION other.f() ...".to_string(),
        schemas: schemas(&["app", "auth"]),
    };
    let text = render_sync_error(&e);
    assert_eq!(
        text,
        "Invalid statement type in function file fns/f.sql:\n\n\
         CREATE FUNCTION other.f() ...\n\n\
         Problem was:\n\n\
         Schema \"other\" isn't valid. Expected schema to be one of:\n\n\
         \u{20}   - app\n    - auth\n\n\
         Policies and functions dropped/applied before the error been rolled back and the database has not been changed."
    );
}

#[test]
fn execution_diagnostic_names_file_statement_and_database_error() {
    let e = SyncError::Execution {
        message: "boom".to_string(),
        path: "rls/p.sql".to_string(),
        statement: "CREATE POLICY p ON app.t ...".to_string(),
    };
    let text = render_sync_error(&e);
    assert_eq!(
        text,
        "Invalid statement in file rls/p.sql:\n\n\
         CREATE POLICY p ON app.t ...\n\n\
         Postgres error was:\n\n\
         boom\n\n\
         Policies and functions dropped/applied before the error been rolled back and the database has not been changed."
    );
}

#[test]
fn no_schema_diagnostic_asks_for_a_schema() {
    let e = SyncError::RlsStatement {
        cause: Error::NoSchema,
        path: "rls/p.sql".to_string(),
        statement: "CREATE POLICY p ON t ...".to_string(),
        schemas: schemas(&["app"]),
    };
    let text = render_sync_error(&e);
    assert!(text.contains("You must specify a schema for this statement"));
    assert!(text.contains("RLS policy file rls/p.sql"));
}

#[test]
fn invalid_statement_diagnostic_lists_the_recognized_kinds() {
    let e = SyncError::RlsStatement {
        cause: Error::InvalidStatement,
        path: "rls/p.sql".to_string(),
        statement: "CREATE TABLE app.t ()".to_string(),
        schemas: schemas(&["app"]),
    };
    let text = render_sync_error(&e);
    assert!(text.contains("Expected statement to be one of:\n\n    - CREATE POLICY"));
}
