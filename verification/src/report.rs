//! Plain-text rendering of the run's diagnostics: a single message naming
//! the file and statement at fault, what was wrong with it, and that the
//! database was left unchanged because the transaction was rolled back.

use crate::errors::SyncError;
use crate::statement::Error;
use vstd::prelude::*;

verus! {

/// A bullet list: one line per entry — four spaces, a dash, a space, the
/// entry — joined by newlines.
pub open spec fn bullet_lines(v: Seq<Seq<char>>) -> Seq<char>
    decreases v.len(),
{
    if v.len() == 0 {
        Seq::empty()
    } else if v.len() == 1 {
        "    - "@ + v[0]
    } else {
        "    - "@ + v[0] + "\n"@ + bullet_lines(v.drop_first())
    }
}

/// Appending an entry appends one line (after a newline, unless the list
/// was empty).
proof fn lemma_bullet_lines_push(s: Seq<Seq<char>>, x: Seq<char>)
    ensures
        bullet_lines(s.push(x)) == if s.len() == 0 {
            "    - "@ + x
        } else {
            bullet_lines(s) + "\n"@ + "    - "@ + x
        },
    decreases s.len(),
{
    if s.len() == 0 {
        assert(s.push(x).len() == 1);
        assert(s.push(x)[0] == x);
    } else {
        assert(s.push(x).drop_first() =~= s.drop_first().push(x));
        lemma_bullet_lines_push(s.drop_first(), x);
        assert(s.push(x)[0] == s[0]);
        assert(bullet_lines(s.push(x)) =~= bullet_lines(s) + "\n"@ + "    - "@ + x);
    }
}

/// Renders the entries as a bullet list, one line per entry.
pub fn format_as_bullet_list(v: &Vec<String>) -> (r: String)
    ensures
        r@ == bullet_lines(v@.map_values(|s: String| s@)),
{
    let mut r = String::new();
    let mut i: usize = 0;
    proof {
        assert(v@.take(0int).map_values(|s: String| s@) =~= Seq::<Seq<char>>::empty());
    }
    while i < v.len()
        invariant
            0 <= i <= v@.len(),
            r@ == bullet_lines(v@.take(i as int).map_values(|s: String| s@)),
        decreases v@.len() - i,
    {
        if i > 0 {
            r.push_str("\n");
        }
        r.push_str("    - ");
        r.push_str(v[i].as_str());
        proof {
            let pre = v@.take(i as int).map_values(|s: String| s@);
            assert(v@.take(i + 1).map_values(|s: String| s@) =~~= pre.push(v@[i as int]@));
            lemma_bullet_lines_push(pre, v@[i as int]@);
            assert(pre.len() == i);
            assert(r@ =~= bullet_lines(v@.take(i + 1).map_values(|s: String| s@)));
        }
        i = i + 1;
    }
    proof {
        assert(v@.take(v@.len() as int) =~= v@);
    }
    r
}

/// The statement kinds the function category recognizes, as shown in
/// diagnostics.
pub open spec fn function_kind_names() -> Seq<Seq<char>> {
    seq![
        "CREATE FUNCTION"@,
        "CREATE TYPE"@,
        "CREATE DOMAIN"@,
        "CREATE ENUM"@,
        "CREATE RANGE"@,
    ]
}

/// The statement kinds the RLS category recognizes, as shown in
/// diagnostics.
pub open spec fn rls_kind_names() -> Seq<Seq<char>> {
    seq!["CREATE POLICY"@]
}

/// The statement kinds the function category recognizes.
pub fn function_statements() -> (r: Vec<String>)
    ensures
        r@.map_values(|s: String| s@) == function_kind_names(),
{
    let mut r: Vec<String> = Vec::new();
    r.push("CREATE FUNCTION".to_owned());
    r.push("CREATE TYPE".to_owned());
    r.push("CREATE DOMAIN".to_owned());
    r.push("CREATE ENUM".to_owned());
    r.push("CREATE RANGE".to_owned());
    proof {
        assert(r@.map_values(|s: String| s@) =~~= function_kind_names());
    }
    r
}

/// The statement kinds the RLS category recognizes.
pub fn rls_statements() -> (r: Vec<String>)
    ensures
        r@.map_values(|s: String| s@) == rls_kind_names(),
{
    let mut r: Vec<String> = Vec::new();
    r.push("CREATE POLICY".to_owned());
    proof {
        assert(r@.map_values(|s: String| s@) =~~= rls_kind_names());
    }
    r
}

/// The closing sentence of every fatal diagnostic.
pub open spec fn rollback_note() -> Seq<char> {
    "Policies and functions dropped/applied before the error been rolled back and the database has not been changed."@
}

/// What a validation error says, given the kind names of the statement's
/// category: the missing qualifier, the rejected schema with the allow-list,
/// or the unrecognized kind with the recognized ones.
pub open spec fn sub_error_text(cause: Error, schemas: Seq<Seq<char>>, kinds: Seq<Seq<char>>) -> Seq<
    char,
> {
    match cause {
        Error::NoSchema => "You must specify a schema for this statement"@,
        Error::InvalidSchema(schema) => "Schema \""@ + schema@
            + "\" isn't valid. Expected schema to be one of:\n\n"@ + bullet_lines(schemas),
        Error::InvalidStatement => "Expected statement to be one of:\n\n"@ + bullet_lines(kinds),
    }
}

/// The full diagnostic for each fatal error.
pub open spec fn render_text(e: SyncError) -> Seq<char> {
    match e {
        SyncError::Execution { message, path, statement } => "Invalid statement in file "@ + path@
            + ":\n\n"@ + statement@ + "\n\nPostgres error was:\n\n"@ + message@ + "\n\n"@
            + rollback_note(),
        SyncError::FunctionStatement { cause, path, statement, schemas } => {
            "Invalid statement type in function file "@ + path@ + ":\n\n"@ + statement@
                + "\n\nProblem was:\n\n"@ + sub_error_text(
                cause,
                schemas@.map_values(|s: String| s@),
                function_kind_names(),
            ) + "\n\n"@ + rollback_note()
        },
        SyncError::RlsStatement { cause, path, statement, schemas } => {
            "Invalid statement type in RLS policy file "@ + path@ + ":\n\n"@ + statement@
                + "\n\nProblem was:\n\n"@ + sub_error_text(
                cause,
                schemas@.map_values(|s: String| s@),
                rls_kind_names(),
            ) + "\n\n"@ + rollback_note()
        },
        SyncError::Db { message } => message@,
    }
}

/// Builds the sub-message of a validation error.
fn sub_error_string(cause: &Error, schemas: &Vec<String>, kinds: &Vec<String>) -> (r: String)
    ensures
        r@ == sub_error_text(
            *cause,
            schemas@.map_values(|s: String| s@),
            kinds@.map_values(|s: String| s@),
        ),
{
    match cause {
        Error::NoSchema => "You must specify a schema for this statement".to_owned(),
        Error::InvalidSchema(schema) => {
            let mut t = String::new();
            t.push_str("Schema \"");
            t.push_str(schema.as_str());
            t.push_str("\" isn't valid. Expected schema to be one of:\n\n");
            let b = format_as_bullet_list(schemas);
            t.push_str(b.as_str());
            proof {
                assert(t@ =~= sub_error_text(
                    *cause,
                    schemas@.map_values(|s: String| s@),
                    kinds@.map_values(|s: String| s@),
                ));
            }
            t
        },
        Error::InvalidStatement => {
            let mut t = String::new();
            t.push_str("Expected statement to be one of:\n\n");
            let b = format_as_bullet_list(kinds);
            t.push_str(b.as_str());
            proof {
                assert(t@ =~= sub_error_text(
                    *cause,
                    schemas@.map_values(|s: String| s@),
                    kinds@.map_values(|s: String| s@),
                ));
            }
            t
        },
    }
}

/// Renders the diagnostic for a fatal error, naming the file and statement
/// at fault and stating that the database was left unchanged.
pub fn render_sync_error(e: &SyncError) -> (r: String)
    ensures
        r@ == render_text(*e),
{
    match e {
        SyncError::Execution { message, path, statement } => {
            let mut r = String::new();
            r.push_str("Invalid statement in file ");
            r.push_str(path.as_str());
            r.push_str(":\n\n");
            r.push_str(statement.as_str());
            r.push_str("\n\nPostgres error was:\n\n");
            r.push_str(message.as_str());
            r.push_str("\n\n");
            r.push_str(
                "Policies and functions dropped/applied before the error been rolled back and the database has not been changed.",
            );
            proof {
                assert(r@ =~= render_text(*e));
            }
            r
        },
        SyncError::FunctionStatement { cause, path, statement, schemas } => {
            let kinds = function_statements();
            let sub = sub_error_string(cause, schemas, &kinds);
            let mut r = String::new();
            r.push_str("Invalid statement type in function file ");
            r.push_str(path.as_str());
            r.push_str(":\n\n");
            r.push_str(statement.as_str());
            r.push_str("\n\nProblem was:\n\n");
            r.push_str(sub.as_str());
            r.push_str("\n\n");
            r.push_str(
                "Policies and functions dropped/applied before the error been rolled back and the database has not been changed.",
            );
            proof {
                assert(r@ =~= render_text(*e));
            }
            r
        },
        SyncError::RlsStatement { cause, path, statement, schemas } => {
            let kinds = rls_statements();
            let sub = sub_error_string(cause, schemas, &kinds);
            let mut r = String::new();
            r.push_str("Invalid statement type in RLS policy file ");
            r.push_str(path.as_str());
            r.push_str(":\n\n");
            r.push_str(statement.as_str());
            r.push_str("\n\nProblem was:\n\n");
            r.push_str(sub.as_str());
            r.push_str("\n\n");
            r.push_str(
                "Policies and functions dropped/applied before the error been rolled back and the database has not been changed.",
            );
            proof {
                assert(r@ =~= render_text(*e));
            }
            r
        },
        SyncError::Db { message } => {
            let mut r = String::new();
            r.push_str(message.as_str());
            proof {
                assert(r@ =~= render_text(*e));
            }
            r
        },
    }
}

} // verus!
