//! Per-file statement collection: validate every statement of one source
//! file and either return all statement texts, in order and verbatim, or the
//! first validation error of the file. An invalid file contributes nothing
//! downstream.

use crate::errors::SyncError;
use crate::statement::{spec_validate_function, spec_validate_rls, validate_function_schema,
    validate_rls_schema, Error, Stmt};
use vstd::prelude::*;

verus! {

/// One statement split out of a source file: its raw text, applied verbatim
/// when valid, and its parsed shape, used for classification only.
#[derive(Debug, PartialEq, Eq)]
pub struct SourceStatement {
    /// The statement's raw text, exactly as split out of the file.
    pub text: String,
    /// The statement's parsed shape.
    pub parsed: Stmt,
}

/// The texts of a sequence of source statements, in order.
pub open spec fn statement_texts(statements: Seq<SourceStatement>) -> Seq<String> {
    statements.map_values(|s: SourceStatement| s.text)
}

/// Whether `e` is the first validation error among the function-category
/// statements of one file: every earlier statement valid, and the error
/// carrying the failing statement's cause, the file's path, the statement's
/// raw text, and the allow-list.
pub open spec fn first_function_error(
    statements: Seq<SourceStatement>,
    path: String,
    schemas: Seq<String>,
    e: SyncError,
) -> bool {
    exists|i: int|
        #![trigger statements[i]]
        0 <= i < statements.len() && (forall|j: int|
            0 <= j < i ==> spec_validate_function(statements[j].parsed, schemas) is Ok) && (
        e matches SyncError::FunctionStatement { cause, path: p, statement, schemas: ss }
            && spec_validate_function(statements[i].parsed, schemas) == Err::<(), Error>(cause) && p
            == path && statement == statements[i].text && ss@ == schemas)
}

/// Whether `e` is the first validation error among the RLS-category
/// statements of one file, in the same sense as `first_function_error`.
pub open spec fn first_rls_error(
    statements: Seq<SourceStatement>,
    path: String,
    schemas: Seq<String>,
    e: SyncError,
) -> bool {
    exists|i: int|
        #![trigger statements[i]]
        0 <= i < statements.len() && (forall|j: int|
            0 <= j < i ==> spec_validate_rls(statements[j].parsed, schemas) is Ok) && (
        e matches SyncError::RlsStatement { cause, path: p, statement, schemas: ss }
            && spec_validate_rls(statements[i].parsed, schemas) == Err::<(), Error>(cause) && p
            == path && statement == statements[i].text && ss@ == schemas)
}

/// Validates every statement of one function-category file. Returns the file
/// path with all statement texts in file order when every statement is
/// valid, and the first validation error, with its file path, statement text
/// and the allow-list, otherwise.
pub fn str_to_function_statements(
    statements: &Vec<SourceStatement>,
    path: String,
    valid_schemas: &Vec<String>,
) -> (r: Result<(String, Vec<String>), SyncError>)
    ensures
        r is Ok <==> (forall|i: int|
            0 <= i < statements@.len() ==> spec_validate_function(
                statements@[i].parsed,
                valid_schemas@,
            ) is Ok),
        r matches Ok((p, texts)) ==> p == path && texts@ == statement_texts(statements@),
        r matches Err(e) ==> first_function_error(statements@, path, valid_schemas@, e),
{
    let mut texts: Vec<String> = Vec::new();
    let mut i: usize = 0;
    while i < statements.len()
        invariant
            0 <= i <= statements@.len(),
            forall|j: int|
                0 <= j < i ==> spec_validate_function(statements@[j].parsed, valid_schemas@) is Ok,
            texts@ == statement_texts(statements@.take(i as int)),
        decreases statements@.len() - i,
    {
        match validate_function_schema(&statements[i].parsed, valid_schemas) {
            Ok(()) => {
                texts.push(statements[i].text.clone());
                proof {
                    assert(statements@.take(i + 1) =~= statements@.take(i as int).push(
                        statements@[i as int],
                    ));
                    assert(texts@ =~= statement_texts(statements@.take(i + 1)));
                }
            },
            Err(cause) => {
                return Err(
                    SyncError::FunctionStatement {
                        cause,
                        path,
                        statement: statements[i].text.clone(),
                        schemas: clone_schemas(valid_schemas),
                    },
                );
            },
        }
        i = i + 1;
    }
    proof {
        assert(statements@.take(statements@.len() as int) =~= statements@);
    }
    Ok((path, texts))
}

/// Validates every statement of one RLS-category file, with the same
/// contract as `str_to_function_statements` but against the RLS rules.
pub fn str_to_rls_statements(
    statements: &Vec<SourceStatement>,
    path: String,
    valid_schemas: &Vec<String>,
) -> (r: Result<(String, Vec<String>), SyncError>)
    ensures
        r is Ok <==> (forall|i: int|
            0 <= i < statements@.len() ==> spec_validate_rls(
                statements@[i].parsed,
                valid_schemas@,
            ) is Ok),
        r matches Ok((p, texts)) ==> p == path && texts@ == statement_texts(statements@),
        r matches Err(e) ==> first_rls_error(statements@, path, valid_schemas@, e),
{
    let mut texts: Vec<String> = Vec::new();
    let mut i: usize = 0;
    while i < statements.len()
        invariant
            0 <= i <= statements@.len(),
            forall|j: int|
                0 <= j < i ==> spec_validate_rls(statements@[j].parsed, valid_schemas@) is Ok,
            texts@ == statement_texts(statements@.take(i as int)),
        decreases statements@.len() - i,
    {
        match validate_rls_schema(&statements[i].parsed, valid_schemas) {
            Ok(()) => {
                texts.push(statements[i].text.clone());
                proof {
                    assert(statements@.take(i + 1) =~= statements@.take(i as int).push(
                        statements@[i as int],
                    ));
                    assert(texts@ =~= statement_texts(statements@.take(i + 1)));
                }
            },
            Err(cause) => {
                return Err(
                    SyncError::RlsStatement {
                        cause,
                        path,
                        statement: statements[i].text.clone(),
                        schemas: clone_schemas(valid_schemas),
                    },
                );
            },
        }
        i = i + 1;
    }
    proof {
        assert(statements@.take(statements@.len() as int) =~= statements@);
    }
    Ok((path, texts))
}

/// Clones an allow-list; the copy holds the same schema names.
fn clone_schemas(schemas: &Vec<String>) -> (r: Vec<String>)
    ensures
        r@ == schemas@,
{
    let mut r: Vec<String> = Vec::new();
    let mut i: usize = 0;
    while i < schemas.len()
        invariant
            0 <= i <= schemas@.len(),
            r@ == schemas@.take(i as int),
        decreases schemas@.len() - i,
    {
        r.push(schemas[i].clone());
        proof {
            assert(r@ =~= schemas@.take(i + 1));
        }
        i = i + 1;
    }
    proof {
        assert(r@ =~= schemas@);
    }
    r
}

/// Runs `closure` on each element in order, stopping at the first failure:
/// returns the first error, and `Ok` only when every element's call
/// succeeded. Elements after the first failing one are not visited.
pub fn sequence_ignore_operations<V, E, F: Fn(&V) -> Result<(), E>>(vec: &Vec<V>, closure: F) -> (r:
    Result<(), E>)
    requires
        forall|i: int| 0 <= i < vec@.len() ==> call_requires(closure, (&vec@[i],)),
    ensures
        r is Ok ==> forall|i: int|
            0 <= i < vec@.len() ==> call_ensures(closure, (&vec@[i],), Ok::<(), E>(())),
        r matches Err(e) ==> (exists|i: int|
            #![trigger vec@[i]]
            0 <= i < vec@.len() && (forall|j: int|
                0 <= j < i ==> call_ensures(closure, (&vec@[j],), Ok::<(), E>(())))
                && call_ensures(closure, (&vec@[i],), Err::<(), E>(e))),
{
    let mut i: usize = 0;
    while i < vec.len()
        invariant
            0 <= i <= vec@.len(),
            forall|k: int| 0 <= k < vec@.len() ==> call_requires(closure, (&vec@[k],)),
            forall|j: int| 0 <= j < i ==> call_ensures(closure, (&vec@[j],), Ok::<(), E>(())),
        decreases vec@.len() - i,
    {
        let res = closure(&vec[i]);
        match res {
            Ok(u) => {
                proof {
                    assert(res == Ok::<(), E>(u));
                    assert(res == Ok::<(), E>(()));
                }
            },
            Err(e) => {
                return Err(e);
            },
        }
        i = i + 1;
    }
    Ok(())
}

} // verus!
