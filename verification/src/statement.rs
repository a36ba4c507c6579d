//! Validation of one parsed SQL statement against a schema allow-list.
//!
//! A statement is accepted for its category only when its top-level kind is
//! one the category recognizes and its target object is qualified with a
//! schema that the category's allow-list names. The statement text itself is
//! never rewritten; the parsed shape is used for classification only.

use vstd::prelude::*;

verus! {

/// A single node of a qualified SQL name, as the parser reports it: a plain
/// string part, a node of some other kind, or a missing node.
#[derive(Debug, PartialEq, Eq)]
pub enum NameNode {
    /// A string component of the qualified name.
    Str(String),
    /// A node of some other kind stands in this position.
    Other,
    /// The position holds no node at all.
    Absent,
}

/// The shape of one top-level statement, reduced to exactly what validation
/// reads: the statement kind and the qualified name (or target table) it
/// declares. Anything else the parser reports is irrelevant here.
#[derive(Debug, PartialEq, Eq)]
pub enum Stmt {
    /// `CREATE FUNCTION` / `CREATE PROCEDURE`; `name` is the function's
    /// qualified name, one node per dotted component.
    CreateFunction { name: Vec<NameNode> },
    /// `CREATE TYPE ... AS (...)`; `target` is the schema name of the backing
    /// relation, `None` when the parser reports no relation at all, and
    /// `Some("")` when the relation carries no schema qualifier.
    CreateCompositeType { target: Option<String> },
    /// `CREATE DOMAIN`; `name` is the domain's qualified name.
    CreateDomain { name: Vec<NameNode> },
    /// `CREATE TYPE ... AS ENUM`; `name` is the type's qualified name.
    CreateEnum { name: Vec<NameNode> },
    /// `CREATE TYPE ... AS RANGE`; `name` is the type's qualified name.
    CreateRange { name: Vec<NameNode> },
    /// `CREATE POLICY`; `table` is the schema name of the policy's table,
    /// with the same conventions as `CreateCompositeType::target`.
    CreatePolicy { table: Option<String> },
    /// Any other top-level statement kind.
    Other,
}

/// Why a statement was rejected.
#[derive(Debug, PartialEq, Eq)]
pub enum Error {
    /// The statement's target name carries no schema qualifier, or the
    /// structural field that would carry one is absent.
    NoSchema,
    /// A schema qualifier is present but is not in the allow-list; carries
    /// the offending schema name.
    InvalidSchema(String),
    /// The statement's top-level kind is not recognized for its category.
    InvalidStatement,
}

/// Whether `schema` is one of the allow-list entries.
pub open spec fn schema_in_list(schemas: Seq<String>, schema: Seq<char>) -> bool {
    exists|i: int| 0 <= i < schemas.len() && schemas[i]@ == schema
}

/// The schema component of a qualified name: present exactly when the name
/// has the two-part form `schema.object` with a string schema node and a
/// non-absent object node.
pub open spec fn name_schema(name: Seq<NameNode>) -> Option<String> {
    if name.len() == 2 && !(name[1] is Absent) {
        match name[0] {
            NameNode::Str(s) => Some(s),
            _ => None,
        }
    } else {
        None
    }
}

/// The schema component of a table reference: present exactly when the
/// reference exists and carries a non-empty schema qualifier.
pub open spec fn table_schema(target: Option<String>) -> Option<String> {
    match target {
        Some(s) => if s@.len() > 0 {
            Some(s)
        } else {
            None
        },
        None => None,
    }
}

/// Whether the function category recognizes this statement kind: function,
/// composite type, domain, enum type, or range type creation.
pub open spec fn function_kind(stmt: Stmt) -> bool {
    ||| stmt is CreateFunction
    ||| stmt is CreateCompositeType
    ||| stmt is CreateDomain
    ||| stmt is CreateEnum
    ||| stmt is CreateRange
}

/// Whether the RLS category recognizes this statement kind: policy creation
/// only.
pub open spec fn rls_kind(stmt: Stmt) -> bool {
    stmt is CreatePolicy
}

/// The schema the statement targets, independent of category.
pub open spec fn target_schema(stmt: Stmt) -> Option<String> {
    match stmt {
        Stmt::CreateFunction { name } => name_schema(name@),
        Stmt::CreateCompositeType { target } => table_schema(target),
        Stmt::CreateDomain { name } => name_schema(name@),
        Stmt::CreateEnum { name } => name_schema(name@),
        Stmt::CreateRange { name } => name_schema(name@),
        Stmt::CreatePolicy { table } => table_schema(table),
        Stmt::Other => None,
    }
}

/// The validation outcome for a statement whose kind-recognition flag and
/// target schema are given: unrecognized kinds fail with `InvalidStatement`,
/// unqualified targets with `NoSchema`, and qualified targets outside the
/// allow-list with `InvalidSchema`.
pub open spec fn spec_validate(
    recognized: bool,
    schema: Option<String>,
    schemas: Seq<String>,
) -> Result<(), Error> {
    if !recognized {
        Err(Error::InvalidStatement)
    } else {
        match schema {
            None => Err(Error::NoSchema),
            Some(s) => if schema_in_list(schemas, s@) {
                Ok(())
            } else {
                Err(Error::InvalidSchema(s))
            },
        }
    }
}

/// What `validate_function_schema` returns.
pub open spec fn spec_validate_function(stmt: Stmt, schemas: Seq<String>) -> Result<(), Error> {
    spec_validate(function_kind(stmt), target_schema(stmt), schemas)
}

/// What `validate_rls_schema` returns.
pub open spec fn spec_validate_rls(stmt: Stmt, schemas: Seq<String>) -> Result<(), Error> {
    spec_validate(rls_kind(stmt), target_schema(stmt), schemas)
}

/// Whether `schema` occurs in the allow-list.
fn schema_listed(schemas: &Vec<String>, schema: &String) -> (r: bool)
    ensures
        r == schema_in_list(schemas@, schema@),
{
    let mut i: usize = 0;
    while i < schemas.len()
        invariant
            0 <= i <= schemas@.len(),
            forall|j: int| 0 <= j < i ==> schemas@[j]@ != schema@,
        decreases schemas@.len() - i,
    {
        if schemas[i].eq(schema) {
            return true;
        }
        i = i + 1;
    }
    false
}

/// Validates a two-part qualified name against the allow-list.
fn validate_name(name: &Vec<NameNode>, schemas: &Vec<String>) -> (r: Result<(), Error>)
    ensures
        r == spec_validate(true, name_schema(name@), schemas@),
{
    if name.len() != 2 {
        return Err(Error::NoSchema);
    }
    let object_present = match &name[1] {
        NameNode::Absent => false,
        _ => true,
    };
    if !object_present {
        return Err(Error::NoSchema);
    }
    match &name[0] {
        NameNode::Str(s) => {
            if schema_listed(schemas, s) {
                Ok(())
            } else {
                Err(Error::InvalidSchema(s.clone()))
            }
        },
        _ => Err(Error::NoSchema),
    }
}

/// Validates a table reference (a policy's table or a composite type's
/// backing relation) against the allow-list.
fn validate_target(target: &Option<String>, schemas: &Vec<String>) -> (r: Result<(), Error>)
    ensures
        r == spec_validate(true, table_schema(*target), schemas@),
{
    match target {
        None => Err(Error::NoSchema),
        Some(s) => {
            if s.as_str().is_empty() {
                Err(Error::NoSchema)
            } else if schema_listed(schemas, s) {
                Ok(())
            } else {
                Err(Error::InvalidSchema(s.clone()))
            }
        },
    }
}

/// Accepts a statement for the function category exactly when its kind is
/// function, composite type, domain, enum type or range type creation and
/// its target schema is in the allow-list.
pub fn validate_function_schema(stmt: &Stmt, schemas: &Vec<String>) -> (r: Result<(), Error>)
    ensures
        r == spec_validate_function(*stmt, schemas@),
{
    match stmt {
        Stmt::CreateFunction { name } => validate_name(name, schemas),
        Stmt::CreateCompositeType { target } => validate_target(target, schemas),
        Stmt::CreateDomain { name } => validate_name(name, schemas),
        Stmt::CreateEnum { name } => validate_name(name, schemas),
        Stmt::CreateRange { name } => validate_name(name, schemas),
        _ => Err(Error::InvalidStatement),
    }
}

/// Accepts a statement for the RLS category exactly when it creates a policy
/// on a table whose schema is in the allow-list.
pub fn validate_rls_schema(stmt: &Stmt, schemas: &Vec<String>) -> (r: Result<(), Error>)
    ensures
        r == spec_validate_rls(*stmt, schemas@),
{
    match stmt {
        Stmt::CreatePolicy { table } => validate_target(table, schemas),
        _ => Err(Error::InvalidStatement),
    }
}

/// Law: a recognized statement whose target schema is outside the
/// allow-list always fails with `InvalidSchema` carrying that schema, and
/// only such statements do.
pub proof fn lemma_schema_containment(recognized: bool, schema: Option<String>, schemas: Seq<String>)
    ensures
        forall|s: String|
            spec_validate(recognized, schema, schemas) == Err::<(), Error>(
                Error::InvalidSchema(s),
            ) <==> recognized && schema == Some(s) && !schema_in_list(schemas, s@),
{
}

/// Law: a recognized statement that lacks a schema qualifier always fails
/// with `NoSchema`, and only such statements do.
pub proof fn lemma_unqualified_rejected(recognized: bool, schema: Option<String>, schemas: Seq<String>)
    ensures
        spec_validate(recognized, schema, schemas) == Err::<(), Error>(Error::NoSchema) <==> (
        recognized && schema is None),
{
}

/// Law: a statement whose top-level kind the category does not recognize
/// always fails with `InvalidStatement`, and only such statements do.
pub proof fn lemma_unsupported_rejected(recognized: bool, schema: Option<String>, schemas: Seq<String>)
    ensures
        spec_validate(recognized, schema, schemas) == Err::<(), Error>(Error::InvalidStatement)
            <==> !recognized,
{
}

/// Law: validation succeeds exactly when the kind is recognized and the
/// target schema is present and allow-listed.
pub proof fn lemma_validation_accepts(recognized: bool, schema: Option<String>, schemas: Seq<String>)
    ensures
        spec_validate(recognized, schema, schemas) is Ok <==> recognized && (schema matches Some(s)
            && schema_in_list(schemas, s@)),
{
}

} // verus!
