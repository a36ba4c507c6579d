//! The catalog diff planner: turns the rows that the introspection queries
//! report — existing policies, non-internal functions and orphan types in
//! the governed schemas — into the DROP statements that clear them. All
//! generated identifiers are double-quoted; no further escaping is done.

use vstd::prelude::*;

verus! {

/// The introspection query for existing row-security policies in the
/// governed schemas; its one parameter is the RLS allow-list. Rows come
/// ordered by schema, table and policy name.
pub const POLICIES_QUERY: &'static str = "
                SELECT schemaname, tablename, policyname
                FROM pg_policies
                WHERE schemaname = ANY($1)
                ORDER BY schemaname, tablename, policyname;
            ";

/// The introspection query for existing functions in the governed schemas,
/// excluding internal-language routines, the system schemas, and routines
/// returning `trigger`; its one parameter is the function allow-list. Rows
/// come ordered by schema and function name.
pub const FUNCTIONS_QUERY: &'static str = "
                SELECT
                    n.nspname AS function_schema,
                    p.proname AS function_name,
                    pg_get_function_identity_arguments(p.oid) AS function_arguments
                FROM pg_proc p
                    JOIN pg_namespace n ON p.pronamespace = n.oid
                    JOIN pg_language l ON p.prolang = l.oid
                    JOIN pg_type t ON t.oid = p.prorettype
                WHERE l.lanname <> 'internal'
                  AND n.nspname = ANY($1)
                  AND n.nspname NOT IN ('pg_catalog', 'information_schema')
                  AND t.typname <> 'trigger'
                ORDER BY function_schema, function_name;
            ";

/// The introspection query for standalone types in the governed schemas —
/// row types of real composite relations, or non-composite types — excluding
/// each type's own array-shadow type and the system schemas; its one
/// parameter is the function allow-list.
pub const TYPES_QUERY: &'static str = "
                SELECT n.nspname as schema, t.typname as type
                FROM pg_type t
                    JOIN   pg_catalog.pg_namespace n ON n.oid = t.typnamespace
                WHERE (t.typrelid = 0 OR (SELECT c.relkind = 'c' FROM pg_catalog.pg_class c WHERE c.oid = t.typrelid))
                  AND NOT EXISTS(SELECT 1 FROM pg_catalog.pg_type el WHERE el.oid = t.typelem AND el.typarray = t.oid)
                  AND n.nspname NOT IN ('pg_catalog', 'information_schema')
                  AND n.nspname = ANY($1)
            ";

/// One row of the policy introspection query.
#[derive(Debug, PartialEq, Eq)]
pub struct PolicyRow {
    /// The schema of the policy's table.
    pub schema: String,
    /// The policy's table.
    pub table: String,
    /// The policy's name.
    pub policy: String,
}

/// One row of the function introspection query.
#[derive(Debug, PartialEq, Eq)]
pub struct FunctionRow {
    /// The function's schema.
    pub schema: String,
    /// The function's name.
    pub name: String,
    /// The function's identity arguments, naming one overload exactly.
    pub arguments: String,
}

/// One row of the type introspection query.
#[derive(Debug, PartialEq, Eq)]
pub struct TypeRow {
    /// The type's schema.
    pub schema: String,
    /// The type's name.
    pub name: String,
}

/// The DROP statement for one discovered policy.
pub open spec fn drop_policy_text(r: PolicyRow) -> Seq<char> {
    "DROP POLICY \""@ + r.policy@ + "\" ON \""@ + r.schema@ + "\".\""@ + r.table@ + "\""@
}

/// The DROP statement for one discovered function.
pub open spec fn drop_function_text(r: FunctionRow) -> Seq<char> {
    "DROP FUNCTION \""@ + r.schema@ + "\".\""@ + r.name@ + "\"("@ + r.arguments@ + ") CASCADE"@
}

/// The DROP statement for one discovered type.
pub open spec fn drop_type_text(r: TypeRow) -> Seq<char> {
    "DROP TYPE \""@ + r.schema@ + "\".\""@ + r.name@ + "\" CASCADE"@
}

/// Builds the DROP statement for one discovered policy.
pub fn drop_policy_statement(r: &PolicyRow) -> (s: String)
    ensures
        s@ == drop_policy_text(*r),
{
    let mut s = String::new();
    s.push_str("DROP POLICY \"");
    s.push_str(r.policy.as_str());
    s.push_str("\" ON \"");
    s.push_str(r.schema.as_str());
    s.push_str("\".\"");
    s.push_str(r.table.as_str());
    s.push_str("\"");
    proof {
        assert(s@ =~= drop_policy_text(*r));
    }
    s
}

/// Builds the DROP statement for one discovered function, targeting the one
/// overload the identity arguments name.
pub fn drop_function_statement(r: &FunctionRow) -> (s: String)
    ensures
        s@ == drop_function_text(*r),
{
    let mut s = String::new();
    s.push_str("DROP FUNCTION \"");
    s.push_str(r.schema.as_str());
    s.push_str("\".\"");
    s.push_str(r.name.as_str());
    s.push_str("\"(");
    s.push_str(r.arguments.as_str());
    s.push_str(") CASCADE");
    proof {
        assert(s@ =~= drop_function_text(*r));
    }
    s
}

/// Builds the DROP statement for one discovered type.
pub fn drop_type_statement(r: &TypeRow) -> (s: String)
    ensures
        s@ == drop_type_text(*r),
{
    let mut s = String::new();
    s.push_str("DROP TYPE \"");
    s.push_str(r.schema.as_str());
    s.push_str("\".\"");
    s.push_str(r.name.as_str());
    s.push_str("\" CASCADE");
    proof {
        assert(s@ =~= drop_type_text(*r));
    }
    s
}

} // verus!
