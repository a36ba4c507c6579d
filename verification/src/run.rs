//! The sync orchestrator. A run has two stages: a pure plan stage that
//! validates every source statement of both categories and fixes the apply
//! order before anything touches the database, and an execute stage, a step
//! machine that hands out one statement at a time — drops first, then the
//! function batch, then the RLS batch — and offers the commit only when
//! every step has succeeded. The caller executes each step inside one open
//! transaction and reports the outcome back; on the first failure the
//! machine stops handing out steps, so the transaction is rolled back and
//! the database is left unchanged.

use crate::catalog::{drop_function_statement, drop_function_text, drop_policy_statement,
    drop_policy_text, drop_type_statement, drop_type_text, FunctionRow, PolicyRow, TypeRow};
use crate::collect::{first_function_error, first_rls_error, statement_texts,
    str_to_function_statements, str_to_rls_statements, SourceStatement};
use crate::errors::SyncError;
use crate::order::{order_function_files, types_first, SqlFile};
use crate::statement::{spec_validate_function, spec_validate_rls};
use vstd::prelude::*;

verus! {

/// One source file as read and split by the caller: its path, its bare file
/// name, and its split, classified statements in file order.
#[derive(Debug, PartialEq, Eq)]
pub struct FileSource {
    /// The file's full path, kept for diagnostics.
    pub path: String,
    /// The file's bare name, the last path component.
    pub name: String,
    /// The file's statements, in file order.
    pub statements: Vec<SourceStatement>,
}

/// Whether every statement of a function-category file passes validation.
pub open spec fn function_file_valid(f: FileSource, schemas: Seq<String>) -> bool {
    forall|i: int|
        0 <= i < f.statements@.len() ==> spec_validate_function(
            #[trigger] f.statements@[i].parsed,
            schemas,
        ) is Ok
}

/// Whether every statement of an RLS-category file passes validation.
pub open spec fn rls_file_valid(f: FileSource, schemas: Seq<String>) -> bool {
    forall|i: int|
        0 <= i < f.statements@.len() ==> spec_validate_rls(
            #[trigger] f.statements@[i].parsed,
            schemas,
        ) is Ok
}

/// Whether `sf` is the validated form of `src`: same path and name, and the
/// statement texts of `src` in file order.
pub open spec fn built_from(sf: SqlFile, src: FileSource) -> bool {
    sf.path == src.path && sf.name == src.name && sf.statements@ == statement_texts(
        src.statements@,
    )
}

/// Whether `e` is the first validation error of the function-category file
/// `f`: every earlier statement valid, and the error carrying the failing
/// statement's cause, the file's path, the statement's text and the
/// allow-list.
pub open spec fn function_file_error(f: FileSource, schemas: Seq<String>, e: SyncError) -> bool {
    first_function_error(f.statements@, f.path, schemas, e)
}

/// Whether `e` is the first validation error of the RLS-category file `f`,
/// in the same sense as `function_file_error`.
pub open spec fn rls_file_error(f: FileSource, schemas: Seq<String>, e: SyncError) -> bool {
    first_rls_error(f.statements@, f.path, schemas, e)
}

/// The fully validated, ordered statements to apply, computed before any
/// database mutation: the function-category files with every `types.sql`
/// file first, then the RLS-category files in their given order.
#[derive(Debug, PartialEq, Eq)]
pub struct SyncPlan {
    /// The validated function-category files, types files first.
    pub function_files: Vec<SqlFile>,
    /// The validated RLS-category files, in their given order.
    pub rls_files: Vec<SqlFile>,
}

/// The plan stage: validates every statement of both categories and fixes
/// the apply order. Pure — nothing may touch the database until it returns
/// a full plan. Succeeds exactly when every statement of every file is
/// valid; otherwise returns the first validation error, function category
/// first, with no partial plan.
#[verifier::rlimit(50)]
pub fn build_sync_plan(
    function_files: Vec<FileSource>,
    rls_files: Vec<FileSource>,
    function_schemas: &Vec<String>,
    rls_schemas: &Vec<String>,
) -> (r: Result<SyncPlan, SyncError>)
    ensures
        r is Ok <==> (forall|i: int|
            0 <= i < function_files@.len() ==> function_file_valid(
                #[trigger] function_files@[i],
                function_schemas@,
            )) && (forall|i: int|
            0 <= i < rls_files@.len() ==> rls_file_valid(#[trigger] rls_files@[i], rls_schemas@)),
        r matches Ok(plan) ==> (exists|vf: Seq<SqlFile>|
            vf.len() == function_files@.len() && (forall|i: int|
                0 <= i < vf.len() ==> built_from(#[trigger] vf[i], function_files@[i]))
                && plan.function_files@ == types_first(vf)) && plan.rls_files@.len()
            == rls_files@.len() && (forall|i: int|
            0 <= i < rls_files@.len() ==> built_from(#[trigger] plan.rls_files@[i], rls_files@[i])),
        r matches Err(e) ==> ((exists|fi: int|
            #![trigger function_files@[fi]]
            0 <= fi < function_files@.len() && (forall|fj: int|
                0 <= fj < fi ==> function_file_valid(function_files@[fj], function_schemas@))
                && function_file_error(function_files@[fi], function_schemas@, e)) || ((forall|
            fi: int,
        |
            0 <= fi < function_files@.len() ==> function_file_valid(
                #[trigger] function_files@[fi],
                function_schemas@,
            )) && (exists|ri: int|
            #![trigger rls_files@[ri]]
            0 <= ri < rls_files@.len() && (forall|rj: int|
                0 <= rj < ri ==> rls_file_valid(rls_files@[rj], rls_schemas@)) && rls_file_error(
                rls_files@[ri],
                rls_schemas@,
                e,
            )))),
{
    let mut fbuilt: Vec<SqlFile> = Vec::new();
    let mut fk: usize = 0;
    while fk < function_files.len()
        invariant
            0 <= fk <= function_files@.len(),
            fbuilt@.len() == fk,
            forall|i: int|
                0 <= i < fk ==> function_file_valid(#[trigger] function_files@[i], function_schemas@),
            forall|i: int| 0 <= i < fk ==> built_from(#[trigger] fbuilt@[i], function_files@[i]),
        decreases function_files@.len() - fk,
    {
        let f = &function_files[fk];
        match str_to_function_statements(&f.statements, f.path.clone(), function_schemas) {
            Ok((p, texts)) => {
                fbuilt.push(SqlFile { path: p, name: f.name.clone(), statements: texts });
            },
            Err(e) => {
                proof {
                    assert(function_file_error(function_files@[fk as int], function_schemas@, e));
                    assert(!function_file_valid(function_files@[fk as int], function_schemas@));
                }
                return Err(e);
            },
        }
        fk = fk + 1;
    }
    let mut rbuilt: Vec<SqlFile> = Vec::new();
    let mut rk: usize = 0;
    while rk < rls_files.len()
        invariant
            0 <= rk <= rls_files@.len(),
            rbuilt@.len() == rk,
            forall|i: int| 0 <= i < rk ==> rls_file_valid(#[trigger] rls_files@[i], rls_schemas@),
            forall|i: int| 0 <= i < rk ==> built_from(#[trigger] rbuilt@[i], rls_files@[i]),
            forall|i: int|
                0 <= i < function_files@.len() ==> function_file_valid(
                    #[trigger] function_files@[i],
                    function_schemas@,
                ),
        decreases rls_files@.len() - rk,
    {
        let f = &rls_files[rk];
        match str_to_rls_statements(&f.statements, f.path.clone(), rls_schemas) {
            Ok((p, texts)) => {
                rbuilt.push(SqlFile { path: p, name: f.name.clone(), statements: texts });
            },
            Err(e) => {
                proof {
                    assert(rls_file_error(rls_files@[rk as int], rls_schemas@, e));
                    assert(!rls_file_valid(rls_files@[rk as int], rls_schemas@));
                }
                return Err(e);
            },
        }
        rk = rk + 1;
    }
    let ghost vf: Seq<SqlFile> = fbuilt@;
    let ordered = order_function_files(fbuilt);
    proof {
        assert(vf.len() == function_files@.len());
        assert(forall|i: int|
            0 <= i < vf.len() ==> built_from(#[trigger] vf[i], function_files@[i]));
        assert(ordered@ == types_first(vf));
    }
    Ok(SyncPlan { function_files: ordered, rls_files: rbuilt })
}

/// One unit of database work in the execute stage.
#[derive(Debug, PartialEq, Eq)]
pub enum ExecStep {
    /// A DROP of one discovered catalog object.
    Drop {
        /// The DROP statement to execute.
        text: String,
    },
    /// The session setting that relaxes function-body checking for the rest
    /// of the transaction, so functions created in this batch may refer to
    /// one another forwards.
    Setup {
        /// The SET statement to execute.
        text: String,
    },
    /// One validated source statement, applied verbatim.
    Apply {
        /// The path of the file the statement came from, for diagnostics.
        path: String,
        /// The statement text to execute.
        text: String,
    },
}

/// The diagnostic content of an apply step: the owning file's path and the
/// statement text.
#[verifier::ext_equal]
pub ghost struct ApplyModel {
    /// The owning file's path.
    pub path: Seq<char>,
    /// The statement text.
    pub text: Seq<char>,
}

/// The diagnostic model of an apply step. Other steps carry no diagnostics
/// and model as empty.
pub open spec fn apply_model(s: ExecStep) -> ApplyModel {
    match s {
        ExecStep::Apply { path, text } => ApplyModel { path: path@, text: text@ },
        _ => ApplyModel { path: Seq::empty(), text: Seq::empty() },
    }
}

/// The apply models of one file's statements, in file order.
pub open spec fn stmt_models(f: SqlFile) -> Seq<ApplyModel> {
    f.statements@.map_values(|t: String| ApplyModel { path: f.path@, text: t@ })
}

/// The apply models of a list of files, file by file, in order.
pub open spec fn apply_models(files: Seq<SqlFile>) -> Seq<ApplyModel> {
    files.map_values(|f: SqlFile| stmt_models(f)).flatten()
}

/// Builds the apply steps for a list of validated files: one step per
/// statement, file by file, in order, each carrying its file's path.
fn apply_steps(files: &Vec<SqlFile>) -> (r: Vec<ExecStep>)
    ensures
        r@.map_values(|s: ExecStep| apply_model(s)) == apply_models(files@),
        forall|i: int| 0 <= i < r@.len() ==> r@[i] is Apply,
{
    broadcast use Seq::lemma_flatten_push;

    let mut r: Vec<ExecStep> = Vec::new();
    let mut k: usize = 0;
    proof {
        assert(files@.take(0int).map_values(|f: SqlFile| stmt_models(f)) =~= Seq::<Seq<ApplyModel>>::empty());
        assert(r@.map_values(|s: ExecStep| apply_model(s)) =~= apply_models(files@.take(0int)));
    }
    while k < files.len()
        invariant
            0 <= k <= files@.len(),
            r@.map_values(|s: ExecStep| apply_model(s)) == apply_models(files@.take(k as int)),
            forall|i: int| 0 <= i < r@.len() ==> r@[i] is Apply,
        decreases files@.len() - k,
    {
        let file = &files[k];
        let mut j: usize = 0;
        proof {
            assert(stmt_models(*file).take(0int) =~= Seq::<ApplyModel>::empty());
            assert(r@.map_values(|s: ExecStep| apply_model(s)) =~~= apply_models(
                files@.take(k as int),
            ) + stmt_models(*file).take(0int));
        }
        while j < file.statements.len()
            invariant
                0 <= j <= file.statements@.len(),
                0 <= k < files@.len(),
                file == &files@[k as int],
                r@.map_values(|s: ExecStep| apply_model(s)) == apply_models(files@.take(k as int))
                    + stmt_models(*file).take(j as int),
                forall|i: int| 0 <= i < r@.len() ==> r@[i] is Apply,
            decreases file.statements@.len() - j,
        {
            let step = ExecStep::Apply {
                path: file.path.clone(),
                text: file.statements[j].clone(),
            };
            proof {
                assert(apply_model(step) == stmt_models(*file)[j as int]);
            }
            let ghost rpre: Seq<ExecStep> = r@;
            r.push(step);
            proof {
                assert(r@ =~= rpre.push(step));
                assert(r@.map_values(|s: ExecStep| apply_model(s)) =~~= rpre.map_values(
                    |s: ExecStep| apply_model(s),
                ).push(apply_model(step)));
                assert(stmt_models(*file).take(j + 1) =~~= stmt_models(*file).take(j as int).push(
                    stmt_models(*file)[j as int],
                ));
                assert(r@.map_values(|s: ExecStep| apply_model(s)) =~~= apply_models(
                    files@.take(k as int),
                ) + stmt_models(*file).take(j + 1));
            }
            j = j + 1;
        }
        proof {
            assert(stmt_models(*file).take(file.statements@.len() as int) =~~= stmt_models(*file));
            assert(files@.take(k + 1).map_values(|f: SqlFile| stmt_models(f)) =~~= files@.take(
                k as int,
            ).map_values(|f: SqlFile| stmt_models(f)).push(stmt_models(files@[k as int])));
            files@.take(k as int).map_values(|f: SqlFile| stmt_models(f)).lemma_flatten_push(
                stmt_models(files@[k as int]),
            );
            assert(apply_models(files@.take(k + 1)) =~~= apply_models(files@.take(k as int))
                + stmt_models(files@[k as int]));
            assert(r@.map_values(|s: ExecStep| apply_model(s)) =~~= apply_models(
                files@.take(k + 1),
            ));
        }
        k = k + 1;
    }
    proof {
        assert(files@.take(files@.len() as int) =~= files@);
    }
    r
}

/// The statement that relaxes function-body checking for the rest of the
/// transaction.
pub const SETUP_STATEMENT: &'static str = "SET check_function_bodies = FALSE;";

/// Builds the whole ordered script of a run: drop every discovered policy,
/// then every discovered function, then every discovered type; relax
/// function-body checking; then apply the function batch and the RLS batch
/// in plan order.
pub fn build_script(
    plan: &SyncPlan,
    policies: &Vec<PolicyRow>,
    functions: &Vec<FunctionRow>,
    types: &Vec<TypeRow>,
) -> (r: Vec<ExecStep>)
    ensures
        r@.len() == policies@.len() + functions@.len() + types@.len() + 1 + apply_models(
            plan.function_files@,
        ).len() + apply_models(plan.rls_files@).len(),
        forall|i: int|
            0 <= i < policies@.len() ==> (#[trigger] r@[i] matches ExecStep::Drop { text }
                && text@ == drop_policy_text(policies@[i])),
        forall|i: int|
            0 <= i < functions@.len() ==> (#[trigger] r@[policies@.len() + i]
                matches ExecStep::Drop { text } && text@ == drop_function_text(functions@[i])),
        forall|i: int|
            0 <= i < types@.len() ==> (#[trigger] r@[policies@.len() + functions@.len() + i]
                matches ExecStep::Drop { text } && text@ == drop_type_text(types@[i])),
        r@[(policies@.len() + functions@.len() + types@.len()) as int] matches ExecStep::Setup {
            text,
        } && text@ == SETUP_STATEMENT@,
        r@.skip((policies@.len() + functions@.len() + types@.len() + 1) as int).map_values(
            |s: ExecStep| apply_model(s),
        ) == apply_models(plan.function_files@) + apply_models(plan.rls_files@),
        forall|i: int|
            policies@.len() + functions@.len() + types@.len() + 1 <= i < r@.len() ==> r@[i]
                is Apply,
{
    let mut r: Vec<ExecStep> = Vec::new();
    let mut i: usize = 0;
    while i < policies.len()
        invariant
            0 <= i <= policies@.len(),
            r@.len() == i,
            forall|n: int|
                0 <= n < i ==> (#[trigger] r@[n] matches ExecStep::Drop { text } && text@
                    == drop_policy_text(policies@[n])),
        decreases policies@.len() - i,
    {
        r.push(ExecStep::Drop { text: drop_policy_statement(&policies[i]) });
        i = i + 1;
    }
    let mut j: usize = 0;
    while j < functions.len()
        invariant
            0 <= j <= functions@.len(),
            r@.len() == policies@.len() + j,
            forall|n: int|
                0 <= n < policies@.len() ==> (#[trigger] r@[n] matches ExecStep::Drop { text }
                    && text@ == drop_policy_text(policies@[n])),
            forall|n: int|
                0 <= n < j ==> (#[trigger] r@[policies@.len() + n] matches ExecStep::Drop { text }
                    && text@ == drop_function_text(functions@[n])),
        decreases functions@.len() - j,
    {
        r.push(ExecStep::Drop { text: drop_function_statement(&functions[j]) });
        j = j + 1;
    }
    let mut t: usize = 0;
    while t < types.len()
        invariant
            0 <= t <= types@.len(),
            r@.len() == policies@.len() + functions@.len() + t,
            forall|n: int|
                0 <= n < policies@.len() ==> (#[trigger] r@[n] matches ExecStep::Drop { text }
                    && text@ == drop_policy_text(policies@[n])),
            forall|n: int|
                0 <= n < functions@.len() ==> (#[trigger] r@[policies@.len() + n]
                    matches ExecStep::Drop { text } && text@ == drop_function_text(functions@[n])),
            forall|n: int|
                0 <= n < t ==> (#[trigger] r@[policies@.len() + functions@.len() + n]
                    matches ExecStep::Drop { text } && text@ == drop_type_text(types@[n])),
        decreases types@.len() - t,
    {
        r.push(ExecStep::Drop { text: drop_type_statement(&types[t]) });
        t = t + 1;
    }
    r.push(ExecStep::Setup { text: SETUP_STATEMENT.to_owned() });
    let ghost prefix_len: int = (policies@.len() + functions@.len() + types@.len() + 1) as int;
    let mut fsteps = apply_steps(&plan.function_files);
    let ghost fmodels: Seq<ApplyModel> = fsteps@.map_values(
        |s: ExecStep| apply_model(s),
    );
    let mut rsteps = apply_steps(&plan.rls_files);
    let ghost rmodels: Seq<ApplyModel> = rsteps@.map_values(
        |s: ExecStep| apply_model(s),
    );
    r.append(&mut fsteps);
    r.append(&mut rsteps);
    proof {
        assert(r@.skip(prefix_len).map_values(|s: ExecStep| apply_model(s)) =~~= fmodels + rmodels);
    }
    r
}

/// The execute stage: a step machine over the script. The caller asks for
/// the next statement, executes it inside the one open transaction, and
/// reports success or failure; the machine offers the commit only when
/// every step has succeeded, and after any failure it stops handing out
/// steps, so the caller's cleanup rolls the transaction back.
#[derive(Debug)]
pub struct SyncRun {
    /// The full ordered script.
    pub steps: Vec<ExecStep>,
    /// The index of the next step to execute.
    pub next: usize,
    /// Whether some step has failed.
    pub failed: bool,
}

impl SyncRun {
    /// The machine's invariant: the cursor never passes the end.
    pub open spec fn wf(self) -> bool {
        self.next <= self.steps@.len()
    }

    /// Whether the run has earned the commit: every step executed, none
    /// failed.
    pub open spec fn spec_may_commit(self) -> bool {
        !self.failed && self.next == self.steps@.len()
    }

    /// Starts a run at the beginning of the script.
    pub fn new(steps: Vec<ExecStep>) -> (r: SyncRun)
        ensures
            r.steps@ == steps@,
            r.next == 0,
            !r.failed,
            r.wf(),
    {
        SyncRun { steps, next: 0, failed: false }
    }

    /// The next statement to execute: `None` exactly when the run is over,
    /// because all steps succeeded or because one failed.
    pub fn next_step(&self) -> (r: Option<&ExecStep>)
        requires
            self.wf(),
        ensures
            r matches Some(s) ==> !self.failed && self.next < self.steps@.len() && *s
                == self.steps@[self.next as int],
            r is None <==> (self.failed || self.next == self.steps@.len()),
    {
        if self.failed || self.next >= self.steps.len() {
            None
        } else {
            Some(&self.steps[self.next])
        }
    }

    /// Records that the current step succeeded and moves to the next one.
    pub fn step_succeeded(&mut self)
        requires
            old(self).wf(),
            !old(self).failed,
            old(self).next < old(self).steps@.len(),
        ensures
            final(self).steps@ == old(self).steps@,
            final(self).next == old(self).next + 1,
            !final(self).failed,
            final(self).wf(),
    {
        let total: usize = self.steps.len();
        proof {
            assert(self.next < total);
        }
        self.next = self.next + 1;
    }

    /// Records that the current step failed, with the database's message,
    /// and returns the run's fatal error: an execution error carrying the
    /// offending file path and statement text for an apply step, and a
    /// plain database error for a drop or setup step. The run can never
    /// offer the commit afterwards.
    pub fn step_failed(&mut self, message: String) -> (e: SyncError)
        requires
            old(self).wf(),
            !old(self).failed,
            old(self).next < old(self).steps@.len(),
        ensures
            final(self).failed,
            final(self).steps@ == old(self).steps@,
            final(self).next == old(self).next,
            !final(self).spec_may_commit(),
            final(self).wf(),
            (old(self).steps@[old(self).next as int] matches ExecStep::Apply { path, text } ==> (
            e matches SyncError::Execution { message: m, path: p, statement } && m == message && p
                == path && statement == text)),
            (!(old(self).steps@[old(self).next as int] is Apply) ==> (
            e matches SyncError::Db { message: m } && m == message)),
    {
        self.failed = true;
        match &self.steps[self.next] {
            ExecStep::Apply { path, text } => SyncError::Execution {
                message,
                path: path.clone(),
                statement: text.clone(),
            },
            _ => SyncError::Db { message },
        }
    }

    /// Whether the caller may commit the transaction now.
    pub fn may_commit(&self) -> (r: bool)
        requires
            self.wf(),
        ensures
            r == self.spec_may_commit(),
    {
        !self.failed && self.next == self.steps.len()
    }
}

/// Law (atomicity): the commit is offered only when the cursor stands past
/// the last step with no failure recorded — that is, only when every
/// statement of the drop phase, the function batch and the RLS batch has
/// succeeded — and never once any step has failed. A run that ends without
/// the commit leaves the transaction to be rolled back, so no statement of
/// any batch remains committed.
pub proof fn lemma_atomicity(run: SyncRun)
    ensures
        run.spec_may_commit() ==> run.next == run.steps@.len() && !run.failed,
        run.failed ==> !run.spec_may_commit(),
{
}

} // verus!
