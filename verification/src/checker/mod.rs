//! The semantic checker.

use vstd::prelude::*;
use crate::ast;
use crate::diag::Diag;
use crate::range::Range;

pub mod check_expr;
pub mod check_stmt;
pub mod context;
pub mod equal_type;
pub mod frame;
pub mod infer;
pub mod exits;
pub mod resolve;
pub mod rules;
pub mod synthesis;
pub mod types;

use context::{Context, ContextView};
use rules::Checked;
use types::{Type, TypeId};

verus! {

/// What checking the statements of a program from position `i` on leaves:
/// the environment, and the diagnostics so far with one more for each
/// statement that failed. A statement that fails ends there; the check
/// goes on with the statement after it.
pub open spec fn program_rule(ctx: ContextView, diags: Seq<Diag>, stmts: Seq<ast::Stmt>, i: int) -> (
    ContextView,
    Seq<Diag>,
)
    decreases stmts.len() - i,
{
    if i < 0 || i >= stmts.len() {
        (ctx, diags)
    } else {
        let done = rules::check_stmt(ctx, stmts[i]);
        match done.result {
            Ok(_) => program_rule(done.ctx, diags, stmts, i + 1),
            Err(diag) => program_rule(done.ctx, diags.push(diag), stmts, i + 1),
        }
    }
}

/// The checker: the environment that it fills, and the diagnostics that
/// it has collected.
pub struct Checker {
    pub ctx: Context,
    pub diags: Vec<Diag>,
}

impl Checker {
    pub fn new(ctx: Context) -> (r: Checker)
        ensures
            r.ctx == ctx,
            r.diags@.len() == 0,
    {
        Checker { ctx, diags: Vec::new() }
    }

    /// Checks every statement of the program, collecting a diagnostic for
    /// each one that fails. Returns the first diagnostic of this program,
    /// if there is one.
    #[verifier::loop_isolation(false)]
    pub fn check_program(&mut self, program: &ast::Program) -> (r: Result<TypeId, Diag>)
        requires
            old(self).ctx.wf(),
        ensures
            final(self).ctx.wf(),
            (final(self).ctx@, final(self).diags@) == program_rule(
                old(self).ctx@,
                old(self).diags@,
                program.stmts@,
                0,
            ),
            match r {
                Ok(type_id) => type_id == TypeId::void() && final(self).diags@.len() == old(self).diags@.len(),
                Err(diag) => final(self).diags@.len() > old(self).diags@.len() && diag == final(self).diags@[old(self).diags@.len() as int],
            },
    {
        let before = self.diags.len();
        let ghost goal = program_rule(self.ctx@, self.diags@, program.stmts@, 0);
        let mut i: usize = 0;
        while i < program.stmts.len()
            invariant
                self.ctx.wf(),
                before <= self.diags@.len(),
                self.diags@.take(before as int) == old(self).diags@,
                goal == program_rule(self.ctx@, self.diags@, program.stmts@, i as int),
            decreases program.stmts@.len() - i,
        {
            match check_stmt::check_stmt(&mut self.ctx, &program.stmts[i]) {
                Ok(_) => {},
                Err(diag) => {
                    self.diags.push(diag);
                    proof {
                        assert(self.diags@.take(before as int) =~= old(self).diags@);
                    }
                },
            }
            i += 1;
        }
        if self.diags.len() > before {
            Err(self.diags[before].duplicate())
        } else {
            proof {
                assert(self.diags@.take(before as int) =~= self.diags@);
            }
            Ok(TypeId::void())
        }
    }

    /// The exit type of a statement: see [`rules::check_stmt`].
    pub fn check_stmt(&mut self, stmt: &ast::Stmt) -> (r: Result<TypeId, Diag>)
        requires
            old(self).ctx.wf(),
        ensures
            final(self).ctx.wf(),
            final(self).diags == old(self).diags,
            Checked::of(final(self).ctx@, r) == rules::check_stmt(old(self).ctx@, *stmt),
    {
        check_stmt::check_stmt(&mut self.ctx, stmt)
    }

    /// The type of an expression: see [`rules::check_expr`].
    pub fn check_expr(&mut self, expr: &ast::Expr) -> (r: Result<TypeId, Diag>)
        requires
            old(self).ctx.wf(),
        ensures
            final(self).ctx.wf(),
            final(self).diags == old(self).diags,
            Checked::of(final(self).ctx@, r) == rules::check_expr(old(self).ctx@, *expr),
    {
        check_expr::check_expr(&mut self.ctx, expr)
    }

    /// The exit type of a block: see [`rules::block_rule`].
    pub fn check_block_stmt(&mut self, block: &ast::BlockStmt) -> (r: Result<TypeId, Diag>)
        requires
            old(self).ctx.wf(),
        ensures
            final(self).ctx.wf(),
            final(self).diags == old(self).diags,
            Checked::of(final(self).ctx@, r) == rules::block_rule(old(self).ctx@, *block),
    {
        check_stmt::check_block_stmt(&mut self.ctx, block)
    }

    /// The type of `*e`, which is recorded for the node: see
    /// [`rules::deref_rule`] and [`rules::check_expr`].
    pub fn check_deref_expr(&mut self, deref_expr: &ast::DerefExpr) -> (r: Result<TypeId, Diag>)
        requires
            old(self).ctx.wf(),
        ensures
            final(self).ctx.wf(),
            final(self).diags == old(self).diags,
            Checked::of(final(self).ctx@, r) == rules::check_expr(
                old(self).ctx@,
                ast::Expr::Deref(*deref_expr),
            ),
    {
        match check_expr::check_deref_expr(&mut self.ctx, deref_expr) {
            Ok(type_id) => {
                self.ctx.note_type(deref_expr.get_range(), type_id);
                Ok(type_id)
            },
            Err(diag) => Err(diag),
        }
    }

    /// The type of a literal, which is recorded for the node: see
    /// [`rules::literal_rule`] and [`rules::check_expr`].
    pub fn check_literal(&mut self, lit: &ast::Literal) -> (r: Result<TypeId, Diag>)
        requires
            old(self).ctx.wf(),
        ensures
            final(self).ctx.wf(),
            final(self).diags == old(self).diags,
            Checked::of(final(self).ctx@, r) == rules::check_expr(
                old(self).ctx@,
                ast::Expr::Literal(*lit),
            ),
    {
        match check_expr::check_literal(&mut self.ctx, lit) {
            Ok(type_id) => {
                self.ctx.note_type(lit.get_range(), type_id);
                Ok(type_id)
            },
            Err(diag) => Err(diag),
        }
    }

    /// Whether a value of type `found` may stand where `expected` is
    /// expected: see [`equal_type::equal_types`].
    pub fn equal_type_id(&self, expected: TypeId, found: TypeId) -> (r: bool)
        ensures
            r == equal_type::equal_types(self.ctx@.types, expected, found),
    {
        equal_type::equal_type_id(&self.ctx.type_store, expected, found)
    }

    /// `expected`, if a value of type `found` may stand for it, and else
    /// the diagnostic of the mismatch at `range`.
    pub fn equal_type_expected(&self, expected: TypeId, found: TypeId, range: Range) -> (r:
        Result<TypeId, Diag>)
        ensures
            r == if equal_type::equal_types(self.ctx@.types, expected, found) {
                Ok::<TypeId, Diag>(expected)
            } else {
                Err::<TypeId, Diag>(Diag::mismatch(expected, found, range))
            },
    {
        if !self.equal_type_id(expected, found) {
            return Err(Diag::type_mismatch(expected, found, range));
        }
        Ok(expected)
    }

    /// The type of a value of type `found` that meets the type
    /// `expected`, or an internal diagnostic where a handle is none of
    /// the store: see [`infer::infer_known`].
    pub fn infer_type(&self, expected: TypeId, found: TypeId) -> (r: Result<TypeId, Diag>)
        ensures
            r == infer::infer_known(self.ctx@.types, expected, found),
    {
        infer::infer_known_type(&self.ctx.type_store, expected, found)
    }

    /// The type of a value that meets no expected type, or an internal
    /// diagnostic where the handle is none of the store: see
    /// [`infer::infer_default_known`].
    pub fn infer_no_type_anotation(&self, type_id: TypeId) -> (r: Result<TypeId, Diag>)
        ensures
            r == infer::infer_default_known(self.ctx@.types, type_id),
    {
        infer::infer_default_known_type(&self.ctx.type_store, type_id)
    }

    /// How the type behind `type_id` is written: see
    /// [`types::display::display_text`].
    pub fn display_type(&self, type_id: TypeId) -> (r: String)
        ensures
            r@ == types::display::display_text(self.ctx@.types, type_id),
    {
        self.ctx.type_store.display(type_id)
    }

    /// How two types are written.
    pub fn display_double_type(&self, left: TypeId, right: TypeId) -> (r: (String, String))
        ensures
            r.0@ == types::display::display_text(self.ctx@.types, left),
            r.1@ == types::display::display_text(self.ctx@.types, right),
    {
        (self.display_type(left), self.display_type(right))
    }

    /// The type behind `type_id`. The handle must be one that the store
    /// gave out.
    pub fn get_stored_type(&self, type_id: TypeId) -> (r: &Type)
        requires
            types::lookup(self.ctx@.types, type_id) is Some,
        ensures
            types::lookup(self.ctx@.types, type_id) == Some(r@),
    {
        match self.ctx.type_store.get_type(type_id) {
            Some(type_value) => type_value,
            None => {
                proof {
                    assert(false);
                }
                unreached()
            },
        }
    }
}

} // verus!
