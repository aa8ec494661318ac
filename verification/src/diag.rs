//! Diagnostics.

use vstd::prelude::*;
use vstd::string::StringExecFns;
use crate::ast::operator::action;
use crate::ast::{Operator, OperatorKind};
use crate::checker::types::display::display_text;
use crate::checker::types::{TypeId, TypeStore, TypeView};
use crate::range::Range;
use crate::text::{append_decimal, decimal};

verus! {

/// What went wrong. Types are named by their handles and rendered when the
/// message is written.
#[derive(Debug, Clone, PartialEq)]
pub enum DiagKind {
    /// A value of type `found` stands where one of type `expected` is needed.
    TypeMismatch { expected: TypeId, found: TypeId },
    /// `*` applied to a value whose type `actual` is no reference.
    CannotDereference { actual: TypeId },
    /// A borrow of `value` was asked for, exclusive if `requested_mut`,
    /// while a borrow of it is live that is exclusive if `existing_mut`.
    BorrowConflict { value: String, requested_mut: bool, existing_mut: bool },
    /// The target of an assignment cannot be written to.
    AssignToImmutable,
    UnknownIdent { name: String },
    /// A function of `expected` parameters was called with `found` arguments.
    ArityMismatch { expected: usize, found: usize },
    /// A call of a value whose type `actual` is no function type.
    NotAFunction { actual: TypeId },
    ReturnOutsideFunction,
    BreakOrSkipOutsideLoop,
    /// The body of a function that returns `expected` can end without
    /// giving a value of that type.
    MissingReturn { expected: TypeId },
    DuplicateFieldInit { name: String },
    MissingFieldInit { name: String },
    UnknownType { name: String },
    /// `op` has no meaning on an operand of type `operand_type`.
    InvalidOperator { op: OperatorKind, operand_type: TypeId },
    /// A number literal whose text is no number of its base, or is too large.
    InvalidLiteral,
    /// `&` applied to what is neither a name nor a field of one.
    NotAddressable,
    /// Internal: the builder met a node that the checker recorded no type for.
    IceMissingType,
    /// Internal: the builder met a name that no register was bound to.
    IceUnboundName { name: String },
    /// Internal: the builder ran out of register numbers.
    IceOutOfRegisters,
    /// Internal: the builder met a node outside a function where only a
    /// function can hold it, or a type that it cannot lay out.
    IceMisplaced,
    /// Internal: a handle that the type store did not give out.
    IceUnknownHandle { handle: TypeId },
}

impl DiagKind {
    /// A copy of this kind.
    pub fn duplicate(&self) -> (r: DiagKind)
        ensures
            r == *self,
    {
        match self {
            DiagKind::TypeMismatch { expected, found } => DiagKind::TypeMismatch {
                expected: *expected,
                found: *found,
            },
            DiagKind::CannotDereference { actual } => DiagKind::CannotDereference {
                actual: *actual,
            },
            DiagKind::BorrowConflict { value, requested_mut, existing_mut } => {
                DiagKind::BorrowConflict {
                    value: value.clone(),
                    requested_mut: *requested_mut,
                    existing_mut: *existing_mut,
                }
            },
            DiagKind::AssignToImmutable => DiagKind::AssignToImmutable,
            DiagKind::UnknownIdent { name } => DiagKind::UnknownIdent { name: name.clone() },
            DiagKind::ArityMismatch { expected, found } => DiagKind::ArityMismatch {
                expected: *expected,
                found: *found,
            },
            DiagKind::NotAFunction { actual } => DiagKind::NotAFunction { actual: *actual },
            DiagKind::ReturnOutsideFunction => DiagKind::ReturnOutsideFunction,
            DiagKind::BreakOrSkipOutsideLoop => DiagKind::BreakOrSkipOutsideLoop,
            DiagKind::MissingReturn { expected } => DiagKind::MissingReturn {
                expected: *expected,
            },
            DiagKind::DuplicateFieldInit { name } => DiagKind::DuplicateFieldInit {
                name: name.clone(),
            },
            DiagKind::MissingFieldInit { name } => DiagKind::MissingFieldInit {
                name: name.clone(),
            },
            DiagKind::UnknownType { name } => DiagKind::UnknownType { name: name.clone() },
            DiagKind::InvalidOperator { op, operand_type } => DiagKind::InvalidOperator {
                op: *op,
                operand_type: *operand_type,
            },
            DiagKind::InvalidLiteral => DiagKind::InvalidLiteral,
            DiagKind::NotAddressable => DiagKind::NotAddressable,
            DiagKind::IceMissingType => DiagKind::IceMissingType,
            DiagKind::IceUnboundName { name } => DiagKind::IceUnboundName { name: name.clone() },
            DiagKind::IceOutOfRegisters => DiagKind::IceOutOfRegisters,
            DiagKind::IceMisplaced => DiagKind::IceMisplaced,
            DiagKind::IceUnknownHandle { handle } => DiagKind::IceUnknownHandle {
                handle: *handle,
            },
        }
    }

    /// An internal error: a fault of the compiler, not of the program.
    #[verifier::allow_in_spec]
    pub fn is_internal(&self) -> bool
        returns
            (*self is IceMissingType || *self is IceUnboundName || *self is IceOutOfRegisters
                || *self is IceMisplaced || *self is IceUnknownHandle),
    {
        match self {
            DiagKind::IceMissingType => true,
            DiagKind::IceUnboundName { .. } => true,
            DiagKind::IceOutOfRegisters => true,
            DiagKind::IceMisplaced => true,
            DiagKind::IceUnknownHandle { .. } => true,
            _ => false,
        }
    }
}

/// How a borrow of the given kind is called in messages.
pub open spec fn borrow_text(is_mut: bool) -> Seq<char> {
    if is_mut {
        "mutable"@
    } else {
        "immutable"@
    }
}

/// The message of a diagnostic of the given kind, with the types written
/// as the store has them.
pub open spec fn message_text(types: Seq<TypeView>, kind: DiagKind) -> Seq<char> {
    match kind {
        DiagKind::TypeMismatch { expected, found } => "expected `"@ + display_text(types, expected)
            + "`, found `"@ + display_text(types, found) + "`"@,
        DiagKind::CannotDereference { actual } => "cannot dereference `"@ + display_text(
            types,
            actual,
        ) + "`"@,
        DiagKind::BorrowConflict { value, requested_mut, existing_mut } => "cannot borrow `"@
            + value@ + "` as "@ + borrow_text(requested_mut) + " because it is also borrowed as "@
            + borrow_text(existing_mut),
        DiagKind::AssignToImmutable => "cannot assign to an immutable value"@,
        DiagKind::UnknownIdent { name } => "cannot find `"@ + name@ + "` in this scope"@,
        DiagKind::ArityMismatch { expected, found } => "expected "@ + decimal(expected as nat)
            + " arguments, found "@ + decimal(found as nat),
        DiagKind::NotAFunction { actual } => "`"@ + display_text(types, actual)
            + "` is not a function"@,
        DiagKind::ReturnOutsideFunction => "cannot return outside of a function"@,
        DiagKind::BreakOrSkipOutsideLoop => "cannot break or skip outside of a loop"@,
        DiagKind::MissingReturn { expected } => "missing return of `"@ + display_text(
            types,
            expected,
        ) + "`"@,
        DiagKind::DuplicateFieldInit { name } => "field `"@ + name@ + "` is initialised twice"@,
        DiagKind::MissingFieldInit { name } => "field `"@ + name@ + "` is not initialised"@,
        DiagKind::UnknownType { name } => "cannot find type `"@ + name@ + "`"@,
        DiagKind::InvalidOperator { op, operand_type } => "cannot "@ + action(op) + " `"@
            + display_text(types, operand_type) + "`"@,
        DiagKind::InvalidLiteral => "invalid number literal"@,
        DiagKind::NotAddressable => "cannot borrow a value that has no place"@,
        DiagKind::IceMissingType => "ice_missing_type: no type was recorded for this node"@,
        DiagKind::IceUnboundName { name } => "ice_unbound_name: `"@ + name@
            + "` has no register"@,
        DiagKind::IceOutOfRegisters => "ice_out_of_registers: no register or label is left"@,
        DiagKind::IceMisplaced => "ice_misplaced: this node cannot be lowered here"@,
        DiagKind::IceUnknownHandle { handle } => "ice_unknown_handle: the type store has no type "@
            + decimal(handle.0 as nat),
    }
}

fn borrow_name(is_mut: bool) -> (r: &'static str)
    ensures
        r@ == borrow_text(is_mut),
{
    if is_mut {
        "mutable"
    } else {
        "immutable"
    }
}

/// One diagnostic: what went wrong, where, and where else to look.
#[derive(Debug, Clone, PartialEq)]
pub struct Diag {
    pub kind: DiagKind,
    pub range: Range,
    pub secondary: Option<Range>,
}

impl Diag {
    /// The diagnostic of the given kind at `range`.
    pub open spec fn at(kind: DiagKind, range: Range) -> Diag {
        Diag { kind, range, secondary: None }
    }

    /// The diagnostic of a type mismatch at `range`.
    pub open spec fn mismatch(expected: TypeId, found: TypeId, range: Range) -> Diag {
        Diag::at(DiagKind::TypeMismatch { expected, found }, range)
    }

    /// A copy of this diagnostic.
    pub fn duplicate(&self) -> (r: Diag)
        ensures
            r == *self,
    {
        Diag { kind: self.kind.duplicate(), range: self.range, secondary: self.secondary }
    }

    pub fn new(kind: DiagKind, range: Range) -> (r: Diag)
        ensures
            r == Diag::at(kind, range),
    {
        Diag { kind, range, secondary: None }
    }

    pub fn with_secondary(kind: DiagKind, range: Range, secondary: Range) -> (r: Diag)
        ensures
            r == (Diag { kind, range, secondary: Some(secondary) }),
    {
        Diag { kind, range, secondary: Some(secondary) }
    }

    pub fn type_mismatch(expected: TypeId, found: TypeId, range: Range) -> (r: Diag)
        ensures
            r == Diag::mismatch(expected, found, range),
    {
        Diag::new(DiagKind::TypeMismatch { expected, found }, range)
    }

    pub fn cannot_dereference(actual: TypeId, range: Range) -> (r: Diag)
        ensures
            r == Diag::at(DiagKind::CannotDereference { actual }, range),
    {
        Diag::new(DiagKind::CannotDereference { actual }, range)
    }

    pub fn unknown_ident(name: &String, range: Range) -> (r: Diag)
        ensures
            r == Diag::at(DiagKind::UnknownIdent { name: *name }, range),
    {
        Diag::new(DiagKind::UnknownIdent { name: name.clone() }, range)
    }

    pub fn unknown_type(name: &String, range: Range) -> (r: Diag)
        ensures
            r == Diag::at(DiagKind::UnknownType { name: *name }, range),
    {
        Diag::new(DiagKind::UnknownType { name: name.clone() }, range)
    }

    /// The message for the reader: see [`message_text`].
    pub fn message(&self, store: &TypeStore) -> (r: String)
        ensures
            r@ == message_text(store@, self.kind),
    {
        let mut out = String::new();
        match &self.kind {
            DiagKind::TypeMismatch { expected, found } => {
                out.append("expected `");
                expected.display_type(&mut out, store);
                out.append("`, found `");
                found.display_type(&mut out, store);
                out.append("`");
            },
            DiagKind::CannotDereference { actual } => {
                out.append("cannot dereference `");
                actual.display_type(&mut out, store);
                out.append("`");
            },
            DiagKind::BorrowConflict { value, requested_mut, existing_mut } => {
                out.append("cannot borrow `");
                out.append(value.as_str());
                out.append("` as ");
                out.append(borrow_name(*requested_mut));
                out.append(" because it is also borrowed as ");
                out.append(borrow_name(*existing_mut));
            },
            DiagKind::AssignToImmutable => out.append("cannot assign to an immutable value"),
            DiagKind::UnknownIdent { name } => {
                out.append("cannot find `");
                out.append(name.as_str());
                out.append("` in this scope");
            },
            DiagKind::ArityMismatch { expected, found } => {
                out.append("expected ");
                append_decimal(&mut out, *expected as u64);
                out.append(" arguments, found ");
                append_decimal(&mut out, *found as u64);
            },
            DiagKind::NotAFunction { actual } => {
                out.append("`");
                actual.display_type(&mut out, store);
                out.append("` is not a function");
            },
            DiagKind::ReturnOutsideFunction => out.append("cannot return outside of a function"),
            DiagKind::BreakOrSkipOutsideLoop => out.append(
                "cannot break or skip outside of a loop",
            ),
            DiagKind::MissingReturn { expected } => {
                out.append("missing return of `");
                expected.display_type(&mut out, store);
                out.append("`");
            },
            DiagKind::DuplicateFieldInit { name } => {
                out.append("field `");
                out.append(name.as_str());
                out.append("` is initialised twice");
            },
            DiagKind::MissingFieldInit { name } => {
                out.append("field `");
                out.append(name.as_str());
                out.append("` is not initialised");
            },
            DiagKind::UnknownType { name } => {
                out.append("cannot find type `");
                out.append(name.as_str());
                out.append("`");
            },
            DiagKind::InvalidOperator { op, operand_type } => {
                out.append("cannot ");
                out.append(Operator { kind: *op, range: self.range }.display());
                out.append(" `");
                operand_type.display_type(&mut out, store);
                out.append("`");
            },
            DiagKind::InvalidLiteral => out.append("invalid number literal"),
            DiagKind::NotAddressable => out.append("cannot borrow a value that has no place"),
            DiagKind::IceMissingType => out.append(
                "ice_missing_type: no type was recorded for this node",
            ),
            DiagKind::IceUnboundName { name } => {
                out.append("ice_unbound_name: `");
                out.append(name.as_str());
                out.append("` has no register");
            },
            DiagKind::IceOutOfRegisters => out.append(
                "ice_out_of_registers: no register or label is left",
            ),
            DiagKind::IceMisplaced => out.append("ice_misplaced: this node cannot be lowered here"),
            DiagKind::IceUnknownHandle { handle } => {
                out.append("ice_unknown_handle: the type store has no type ");
                append_decimal(&mut out, handle.0);
            },
        }
        assert(out@ =~= message_text(store@, self.kind));
        out
    }

    /// Whether the compilation must stop at once: see
    /// [`DiagKind::is_internal`].
    #[verifier::allow_in_spec]
    pub fn is_fatal(&self) -> bool
        returns
            self.kind.is_internal(),
    {
        self.kind.is_internal()
    }
}

} // verus!
