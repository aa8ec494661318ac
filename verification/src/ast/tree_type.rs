//! Type annotations as they are written in source text.

use vstd::prelude::*;
use crate::checker::types::Number;
use crate::range::Range;
use super::Ident;

verus! {

/// A type annotation.
#[derive(Debug, PartialEq)]
pub enum AstType {
    Void { range: Range },
    Bool { range: Range },
    Char { range: Range },
    Str { range: Range },
    String { range: Range },
    /// One of the primitive numeric types.
    Number { number: Number, range: Range },
    /// A type that the program defines, by its name.
    Ident(Ident),
    /// `&T` or `&mut T`; `range` is that of the `&`.
    Borrow { value: Box<AstType>, mutable: bool, range: Range },
    /// `fn(T, ..): R`; `range` covers all of it.
    Fn { params: Vec<AstType>, ret: Box<AstType>, range: Range },
}

impl AstType {
    pub open spec fn span(self) -> Range
        decreases self,
    {
        match self {
            AstType::Void { range } => range,
            AstType::Bool { range } => range,
            AstType::Char { range } => range,
            AstType::Str { range } => range,
            AstType::String { range } => range,
            AstType::Number { range, .. } => range,
            AstType::Ident(ident) => ident.range,
            AstType::Borrow { value, range, .. } => range.merge(value.span()),
            AstType::Fn { range, .. } => range,
        }
    }

    pub fn get_range(&self) -> (r: Range)
        ensures
            r == self.span(),
        decreases self,
    {
        match self {
            AstType::Void { range } => *range,
            AstType::Bool { range } => *range,
            AstType::Char { range } => *range,
            AstType::Str { range } => *range,
            AstType::String { range } => *range,
            AstType::Number { range, .. } => *range,
            AstType::Ident(ident) => ident.get_range(),
            AstType::Borrow { value, range, .. } => range.merged_with(&value.get_range()),
            AstType::Fn { range, .. } => *range,
        }
    }
}

} // verus!
