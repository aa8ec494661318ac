//! Operators and their precedence.

use vstd::prelude::*;
use vstd::string::StringExecFns;
use crate::range::Range;

verus! {

#[derive(Debug, Clone, Copy, PartialEq, Eq, Structural, Hash)]
#[allow(clippy::upper_case_acronyms)]
pub enum OperatorKind {
    /// `+`
    ADD,
    /// `-`
    SUB,
    /// `*`
    MUL,
    /// `/`
    DIV,
    /// `%`
    MOD,
    /// `..`
    RANGE,
    /// `==`
    EQ,
    /// `!=`
    NOTEQ,
    /// `+=`
    ADDEQ,
    /// `-=`
    SUBEQ,
    /// `*=`
    MULEQ,
    /// `/=`
    DIVEQ,
    /// `%=`
    MODEQ,
    /// `<`
    LT,
    /// `>`
    GT,
    /// `&&`
    AND,
    /// `||`
    OR,
    /// `^`
    XOR,
    /// `|`
    BOR,
    /// `<<`
    SHL,
    /// `>>`
    SHR,
    /// `**`
    POW,
    /// `<=`
    LE,
    /// `>=`
    GE,
    /// `!`
    NOT,
    /// `|>`
    PIPE,
}

/// Lowest precedence: `|>`, `..` and whatever has no level of its own.
pub const MIN_PDE: u8 = 0;

/// Comparisons: `<`, `<=`, `>`, `>=`, `==`, `!=`.
pub const CMP_PDE: u8 = 1;

/// `+` and `-`.
pub const ADD_PDE: u8 = 2;

/// `*`, `/` and `%`.
pub const MUL_PDE: u8 = 3;

/// `**`.
pub const MAX_PDE: u8 = 4;

/// Prefix operators.
pub const UNA_PDE: u8 = 5;

/// The precedence level of each operator.
pub open spec fn precedence(kind: OperatorKind) -> u8 {
    match kind {
        OperatorKind::LT
        | OperatorKind::LE
        | OperatorKind::GT
        | OperatorKind::GE
        | OperatorKind::EQ
        | OperatorKind::NOTEQ => CMP_PDE,
        OperatorKind::ADD | OperatorKind::SUB => ADD_PDE,
        OperatorKind::MUL | OperatorKind::DIV | OperatorKind::MOD => MUL_PDE,
        OperatorKind::POW => MAX_PDE,
        OperatorKind::NOT => UNA_PDE,
        _ => MIN_PDE,
    }
}

/// What each operator does, in a word or two, for messages.
pub open spec fn action(kind: OperatorKind) -> Seq<char> {
    match kind {
        OperatorKind::ADD => "add"@,
        OperatorKind::SUB => "sub"@,
        OperatorKind::MUL => "mul"@,
        OperatorKind::DIV => "div"@,
        OperatorKind::MOD => "get mod"@,
        OperatorKind::RANGE => "concat"@,
        OperatorKind::EQ => "compare"@,
        OperatorKind::NOTEQ => "compare"@,
        OperatorKind::LT => "compare"@,
        OperatorKind::GT => "compare"@,
        OperatorKind::AND => "compare"@,
        OperatorKind::LE => "compare"@,
        OperatorKind::GE => "compare"@,
        OperatorKind::NOT => "negate"@,
        OperatorKind::ADDEQ => "add assign"@,
        OperatorKind::SUBEQ => "sub assign"@,
        OperatorKind::MULEQ => "mul assign"@,
        OperatorKind::DIVEQ => "div assign"@,
        OperatorKind::MODEQ => "mod assign"@,
        OperatorKind::OR => "or"@,
        OperatorKind::XOR => "xor"@,
        OperatorKind::BOR => "bor"@,
        OperatorKind::SHL => "shl"@,
        OperatorKind::SHR => "shr"@,
        OperatorKind::POW => "pow"@,
        OperatorKind::PIPE => "pipe"@,
    }
}

/// How each operator is written in source text.
pub open spec fn symbol(kind: OperatorKind) -> Seq<char> {
    match kind {
        OperatorKind::ADD => "+"@,
        OperatorKind::SUB => "-"@,
        OperatorKind::MUL => "*"@,
        OperatorKind::DIV => "/"@,
        OperatorKind::MOD => "%"@,
        OperatorKind::RANGE => ".."@,
        OperatorKind::EQ => "=="@,
        OperatorKind::NOTEQ => "!="@,
        OperatorKind::ADDEQ => "+="@,
        OperatorKind::SUBEQ => "-="@,
        OperatorKind::MULEQ => "*="@,
        OperatorKind::DIVEQ => "/="@,
        OperatorKind::MODEQ => "%="@,
        OperatorKind::LT => "<"@,
        OperatorKind::GT => ">"@,
        OperatorKind::AND => "&&"@,
        OperatorKind::OR => "||"@,
        OperatorKind::XOR => "^"@,
        OperatorKind::BOR => "|"@,
        OperatorKind::SHL => "<<"@,
        OperatorKind::SHR => ">>"@,
        OperatorKind::POW => "**"@,
        OperatorKind::LE => "<="@,
        OperatorKind::GE => ">="@,
        OperatorKind::NOT => "!"@,
        OperatorKind::PIPE => "|>"@,
    }
}

impl OperatorKind {
    /// `+ - * / % **`
    #[verifier::allow_in_spec]
    pub fn is_arithmetic(&self) -> bool
        returns
            (*self is ADD || *self is SUB || *self is MUL || *self is DIV || *self is MOD
                || *self is POW),
    {
        match self {
            OperatorKind::ADD
            | OperatorKind::SUB
            | OperatorKind::MUL
            | OperatorKind::DIV
            | OperatorKind::MOD
            | OperatorKind::POW => true,
            _ => false,
        }
    }

    /// `== != < > <= >=`
    #[verifier::allow_in_spec]
    pub fn is_comparison(&self) -> bool
        returns
            (*self is EQ || *self is NOTEQ || *self is LT || *self is GT || *self is LE
                || *self is GE),
    {
        match self {
            OperatorKind::EQ
            | OperatorKind::NOTEQ
            | OperatorKind::LT
            | OperatorKind::GT
            | OperatorKind::LE
            | OperatorKind::GE => true,
            _ => false,
        }
    }

    /// `&& ||`
    #[verifier::allow_in_spec]
    pub fn is_logical(&self) -> bool
        returns
            (*self is AND || *self is OR),
    {
        match self {
            OperatorKind::AND | OperatorKind::OR => true,
            _ => false,
        }
    }

    /// `^ | << >>`
    #[verifier::allow_in_spec]
    pub fn is_bitwise(&self) -> bool
        returns
            (*self is XOR || *self is BOR || *self is SHL || *self is SHR),
    {
        match self {
            OperatorKind::XOR | OperatorKind::BOR | OperatorKind::SHL | OperatorKind::SHR => true,
            _ => false,
        }
    }

    /// `+= -= *= /= %=`
    #[verifier::allow_in_spec]
    pub fn is_compound_assign(&self) -> bool
        returns
            (*self is ADDEQ || *self is SUBEQ || *self is MULEQ || *self is DIVEQ
                || *self is MODEQ),
    {
        match self {
            OperatorKind::ADDEQ
            | OperatorKind::SUBEQ
            | OperatorKind::MULEQ
            | OperatorKind::DIVEQ
            | OperatorKind::MODEQ => true,
            _ => false,
        }
    }
}

#[derive(Debug, Clone, Copy, PartialEq, Eq, Structural)]
pub struct Operator {
    pub kind: OperatorKind,
    pub range: Range,
}

impl Operator {
    /// The precedence level of this operator.
    pub fn pde(&self) -> (r: u8)
        ensures
            r == precedence(self.kind),
            r <= UNA_PDE,
    {
        match self.kind {
            OperatorKind::LT
            | OperatorKind::LE
            | OperatorKind::GT
            | OperatorKind::GE
            | OperatorKind::EQ
            | OperatorKind::NOTEQ => CMP_PDE,
            OperatorKind::ADD | OperatorKind::SUB => ADD_PDE,
            OperatorKind::MUL | OperatorKind::DIV | OperatorKind::MOD => MUL_PDE,
            OperatorKind::POW => MAX_PDE,
            OperatorKind::NOT => UNA_PDE,
            _ => MIN_PDE,
        }
    }

    /// The level at which the right operand of this operator is read: one
    /// above its own, but never above [`MAX_PDE`].
    pub fn next_pde(&self) -> (r: u8)
        ensures
            r == if precedence(self.kind) >= MAX_PDE {
                MAX_PDE as int
            } else {
                precedence(self.kind) + 1
            },
    {
        if self.pde() >= MAX_PDE {
            return MAX_PDE;
        }
        self.pde() + 1
    }

    /// Only `**` groups to the right.
    #[verifier::allow_in_spec]
    pub fn is_right_associative(&self) -> bool
        returns
            (self.kind is POW),
    {
        match self.kind {
            OperatorKind::POW => true,
            _ => false,
        }
    }

    #[verifier::allow_in_spec]
    pub fn get_range(&self) -> Range
        returns
            self.range,
    {
        self.range
    }

    pub fn display(&self) -> (r: &'static str)
        ensures
            r@ == action(self.kind),
    {
        match self.kind {
            OperatorKind::ADD => "add",
            OperatorKind::SUB => "sub",
            OperatorKind::MUL => "mul",
            OperatorKind::DIV => "div",
            OperatorKind::MOD => "get mod",
            OperatorKind::RANGE => "concat",
            OperatorKind::EQ => "compare",
            OperatorKind::NOTEQ => "compare",
            OperatorKind::LT => "compare",
            OperatorKind::GT => "compare",
            OperatorKind::AND => "compare",
            OperatorKind::LE => "compare",
            OperatorKind::GE => "compare",
            OperatorKind::NOT => "negate",
            OperatorKind::ADDEQ => "add assign",
            OperatorKind::SUBEQ => "sub assign",
            OperatorKind::MULEQ => "mul assign",
            OperatorKind::DIVEQ => "div assign",
            OperatorKind::MODEQ => "mod assign",
            OperatorKind::OR => "or",
            OperatorKind::XOR => "xor",
            OperatorKind::BOR => "bor",
            OperatorKind::SHL => "shl",
            OperatorKind::SHR => "shr",
            OperatorKind::POW => "pow",
            OperatorKind::PIPE => "pipe",
        }
    }

    /// The operator as it is written in source text.
    pub fn as_str(&self) -> (r: &'static str)
        ensures
            r@ == symbol(self.kind),
    {
        match self.kind {
            OperatorKind::ADD => "+",
            OperatorKind::SUB => "-",
            OperatorKind::MUL => "*",
            OperatorKind::DIV => "/",
            OperatorKind::MOD => "%",
            OperatorKind::RANGE => "..",
            OperatorKind::EQ => "==",
            OperatorKind::NOTEQ => "!=",
            OperatorKind::ADDEQ => "+=",
            OperatorKind::SUBEQ => "-=",
            OperatorKind::MULEQ => "*=",
            OperatorKind::DIVEQ => "/=",
            OperatorKind::MODEQ => "%=",
            OperatorKind::LT => "<",
            OperatorKind::GT => ">",
            OperatorKind::AND => "&&",
            OperatorKind::OR => "||",
            OperatorKind::XOR => "^",
            OperatorKind::BOR => "|",
            OperatorKind::SHL => "<<",
            OperatorKind::SHR => ">>",
            OperatorKind::POW => "**",
            OperatorKind::LE => "<=",
            OperatorKind::GE => ">=",
            OperatorKind::NOT => "!",
            OperatorKind::PIPE => "|>",
        }
    }

    /// The operator as it is written in source text, as an owned string.
    pub fn to_string(&self) -> (r: String)
        ensures
            r@ == symbol(self.kind),
    {
        String::from_str(self.as_str())
    }
}

/// Every operator has one of the six precedence levels, and the levels
/// stand in the order MIN < CMP < ADD < MUL < MAX < UNA.
pub proof fn lemma_precedence_levels(kind: OperatorKind)
    ensures
        MIN_PDE <= precedence(kind) <= UNA_PDE,
        MIN_PDE < CMP_PDE < ADD_PDE < MUL_PDE < MAX_PDE < UNA_PDE,
        kind.is_comparison() ==> precedence(kind) == CMP_PDE,
        kind.is_arithmetic() ==> ADD_PDE <= precedence(kind) <= MAX_PDE,
{
}

} // verus!
