//! The syntax tree that the parser hands to the checker and the builder.

use vstd::prelude::*;
use crate::range::{ModId, Range};

pub mod operator;
pub mod tree_type;

pub use operator::{
    Operator, OperatorKind, ADD_PDE, CMP_PDE, MAX_PDE, MIN_PDE, MUL_PDE, UNA_PDE,
};
pub use tree_type::AstType;

verus! {

#[derive(Debug, PartialEq)]
pub struct Program {
    pub stmts: Vec<Stmt>,
}

// ------- statements -------
#[derive(Debug, PartialEq)]
pub enum Stmt {
    Let(LetStmt),
    Expr(Expr),
    Fn(FnStmt),
    ExternFn(ExternFnStmt),
    Ret(RetStmt),
    TypeDef(TypeDefStmt),
    ConstDel(ConstDelStmt),
    ConstFn(ConstFnStmt),
    Block(BlockStmt),
    If(IfStmt),
    While(WhileStmt),
    For(ForStmt),
    Impl(ImplStmt),
}

impl Stmt {
    #[verifier::allow_in_spec]
    pub fn is_block(&self) -> bool
        returns
            (*self is Block),
    {
        match self {
            Stmt::Block(_) => true,
            _ => false,
        }
    }

    /// The span of the whole statement.
    pub open spec fn span(self) -> Range
        decreases self,
    {
        match self {
            Stmt::Let(let_stmt) => let_stmt.span(),
            Stmt::Fn(fn_stmt) => fn_stmt.span(),
            Stmt::Block(block_stmt) => block_stmt.range,
            Stmt::Expr(expr) => expr.span(),
            Stmt::ConstDel(const_del) => const_del.span(),
            Stmt::ConstFn(const_fn) => const_fn.span(),
            Stmt::Ret(ret_stmt) => ret_stmt.span(),
            Stmt::If(if_stmt) => if_stmt.span(),
            Stmt::ExternFn(extern_fn) => extern_fn.range,
            Stmt::While(while_stmt) => while_stmt.range,
            Stmt::For(for_stmt) => for_stmt.range,
            Stmt::TypeDef(type_def) => type_def.range,
            Stmt::Impl(impl_stmt) => impl_stmt.range,
        }
    }

    pub fn get_range(&self) -> (r: Range)
        ensures
            r == self.span(),
        decreases self,
    {
        match self {
            Stmt::Let(let_stmt) => let_stmt.get_range(),
            Stmt::Fn(fn_stmt) => fn_stmt.get_range(),
            Stmt::Block(block_stmt) => block_stmt.get_range(),
            Stmt::Expr(expr) => expr.get_range(),
            Stmt::ConstDel(const_del) => const_del.get_range(),
            Stmt::ConstFn(const_fn) => const_fn.get_range(),
            Stmt::Ret(ret_stmt) => ret_stmt.get_range(),
            Stmt::If(if_stmt) => if_stmt.get_range(),
            Stmt::ExternFn(extern_fn) => extern_fn.get_range(),
            Stmt::While(while_stmt) => while_stmt.get_range(),
            Stmt::For(for_stmt) => for_stmt.get_range(),
            Stmt::TypeDef(type_def) => type_def.get_range(),
            Stmt::Impl(impl_stmt) => impl_stmt.get_range(),
        }
    }

    /// The statement is a `ret`, or a block whose last statement ends so.
    pub open spec fn ends_ret(self) -> bool
        decreases self,
    {
        match self {
            Stmt::Ret(_) => true,
            Stmt::Block(block_stmt) => block_stmt.ends_ret(),
            _ => false,
        }
    }

    pub fn ends_with_ret(&self) -> (r: bool)
        ensures
            r == self.ends_ret(),
        decreases self,
    {
        match self {
            Stmt::Ret(_) => true,
            Stmt::Block(block_stmt) => block_stmt.ends_with_ret(),
            _ => false,
        }
    }

    /// The span of the statement that comes last: of a block its last
    /// statement, of any other statement itself.
    pub open spec fn last_span(self) -> Range {
        match self {
            Stmt::Block(block_stmt) => block_stmt.last_span(),
            _ => self.span(),
        }
    }

    pub fn last_stmt_range(&self) -> (r: Range)
        ensures
            r == self.last_span(),
    {
        match self {
            Stmt::Block(block_stmt) => block_stmt.last_stmt_range(),
            _ => self.get_range(),
        }
    }
}

/// `ret <expr>`; `range` is that of the keyword.
#[derive(Debug, PartialEq)]
pub struct RetStmt {
    pub expr: Option<Box<Expr>>,
    pub range: Range,
}

impl RetStmt {
    pub open spec fn span(self) -> Range
        decreases self,
    {
        match self.expr {
            Some(expr) => self.range.merge(expr.span()),
            None => self.range,
        }
    }

    pub fn get_range(&self) -> (r: Range)
        ensures
            r == self.span(),
        decreases self,
    {
        match &self.expr {
            Some(expr) => self.range.merged_with(&expr.get_range()),
            None => self.range,
        }
    }
}

/// `if <cond> <then> else <otherwise>` as a statement; `range` is that of
/// the keyword.
#[derive(Debug, PartialEq)]
pub struct IfStmt {
    pub cond: Box<Expr>,
    pub then: Box<Stmt>,
    pub otherwise: Option<Box<Stmt>>,
    pub range: Range,
}

impl IfStmt {
    pub open spec fn span(self) -> Range
        decreases self,
    {
        let IfStmt { then: then_arm, otherwise, range, .. } = self;
        match otherwise {
            Some(otherwise) => range.merge(otherwise.span()),
            None => range.merge(then_arm.span()),
        }
    }

    pub fn get_range(&self) -> (r: Range)
        ensures
            r == self.span(),
        decreases self,
    {
        let IfStmt { then: then_arm, otherwise, range, .. } = self;
        match otherwise {
            Some(otherwise) => range.merged_with(&otherwise.get_range()),
            None => range.merged_with(&then_arm.get_range()),
        }
    }
}

/// `const fn <name>(<params>): <type> = <body>`
#[derive(Debug, PartialEq)]
pub struct ConstFnStmt {
    pub name: Ident,
    pub params: Vec<Binding>,
    pub ret_type: Option<AstType>,
    pub body: FnBody,
    /// The span of `const`.
    pub range: Range,
    /// The span of `fn`.
    pub fn_range: Range,
    pub is_pub: bool,
}

impl ConstFnStmt {
    pub fn lexeme(&self) -> (r: &str)
        ensures
            r@ == self.name.text@,
    {
        self.name.text.as_str()
    }

    pub open spec fn span(self) -> Range
        decreases self,
    {
        self.range.merge(self.body.span())
    }

    pub fn get_range(&self) -> (r: Range)
        ensures
            r == self.span(),
        decreases self,
    {
        self.range.merged_with(&self.body.get_range())
    }

    pub fn has_pub(&mut self)
        ensures
            final(self).is_pub,
            final(self).name == old(self).name,
            final(self).params == old(self).params,
            final(self).ret_type == old(self).ret_type,
            final(self).body == old(self).body,
            final(self).range == old(self).range,
            final(self).fn_range == old(self).fn_range,
    {
        self.is_pub = true;
    }

    #[verifier::allow_in_spec]
    pub fn is_pub(&self) -> bool
        returns
            self.is_pub,
    {
        self.is_pub
    }
}

/// `impl <name> = { <fn>.. }`; `range` covers all of it.
#[derive(Debug, PartialEq)]
pub struct ImplStmt {
    pub self_name: Ident,
    pub items: Vec<FnStmt>,
    pub range: Range,
}

impl ImplStmt {
    #[verifier::allow_in_spec]
    pub fn get_range(&self) -> Range
        returns
            self.range,
    {
        self.range
    }
}

/// `type <name> = { <fields> }` or `type <name> = <type>`
#[derive(Debug, PartialEq)]
pub struct TypeDefStmt {
    pub name: Ident,
    pub range: Range,
    pub kind: TypeDefKind,
    pub is_pub: bool,
}

impl TypeDefStmt {
    #[verifier::allow_in_spec]
    pub fn get_range(&self) -> Range
        returns
            self.range,
    {
        self.range
    }

    pub fn set_is_pub(&mut self, is_pub: bool)
        ensures
            final(self).is_pub == is_pub,
            final(self).name == old(self).name,
            final(self).range == old(self).range,
            final(self).kind == old(self).kind,
    {
        self.is_pub = is_pub;
    }

    #[verifier::allow_in_spec]
    pub fn is_pub(&self) -> bool
        returns
            self.is_pub,
    {
        self.is_pub
    }

    pub fn lexeme(&self) -> (r: &str)
        ensures
            r@ == self.name.text@,
    {
        self.name.text.as_str()
    }

    /// The fields, where the definition is that of a struct, to change
    /// them in place.
    pub fn get_struct_def(&mut self) -> (r: Option<&mut StructType>)
        ensures
            final(self).name == old(self).name,
            final(self).range == old(self).range,
            final(self).is_pub == old(self).is_pub,
            match r {
                Some(def) => old(self).kind == TypeDefKind::Struct(*def) && final(self).kind
                    == TypeDefKind::Struct(*final(def)),
                None => old(self).kind is Alias && final(self).kind == old(self).kind,
            },
    {
        match &mut self.kind {
            TypeDefKind::Struct(struct_def) => Some(struct_def),
            _ => None,
        }
    }

    /// The aliased type, where the definition is an alias.
    pub fn get_alias(&self) -> (r: Option<&AstType>)
        ensures
            match r {
                Some(target) => self.kind == TypeDefKind::Alias(*target),
                None => self.kind is Struct,
            },
    {
        match &self.kind {
            TypeDefKind::Alias(alias) => Some(alias),
            _ => None,
        }
    }
}

#[derive(Debug, PartialEq)]
pub enum TypeDefKind {
    Struct(StructType),
    Alias(AstType),
}

#[derive(Debug, PartialEq)]
pub struct StructType {
    pub fields: Vec<FieldType>,
    pub range: Range,
}

#[derive(Debug, PartialEq)]
pub struct FieldType {
    pub ident: Ident,
    pub ast_type: AstType,
    pub is_pub: bool,
}

impl FieldType {
    pub fn new(ident: Ident, ast_type: AstType, is_pub: bool) -> (r: FieldType)
        ensures
            r == (FieldType { ident, ast_type, is_pub }),
    {
        FieldType { ident, ast_type, is_pub }
    }

    #[verifier::allow_in_spec]
    pub fn get_range(&self) -> Range
        returns
            self.ident.range,
    {
        self.ident.get_range()
    }

    pub fn lexeme(&self) -> (r: &str)
        ensures
            r@ == self.ident.text@,
    {
        self.ident.text.as_str()
    }
}

/// `const <name> = <expr>`; `range` is that of the keyword.
#[derive(Debug, PartialEq)]
pub struct ConstDelStmt {
    pub name: Binding,
    pub expr: Expr,
    pub range: Range,
    pub is_pub: bool,
}

impl ConstDelStmt {
    pub fn lexeme(&self) -> (r: &str)
        ensures
            r@ == self.name.ident.text@,
    {
        self.name.ident.text.as_str()
    }

    pub fn has_pub(&mut self)
        ensures
            final(self).is_pub,
            final(self).name == old(self).name,
            final(self).expr == old(self).expr,
            final(self).range == old(self).range,
    {
        self.is_pub = true;
    }

    pub open spec fn span(self) -> Range
        decreases self,
    {
        self.range.merge(self.name.span().merge(self.expr.span()))
    }

    pub fn get_range(&self) -> (r: Range)
        ensures
            r == self.span(),
        decreases self,
    {
        self.range.merged_with(&self.name.get_range().merged_with(&self.expr.get_range()))
    }
}

/// `let [mut] <name>[: <type>] = <expr>`; `range` is that of the keyword,
/// `mutable` that of `mut` where it is written.
#[derive(Debug, PartialEq)]
pub struct LetStmt {
    pub bind: Binding,
    pub expr: Expr,
    pub mutable: Option<Range>,
    pub range: Range,
}

impl LetStmt {
    pub fn lexeme(&self) -> (r: &str)
        ensures
            r@ == self.bind.ident.text@,
    {
        self.bind.ident.text.as_str()
    }

    #[verifier::allow_in_spec]
    pub fn is_mut(&self) -> bool
        returns
            (self.mutable is Some),
    {
        self.mutable.is_some()
    }

    pub open spec fn span(self) -> Range
        decreases self,
    {
        self.range.merge(self.bind.span().merge(self.expr.span()))
    }

    pub fn get_range(&self) -> (r: Range)
        ensures
            r == self.span(),
        decreases self,
    {
        self.range.merged_with(&self.bind.get_range().merged_with(&self.expr.get_range()))
    }
}

#[derive(Debug, PartialEq)]
pub enum FnBody {
    Block(BlockStmt),
    Expr(Expr),
}

impl FnBody {
    pub open spec fn span(self) -> Range
        decreases self,
    {
        match self {
            FnBody::Block(block) => block.range,
            FnBody::Expr(expr) => expr.span(),
        }
    }

    pub fn get_range(&self) -> (r: Range)
        ensures
            r == self.span(),
        decreases self,
    {
        match self {
            FnBody::Block(block) => block.get_range(),
            FnBody::Expr(expr) => expr.get_range(),
        }
    }
}

// ------- loops -------
/// `while <test> <body>`; `range` covers all of it.
#[derive(Debug, PartialEq)]
pub struct WhileStmt {
    pub test: Box<Expr>,
    pub body: Box<Stmt>,
    pub range: Range,
}

impl WhileStmt {
    #[verifier::allow_in_spec]
    pub fn get_range(&self) -> Range
        returns
            self.range,
    {
        self.range
    }
}

/// `for <value>[, <index>] in <iterable> <body>`; `range` covers all of it.
#[derive(Debug, PartialEq)]
pub struct ForStmt {
    pub value: Ident,
    pub index: Option<Ident>,
    pub iterable: Box<Expr>,
    pub body: Box<Stmt>,
    pub range: Range,
}

impl ForStmt {
    #[verifier::allow_in_spec]
    pub fn get_range(&self) -> Range
        returns
            self.range,
    {
        self.range
    }
}

/// `extern fn <name>(<params>): <type>`; `range` covers all of it.
#[derive(Debug, PartialEq)]
pub struct ExternFnStmt {
    pub name: Ident,
    pub params: Vec<Binding>,
    pub ret_type: Option<AstType>,
    pub extern_range: Range,
    pub range: Range,
    pub fn_range: Range,
    pub var_packed: Option<Range>,
    pub is_pub: bool,
}

impl ExternFnStmt {
    #[verifier::allow_in_spec]
    pub fn get_range(&self) -> Range
        returns
            self.range,
    {
        self.range
    }

    pub fn set_is_pub(&mut self, is_pub: bool)
        ensures
            final(self).is_pub == is_pub,
            final(self).name == old(self).name,
            final(self).params == old(self).params,
            final(self).ret_type == old(self).ret_type,
            final(self).extern_range == old(self).extern_range,
            final(self).range == old(self).range,
            final(self).fn_range == old(self).fn_range,
            final(self).var_packed == old(self).var_packed,
    {
        self.is_pub = is_pub;
    }

    #[verifier::allow_in_spec]
    pub fn is_pub(&self) -> bool
        returns
            self.is_pub,
    {
        self.is_pub
    }
}

#[derive(Debug, PartialEq)]
pub struct Generic {
    pub ident: Ident,
    pub bound: Option<AstType>,
}

impl Generic {
    #[verifier::allow_in_spec]
    pub fn get_range(&self) -> Range
        returns
            self.ident.range,
    {
        self.ident.get_range()
    }

    pub fn lexeme(&self) -> (r: String)
        ensures
            r@ == self.ident.text@,
    {
        self.ident.text.clone()
    }
}

/// `fn <name>(<params>): <type> = <body>`; `range` is that of the keyword.
#[derive(Debug, PartialEq)]
pub struct FnStmt {
    pub name: Ident,
    pub params: Vec<Binding>,
    pub is_pub: bool,
    pub ret_type: Option<AstType>,
    pub body: FnBody,
    pub range: Range,
    pub generics: Vec<Generic>,
}

impl FnStmt {
    pub fn lexeme(&self) -> (r: &str)
        ensures
            r@ == self.name.text@,
    {
        self.name.text.as_str()
    }

    pub fn set_is_pub(&mut self, is_pub: bool)
        ensures
            final(self).is_pub == is_pub,
            final(self).name == old(self).name,
            final(self).params == old(self).params,
            final(self).ret_type == old(self).ret_type,
            final(self).body == old(self).body,
            final(self).range == old(self).range,
            final(self).generics == old(self).generics,
    {
        self.is_pub = is_pub;
    }

    #[verifier::allow_in_spec]
    pub fn is_pub(&self) -> bool
        returns
            self.is_pub,
    {
        self.is_pub
    }

    pub open spec fn span(self) -> Range
        decreases self,
    {
        self.range.merge(self.body.span())
    }

    pub fn get_range(&self) -> (r: Range)
        ensures
            r == self.span(),
        decreases self,
    {
        self.range.merged_with(&self.body.get_range())
    }

    pub fn is_generic(&self) -> (r: bool)
        ensures
            r == (self.generics@.len() > 0),
    {
        self.generics.len() > 0
    }
}

#[derive(Debug, PartialEq)]
pub struct BlockStmt {
    pub stmts: Vec<Stmt>,
    pub range: Range,
}

impl BlockStmt {
    pub fn new(stmts: Vec<Stmt>, range: Range) -> (r: BlockStmt)
        ensures
            r == (BlockStmt { stmts, range }),
    {
        BlockStmt { stmts, range }
    }

    #[verifier::allow_in_spec]
    pub fn get_range(&self) -> Range
        returns
            self.range,
    {
        self.range
    }

    pub open spec fn ends_ret(self) -> bool
        decreases self,
    {
        if self.stmts@.len() == 0 {
            false
        } else {
            self.stmts@[self.stmts@.len() - 1].ends_ret()
        }
    }

    pub fn ends_with_ret(&self) -> (r: bool)
        ensures
            r == self.ends_ret(),
        decreases self,
    {
        let n = self.stmts.len();
        if n == 0 {
            false
        } else {
            self.stmts[n - 1].ends_with_ret()
        }
    }

    /// The span of the last statement, or of the block where it is empty.
    pub open spec fn last_span(self) -> Range {
        if self.stmts@.len() == 0 {
            self.range
        } else {
            self.stmts@[self.stmts@.len() - 1].span()
        }
    }

    pub fn last_stmt_range(&self) -> (r: Range)
        ensures
            r == self.last_span(),
    {
        let n = self.stmts.len();
        if n == 0 {
            self.range
        } else {
            self.stmts[n - 1].get_range()
        }
    }
}

/// A name in source text. Two identifiers are the same if their texts are.
#[derive(Debug, Clone, PartialEq)]
pub struct Ident {
    pub range: Range,
    pub text: String,
}

impl Ident {
    pub fn new(text: String, range: Range) -> (r: Ident)
        ensures
            r == (Ident { range, text }),
    {
        Ident { range, text }
    }

    pub fn lexeme(&self) -> (r: &str)
        ensures
            r@ == self.text@,
    {
        self.text.as_str()
    }

    #[verifier::allow_in_spec]
    pub fn get_range(&self) -> Range
        returns
            self.range,
    {
        self.range
    }

    /// Whether the two identifiers have the same text.
    pub fn same_name(&self, other: &Ident) -> (r: bool)
        ensures
            r == (self.text@ == other.text@),
    {
        self.text == other.text
    }
}

/// A name with the type written after it, where one is written.
#[derive(Debug, PartialEq)]
pub struct Binding {
    pub ident: Ident,
    pub ty: Option<AstType>,
}

impl Binding {
    pub fn lexeme(&self) -> (r: &str)
        ensures
            r@ == self.ident.text@,
    {
        self.ident.text.as_str()
    }

    pub open spec fn span(self) -> Range {
        match self.ty {
            Some(ty) => self.ident.range.merge(ty.span()),
            None => self.ident.range,
        }
    }

    pub fn get_range(&self) -> (r: Range)
        ensures
            r == self.span(),
    {
        if let Some(ty) = &self.ty {
            self.ident.get_range().merged_with(&ty.get_range())
        } else {
            self.ident.get_range()
        }
    }
}

// ------- expressions -------
#[derive(Debug, PartialEq)]
pub enum Expr {
    Group(GroupExpr),
    Fn(FnExpr),
    If(IfExpr),
    Assign(AssignExpr),
    Associate(AssociateExpr),
    Member(MemberExpr),
    Binary(BinaryExpr),
    Break(BaseExpr),
    Skip(BaseExpr),
    Pipe(PipeExpr),
    Unary(UnaryExpr),
    Call(CallExpr),
    Import(ImportExpr),
    Ident(Ident),
    Literal(Literal),
    Borrow(BorrowExpr),
    Deref(DerefExpr),
    StructInit(StructInitExpr),
}

impl Expr {
    /// The span of the whole expression.
    pub open spec fn span(self) -> Range
        decreases self,
    {
        match self {
            Expr::Fn(fn_expr) => fn_expr.span(),
            Expr::Group(group) => group.range,
            Expr::Binary(binary) => binary.span(),
            Expr::Pipe(pipe) => pipe.span(),
            Expr::Unary(unary) => unary.span(),
            Expr::Call(call) => call.span(),
            Expr::If(if_expr) => if_expr.span(),
            Expr::Ident(ident) => ident.range,
            Expr::Assign(assign) => assign.span(),
            Expr::Literal(literal) => literal.span(),
            Expr::Import(import) => import.range,
            Expr::Break(base) => base.range,
            Expr::Skip(base) => base.range,
            Expr::Borrow(borrow) => borrow.span(),
            Expr::Deref(deref) => deref.span(),
            Expr::Associate(associate) => associate.range,
            Expr::Member(member) => member.span(),
            Expr::StructInit(struct_init) => struct_init.range,
        }
    }

    pub fn get_range(&self) -> (r: Range)
        ensures
            r == self.span(),
        decreases self,
    {
        match self {
            Expr::Fn(fn_expr) => fn_expr.get_range(),
            Expr::Group(group) => group.get_range(),
            Expr::Binary(binary) => binary.get_range(),
            Expr::Pipe(pipe) => pipe.get_range(),
            Expr::Unary(unary) => unary.get_range(),
            Expr::Call(call) => call.get_range(),
            Expr::If(if_expr) => if_expr.get_range(),
            Expr::Ident(ident) => ident.get_range(),
            Expr::Assign(assign) => assign.get_range(),
            Expr::Literal(literal) => literal.get_range(),
            Expr::Import(import) => import.get_range(),
            Expr::Break(base) => base.get_range(),
            Expr::Skip(base) => base.get_range(),
            Expr::Borrow(borrow) => borrow.get_range(),
            Expr::Deref(deref) => deref.get_range(),
            Expr::Associate(associate) => associate.get_range(),
            Expr::Member(member) => member.get_range(),
            Expr::StructInit(struct_init) => struct_init.get_range(),
        }
    }
}

/// `<name> { <field>: <value>, .. }`; `range` covers all of it.
#[derive(Debug, PartialEq)]
pub struct StructInitExpr {
    pub name: Ident,
    pub fields: Vec<FiledExpr>,
    pub range: Range,
}

/// One `<field>: <value>` of a struct literal.
#[derive(Debug, PartialEq)]
pub struct FiledExpr {
    pub name: Ident,
    pub value: Expr,
    pub range: Range,
}

impl StructInitExpr {
    #[verifier::allow_in_spec]
    pub fn get_range(&self) -> Range
        returns
            self.range,
    {
        self.range
    }
}

#[derive(Debug, PartialEq)]
pub struct TupleExpr {
    pub values: Vec<Expr>,
    pub range: Range,
}

impl TupleExpr {
    #[verifier::allow_in_spec]
    pub fn get_range(&self) -> Range
        returns
            self.range,
    {
        self.range
    }
}

/// `fn (<params>): <type> <body>` as a value; `range` is that of the keyword.
#[derive(Debug, PartialEq)]
pub struct FnExpr {
    pub params: Vec<Binding>,
    pub ret_type: Option<AstType>,
    pub body: Box<Stmt>,
    pub range: Range,
}

impl FnExpr {
    pub open spec fn span(self) -> Range
        decreases self,
    {
        self.range.merge(self.body.span())
    }

    pub fn get_range(&self) -> (r: Range)
        ensures
            r == self.span(),
        decreases self,
    {
        self.range.merged_with(&self.body.get_range())
    }
}

/// `if <cond> <then> else <otherwise>` as a value; `range` is that of the
/// keyword.
#[derive(Debug, PartialEq)]
pub struct IfExpr {
    pub cond: Box<Expr>,
    pub then: Box<Expr>,
    pub otherwise: Box<Expr>,
    pub range: Range,
}

impl IfExpr {
    pub fn new(cond: Box<Expr>, then: Box<Expr>, otherwise: Box<Expr>, range: Range) -> (r:
        IfExpr)
        ensures
            r == (IfExpr { cond, then, otherwise, range }),
    {
        IfExpr { cond, then, otherwise, range }
    }

    pub open spec fn span(self) -> Range
        decreases self,
    {
        self.range.merge(self.otherwise.span())
    }

    pub fn get_range(&self) -> (r: Range)
        ensures
            r == self.span(),
        decreases self,
    {
        self.range.merged_with(&self.otherwise.get_range())
    }
}

/// `<left> = <right>`; `range` is that of the `=`.
#[derive(Debug, PartialEq)]
pub struct AssignExpr {
    pub left: Box<Expr>,
    pub right: Box<Expr>,
    pub range: Range,
}

impl AssignExpr {
    pub open spec fn span(self) -> Range
        decreases self,
    {
        self.range.merge(self.left.span()).merge(self.right.span())
    }

    pub fn get_range(&self) -> (r: Range)
        ensures
            r == self.span(),
        decreases self,
    {
        self.range.merged_with(&self.left.get_range()).merged_with(&self.right.get_range())
    }
}

/// `<self_name>::<method>`; `range` covers all of it.
#[derive(Debug, PartialEq)]
pub struct AssociateExpr {
    pub self_name: Ident,
    pub method: Ident,
    pub range: Range,
}

impl AssociateExpr {
    #[verifier::allow_in_spec]
    pub fn get_range(&self) -> Range
        returns
            self.range,
    {
        self.range
    }
}

/// `<left>.<method>`; `range` is that of the `.`.
#[derive(Debug, PartialEq)]
pub struct MemberExpr {
    pub left: Box<Expr>,
    pub method: Ident,
    pub range: Range,
}

impl MemberExpr {
    pub open spec fn span(self) -> Range
        decreases self,
    {
        self.left.span().merge(self.method.range)
    }

    pub fn get_range(&self) -> (r: Range)
        ensures
            r == self.span(),
        decreases self,
    {
        self.left.get_range().merged_with(&self.method.get_range())
    }
}

/// `( <expr> )`; `range` covers the brackets.
#[derive(Debug, PartialEq)]
pub struct GroupExpr {
    pub expr: Box<Expr>,
    pub range: Range,
}

impl GroupExpr {
    #[verifier::allow_in_spec]
    pub fn get_range(&self) -> Range
        returns
            self.range,
    {
        self.range
    }
}

/// `<left> |> <right>`; `range` is that of the `|>`.
#[derive(Debug, PartialEq)]
pub struct PipeExpr {
    pub left: Box<Expr>,
    pub right: Box<Expr>,
    pub range: Range,
}

impl PipeExpr {
    pub open spec fn span(self) -> Range
        decreases self,
    {
        self.left.span().merge(self.range).merge(self.right.span())
    }

    pub fn get_range(&self) -> (r: Range)
        ensures
            r == self.span(),
        decreases self,
    {
        self.left.get_range().merged_with(&self.range).merged_with(&self.right.get_range())
    }
}

#[derive(Debug, PartialEq)]
pub struct BinaryExpr {
    pub left: Box<Expr>,
    pub right: Box<Expr>,
    pub operator: Operator,
}

impl BinaryExpr {
    pub fn new(left: Box<Expr>, operator: Operator, right: Box<Expr>) -> (r: BinaryExpr)
        ensures
            r == (BinaryExpr { left, right, operator }),
    {
        BinaryExpr { left, operator, right }
    }

    pub open spec fn span(self) -> Range
        decreases self,
    {
        self.left.span().merge(self.operator.range).merge(self.right.span())
    }

    pub fn get_range(&self) -> (r: Range)
        ensures
            r == self.span(),
        decreases self,
    {
        self.left.get_range().merged_with(&self.operator.range).merged_with(
            &self.right.get_range(),
        )
    }
}

/// `<operator><operand>`; `range` is that of the operator.
#[derive(Debug, PartialEq)]
pub struct UnaryExpr {
    pub operand: Box<Expr>,
    pub operator: Operator,
    pub range: Range,
}

impl UnaryExpr {
    pub open spec fn span(self) -> Range
        decreases self,
    {
        self.range.merge(self.operand.span())
    }

    pub fn get_range(&self) -> (r: Range)
        ensures
            r == self.span(),
        decreases self,
    {
        self.range.merged_with(&self.operand.get_range())
    }
}

/// `<callee>(<args>)`; `range` is that of the bracketed arguments.
#[derive(Debug, PartialEq)]
pub struct CallExpr {
    pub callee: Box<Expr>,
    pub args: Vec<Expr>,
    pub range: Range,
    pub generics: Vec<AstType>,
}

impl CallExpr {
    pub fn new(callee: Expr, args: Vec<Expr>, range: Range, generics: Vec<AstType>) -> (r:
        CallExpr)
        ensures
            r == (CallExpr { callee: Box::new(callee), args, range, generics }),
    {
        CallExpr { callee: Box::new(callee), args, range, generics }
    }

    pub open spec fn span(self) -> Range
        decreases self,
    {
        self.callee.span().merge(self.range)
    }

    pub fn get_range(&self) -> (r: Range)
        ensures
            r == self.span(),
        decreases self,
    {
        self.callee.get_range().merged_with(&self.range)
    }
}

/// `&[mut] <expr>`; `range` is that of the `&`, `mutable` that of `mut`
/// where it is written.
#[derive(Debug, PartialEq)]
pub struct BorrowExpr {
    pub expr: Box<Expr>,
    pub range: Range,
    pub mutable: Option<Range>,
}

impl BorrowExpr {
    pub open spec fn span(self) -> Range
        decreases self,
    {
        self.range.merge(self.expr.span())
    }

    pub fn get_range(&self) -> (r: Range)
        ensures
            r == self.span(),
        decreases self,
    {
        self.range.merged_with(&self.expr.get_range())
    }

    #[verifier::allow_in_spec]
    pub fn is_mut(&self) -> bool
        returns
            (self.mutable is Some),
    {
        self.mutable.is_some()
    }
}

/// `*<expr>`; `range` is that of the `*`.
#[derive(Debug, PartialEq)]
pub struct DerefExpr {
    pub expr: Box<Expr>,
    pub range: Range,
}

impl DerefExpr {
    pub open spec fn span(self) -> Range
        decreases self,
    {
        self.range.merge(self.expr.span())
    }

    pub fn get_range(&self) -> (r: Range)
        ensures
            r == self.span(),
        decreases self,
    {
        self.range.merged_with(&self.expr.get_range())
    }
}

/// `import "<path>"`; `mod_id` is the module that the loader resolved the
/// path to, where it did.
#[derive(Debug, PartialEq)]
pub struct ImportExpr {
    pub path: StringLiteral,
    pub mod_id: Option<ModId>,
    pub range: Range,
}

/// The characters of `text` that are no double quote, in order.
pub open spec fn unquoted(text: Seq<char>) -> Seq<char> {
    text.filter(|c: char| c != '"')
}

/// `str::replace` with the double quote as pattern and the empty string in
/// its place: every double quote is left out, and nothing else is changed.
#[verifier::external_body]
fn strip_quotes(text: &str) -> (r: String)
    ensures
        r@ == unquoted(text@),
{
    text.replace("\"", "")
}

impl ImportExpr {
    #[verifier::allow_in_spec]
    pub fn get_range(&self) -> Range
        returns
            self.range,
    {
        self.range
    }

    /// The path as written, without its quotes.
    pub fn get_path(&self) -> (r: String)
        ensures
            r@ == unquoted(self.path.text@),
    {
        strip_quotes(self.path.text.as_str())
    }
}

#[derive(Debug, Clone, PartialEq)]
pub enum Literal {
    Number(NumberLiteral),
    String(StringLiteral),
    Char(CharLiteral),
    Bool(BoolLiteral),
    Null(BaseExpr),
}

impl Literal {
    pub open spec fn span(self) -> Range {
        match self {
            Literal::Number(num) => num.range,
            Literal::String(string) => string.range,
            Literal::Bool(boolean) => boolean.range,
            Literal::Null(null) => null.range,
            Literal::Char(character) => character.range,
        }
    }

    pub fn get_range(&self) -> (r: Range)
        ensures
            r == self.span(),
    {
        match self {
            Literal::Number(num) => num.get_range(),
            Literal::String(string) => string.get_range(),
            Literal::Bool(boolean) => boolean.get_range(),
            Literal::Null(null) => null.get_range(),
            Literal::Char(character) => character.get_range(),
        }
    }
}

/// A number as written: its digits, the base they are in (16, 10 or 2) and
/// whether a fractional dot is among them.
#[derive(Debug, Clone, PartialEq)]
pub struct NumberLiteral {
    pub range: Range,
    pub text: String,
    pub base: u8,
    pub as_dot: bool,
}

pub const BASE_DECIMAL: u8 = 10;

pub const BASE_HEX: u8 = 16;

pub const BASE_BIN: u8 = 2;

impl NumberLiteral {
    #[verifier::allow_in_spec]
    pub fn get_range(&self) -> Range
        returns
            self.range,
    {
        self.range
    }

    #[verifier::allow_in_spec]
    pub fn as_dot(&self) -> bool
        returns
            self.as_dot,
    {
        self.as_dot
    }

    #[verifier::allow_in_spec]
    pub fn as_hex(&self) -> bool
        returns
            (self.base == BASE_HEX),
    {
        self.base == BASE_HEX
    }

    #[verifier::allow_in_spec]
    pub fn as_bin(&self) -> bool
        returns
            (self.base == BASE_BIN),
    {
        self.base == BASE_BIN
    }

    #[verifier::allow_in_spec]
    pub fn as_decimal(&self) -> bool
        returns
            (self.base == BASE_DECIMAL),
    {
        self.base == BASE_DECIMAL
    }
}

#[derive(Debug, Clone, PartialEq)]
pub struct StringLiteral {
    pub range: Range,
    pub text: String,
}

impl StringLiteral {
    #[verifier::allow_in_spec]
    pub fn get_range(&self) -> Range
        returns
            self.range,
    {
        self.range
    }
}

#[derive(Debug, Clone, PartialEq)]
pub struct CharLiteral {
    pub range: Range,
    pub value: char,
}

impl CharLiteral {
    #[verifier::allow_in_spec]
    pub fn get_range(&self) -> Range
        returns
            self.range,
    {
        self.range
    }
}

#[derive(Debug, Clone, PartialEq)]
pub struct BoolLiteral {
    pub range: Range,
    pub value: bool,
}

impl BoolLiteral {
    #[verifier::allow_in_spec]
    pub fn get_range(&self) -> Range
        returns
            self.range,
    {
        self.range
    }
}

/// An expression that is a keyword and nothing else.
#[derive(Debug, Clone, PartialEq)]
pub struct BaseExpr {
    pub range: Range,
}

impl BaseExpr {
    #[verifier::allow_in_spec]
    pub fn get_range(&self) -> Range
        returns
            self.range,
    {
        self.range
    }
}

} // verus!
