use vstd::prelude::*;

verus! {

// The syntax of a kernel function as the NVVM IR generator reads it.
// Paths, literals and types are kept as the token text that the Rust
// tokenizer prints for them (for instance `a`, `1`, `& i32`).

/// A binary operator; `Other` stands for every operator without an IR form.
#[derive(Clone, Copy, Debug, PartialEq, Eq, Structural)]
pub enum BinOp {
    Add,
    Sub,
    Mul,
    Div,
    Eq,
    Ne,
    Lt,
    Le,
    Gt,
    Ge,
    Other,
}

/// The pattern bound by a `let`: a plain identifier (its name, without
/// `mut` or `ref`), or any other pattern (typed, tuple, wildcard, ...).
#[derive(Debug)]
pub enum Pat {
    Ident(String),
    Other,
}

/// A block `{ stmt* }`.
#[derive(Debug)]
pub struct Block {
    pub stmts: Vec<Stmt>,
}

/// `left op right`.
#[derive(Debug)]
pub struct ExprBinary {
    pub left: Box<Expr>,
    pub op: BinOp,
    pub right: Box<Expr>,
}

/// `left = right`.
#[derive(Debug)]
pub struct ExprAssign {
    pub left: Box<Expr>,
    pub right: Box<Expr>,
}

/// `if cond { then_branch } else else_branch`; the else branch is a block
/// expression or another `if`.
#[derive(Debug)]
pub struct ExprIf {
    pub cond: Box<Expr>,
    pub then_branch: Block,
    pub else_branch: Option<Box<Expr>>,
}

/// `return expr?`.
#[derive(Debug)]
pub struct ExprReturn {
    pub expr: Option<Box<Expr>>,
}

/// `let pat = init;` (the initializer is optional).
#[derive(Debug)]
pub struct Local {
    pub pat: Pat,
    pub init: Option<Box<Expr>>,
}

/// An expression. `Other` is any other kind of expression (a call, a loop, a
/// match, a cast, ...), given by the expressions and blocks inside it, in the
/// order in which a syntax-tree walk reaches them.
#[derive(Debug)]
pub enum Expr {
    Assign(ExprAssign),
    Binary(ExprBinary),
    Block(Block),
    If(ExprIf),
    Lit(String),
    Paren(Box<Expr>),
    Path(String),
    Return(ExprReturn),
    Other(Vec<Node>),
}

/// A part of an `Expr::Other` that the walk descends into.
#[derive(Debug)]
pub enum Node {
    Expr(Expr),
    Block(Block),
}

/// A statement: a `let`, an expression without or with a trailing
/// semicolon, or a nested item (which the generator skips).
#[derive(Debug)]
pub enum Stmt {
    Local(Local),
    Expr(Expr),
    Semi(Expr),
    Item,
}

/// A function argument: `self` in some form, or `pat: ty` (both as token text).
#[derive(Debug)]
pub enum FnArg {
    Receiver,
    Typed { pat: String, ty: String },
}

/// A kernel function: its name, arguments, return type (token text, or
/// `None` when the signature has no `->`) and body.
#[derive(Debug)]
pub struct KernelFn {
    pub name: String,
    pub inputs: Vec<FnArg>,
    pub output: Option<String>,
    pub block: Block,
}

} // verus!
