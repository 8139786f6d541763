//! A model of the subset of Rust syntax that cell method bodies are written in.
//!
//! The host side parses the user's `impl Cell` block and hands the library a tree
//! of these types; every decision about the code (validation, field discovery,
//! WGSL emission) is taken on this tree.
use vstd::prelude::*;

verus! {

/// Opaque reference to a source location, chosen by whoever built the tree.
pub type SpanId = u32;

/// A literal.
pub enum Lit {
    /// A float literal, with its source text.
    Float(String),
    /// An integer literal, with its base-10 digits (suffix removed).
    Int(String),
    Bool(bool),
    /// Any other literal (string, char, byte, ...).
    Other,
}

pub enum BinOp {
    Add,
    Sub,
    Mul,
    Div,
    Eq,
    Ne,
    Lt,
    Gt,
    Le,
    Ge,
    And,
    Or,
    /// Any other operator (`%`, `^`, `+=`, ...).
    Other,
}

pub enum UnOp {
    Neg,
    Not,
    Deref,
}

pub enum Member {
    Named(String),
    Unnamed(u32),
}

/// A path such as `self`, `FEED` or `Color::rgb`.
pub struct PathExpr {
    /// The identifiers of the segments, in order.
    pub segments: Vec<String>,
    /// The path has no leading `::` and no generic arguments.
    pub plain: bool,
}

/// A binding pattern.
pub enum Pat {
    Ident { name: String, mutable: bool },
    /// `pat: Type`.
    Typed(Box<Pat>),
    Other,
}

pub struct FieldValue {
    pub member: Member,
    pub expr: Expr,
    pub span: SpanId,
}

pub struct Local {
    pub pat: Pat,
    pub init: Option<Expr>,
    /// Location of the pattern.
    pub span: SpanId,
}

pub enum Stmt {
    Local(Local),
    /// An expression statement; the flag tells whether it ends with `;`.
    Expr(Expr, bool),
    /// An item or a macro invocation in statement position.
    Other,
}

pub struct Block {
    pub stmts: Vec<Stmt>,
}

pub struct Expr {
    pub kind: ExprKind,
    pub span: SpanId,
}

/// The expression forms. Forms that are never accepted in cell code keep only
/// their source text, which error messages quote.
pub enum ExprKind {
    Lit(Lit),
    Path(PathExpr),
    Field(Box<Expr>, Member),
    Binary(Box<Expr>, BinOp, Box<Expr>),
    Unary(UnOp, Box<Expr>),
    Paren(Box<Expr>),
    Group(Box<Expr>),
    /// Receiver, method name, arguments.
    MethodCall(Box<Expr>, String, Vec<Expr>),
    /// Function, arguments.
    Call(Box<Expr>, Vec<Expr>),
    /// Condition, then-block, else-branch.
    If(Box<Expr>, Block, Option<Box<Expr>>),
    Block(Block),
    Struct(Vec<FieldValue>),
    /// Parameters, body, source text.
    Closure(Vec<Pat>, Box<Expr>, String),
    /// Returned value, source text.
    Return(Option<Box<Expr>>, String),
    Assign(String),
    ForLoop(String),
    While(String),
    Loop(String),
    Match(String),
    Reference(String),
    Unsafe(String),
    Other(String),
}

/// An error reported by the macros: where, and what.
pub struct MacroError {
    pub span: SpanId,
    pub message: String,
}

/// The mathematical content of a [`MacroError`].
pub struct ErrorView {
    pub span: SpanId,
    pub message: Seq<char>,
}

impl View for MacroError {
    type V = ErrorView;

    open spec fn view(&self) -> ErrorView {
        ErrorView { span: self.span, message: self.message@ }
    }
}

/// A textual result viewed as sequences of characters.
pub open spec fn text_result(r: Result<String, MacroError>) -> Result<Seq<char>, ErrorView> {
    match r {
        Ok(s) => Ok(s@),
        Err(e) => Err(e@),
    }
}

pub open spec fn err_at(span: SpanId, message: Seq<char>) -> ErrorView {
    ErrorView { span, message }
}

impl MacroError {
    pub fn new(span: SpanId, message: String) -> (e: MacroError)
        ensures
            e@ == err_at(span, message@),
    {
        MacroError { span, message }
    }
}

} // verus!

verus! {

/// The identifier of a plain one-segment path expression (`self`, `nb`, `c`, ...).
pub open spec fn path_ident(e: Expr) -> Option<Seq<char>> {
    match e.kind {
        ExprKind::Path(p) => if p.plain && p.segments@.len() == 1 { Some(p.segments@[0]@) } else { None },
        _ => None,
    }
}

/// The identifier of a plain one-segment path expression, if `e` is one.
pub fn get_ident(e: &Expr) -> (r: Option<&String>)
    ensures
        match r {
            Some(s) => path_ident(*e) == Some(s@),
            None => path_ident(*e) is None,
        },
{
    match &e.kind {
        ExprKind::Path(p) => if p.plain && p.segments.len() == 1 { Some(&p.segments[0]) } else { None },
        _ => None,
    }
}

/// Whether `e` is the plain identifier `name`.
pub fn is_ident(e: &Expr, name: &str) -> (r: bool)
    ensures
        r == (path_ident(*e) == Some(name@)),
{
    match get_ident(e) {
        Some(s) => crate::text::str_eq(s.as_str(), name),
        None => false,
    }
}

/// The last statement of a block, when it is an expression without `;`.
pub open spec fn tail_expr(b: Block) -> Option<Expr> {
    if b.stmts@.len() > 0 {
        match b.stmts@.last() {
            Stmt::Expr(e, false) => Some(e),
            _ => None,
        }
    } else {
        None
    }
}

pub fn block_tail(b: &Block) -> (r: Option<&Expr>)
    ensures
        match r {
            Some(e) => tail_expr(*b) == Some(*e),
            None => tail_expr(*b) is None,
        },
{
    let n = b.stmts.len();
    if n == 0 {
        return None;
    }
    match &b.stmts[n - 1] {
        Stmt::Expr(e, semi) => if !*semi { Some(e) } else { None },
        _ => None,
    }
}

} // verus!
