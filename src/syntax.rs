//! The syntax tree that the rewriting works on: the control-flow
//! constructs are nodes of their own, anything else is source text.

use vstd::prelude::*;

verus! {

/// The kind of a loop construct.
#[derive(Clone, Copy, Debug, PartialEq, Eq)]
pub enum LoopKind {
    For,
    While,
    Loop,
}

/// A macro invocation: the path of the macro and its argument tokens as
/// source text.
#[derive(Debug)]
pub struct MacroCall {
    pub path: Vec<String>,
    pub tokens: String,
}

/// One arm of a `match`: its pattern (guard included) as source text, and
/// its body.
#[derive(Debug)]
pub struct Arm {
    pub pattern: String,
    pub body: Expr,
}

/// An expression of a function body, as far as the rewriting looks into it:
/// the control-flow constructs are nodes of their own, anything else is kept
/// as source text.
#[derive(Debug)]
pub enum Expr {
    /// `if <cond> <then_branch> else <else_branch>`
    If { cond: String, then_branch: Block, else_branch: Option<Box<Expr>> },
    /// A `for`, `while` or `loop`: the header is the source text from the
    /// label or keyword up to the body.
    Loop { kind: LoopKind, header: String, body: Block },
    /// `{ ... }`
    Block(Block),
    /// `match <scrutinee> { <arms> }`
    Match { scrutinee: String, arms: Vec<Arm> },
    /// `return` with an optional value
    Return(Option<Box<Expr>>),
    /// `name!(tokens)`
    Macro(MacroCall),
    /// The success value `Ok(<expr>)`
    WrapOk(Box<Expr>),
    /// The unit value `()`
    Unit,
    /// Any other expression, as source text.
    Opaque(String),
}

/// Where and what a rewritten test case reports before its body runs.
#[derive(Debug)]
pub struct MetadataSite {
    /// The path under which the library is reachable from the rewritten code.
    pub crate_path: String,
    /// The target name: an explicit one, or the function's own name.
    pub target: String,
    /// Whether the target is qualified with the enclosing module path.
    pub module_qualified: bool,
    pub feature: Option<String>,
}

/// A statement of a function body.
#[derive(Debug)]
pub enum Stmt {
    /// A `let` binding, as source text.
    Local(String),
    /// A nested item, as source text.
    Item(String),
    /// An expression without a trailing semicolon.
    Expr(Expr),
    /// An expression followed by a semicolon.
    Semi(Expr),
    /// Binds a fresh, empty call chain for the duration of a receiver; the
    /// string is the path of the library.
    InitCallStack(String),
    /// Hands the test metadata to the registered metadata reporter.
    ReportMetadata(MetadataSite),
}

/// A braced sequence of statements.
#[derive(Debug)]
pub struct Block {
    pub stmts: Vec<Stmt>,
}

/// The declared return type of a function.
#[derive(Debug)]
pub enum ReturnType {
    /// No return type: the unit type.
    Default,
    /// `-> <type>`, the type as source text.
    Type(String),
}

/// An attribute on a function: its path and its argument tokens.
#[derive(Debug)]
pub struct Attr {
    pub path: Vec<String>,
    pub tokens: String,
}

/// The signature of a function.
#[derive(Debug)]
pub struct Signature {
    pub ident: String,
    pub is_async: bool,
    /// Whether angle-bracketed generic parameters are declared.
    pub has_generics: bool,
    pub has_where_clause: bool,
    /// The parameters, each as source text.
    pub inputs: Vec<String>,
    pub output: ReturnType,
}

/// A function definition.
#[derive(Debug)]
pub struct ItemFn {
    pub attrs: Vec<Attr>,
    /// The visibility, as source text.
    pub vis: String,
    pub sig: Signature,
    pub block: Block,
}

} // verus!
