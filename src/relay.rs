//! Rewriting a function into a relay, which returns failures as values,
//! and into a receiver, which roots a call chain.

use vstd::prelude::*;
use crate::syntax::{Arm, Block, Expr, ItemFn, ReturnType, Signature, Stmt};

verus! {

/// `b` is `a` with every `return` that the rewriting reaches turned into a
/// return of a success value; all else is kept.
pub open spec fn relay_expr(a: Expr, b: Expr) -> bool
    decreases a,
{
    match a {
        Expr::If { cond, then_branch, else_branch } => match b {
            Expr::If { cond: c2, then_branch: t2, else_branch: e2 } => {
                &&& c2 == cond
                &&& relay_inner(then_branch, t2)
                &&& match else_branch {
                    None => e2 is None,
                    Some(x) => e2 matches Some(y) && relay_expr(*x, *y),
                }
            },
            _ => false,
        },
        Expr::Loop { kind, header, body } => match b {
            Expr::Loop { kind: k2, header: h2, body: b2 } => k2 == kind && h2 == header && relay_inner(
                body,
                b2,
            ),
            _ => false,
        },
        Expr::Block(x) => match b {
            Expr::Block(y) => relay_inner(x, y),
            _ => false,
        },
        Expr::Match { scrutinee, arms } => match b {
            Expr::Match { scrutinee: s2, arms: a2 } => {
                &&& s2 == scrutinee
                &&& a2.len() == arms.len()
                &&& forall|i: int| 0 <= i < arms.len() ==> #[trigger] relay_arm(arms[i], a2[i])
            },
            _ => false,
        },
        Expr::Return(None) => b == return_ok_unit(),
        Expr::Return(Some(x)) => b == Expr::Return(Some(Box::new(Expr::WrapOk(x)))),
        _ => b == a,
    }
}

/// `return Ok(())`
pub open spec fn return_ok_unit() -> Expr {
    Expr::Return(Some(Box::new(Expr::WrapOk(Box::new(Expr::Unit)))))
}

/// The arm keeps its pattern and its body is rewritten.
pub open spec fn relay_arm(a: Arm, b: Arm) -> bool
    decreases a,
{
    b.pattern == a.pattern && relay_expr(a.body, b.body)
}

/// A statement that holds an expression has it rewritten; any other is kept.
pub open spec fn relay_stmt(a: Stmt, b: Stmt) -> bool
    decreases a,
{
    match a {
        Stmt::Expr(x) => b matches Stmt::Expr(y) && relay_expr(x, y),
        Stmt::Semi(x) => b matches Stmt::Semi(y) && relay_expr(x, y),
        _ => b == a,
    }
}

/// A nested block: each statement is rewritten in place and nothing is
/// added, since the block's own value is not the function's result.
pub open spec fn relay_inner(a: Block, b: Block) -> bool
    decreases a,
{
    &&& b.stmts.len() == a.stmts.len()
    &&& forall|i: int| 0 <= i < a.stmts.len() ==> #[trigger] relay_stmt(a.stmts[i], b.stmts[i])
}

/// The body of a relay function: statements are rewritten as in a nested
/// block, the trailing expression becomes `Ok(<expr>)`, and a body without
/// one gets `return Ok(());` at its end.
pub open spec fn relay_body(a: Block, b: Block) -> bool {
    let n = a.stmts.len() as int;
    if n > 0 && a.stmts[n - 1] is Expr {
        &&& b.stmts.len() == n
        &&& forall|i: int| 0 <= i < n - 1 ==> #[trigger] relay_stmt(a.stmts[i], b.stmts[i])
        &&& b.stmts[n - 1] matches Stmt::Expr(Expr::WrapOk(y)) && relay_expr(a.stmts[n - 1]->Expr_0, *y)
    } else {
        &&& b.stmts.len() == n + 1
        &&& forall|i: int| 0 <= i < n ==> #[trigger] relay_stmt(a.stmts[i], b.stmts[i])
        &&& b.stmts[n] == Stmt::Semi(return_ok_unit())
    }
}

/// The text of `Result<inner, <crate>::backtrace::CallStack>`.
pub open spec fn relay_return_text(inner: Seq<char>, crate_path: Seq<char>) -> Seq<char> {
    "::core::result::Result<"@ + inner + ", "@ + crate_path + "::backtrace::CallStack>"@
}

/// The text of the type a function returns.
pub open spec fn return_inner_text(t: ReturnType) -> Seq<char> {
    match t {
        ReturnType::Default => "()"@,
        ReturnType::Type(s) => s@,
    }
}

/// The signature of a relay: the same but for the return type `T`, which
/// becomes `Result<T, CallStack>`.
pub open spec fn relay_signature(a: Signature, b: Signature, crate_path: Seq<char>) -> bool {
    &&& b.ident == a.ident
    &&& b.is_async == a.is_async
    &&& b.has_generics == a.has_generics
    &&& b.has_where_clause == a.has_where_clause
    &&& b.inputs == a.inputs
    &&& b.output matches ReturnType::Type(t) && t@ == relay_return_text(
        return_inner_text(a.output),
        crate_path,
    )
}

/// Rewrites the returns that `e` holds, as `relay_expr` says.
pub fn relay_rewrite_expr(e: Expr) -> (r: Expr)
    ensures
        relay_expr(e, r),
    decreases e,
{
    match e {
        Expr::If { cond, then_branch, else_branch } => {
            let t2 = relay_rewrite_inner(then_branch);
            let e2 = match else_branch {
                None => None,
                Some(x) => Some(Box::new(relay_rewrite_expr(*x))),
            };
            Expr::If { cond, then_branch: t2, else_branch: e2 }
        },
        Expr::Loop { kind, header, body } => {
            let b2 = relay_rewrite_inner(body);
            Expr::Loop { kind, header, body: b2 }
        },
        Expr::Block(x) => Expr::Block(relay_rewrite_inner(x)),
        Expr::Match { scrutinee, arms } => {
            let ghost orig = arms@;
            let mut src = arms;
            let mut out: Vec<Arm> = Vec::new();
            while src.len() > 0
                invariant
                    out.len() + src.len() == orig.len(),
                    src@ == orig.subrange(out.len() as int, orig.len() as int),
                    forall|i: int| 0 <= i < out.len() ==> #[trigger] relay_arm(orig[i], out@[i]),
                    e matches Expr::Match { arms: a0, .. } && a0@ == orig,
                decreases src.len(),
            {
                let ghost k = out.len() as int;
                let arm = src.remove(0);
                proof {
                    let a0 = e->Match_arms;
                    assert(decreases_to!(a0 => a0@));
                    assert(decreases_to!(a0@ => a0@[k]));
                    assert(arm == a0@[k]);
                }
                let Arm { pattern, body } = arm;
                let body2 = relay_rewrite_expr(body);
                out.push(Arm { pattern, body: body2 });
            }
            assert(forall|i: int| 0 <= i < orig.len() ==> relay_arm(orig[i], out[i]));
            Expr::Match { scrutinee, arms: out }
        },
        Expr::Return(None) => Expr::Return(Some(Box::new(Expr::WrapOk(Box::new(Expr::Unit))))),
        Expr::Return(Some(x)) => Expr::Return(Some(Box::new(Expr::WrapOk(x)))),
        other => other,
    }
}

/// Rewrites one statement, as `relay_stmt` says.
pub fn relay_rewrite_stmt(s: Stmt) -> (r: Stmt)
    ensures
        relay_stmt(s, r),
    decreases s,
{
    match s {
        Stmt::Expr(x) => Stmt::Expr(relay_rewrite_expr(x)),
        Stmt::Semi(x) => Stmt::Semi(relay_rewrite_expr(x)),
        other => other,
    }
}

/// Rewrites a nested block, as `relay_inner` says.
pub fn relay_rewrite_inner(b: Block) -> (r: Block)
    ensures
        relay_inner(b, r),
        r.stmts.len() == b.stmts.len(),
        forall|i: int| 0 <= i < b.stmts.len() ==> #[trigger] relay_stmt(b.stmts[i], r.stmts[i]),
    decreases b,
{
    let ghost orig = b.stmts@;
    let mut src = b.stmts;
    let mut out: Vec<Stmt> = Vec::new();
    while src.len() > 0
        invariant
            out.len() + src.len() == orig.len(),
            src@ == orig.subrange(out.len() as int, orig.len() as int),
            forall|i: int| 0 <= i < out.len() ==> #[trigger] relay_stmt(orig[i], out@[i]),
            b.stmts@ == orig,
        decreases src.len(),
    {
        let ghost k = out.len() as int;
        let s = src.remove(0);
        proof {
            assert(decreases_to!(b.stmts => b.stmts@));
            assert(decreases_to!(b.stmts@ => b.stmts@[k]));
            assert(s == b.stmts@[k]);
        }
        let s2 = relay_rewrite_stmt(s);
        out.push(s2);
    }
    assert(forall|i: int| 0 <= i < orig.len() ==> relay_stmt(b.stmts[i], out[i]));
    Block { stmts: out }
}

/// Rewrites the body of a relay function, as `relay_body` says.
pub fn transform_block(b: Block) -> (r: Block)
    ensures
        relay_body(b, r),
{
    let ghost orig = b.stmts@;
    let mut stmts = b.stmts;
    let last = stmts.pop();
    match last {
        Some(Stmt::Expr(x)) => {
            let ghost n = orig.len() as int;
            let input = Block { stmts };
            let ghost before = input;
            let prefix = relay_rewrite_inner(input);
            assert(forall|i: int| 0 <= i < n - 1 ==> relay_stmt(before.stmts[i], prefix.stmts[i]));
            let mut out = prefix.stmts;
            let tail = relay_rewrite_expr(x);
            out.push(Stmt::Expr(Expr::WrapOk(Box::new(tail))));
            assert(forall|i: int| 0 <= i < n - 1 ==> out[i] == prefix.stmts[i] && before.stmts[i] == b.stmts[i]);
            assert(forall|i: int| 0 <= i < n - 1 ==> relay_stmt(b.stmts[i], out[i]));
            Block { stmts: out }
        },
        other => {
            match other {
                Some(s) => {
                    stmts.push(s);
                },
                None => {},
            }
            assert(stmts@ == orig);
            let ghost n = orig.len() as int;
            let input = Block { stmts };
            let ghost before = input;
            let prefix = relay_rewrite_inner(input);
            assert(forall|i: int| 0 <= i < n ==> relay_stmt(before.stmts[i], prefix.stmts[i]));
            let mut out = prefix.stmts;
            out.push(Stmt::Semi(Expr::Return(Some(Box::new(Expr::WrapOk(Box::new(Expr::Unit)))))));
            assert(forall|i: int| 0 <= i < n ==> out[i] == prefix.stmts[i] && before.stmts[i] == b.stmts[i]);
            assert(forall|i: int| 0 <= i < n ==> relay_stmt(b.stmts[i], out[i]));
            Block { stmts: out }
        },
    }
}

/// The return type of a relay, as `relay_return_text` says.
fn relay_output(output: ReturnType, crate_path: &str) -> (r: ReturnType)
    ensures
        r matches ReturnType::Type(t) && t@ == relay_return_text(return_inner_text(output), crate_path@),
{
    let inner = match output {
        ReturnType::Default => "()".to_string(),
        ReturnType::Type(t) => t,
    };
    let mut text = "::core::result::Result<".to_string();
    text.append(inner.as_str());
    text.append(", ");
    text.append(crate_path);
    text.append("::backtrace::CallStack>");
    ReturnType::Type(text)
}

/// Turns a function into a relay: its return type `T` becomes
/// `Result<T, CallStack>` and its body returns success values, so that a
/// failure raised inside it can travel outward as an `Err`.
pub fn micro_panic_relay_impl(item_fn: ItemFn, crate_path: &str) -> (r: ItemFn)
    ensures
        r.attrs == item_fn.attrs,
        r.vis == item_fn.vis,
        relay_signature(item_fn.sig, r.sig, crate_path@),
        relay_body(item_fn.block, r.block),
{
    let ItemFn { attrs, vis, sig, block } = item_fn;
    let Signature { ident, is_async, has_generics, has_where_clause, inputs, output } = sig;
    let output = relay_output(output, crate_path);
    let sig = Signature { ident, is_async, has_generics, has_where_clause, inputs, output };
    let block = transform_block(block);
    ItemFn { attrs, vis, sig, block }
}

/// Turns a function into a receiver: its body first binds a fresh, empty
/// call chain, then runs the original body as a nested block.
pub fn micro_panic_receiver_impl(item_fn: ItemFn, crate_path: &str) -> (r: ItemFn)
    ensures
        r.attrs == item_fn.attrs,
        r.vis == item_fn.vis,
        r.sig == item_fn.sig,
        r.block.stmts.len() == 2,
        r.block.stmts[0] matches Stmt::InitCallStack(c) && c@ == crate_path@,
        r.block.stmts[1] == Stmt::Expr(Expr::Block(item_fn.block)),
{
    let ItemFn { attrs, vis, sig, block } = item_fn;
    let mut stmts: Vec<Stmt> = Vec::new();
    stmts.push(Stmt::InitCallStack(crate_path.to_string()));
    stmts.push(Stmt::Expr(Expr::Block(block)));
    ItemFn { attrs, vis, sig, block: Block { stmts } }
}

} // verus!
