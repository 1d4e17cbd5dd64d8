//! Moving `assert*` macro calls of a test body to the library's checks.

use vstd::prelude::*;
use crate::syntax::{Arm, Block, Expr, MacroCall, Stmt};

verus! {

/// Whether `name` starts with `assert`.
pub open spec fn is_assert_name(name: Seq<char>) -> bool {
    name.len() >= 6 && name.subrange(0, 6) == "assert"@
}

/// `b` is the macro call `a` with a single-segment `assert*` path moved to
/// the library's checks: `assert_eq!` becomes `<crate>::micro_assert_eq!`.
/// Any other macro call is kept.
pub open spec fn replaced_macro(a: MacroCall, b: MacroCall, crate_path: Seq<char>) -> bool {
    if a.path.len() == 1 && is_assert_name(a.path[0]@) {
        &&& b.path.len() == 2
        &&& b.path[0]@ == crate_path
        &&& b.path[1]@ == "micro_"@ + a.path[0]@
        &&& b.tokens == a.tokens
    } else {
        b == a
    }
}

/// `b` is `a` with every macro call that the walk reaches replaced as
/// `replaced_macro` says; the walk enters branches, loop bodies, blocks and
/// match arms.
pub open spec fn replaced_expr(a: Expr, b: Expr, c: Seq<char>) -> bool
    decreases a,
{
    match a {
        Expr::Macro(m) => b matches Expr::Macro(m2) && replaced_macro(m, m2, c),
        Expr::If { cond, then_branch, else_branch } => match b {
            Expr::If { cond: c2, then_branch: t2, else_branch: e2 } => {
                &&& c2 == cond
                &&& replaced_block(then_branch, t2, c)
                &&& match else_branch {
                    None => e2 is None,
                    Some(x) => e2 matches Some(y) && replaced_expr(*x, *y, c),
                }
            },
            _ => false,
        },
        Expr::Loop { kind, header, body } => match b {
            Expr::Loop { kind: k2, header: h2, body: b2 } => k2 == kind && h2 == header
                && replaced_block(body, b2, c),
            _ => false,
        },
        Expr::Block(x) => match b {
            Expr::Block(y) => replaced_block(x, y, c),
            _ => false,
        },
        Expr::Match { scrutinee, arms } => match b {
            Expr::Match { scrutinee: s2, arms: a2 } => {
                &&& s2 == scrutinee
                &&& a2.len() == arms.len()
                &&& forall|i: int| 0 <= i < arms.len() ==> #[trigger] replaced_arm(arms[i], a2[i], c)
            },
            _ => false,
        },
        _ => b == a,
    }
}

pub open spec fn replaced_arm(a: Arm, b: Arm, c: Seq<char>) -> bool
    decreases a,
{
    b.pattern == a.pattern && replaced_expr(a.body, b.body, c)
}

pub open spec fn replaced_stmt(a: Stmt, b: Stmt, c: Seq<char>) -> bool
    decreases a,
{
    match a {
        Stmt::Expr(x) => b matches Stmt::Expr(y) && replaced_expr(x, y, c),
        Stmt::Semi(x) => b matches Stmt::Semi(y) && replaced_expr(x, y, c),
        _ => b == a,
    }
}

pub open spec fn replaced_block(a: Block, b: Block, c: Seq<char>) -> bool
    decreases a,
{
    &&& b.stmts.len() == a.stmts.len()
    &&& forall|i: int| 0 <= i < a.stmts.len() ==> #[trigger] replaced_stmt(a.stmts[i], b.stmts[i], c)
}

/// Whether `name` starts with `assert`.
fn starts_with_assert(name: &String) -> (r: bool)
    ensures
        r == is_assert_name(name@),
{
    proof {
        reveal_strlit("assert");
        assert("assert"@.len() == 6);
    }
    let s = name.as_str();
    if s.unicode_len() < 6 {
        return false;
    }
    let prefix = "assert";
    let mut i: usize = 0;
    while i < 6
        invariant
            i <= 6,
            s@ == name@,
            name@.len() >= 6,
            prefix@ == "assert"@,
            "assert"@.len() == 6,
            forall|j: int| 0 <= j < i ==> name@[j] == "assert"@[j],
        decreases 6 - i,
    {
        if s.get_char(i) != prefix.get_char(i) {
            assert(name@.subrange(0, 6)[i as int] != "assert"@[i as int]);
            return false;
        }
        i = i + 1;
    }
    assert(name@.subrange(0, 6) =~= "assert"@);
    true
}

/// Moves a single-segment `assert*` macro call to the library's checks, as
/// `replaced_macro` says.
pub fn transform_macro(mac: MacroCall, crate_path: &str) -> (r: MacroCall)
    ensures
        replaced_macro(mac, r, crate_path@),
{
    if mac.path.len() == 1 && starts_with_assert(&mac.path[0]) {
        let mut name = "micro_".to_string();
        name.append(mac.path[0].as_str());
        let mut path: Vec<String> = Vec::new();
        path.push(crate_path.to_string());
        path.push(name);
        MacroCall { path, tokens: mac.tokens }
    } else {
        mac
    }
}

/// Replaces the macro calls that `e` holds, as `replaced_expr` says.
pub fn replace_in_expr(e: Expr, crate_path: &str) -> (r: Expr)
    ensures
        replaced_expr(e, r, crate_path@),
    decreases e,
{
    match e {
        Expr::Macro(m) => Expr::Macro(transform_macro(m, crate_path)),
        Expr::If { cond, then_branch, else_branch } => {
            let t2 = replace_assert_macros(then_branch, crate_path);
            let e2 = match else_branch {
                None => None,
                Some(x) => Some(Box::new(replace_in_expr(*x, crate_path))),
            };
            Expr::If { cond, then_branch: t2, else_branch: e2 }
        },
        Expr::Loop { kind, header, body } => {
            let b2 = replace_assert_macros(body, crate_path);
            Expr::Loop { kind, header, body: b2 }
        },
        Expr::Block(x) => Expr::Block(replace_assert_macros(x, crate_path)),
        Expr::Match { scrutinee, arms } => {
            let ghost orig = arms@;
            let mut src = arms;
            let mut out: Vec<Arm> = Vec::new();
            while src.len() > 0
                invariant
                    out.len() + src.len() == orig.len(),
                    src@ == orig.subrange(out.len() as int, orig.len() as int),
                    forall|i: int|
                        0 <= i < out.len() ==> #[trigger] replaced_arm(orig[i], out@[i], crate_path@),
                    e matches Expr::Match { arms: a0, .. } && a0@ == orig,
                decreases src.len(),
            {
                let ghost k = out.len() as int;
                let arm = src.remove(0);
                proof {
                    let a0 = e->Match_arms;
                    assert(decreases_to!(a0 => a0@));
                    assert(decreases_to!(a0@ => a0@[k]));
                    assert(arm == a0@[k]);
                }
                let Arm { pattern, body } = arm;
                let body2 = replace_in_expr(body, crate_path);
                out.push(Arm { pattern, body: body2 });
            }
            assert(forall|i: int| 0 <= i < orig.len() ==> replaced_arm(orig[i], out[i], crate_path@));
            Expr::Match { scrutinee, arms: out }
        },
        other => other,
    }
}

/// Replaces the macro calls that `s` holds, as `replaced_stmt` says.
pub fn replace_in_stmt(s: Stmt, crate_path: &str) -> (r: Stmt)
    ensures
        replaced_stmt(s, r, crate_path@),
    decreases s,
{
    match s {
        Stmt::Expr(x) => Stmt::Expr(replace_in_expr(x, crate_path)),
        Stmt::Semi(x) => Stmt::Semi(replace_in_expr(x, crate_path)),
        other => other,
    }
}

/// Moves the `assert*` macro calls of a test body to the library's checks,
/// so that a failing check inside a test case is reported instead of
/// unwinding.
pub fn replace_assert_macros(b: Block, crate_path: &str) -> (r: Block)
    ensures
        replaced_block(b, r, crate_path@),
    decreases b,
{
    let ghost orig = b.stmts@;
    let mut src = b.stmts;
    let mut out: Vec<Stmt> = Vec::new();
    while src.len() > 0
        invariant
            out.len() + src.len() == orig.len(),
            src@ == orig.subrange(out.len() as int, orig.len() as int),
            forall|i: int| 0 <= i < out.len() ==> #[trigger] replaced_stmt(orig[i], out@[i], crate_path@),
            b.stmts@ == orig,
        decreases src.len(),
    {
        let ghost k = out.len() as int;
        let s = src.remove(0);
        proof {
            assert(decreases_to!(b.stmts => b.stmts@));
            assert(decreases_to!(b.stmts@ => b.stmts@[k]));
            assert(s == b.stmts@[k]);
        }
        let s2 = replace_in_stmt(s, crate_path);
        out.push(s2);
    }
    assert(forall|i: int| 0 <= i < orig.len() ==> replaced_stmt(b.stmts[i], out[i], crate_path@));
    Block { stmts: out }
}

} // verus!
