//! Rewriting a function into a test case.

use vstd::prelude::*;
use crate::attr::{
    first_fit, fits, lemma_fitting_shape_is_chosen, path_value, resolve_args, shape_has_feature, shape_has_path, shape_has_target,
    str_value, ArgumentShape, AttrArg, ProcMacroAttrArgs,
};
use crate::error::{SignatureIssue, TransformError};
use crate::relay::{micro_panic_relay_impl, relay_expr, relay_signature, relay_stmt};
use crate::syntax::{Attr, Block, Expr, ItemFn, MetadataSite, Signature, Stmt};

verus! {

/// The first reason, in the order async, generics, return type, parameters,
/// why `sig` cannot be a test case.
pub open spec fn first_issue(sig: Signature) -> Option<SignatureIssue> {
    if sig.is_async {
        Some(SignatureIssue::Async)
    } else if sig.has_generics || sig.has_where_clause {
        Some(SignatureIssue::Generic)
    } else if sig.output is Type {
        Some(SignatureIssue::ReturnType)
    } else if sig.inputs.len() > 0 {
        Some(SignatureIssue::Inputs)
    } else {
        None
    }
}

/// `a` is the marker that keeps a function out of test discovery:
/// `micro_ignore`, alone or under the library's path.
pub open spec fn is_ignore_marker(a: Attr, crate_path: Seq<char>) -> bool {
    ||| a.path.len() == 1 && a.path[0]@ == "micro_ignore"@
    ||| a.path.len() == 2 && a.path[0]@ == crate_path && a.path[1]@ == "micro_ignore"@
}

/// `a` is the marker that lets the external runner collect a function.
pub open spec fn is_test_case_marker(a: Attr) -> bool {
    a.path.len() == 1 && a.path[0]@ == "test_case"@ && a.tokens@.len() == 0
}

/// What a test case reports: the explicit target or the function's own
/// name, qualified with the module path when `path` is set, and the feature
/// if one is given.
pub open spec fn site_for(
    bag: Seq<AttrArg>,
    shape: ArgumentShape,
    ident: Seq<char>,
    crate_path: Seq<char>,
    site: MetadataSite,
) -> bool {
    &&& site.crate_path@ == crate_path
    &&& site.target@ == if shape_has_target(shape) {
        str_value(bag, "target"@)
    } else {
        ident
    }
    &&& site.module_qualified == (shape_has_path(shape) && path_value(bag))
    &&& if shape_has_feature(shape) {
        site.feature matches Some(f) && f@ == str_value(bag, "feature"@)
    } else {
        site.feature is None
    }
}

/// `f` is `item` rewritten as a test case: a relay whose body first reports
/// the metadata and then runs the original body, marked for discovery
/// unless `item` carries the ignore marker.
pub open spec fn test_case_fn(
    bag: Seq<AttrArg>,
    shape: ArgumentShape,
    item: ItemFn,
    crate_path: Seq<char>,
    f: ItemFn,
) -> bool {
    &&& f.vis == item.vis
    &&& relay_signature(item.sig, f.sig, crate_path)
    &&& if exists|i: int| 0 <= i < item.attrs.len() && is_ignore_marker(item.attrs[i], crate_path) {
        f.attrs == item.attrs
    } else {
        &&& f.attrs.len() == item.attrs.len() + 1
        &&& is_test_case_marker(f.attrs[0])
        &&& f.attrs@.subrange(1, f.attrs.len() as int) == item.attrs@
    }
    &&& f.block.stmts.len() == 2
    &&& f.block.stmts[0] matches Stmt::ReportMetadata(site) && site_for(
        bag,
        shape,
        item.sig.ident@,
        crate_path,
        site,
    )
    &&& f.block.stmts[1] matches Stmt::Expr(Expr::WrapOk(x)) && relay_expr(Expr::Block(item.block), *x)
}

/// What rewriting `item` as a test case with the arguments `bag` gives:
/// the malformed arguments, the signature's first issue, or the test case.
pub open spec fn test_case_result(
    bag: Seq<AttrArg>,
    item: ItemFn,
    crate_path: Seq<char>,
    r: Result<ItemFn, TransformError>,
) -> bool {
    match first_fit(bag) {
        None => r == Err::<ItemFn, TransformError>(TransformError::MalformedArguments),
        Some(shape) => match first_issue(item.sig) {
            Some(issue) => r == Err::<ItemFn, TransformError>(TransformError::UnsupportedSignature(issue)),
            None => r matches Ok(f) && test_case_fn(bag, shape, item, crate_path, f),
        },
    }
}

/// A test case whose arguments fit a shape reports exactly that shape's
/// fields: the given target only when the shape has one and the function's
/// own name otherwise, a feature only when the shape has one, and a module
/// qualified target only when the shape has `path`.
pub proof fn lemma_test_case_reports_fitting_shape(
    bag: Seq<AttrArg>,
    shape: ArgumentShape,
    item: ItemFn,
    crate_path: Seq<char>,
    r: Result<ItemFn, TransformError>,
)
    requires
        fits(bag, shape),
        first_issue(item.sig) is None,
        test_case_result(bag, item, crate_path, r),
    ensures
        r matches Ok(f) && f.block.stmts[0] matches Stmt::ReportMetadata(site) && {
            &&& site.target@ == if shape_has_target(shape) {
                str_value(bag, "target"@)
            } else {
                item.sig.ident@
            }
            &&& site.feature is Some <==> shape_has_feature(shape)
            &&& shape_has_feature(shape) ==> site.feature->0@ == str_value(bag, "feature"@)
            &&& site.module_qualified == (shape_has_path(shape) && path_value(bag))
        },
{
    lemma_fitting_shape_is_chosen(bag, shape);
}

/// A rewritten test case reports its metadata exactly once and before any
/// check of the original body can run: the report is the body's first
/// statement, and the only other statement is the original body.
pub proof fn lemma_metadata_reported_first(
    bag: Seq<AttrArg>,
    shape: ArgumentShape,
    item: ItemFn,
    crate_path: Seq<char>,
    f: ItemFn,
)
    requires
        test_case_fn(bag, shape, item, crate_path, f),
    ensures
        f.block.stmts[0] is ReportMetadata,
        forall|i: int| 1 <= i < f.block.stmts.len() ==> !(#[trigger] f.block.stmts[i] is ReportMetadata),
        f.block.stmts[1] matches Stmt::Expr(Expr::WrapOk(x)) && relay_expr(Expr::Block(item.block), *x),
{
}

/// Why `sig` cannot be a test case, as `first_issue` says.
pub fn signature_issue(sig: &Signature) -> (r: Option<SignatureIssue>)
    ensures
        r == first_issue(*sig),
{
    if sig.is_async {
        Some(SignatureIssue::Async)
    } else if sig.has_generics || sig.has_where_clause {
        Some(SignatureIssue::Generic)
    } else if match sig.output {
        crate::syntax::ReturnType::Type(_) => true,
        crate::syntax::ReturnType::Default => false,
    } {
        Some(SignatureIssue::ReturnType)
    } else if sig.inputs.len() > 0 {
        Some(SignatureIssue::Inputs)
    } else {
        None
    }
}

/// Whether one of `attrs` is the ignore marker.
pub fn is_ignored(attrs: &Vec<Attr>, crate_path: &str) -> (r: bool)
    ensures
        r == exists|i: int| 0 <= i < attrs.len() && is_ignore_marker(attrs[i], crate_path@),
{
    let marker = "micro_ignore".to_string();
    let own = crate_path.to_string();
    let mut i: usize = 0;
    while i < attrs.len()
        invariant
            i <= attrs.len(),
            marker@ == "micro_ignore"@,
            own@ == crate_path@,
            forall|j: int| 0 <= j < i ==> !is_ignore_marker(#[trigger] attrs[j], crate_path@),
        decreases attrs.len() - i,
    {
        let path = &attrs[i].path;
        let hit = if path.len() == 1 {
            path[0] == marker
        } else if path.len() == 2 {
            path[0] == own && path[1] == marker
        } else {
            false
        };
        if hit {
            assert(is_ignore_marker(attrs[i as int], crate_path@));
            return true;
        }
        i = i + 1;
    }
    false
}

/// The marker that lets the external runner collect a function.
fn test_case_marker() -> (r: Attr)
    ensures
        is_test_case_marker(r),
{
    let mut path: Vec<String> = Vec::new();
    path.push("test_case".to_string());
    Attr { path, tokens: String::new() }
}

/// Rewrites a function into a test case. The attribute arguments decide the
/// target and feature that the function reports before its body runs; the
/// function becomes a relay, so that a failure inside it comes back as an
/// `Err` carrying the call chain. Arguments that fit no shape, and functions
/// that are async, generic, return a value or take parameters, are refused.
pub fn micro_test_case_impl(attr_args: &Vec<AttrArg>, item: ItemFn, crate_path: &str) -> (r: Result<
    ItemFn,
    TransformError,
>)
    ensures
        test_case_result(attr_args@, item, crate_path@, r),
{
    let args = match resolve_args(attr_args) {
        Ok(a) => a,
        Err(e) => {
            return Err(e);
        },
    };
    match signature_issue(&item.sig) {
        Some(issue) => {
            return Err(TransformError::UnsupportedSignature(issue));
        },
        None => {},
    }
    let ignored = is_ignored(&item.attrs, crate_path);
    let ghost original = item;
    let ItemFn { attrs, vis, sig, block } = item;
    let ProcMacroAttrArgs { path, target, feature } = args;
    let target = match target {
        Some(t) => t,
        None => sig.ident.clone(),
    };
    let site = MetadataSite { crate_path: crate_path.to_string(), target, module_qualified: path, feature };
    let mut stmts: Vec<Stmt> = Vec::new();
    stmts.push(Stmt::ReportMetadata(site));
    stmts.push(Stmt::Expr(Expr::Block(block)));
    let body = Block { stmts };
    let ghost composed = body;
    let relayed = micro_panic_relay_impl(ItemFn { attrs, vis, sig, block: body }, crate_path);
    assert(relay_stmt(composed.stmts[0], relayed.block.stmts[0]));
    assert(relayed.block.stmts[0] == composed.stmts[0]);
    if ignored {
        Ok(relayed)
    } else {
        let ItemFn { attrs, vis, sig, block } = relayed;
        let mut attrs = attrs;
        attrs.insert(0, test_case_marker());
        assert(attrs@.subrange(1, attrs.len() as int) =~= original.attrs@);
        Ok(ItemFn { attrs, vis, sig, block })
    }
}

} // verus!
