//! Resolving the arguments of the test-case attribute into one
//! configuration.

use vstd::prelude::*;
use crate::error::TransformError;

verus! {

/// The value given to a named attribute argument.
#[derive(Debug)]
pub enum AttrValue {
    /// The name alone, as in `#[attr(path)]`.
    Word,
    /// A boolean literal: `path = true`.
    Bool(bool),
    /// A string literal: `target = "name"`.
    Str(String),
    /// Any other form: a number, a nested list, and so on.
    Other,
}

/// One argument of an attribute.
#[derive(Debug)]
pub enum AttrArg {
    Named { name: String, value: AttrValue },
    /// A bare literal without a name.
    Literal,
}

/// The six recognized shapes of arguments, in the order in which they are
/// tried.
#[derive(Clone, Copy, Debug, PartialEq, Eq)]
pub enum ArgumentShape {
    PathTargetFeature,
    TargetFeature,
    PathTarget,
    Target,
    Path,
    Empty,
}

/// The canonical configuration that the arguments resolve to.
#[derive(Debug)]
pub struct ProcMacroAttrArgs {
    pub path: bool,
    pub target: Option<String>,
    pub feature: Option<String>,
}

pub open spec fn shape_has_path(s: ArgumentShape) -> bool {
    s == ArgumentShape::PathTargetFeature || s == ArgumentShape::PathTarget || s == ArgumentShape::Path
}

pub open spec fn shape_has_target(s: ArgumentShape) -> bool {
    s == ArgumentShape::PathTargetFeature || s == ArgumentShape::TargetFeature || s
        == ArgumentShape::PathTarget || s == ArgumentShape::Target
}

pub open spec fn shape_has_feature(s: ArgumentShape) -> bool {
    s == ArgumentShape::PathTargetFeature || s == ArgumentShape::TargetFeature
}

/// Whether `a` is an argument named `field`.
pub open spec fn is_field(a: AttrArg, field: Seq<char>) -> bool {
    a matches AttrArg::Named { name, .. } && name@ == field
}

/// How many arguments of `bag` are named `field`.
pub open spec fn count_field(bag: Seq<AttrArg>, field: Seq<char>) -> nat
    decreases bag.len(),
{
    if bag.len() == 0 {
        0
    } else {
        count_field(bag.drop_last(), field) + if is_field(bag.last(), field) {
            1nat
        } else {
            0nat
        }
    }
}

/// The index of the first argument of `bag` named `field`, or -1.
pub open spec fn first_field(bag: Seq<AttrArg>, field: Seq<char>) -> int
    decreases bag.len(),
{
    if bag.len() == 0 {
        -1
    } else {
        let p = first_field(bag.drop_last(), field);
        if p >= 0 {
            p
        } else if is_field(bag.last(), field) {
            bag.len() - 1
        } else {
            -1
        }
    }
}

/// The boolean that a value of the `path` argument stands for: the word
/// alone means `true`, and a string must read `true` or `false`.
pub open spec fn bool_value(v: AttrValue) -> Option<bool> {
    match v {
        AttrValue::Word => Some(true),
        AttrValue::Bool(b) => Some(b),
        AttrValue::Str(s) => if s@ == "true"@ {
            Some(true)
        } else if s@ == "false"@ {
            Some(false)
        } else {
            None
        },
        AttrValue::Other => None,
    }
}

/// An argument that some shape accepts: `path` with a boolean, or
/// `target` or `feature` with a string.
pub open spec fn arg_valid(a: AttrArg) -> bool {
    match a {
        AttrArg::Named { name, value } => (name@ == "path"@ && bool_value(value) is Some) || ((name@
            == "target"@ || name@ == "feature"@) && value is Str),
        AttrArg::Literal => false,
    }
}

pub open spec fn expected_count(present: bool) -> nat {
    if present {
        1
    } else {
        0
    }
}

/// `bag` fits `shape`: each of the shape's fields is given once, with a
/// value of its type, and nothing else is given.
pub open spec fn fits(bag: Seq<AttrArg>, shape: ArgumentShape) -> bool {
    &&& forall|i: int| 0 <= i < bag.len() ==> #[trigger] arg_valid(bag[i])
    &&& count_field(bag, "path"@) == expected_count(shape_has_path(shape))
    &&& count_field(bag, "target"@) == expected_count(shape_has_target(shape))
    &&& count_field(bag, "feature"@) == expected_count(shape_has_feature(shape))
}

/// The first shape, in priority order, that `bag` fits.
pub open spec fn first_fit(bag: Seq<AttrArg>) -> Option<ArgumentShape> {
    if fits(bag, ArgumentShape::PathTargetFeature) {
        Some(ArgumentShape::PathTargetFeature)
    } else if fits(bag, ArgumentShape::TargetFeature) {
        Some(ArgumentShape::TargetFeature)
    } else if fits(bag, ArgumentShape::PathTarget) {
        Some(ArgumentShape::PathTarget)
    } else if fits(bag, ArgumentShape::Target) {
        Some(ArgumentShape::Target)
    } else if fits(bag, ArgumentShape::Path) {
        Some(ArgumentShape::Path)
    } else if fits(bag, ArgumentShape::Empty) {
        Some(ArgumentShape::Empty)
    } else {
        None
    }
}

/// The string given to `field` in `bag`.
pub open spec fn str_value(bag: Seq<AttrArg>, field: Seq<char>) -> Seq<char> {
    bag[first_field(bag, field)]->Named_value->Str_0@
}

/// The boolean given to `path` in `bag`.
pub open spec fn path_value(bag: Seq<AttrArg>) -> bool {
    bool_value(bag[first_field(bag, "path"@)]->Named_value)->0
}

/// `a` holds exactly the fields of `shape`, with the values `bag` gives them;
/// `path` defaults to false, the others to absent.
pub open spec fn resolved(bag: Seq<AttrArg>, shape: ArgumentShape, a: ProcMacroAttrArgs) -> bool {
    &&& a.path == (shape_has_path(shape) && path_value(bag))
    &&& if shape_has_target(shape) {
        a.target matches Some(t) && t@ == str_value(bag, "target"@)
    } else {
        a.target is None
    }
    &&& if shape_has_feature(shape) {
        a.feature matches Some(f) && f@ == str_value(bag, "feature"@)
    } else {
        a.feature is None
    }
}

proof fn lemma_field_names_distinct()
    ensures
        "path"@ != "target"@,
        "path"@ != "feature"@,
        "target"@ != "feature"@,
{
    reveal_strlit("path");
    reveal_strlit("target");
    reveal_strlit("feature");
    assert("path"@.len() == 4);
    assert("target"@.len() == 6);
    assert("feature"@.len() == 7);
}

/// An argument bag that fits one of the six shapes resolves to that shape,
/// whatever its place in the priority order, since the shapes are told
/// apart by the fields they name; the configuration then holds exactly the
/// shape's fields and leaves the others unset.
pub proof fn lemma_fitting_shape_is_chosen(bag: Seq<AttrArg>, shape: ArgumentShape)
    requires
        fits(bag, shape),
    ensures
        first_fit(bag) == Some(shape),
        forall|a: ProcMacroAttrArgs|
            #[trigger] resolved(bag, shape, a) ==> {
                &&& a.target is Some <==> shape_has_target(shape)
                &&& a.feature is Some <==> shape_has_feature(shape)
                &&& a.path ==> shape_has_path(shape)
            },
{
}

pub open spec fn capped(n: nat) -> nat {
    if n >= 2 {
        2
    } else {
        n
    }
}

/// How many arguments are named `field` (counted up to two), and the index
/// of the first of them.
fn field_occurrences(args: &Vec<AttrArg>, field: &str) -> (r: (usize, usize))
    ensures
        r.0 == capped(count_field(args@, field@)),
        r.0 > 0 ==> r.1 as int == first_field(args@, field@) && 0 <= r.1 < args@.len()
            && is_field(args@[r.1 as int], field@),
        r.0 == 0 ==> first_field(args@, field@) == -1,
{
    let wanted = field.to_string();
    let mut count: usize = 0;
    let mut first: usize = 0;
    let mut i: usize = 0;
    while i < args.len()
        invariant
            i <= args@.len(),
            wanted@ == field@,
            count == capped(count_field(args@.take(i as int), field@)),
            count > 0 ==> first as int == first_field(args@.take(i as int), field@) && first < i
                && is_field(args@[first as int], field@),
            count == 0 ==> first_field(args@.take(i as int), field@) == -1,
        decreases args@.len() - i,
    {
        let hit = match &args[i] {
            AttrArg::Named { name, .. } => *name == wanted,
            AttrArg::Literal => false,
        };
        proof {
            assert(args@.take(i as int + 1).drop_last() =~= args@.take(i as int));
            assert(args@.take(i as int + 1).last() == args@[i as int]);
        }
        if hit {
            if count == 0 {
                first = i;
            }
            if count < 2 {
                count = count + 1;
            }
        }
        i = i + 1;
    }
    proof {
        assert(args@.take(args@.len() as int) =~= args@);
    }
    (count, first)
}

/// The boolean that `v` stands for, as `bool_value` says.
fn bool_of(v: &AttrValue) -> (r: Option<bool>)
    ensures
        r == bool_value(*v),
{
    match v {
        AttrValue::Word => Some(true),
        AttrValue::Bool(b) => Some(*b),
        AttrValue::Str(s) => {
            if *s == "true".to_string() {
                Some(true)
            } else if *s == "false".to_string() {
                Some(false)
            } else {
                None
            }
        },
        AttrValue::Other => None,
    }
}

/// Whether some shape accepts the argument `a`.
fn is_valid_arg(a: &AttrArg) -> (r: bool)
    ensures
        r == arg_valid(*a),
{
    proof {
        lemma_field_names_distinct();
    }
    match a {
        AttrArg::Named { name, value } => {
            if *name == "path".to_string() {
                bool_of(value).is_some()
            } else if *name == "target".to_string() || *name == "feature".to_string() {
                match value {
                    AttrValue::Str(_) => true,
                    _ => false,
                }
            } else {
                false
            }
        },
        AttrArg::Literal => false,
    }
}

/// Whether some shape accepts every argument.
fn all_args_valid(args: &Vec<AttrArg>) -> (r: bool)
    ensures
        r == forall|i: int| 0 <= i < args@.len() ==> #[trigger] arg_valid(args@[i]),
{
    let mut i: usize = 0;
    while i < args.len()
        invariant
            i <= args@.len(),
            forall|j: int| 0 <= j < i ==> #[trigger] arg_valid(args@[j]),
        decreases args@.len() - i,
    {
        if !is_valid_arg(&args[i]) {
            return false;
        }
        i = i + 1;
    }
    true
}

/// The string value of the argument at `index`, which holds one.
fn str_at(args: &Vec<AttrArg>, index: usize) -> (r: String)
    requires
        index < args@.len(),
        args@[index as int] matches AttrArg::Named { value: AttrValue::Str(_), .. },
    ensures
        r@ == args@[index as int]->Named_value->Str_0@,
{
    match &args[index] {
        AttrArg::Named { value: AttrValue::Str(s), .. } => s.clone(),
        _ => String::new(),
    }
}

/// Resolves attribute arguments into a configuration by trying the six
/// shapes in priority order; the first that fits decides, and when none
/// fits the arguments are malformed.
pub fn resolve_args(args: &Vec<AttrArg>) -> (r: Result<ProcMacroAttrArgs, TransformError>)
    ensures
        match first_fit(args@) {
            None => r == Err::<ProcMacroAttrArgs, TransformError>(
                TransformError::MalformedArguments,
            ),
            Some(s) => r matches Ok(a) && resolved(args@, s, a),
        },
{
    proof {
        lemma_field_names_distinct();
    }
    let valid = all_args_valid(args);
    let (n_path, i_path) = field_occurrences(args, "path");
    let (n_target, i_target) = field_occurrences(args, "target");
    let (n_feature, i_feature) = field_occurrences(args, "feature");
    if !valid {
        return Err(TransformError::MalformedArguments);
    }
    let shape = if n_path == 1 && n_target == 1 && n_feature == 1 {
        ArgumentShape::PathTargetFeature
    } else if n_path == 0 && n_target == 1 && n_feature == 1 {
        ArgumentShape::TargetFeature
    } else if n_path == 1 && n_target == 1 && n_feature == 0 {
        ArgumentShape::PathTarget
    } else if n_path == 0 && n_target == 1 && n_feature == 0 {
        ArgumentShape::Target
    } else if n_path == 1 && n_target == 0 && n_feature == 0 {
        ArgumentShape::Path
    } else if n_path == 0 && n_target == 0 && n_feature == 0 {
        ArgumentShape::Empty
    } else {
        return Err(TransformError::MalformedArguments);
    };
    let path = if n_path == 1 {
        proof {
            assert(arg_valid(args@[i_path as int]));
        }
        match &args[i_path] {
            AttrArg::Named { value, .. } => match bool_of(value) {
                Some(b) => b,
                None => false,
            },
            AttrArg::Literal => false,
        }
    } else {
        false
    };
    let target = if n_target == 1 {
        proof {
            assert(arg_valid(args@[i_target as int]));
        }
        Some(str_at(args, i_target))
    } else {
        None
    };
    let feature = if n_feature == 1 {
        proof {
            assert(arg_valid(args@[i_feature as int]));
        }
        Some(str_at(args, i_feature))
    } else {
        None
    };
    Ok(ProcMacroAttrArgs { path, target, feature })
}

} // verus!
