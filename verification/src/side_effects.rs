//! The side-effect classifier: conservative answers to the question whether
//! evaluating a sub-tree could be observed.

use crate::ast::Class;
use crate::ast::ClassMember;
use crate::ast::Expr;
use crate::ast::ExprOrSpread;
use crate::ast::List;
use crate::ast::PropName;
use crate::ast::UnaryOp;
use vstd::prelude::*;

verus! {

/// The expressions proven free of side effects: a literal, and a boolean
/// negation of such an expression.
pub open spec fn is_pure(e: Expr) -> bool
    decreases e,
{
    match e {
        Expr::Lit { .. } => true,
        Expr::Unary { op: UnaryOp::Bang, arg, .. } => is_pure(*arg),
        _ => false,
    }
}

/// Whether some argument of a call is not proven free of side effects.
pub open spec fn any_arg_impure(args: List<ExprOrSpread>) -> bool
    decreases args,
{
    match args {
        List::Nil => false,
        List::Cons(a, rest) => !is_pure(*a.expr) || any_arg_impure(*rest),
    }
}

/// Whether the computed expression of a property name, if it has one, is not
/// proven free of side effects.
pub open spec fn key_impure(key: PropName) -> bool {
    match key {
        PropName::Computed(e) => !is_pure(*e),
        _ => false,
    }
}

/// Whether an initializer, if there is one, is not proven free of side effects.
pub open spec fn value_impure(value: Option<Box<Expr>>) -> bool {
    match value {
        Some(e) => !is_pure(*e),
        None => false,
    }
}

/// Whether evaluating a class member's key or initializer could be observed.
pub open spec fn member_impure(m: ClassMember) -> bool {
    match m {
        ClassMember::Method { key, .. } => key_impure(key),
        ClassMember::ClassProp { key, value } => key_impure(key) || value_impure(value),
        ClassMember::PrivateProp { value, .. } => value_impure(value),
        ClassMember::Empty { .. } => false,
    }
}

/// Whether some member of a class body could be observed when the class is
/// evaluated.
pub open spec fn any_member_impure(body: List<ClassMember>) -> bool
    decreases body,
{
    match body {
        List::Nil => false,
        List::Cons(m, rest) => member_impure(*m) || any_member_impure(*rest),
    }
}

/// Whether evaluating a class could be observed: through its superclass
/// expression, a computed key, or a field initializer.
pub open spec fn class_impure(c: Class) -> bool {
    value_impure(c.super_class) || any_member_impure(c.body)
}

/// The shapes that may stand on the left of an assignment: anything but a
/// literal or a unary expression.
pub open spec fn valid_for_lhs(e: Expr) -> bool {
    !(e is Lit || e is Unary)
}

/// Tells whether evaluating `e` could have an observable effect. The answer is
/// `false` only for a literal and for a boolean negation of an expression for
/// which it is `false`.
pub fn may_have_side_effects(e: &Expr) -> (r: bool)
    ensures
        r == !is_pure(*e),
    decreases *e,
{
    match e {
        Expr::Lit { .. } => false,
        Expr::Unary { op: UnaryOp::Bang, arg, .. } => may_have_side_effects(arg),
        _ => true,
    }
}

/// Tells whether some argument of a call could have an observable effect.
pub fn args_may_have_side_effects(args: &List<ExprOrSpread>) -> (r: bool)
    ensures
        r == any_arg_impure(*args),
    decreases *args,
{
    match args {
        List::Nil => false,
        List::Cons(a, rest) => may_have_side_effects(&a.expr) || args_may_have_side_effects(rest),
    }
}

fn key_has_side_effect(key: &PropName) -> (r: bool)
    ensures
        r == key_impure(*key),
{
    match key {
        PropName::Computed(e) => may_have_side_effects(e),
        _ => false,
    }
}

fn value_has_side_effect(value: &Option<Box<Expr>>) -> (r: bool)
    ensures
        r == value_impure(*value),
{
    match value {
        Some(e) => may_have_side_effects(e),
        None => false,
    }
}

fn members_have_side_effect(body: &List<ClassMember>) -> (r: bool)
    ensures
        r == any_member_impure(*body),
    decreases *body,
{
    match body {
        List::Nil => false,
        List::Cons(m, rest) => {
            let here = match &**m {
                ClassMember::Method { key, .. } => key_has_side_effect(key),
                ClassMember::ClassProp { key, value } => key_has_side_effect(key)
                    || value_has_side_effect(value),
                ClassMember::PrivateProp { value, .. } => value_has_side_effect(value),
                ClassMember::Empty { .. } => false,
            };
            here || members_have_side_effect(rest)
        },
    }
}

/// Tells whether evaluating the class `c` could have an observable effect.
pub fn class_has_side_effect(c: &Class) -> (r: bool)
    ensures
        r == class_impure(*c),
{
    value_has_side_effect(&c.super_class) || members_have_side_effect(&c.body)
}

/// Tells whether `e` has a shape that may stand on the left of an assignment.
pub fn is_valid_for_lhs(e: &Expr) -> (r: bool)
    ensures
        r == valid_for_lhs(*e),
{
    match e {
        Expr::Lit { .. } => false,
        Expr::Unary { .. } => false,
        _ => true,
    }
}

} // verus!
