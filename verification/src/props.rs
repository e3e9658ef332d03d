//! Looking a property up in an object literal.

use crate::ast::Atom;
use crate::ast::Expr;
use crate::ast::List;
use crate::ast::Lit;
use crate::ast::Prop;
use crate::ast::PropName;
use crate::ast::PropOrSpread;
use crate::state::Optimizer;
use vstd::prelude::*;

verus! {

/// Whether the property name `key` is the name `prop`: an identifier or a
/// string with that symbol, or a computed key that is such a string.
pub open spec fn names(key: PropName, prop: Atom) -> bool {
    match key {
        PropName::Ident(i) => i.sym == prop,
        PropName::Str(s) => s == prop,
        PropName::Computed(e) => match *e {
            Expr::Lit { lit: Lit::Str(s), .. } => s == prop,
            _ => false,
        },
        _ => false,
    }
}

/// The value of the first key-value property named `prop`, if there is one.
pub open spec fn first_value(props: List<PropOrSpread>, prop: Atom) -> Option<Expr>
    decreases props,
{
    match props {
        List::Nil => None,
        List::Cons(p, rest) => match *p {
            PropOrSpread::Prop(Prop::KeyValue { key, value }) => if names(key, prop) {
                Some(*value)
            } else {
                first_value(*rest, prop)
            },
            _ => first_value(*rest, prop),
        },
    }
}

/// The value that reading `prop` off the expression `e` finds in the tree: `e`
/// must be an object literal with a key-value property of that name.
pub open spec fn property_of(e: Expr, prop: Atom) -> Option<Expr> {
    match e {
        Expr::Object { props, .. } => first_value(props, prop),
        _ => None,
    }
}

/// The value that reading the property named by `key` finds.
pub open spec fn property_named(e: Expr, key: PropName) -> Option<Expr> {
    match key {
        PropName::Ident(i) => property_of(e, i.sym),
        PropName::Str(s) => property_of(e, s),
        _ => None,
    }
}

/// Tells whether the property name `key` is the name `prop`.
pub fn prop_name_eq(key: &PropName, prop: Atom) -> (r: bool)
    ensures
        r == names(*key, prop),
{
    match key {
        PropName::Ident(i) => i.sym == prop,
        PropName::Str(s) => *s == prop,
        PropName::Computed(e) => match &**e {
            Expr::Lit { lit: Lit::Str(s), .. } => *s == prop,
            _ => false,
        },
        _ => false,
    }
}

/// The properties with `v` as the value of the first key-value property named
/// `prop`, if there is one.
pub open spec fn with_first_value(props: List<PropOrSpread>, prop: Atom, v: Expr) -> List<
    PropOrSpread,
>
    decreases props,
{
    match props {
        List::Nil => props,
        List::Cons(p, rest) => match *p {
            PropOrSpread::Prop(Prop::KeyValue { key, value }) => if names(key, prop) {
                List::Cons(
                    Box::new(PropOrSpread::Prop(Prop::KeyValue { key, value: Box::new(v) })),
                    rest,
                )
            } else {
                List::Cons(p, Box::new(with_first_value(*rest, prop, v)))
            },
            _ => List::Cons(p, Box::new(with_first_value(*rest, prop, v))),
        },
    }
}

/// The expression `e` with `v` as the value that reading `prop` off it finds.
pub open spec fn with_property(e: Expr, prop: Atom, v: Expr) -> Expr {
    match e {
        Expr::Object { span, props } => Expr::Object {
            span,
            props: with_first_value(props, prop, v),
        },
        _ => e,
    }
}

/// The expression `e` with `v` as the value of the property that `key` names.
pub open spec fn with_property_named(e: Expr, key: PropName, v: Expr) -> Expr {
    match key {
        PropName::Ident(i) => with_property(e, i.sym, v),
        PropName::Str(s) => with_property(e, s, v),
        _ => e,
    }
}

fn is_named_value(p: &PropOrSpread, prop: Atom) -> (r: bool)
    ensures
        r == (match *p {
            PropOrSpread::Prop(Prop::KeyValue { key, .. }) => names(key, prop),
            _ => false,
        }),
{
    match p {
        PropOrSpread::Prop(Prop::KeyValue { key, .. }) => prop_name_eq(key, prop),
        _ => false,
    }
}

fn find_value<'e>(props: &'e mut List<PropOrSpread>, prop: Atom) -> (r: Option<&'e mut Expr>)
    ensures
        match r {
            Some(v) => first_value(*old(props), prop) == Some(*v) && *final(props)
                == with_first_value(*old(props), prop, *final(v)),
            None => first_value(*old(props), prop) is None && *final(props) == *old(props),
        },
    decreases *old(props),
{
    match props {
        List::Nil => None,
        List::Cons(p, rest) => {
            if is_named_value(p, prop) {
                match &mut **p {
                    PropOrSpread::Prop(Prop::KeyValue { value, .. }) => Some(&mut **value),
                    _ => None,
                }
            } else {
                find_value(rest, prop)
            }
        },
    }
}

impl Optimizer {
    /// Finds the value that the object literal `expr` gives to the property
    /// `prop`: that of its first key-value property of that name. What the
    /// caller writes through the reference becomes that value.
    pub fn access_property<'e>(&mut self, expr: &'e mut Expr, prop: Atom) -> (r: Option<
        &'e mut Expr,
    >)
        ensures
            *final(self) == *old(self),
            match r {
                Some(v) => property_of(*old(expr), prop) == Some(*v) && *final(expr)
                    == with_property(*old(expr), prop, *final(v)),
                None => property_of(*old(expr), prop) is None && *final(expr) == *old(expr),
            },
    {
        match expr {
            Expr::Object { props, .. } => find_value(props, prop),
            _ => None,
        }
    }

    /// Finds the value of the property that `prop` names; a numeric, computed
    /// or big-integer name finds none.
    pub fn access_property_with_prop_name<'e>(
        &mut self,
        expr: &'e mut Expr,
        prop: &PropName,
    ) -> (r: Option<&'e mut Expr>)
        ensures
            *final(self) == *old(self),
            match r {
                Some(v) => property_named(*old(expr), *prop) == Some(*v) && *final(expr)
                    == with_property_named(*old(expr), *prop, *final(v)),
                None => property_named(*old(expr), *prop) is None && *final(expr) == *old(expr),
            },
    {
        match prop {
            PropName::Ident(p) => self.access_property(expr, p.sym),
            PropName::Str(p) => self.access_property(expr, *p),
            PropName::Num(_) => None,
            PropName::Computed(_) => None,
            PropName::BigInt(_) => None,
        }
    }

    /// Finds the value at a numeric index: none, for every expression.
    pub fn access_numeric_property<'e>(&mut self, expr: &'e mut Expr, idx: usize) -> (r: Option<
        &'e mut Expr,
    >)
        ensures
            r is None,
            *final(self) == *old(self),
            *final(expr) == *old(expr),
    {
        None
    }
}

} // verus!
