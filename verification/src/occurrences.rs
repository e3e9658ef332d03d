//! Counting the places of a tree where an identity can be substituted: the
//! identifier expressions and the shorthand properties that carry it.

use crate::ast::ArrowBody;
use crate::ast::AssignTarget;
use crate::ast::Callee;
use crate::ast::Class;
use crate::ast::ClassMember;
use crate::ast::Decl;
use crate::ast::Expr;
use crate::ast::ExprOrSpread;
use crate::ast::Function;
use crate::ast::Id;
use crate::ast::Ident;
use crate::ast::List;
use crate::ast::MemberProp;
use crate::ast::Pat;
use crate::ast::Prop;
use crate::ast::PropName;
use crate::ast::PropOrSpread;
use crate::ast::Stmt;
use crate::ast::VarDeclarator;
use vstd::prelude::*;

verus! {

/// One where `i` carries the identity `id`, else zero.
pub open spec fn hit(i: Ident, id: Id) -> nat {
    if i.id() == id {
        1
    } else {
        0
    }
}

/// The number of substitutable occurrences of `id` in an expression.
pub open spec fn occ_expr(e: Expr, id: Id) -> nat
    decreases e,
{
    match e {
        Expr::Invalid { .. } => 0,
        Expr::Lit { .. } => 0,
        Expr::Ident(i) => hit(i, id),
        Expr::Unary { arg, .. } => occ_expr(*arg, id),
        Expr::Bin { left, right, .. } => occ_expr(*left, id) + occ_expr(*right, id),
        Expr::Assign { left, right, .. } => (match left {
            AssignTarget::Expr(x) => occ_expr(*x, id),
            AssignTarget::Pat(p) => occ_pat(*p, id),
        }) + occ_expr(*right, id),
        Expr::Member { obj, prop, .. } => occ_expr(*obj, id) + (match prop {
            MemberProp::Ident(_) => 0,
            MemberProp::Computed(x) => occ_expr(*x, id),
        }),
        Expr::Cond { test, cons, alt, .. } => occ_expr(*test, id) + occ_expr(*cons, id) + occ_expr(
            *alt,
            id,
        ),
        Expr::Call { callee, args, .. } => (match callee {
            Callee::Super { .. } => 0,
            Callee::Expr(x) => occ_expr(*x, id),
        }) + occ_args(args, id),
        Expr::New { callee, args, .. } => occ_expr(*callee, id) + occ_args(args, id),
        Expr::Sequence { exprs, .. } => occ_exprs(exprs, id),
        Expr::Object { props, .. } => occ_props(props, id),
        Expr::Fn { function, .. } => occ_function(*function, id),
        Expr::Arrow { params, body, .. } => occ_pats(params, id) + (match body {
            ArrowBody::Block(ss) => occ_stmts(ss, id),
            ArrowBody::Expr(x) => occ_expr(*x, id),
        }),
        Expr::Class { class, .. } => occ_class(*class, id),
    }
}

/// The number of substitutable occurrences of `id` in an expression, if there is one.
pub open spec fn occ_opt_expr(e: Option<Box<Expr>>, id: Id) -> nat
    decreases e,
{
    match e {
        Some(x) => occ_expr(*x, id),
        None => 0,
    }
}

/// The number of substitutable occurrences of `id` in a list of expressions.
pub open spec fn occ_exprs(es: List<Expr>, id: Id) -> nat
    decreases es,
{
    match es {
        List::Nil => 0,
        List::Cons(x, rest) => occ_expr(*x, id) + occ_exprs(*rest, id),
    }
}

/// The number of substitutable occurrences of `id` in the arguments of a call.
pub open spec fn occ_args(args: List<ExprOrSpread>, id: Id) -> nat
    decreases args,
{
    match args {
        List::Nil => 0,
        List::Cons(a, rest) => occ_expr(*a.expr, id) + occ_args(*rest, id),
    }
}

/// The number of substitutable occurrences of `id` in a property name.
pub open spec fn occ_prop_name(k: PropName, id: Id) -> nat
    decreases k,
{
    match k {
        PropName::Computed(x) => occ_expr(*x, id),
        _ => 0,
    }
}

/// The number of substitutable occurrences of `id` in a property.
pub open spec fn occ_prop(p: Prop, id: Id) -> nat
    decreases p,
{
    match p {
        Prop::Shorthand(i) => hit(i, id),
        Prop::KeyValue { key, value } => occ_prop_name(key, id) + occ_expr(*value, id),
        Prop::Getter { key, body } => occ_prop_name(key, id) + occ_stmts(body, id),
        Prop::Setter { key, param, body } => occ_prop_name(key, id) + occ_pat(param, id)
            + occ_stmts(body, id),
        Prop::Method { key, function } => occ_prop_name(key, id) + occ_function(*function, id),
    }
}

/// The number of substitutable occurrences of `id` in the properties of an object literal.
pub open spec fn occ_props(ps: List<PropOrSpread>, id: Id) -> nat
    decreases ps,
{
    match ps {
        List::Nil => 0,
        List::Cons(p, rest) => (match *p {
            PropOrSpread::Spread(x) => occ_expr(*x, id),
            PropOrSpread::Prop(q) => occ_prop(q, id),
        }) + occ_props(*rest, id),
    }
}

/// The number of substitutable occurrences of `id` in a function.
pub open spec fn occ_function(f: Function, id: Id) -> nat
    decreases f,
{
    occ_pats(f.params, id) + occ_stmts(f.body, id)
}

/// The number of substitutable occurrences of `id` in a class.
pub open spec fn occ_class(c: Class, id: Id) -> nat
    decreases c,
{
    occ_opt_expr(c.super_class, id) + occ_members(c.body, id)
}

/// The number of substitutable occurrences of `id` in a class member.
pub open spec fn occ_member(m: ClassMember, id: Id) -> nat
    decreases m,
{
    match m {
        ClassMember::Method { key, function } => occ_prop_name(key, id) + occ_function(
            *function,
            id,
        ),
        ClassMember::ClassProp { key, value } => occ_prop_name(key, id) + occ_opt_expr(value, id),
        ClassMember::PrivateProp { value, .. } => occ_opt_expr(value, id),
        ClassMember::Empty { .. } => 0,
    }
}

/// The number of substitutable occurrences of `id` in the members of a class.
pub open spec fn occ_members(ms: List<ClassMember>, id: Id) -> nat
    decreases ms,
{
    match ms {
        List::Nil => 0,
        List::Cons(m, rest) => occ_member(*m, id) + occ_members(*rest, id),
    }
}

/// The number of substitutable occurrences of `id` in a pattern.
pub open spec fn occ_pat(p: Pat, id: Id) -> nat
    decreases p,
{
    match p {
        Pat::Invalid { .. } => 0,
        Pat::Ident(_) => 0,
        Pat::Array { elems, .. } => occ_pats(elems, id),
        Pat::Object { props, .. } => occ_pats(props, id),
        Pat::Rest { arg, .. } => occ_pat(*arg, id),
        Pat::Assign { left, right, .. } => occ_pat(*left, id) + occ_expr(*right, id),
        Pat::Expr(x) => occ_expr(*x, id),
    }
}

/// The number of substitutable occurrences of `id` in a list of patterns.
pub open spec fn occ_pats(ps: List<Pat>, id: Id) -> nat
    decreases ps,
{
    match ps {
        List::Nil => 0,
        List::Cons(p, rest) => occ_pat(*p, id) + occ_pats(*rest, id),
    }
}

/// The number of substitutable occurrences of `id` in a statement.
pub open spec fn occ_stmt(s: Stmt, id: Id) -> nat
    decreases s,
{
    match s {
        Stmt::Empty { .. } => 0,
        Stmt::Expr { expr, .. } => occ_expr(*expr, id),
        Stmt::Return { arg, .. } => occ_opt_expr(arg, id),
        Stmt::Block { stmts, .. } => occ_stmts(stmts, id),
        Stmt::If { test, cons, alt, .. } => occ_expr(*test, id) + occ_stmt(*cons, id) + (match alt {
            Some(x) => occ_stmt(*x, id),
            None => 0,
        }),
        Stmt::Decl(d) => occ_decl(d, id),
    }
}

/// The number of substitutable occurrences of `id` in a list of statements.
pub open spec fn occ_stmts(ss: List<Stmt>, id: Id) -> nat
    decreases ss,
{
    match ss {
        List::Nil => 0,
        List::Cons(s, rest) => occ_stmt(*s, id) + occ_stmts(*rest, id),
    }
}

/// The number of substitutable occurrences of `id` in a declaration.
pub open spec fn occ_decl(d: Decl, id: Id) -> nat
    decreases d,
{
    match d {
        Decl::Var(v) => occ_declarators(v.decls, id),
        Decl::Fn { function, .. } => occ_function(*function, id),
        Decl::Class { class, .. } => occ_class(*class, id),
        _ => 0,
    }
}

/// The number of substitutable occurrences of `id` in a list of variable declarators.
pub open spec fn occ_declarators(ds: List<VarDeclarator>, id: Id) -> nat
    decreases ds,
{
    match ds {
        List::Nil => 0,
        List::Cons(d, rest) => occ_pat(d.name, id) + occ_opt_expr(d.init, id) + occ_declarators(
            *rest,
            id,
        ),
    }
}

} // verus!
