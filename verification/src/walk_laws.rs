//! What every walk of an engine over a tree keeps true: substitutions are
//! only ever used up, and an engine with a single substitution replaces one
//! occurrence at most.

use crate::ast::ArrowBody;
use crate::ast::AssignTarget;
use crate::ast::Callee;
use crate::ast::Class;
use crate::ast::ClassMember;
use crate::ast::Decl;
use crate::ast::Expr;
use crate::ast::ExprOrSpread;
use crate::ast::Function;
use crate::ast::Id;
use crate::ast::List;
use crate::ast::MemberProp;
use crate::ast::Pat;
use crate::ast::Prop;
use crate::ast::PropName;
use crate::ast::PropOrSpread;
use crate::ast::Stmt;
use crate::ast::VarDeclarator;
use crate::occurrences::occ_args;
use crate::occurrences::occ_class;
use crate::occurrences::occ_decl;
use crate::occurrences::occ_declarators;
use crate::occurrences::occ_expr;
use crate::occurrences::occ_exprs;
use crate::occurrences::occ_function;
use crate::occurrences::occ_member;
use crate::occurrences::occ_members;
use crate::occurrences::occ_opt_expr;
use crate::occurrences::occ_pat;
use crate::occurrences::occ_pats;
use crate::occurrences::occ_prop;
use crate::occurrences::occ_prop_name;
use crate::occurrences::occ_props;
use crate::occurrences::occ_stmt;
use crate::occurrences::occ_stmts;
use crate::visit::walk_args;
use crate::visit::walk_class;
use crate::visit::walk_decl;
use crate::visit::walk_declarators;
use crate::visit::walk_expr;
use crate::visit::walk_expr_children;
use crate::visit::walk_exprs;
use crate::visit::walk_function;
use crate::visit::walk_member;
use crate::visit::walk_members;
use crate::visit::walk_opt_expr;
use crate::visit::walk_pat;
use crate::visit::walk_pats;
use crate::visit::walk_prop;
use crate::visit::walk_prop_children;
use crate::visit::walk_prop_name;
use crate::visit::walk_props;
use crate::visit::walk_stmt;
use crate::visit::walk_stmts;
use crate::visit::Engine;
use vstd::prelude::*;

verus! {

/// How an engine `b` stands to the engine `a` that it came from by walking:
/// the remapping is the same; a substitution that was applied stays applied;
/// where none was applied the engine is as before; and the pending
/// substitutions, if finitely many, are no more than before and fewer where
/// one was newly applied.
pub open spec fn worn(a: Engine, b: Engine) -> bool {
    &&& b.remap == a.remap
    &&& (a.changed ==> b.changed)
    &&& (!b.changed ==> b == a)
    &&& (a.pending.dom().finite() ==> b.pending.dom().finite() && b.pending.len()
        <= a.pending.len() && (b.changed && !a.changed ==> b.pending.len() < a.pending.len()))
    &&& forall|k: Id| b.pending.contains_key(k) ==> a.pending.contains_key(k)
}

/// Whether the engine remaps nothing.
pub open spec fn unmapped(g: Engine) -> bool {
    forall|k: Id| !g.remap.contains_key(k)
}

/// Where the engine remaps nothing and `id` occurred in what it walked, no
/// substitution for `id` is pending any more.
pub open spec fn used(g: Engine, id: Id, before: nat, g2: Engine) -> bool {
    unmapped(g) && before > 0 ==> !g2.pending.contains_key(id)
}

/// Whether the engine remaps nothing and holds no substitution but, at most,
/// one for `id`.
pub open spec fn lone(g: Engine, id: Id) -> bool {
    &&& unmapped(g)
    &&& forall|k: Id| g.pending.contains_key(k) ==> k == id
}

/// What a walk of an engine with a single substitution does, in terms of the
/// occurrences of `id` before and after it: where the substitution was
/// pending and `id` occurred, the substitution is used up and one occurrence
/// has given way to the replacement; otherwise nothing has changed.
pub open spec fn exact(g: Engine, id: Id, before: nat, g2: Engine, after: nat, same: bool) -> bool {
    lone(g, id) ==> lone(g2, id) && if g.pending.contains_key(id) && before > 0 {
        !g2.pending.contains_key(id) && g2.changed && after + 1 == before + occ_expr(
            g.pending[id],
            id,
        )
    } else {
        same && g2 == g && after == before
    }
}

/// Where the engine remaps nothing and has applied no substitution, what it
/// walked is as before.
pub open spec fn quiet(g: Engine, g2: Engine, same: bool) -> bool {
    unmapped(g) && !g2.changed ==> same
}

/// All of the above.
#[verifier::opaque]
pub open spec fn step(g: Engine, id: Id, before: nat, g2: Engine, after: nat, same: bool) -> bool {
    worn(g, g2) && exact(g, id, before, g2, after, same) && used(g, id, before, g2) && quiet(
        g,
        g2,
        same,
    )
}

/// Using a pending substitution up leaves fewer of them.
pub proof fn lemma_consumed(g: Engine, k: Id)
    requires
        g.pending.contains_key(k),
    ensures
        worn(g, g.consumed(k)),
        !g.consumed(k).pending.contains_key(k),
        forall|j: Id| g.consumed(k).pending.contains_key(j) ==> g.pending.contains_key(j),
{
    assert(g.pending.remove(k).dom() == g.pending.dom().remove(k));
    if g.pending.dom().finite() {
        assert(g.pending.dom().remove(k).finite());
        assert(g.pending.dom().remove(k).len() + 1 == g.pending.dom().len());
    }
}

/// Where the engine remaps nothing, it leaves every identifier as it is.
proof fn lemma_ident_kept(g: Engine)
    requires
        unmapped(g),
    ensures
        forall|i: crate::ast::Ident| #[trigger] g.ident(i) == i,
        forall|i: Option<crate::ast::Ident>| #[trigger] g.opt_ident(i) == i,
{
}

proof fn lemma_hook_expr(g: Engine, e: Expr, id: Id)
    ensures
        e is Ident ==> step(
            g,
            id,
            occ_expr(e, id),
            g.expr(e).0,
            occ_expr(g.expr(e).1, id),
            g.expr(e).1 == e,
        ),
        !(e is Ident) ==> g.expr(e) == (g, e),
{
    reveal(step);
    match e {
        Expr::Ident(i) => {
            if g.pending.contains_key(i.id()) {
                lemma_consumed(g, i.id());
            }
        },
        _ => {},
    }
}

proof fn lemma_hook_prop(g: Engine, p: Prop, id: Id)
    ensures
        p is Shorthand ==> step(
            g,
            id,
            occ_prop(p, id),
            g.prop(p).0,
            occ_prop(g.prop(p).1, id),
            g.prop(p).1 == p,
        ),
        !(p is Shorthand) ==> g.prop(p) == (g, p),
{
    reveal(step);
    match p {
        Prop::Shorthand(i) => {
            if g.pending.contains_key(i.id()) {
                lemma_consumed(g, i.id());
            }
        },
        _ => {},
    }
}

/// An engine that does nothing stands to itself as after a walk.
proof fn lemma_stay(g: Engine, id: Id)
    ensures
        step(g, id, 0, g, 0, true),
{
    reveal(step);
}

/// Where the engine remaps nothing, an identifier that it has looked at does
/// not tell the tree from what it was.
proof fn lemma_with_idents(g: Engine, id: Id, b: nat, g2: Engine, a: nat, same: bool, kept: bool)
    requires
        step(g, id, b, g2, a, same),
        unmapped(g) ==> kept,
    ensures
        step(g, id, b, g2, a, same && kept),
{
    reveal(step);
}

/// A walk leaves the remapping alone.
proof fn lemma_remap_kept(g: Engine, id: Id, b: nat, g2: Engine, a: nat, same: bool)
    requires
        step(g, id, b, g2, a, same),
    ensures
        g2.remap == g.remap,
{
    reveal(step);
}

/// Two walks in a row stand to their start as one walk does.
proof fn lemma_then(
    g: Engine,
    g1: Engine,
    g2: Engine,
    id: Id,
    b1: nat,
    a1: nat,
    s1: bool,
    b2: nat,
    a2: nat,
    s2: bool,
)
    requires
        step(g, id, b1, g1, a1, s1),
        step(g1, id, b2, g2, a2, s2),
    ensures
        step(g, id, b1 + b2, g2, a1 + a2, s1 && s2),
{
    reveal(step);
}

/// A walk over an expression only uses substitutions up, and with a single
/// substitution it replaces one occurrence at most.
pub proof fn lemma_expr(g: Engine, e: Expr, id: Id)
    ensures
        step(
            g,
            id,
            occ_expr(e, id),
            walk_expr(g, e).0,
            occ_expr(walk_expr(g, e).1, id),
            walk_expr(g, e).1 == e,
        ),
    decreases e, 1nat,
{
    reveal(step);
    lemma_expr_children(g, e, id);
    let (g1, e1) = walk_expr_children(g, e);
    lemma_hook_expr(g1, e1, id);
    if unmapped(g) {
        lemma_ident_kept(g);
    }
    assert(e is Ident ==> g1 == g);
    assert(e is Ident <==> e1 is Ident);
}

proof fn lemma_expr_children(g: Engine, e: Expr, id: Id)
    ensures
        !(e is Ident) ==> step(
            g,
            id,
            occ_expr(e, id),
            walk_expr_children(g, e).0,
            occ_expr(walk_expr_children(g, e).1, id),
            walk_expr_children(g, e).1 == e,
        ),
    decreases e, 0nat,
{
    if unmapped(g) {
        lemma_ident_kept(g);
    }
    match e {
        Expr::Invalid { .. } => {
            lemma_stay(g, id);
        },
        Expr::Lit { .. } => {
            lemma_stay(g, id);
        },
        Expr::Ident(_) => {},
        Expr::Unary { arg, .. } => {
            lemma_expr(g, *arg, id);
        },
        Expr::Bin { left, right, .. } => {
            lemma_expr(g, *left, id);
            let (g1, l) = walk_expr(g, *left);
            lemma_expr(g1, *right, id);
            let (g2, r) = walk_expr(g1, *right);
            lemma_then(
                g,
                g1,
                g2,
                id,
                occ_expr(*left, id),
                occ_expr(l, id),
                l == *left,
                occ_expr(*right, id),
                occ_expr(r, id),
                r == *right,
            );
        },
        Expr::Assign { left, right, .. } => {
            match left {
                AssignTarget::Expr(x) => {
                    lemma_expr(g, *x, id);
                    let (g1, l) = walk_expr(g, *x);
                    lemma_expr(g1, *right, id);
                    let (g2, r) = walk_expr(g1, *right);
                    lemma_then(
                        g,
                        g1,
                        g2,
                        id,
                        occ_expr(*x, id),
                        occ_expr(l, id),
                        l == *x,
                        occ_expr(*right, id),
                        occ_expr(r, id),
                        r == *right,
                    );
                },
                AssignTarget::Pat(p) => {
                    lemma_pat(g, *p, id);
                    let (g1, l) = walk_pat(g, *p);
                    lemma_expr(g1, *right, id);
                    let (g2, r) = walk_expr(g1, *right);
                    lemma_then(
                        g,
                        g1,
                        g2,
                        id,
                        occ_pat(*p, id),
                        occ_pat(l, id),
                        l == *p,
                        occ_expr(*right, id),
                        occ_expr(r, id),
                        r == *right,
                    );
                },
            }
        },
        Expr::Member { obj, prop, .. } => {
            lemma_expr(g, *obj, id);
            let (g1, o) = walk_expr(g, *obj);
            match prop {
                MemberProp::Ident(i) => {
                    lemma_remap_kept(g, id, occ_expr(*obj, id), g1, occ_expr(o, id), o == *obj);
                    lemma_with_idents(
                        g,
                        id,
                        occ_expr(*obj, id),
                        g1,
                        occ_expr(o, id),
                        o == *obj,
                        g1.ident(i) == i,
                    );
                },
                MemberProp::Computed(x) => {
                    lemma_expr(g1, *x, id);
                    let (g2, x1) = walk_expr(g1, *x);
                    lemma_then(
                        g,
                        g1,
                        g2,
                        id,
                        occ_expr(*obj, id),
                        occ_expr(o, id),
                        o == *obj,
                        occ_expr(*x, id),
                        occ_expr(x1, id),
                        x1 == *x,
                    );
                },
            }
        },
        Expr::Cond { test, cons, alt, .. } => {
            lemma_expr(g, *test, id);
            let (g1, t) = walk_expr(g, *test);
            lemma_expr(g1, *cons, id);
            let (g2, c) = walk_expr(g1, *cons);
            lemma_expr(g2, *alt, id);
            let (g3, a) = walk_expr(g2, *alt);
            lemma_then(
                g,
                g1,
                g2,
                id,
                occ_expr(*test, id),
                occ_expr(t, id),
                t == *test,
                occ_expr(*cons, id),
                occ_expr(c, id),
                c == *cons,
            );
            lemma_then(
                g,
                g2,
                g3,
                id,
                occ_expr(*test, id) + occ_expr(*cons, id),
                occ_expr(t, id) + occ_expr(c, id),
                t == *test && c == *cons,
                occ_expr(*alt, id),
                occ_expr(a, id),
                a == *alt,
            );
        },
        Expr::Call { callee, args, .. } => {
            match callee {
                Callee::Super { .. } => {
                    lemma_args(g, args, id);
                },
                Callee::Expr(x) => {
                    lemma_expr(g, *x, id);
                    let (g1, x1) = walk_expr(g, *x);
                    lemma_args(g1, args, id);
                    let (g2, a) = walk_args(g1, args);
                    lemma_then(
                        g,
                        g1,
                        g2,
                        id,
                        occ_expr(*x, id),
                        occ_expr(x1, id),
                        x1 == *x,
                        occ_args(args, id),
                        occ_args(a, id),
                        a == args,
                    );
                },
            }
        },
        Expr::New { callee, args, .. } => {
            lemma_expr(g, *callee, id);
            let (g1, x1) = walk_expr(g, *callee);
            lemma_args(g1, args, id);
            let (g2, a) = walk_args(g1, args);
            lemma_then(
                g,
                g1,
                g2,
                id,
                occ_expr(*callee, id),
                occ_expr(x1, id),
                x1 == *callee,
                occ_args(args, id),
                occ_args(a, id),
                a == args,
            );
        },
        Expr::Sequence { exprs, .. } => {
            lemma_exprs(g, exprs, id);
        },
        Expr::Object { props, .. } => {
            lemma_props(g, props, id);
        },
        Expr::Fn { ident, function } => {
            lemma_function(g, *function, id);
            let (g1, f) = walk_function(g, *function);
            lemma_with_idents(
                g,
                id,
                occ_function(*function, id),
                g1,
                occ_function(f, id),
                f == *function,
                g.opt_ident(ident) == ident,
            );
        },
        Expr::Arrow { params, body, .. } => {
            lemma_pats(g, params, id);
            let (g1, ps) = walk_pats(g, params);
            match body {
                ArrowBody::Block(ss) => {
                    lemma_stmts(g1, ss, id);
                    let (g2, b) = walk_stmts(g1, ss);
                    lemma_then(
                        g,
                        g1,
                        g2,
                        id,
                        occ_pats(params, id),
                        occ_pats(ps, id),
                        ps == params,
                        occ_stmts(ss, id),
                        occ_stmts(b, id),
                        b == ss,
                    );
                },
                ArrowBody::Expr(x) => {
                    lemma_expr(g1, *x, id);
                    let (g2, b) = walk_expr(g1, *x);
                    lemma_then(
                        g,
                        g1,
                        g2,
                        id,
                        occ_pats(params, id),
                        occ_pats(ps, id),
                        ps == params,
                        occ_expr(*x, id),
                        occ_expr(b, id),
                        b == *x,
                    );
                },
            }
        },
        Expr::Class { ident, class } => {
            lemma_class(g, *class, id);
            let (g1, c) = walk_class(g, *class);
            lemma_with_idents(
                g,
                id,
                occ_class(*class, id),
                g1,
                occ_class(c, id),
                c == *class,
                g.opt_ident(ident) == ident,
            );
        },
    }
}

proof fn lemma_opt_expr(g: Engine, e: Option<Box<Expr>>, id: Id)
    ensures
        step(
            g,
            id,
            occ_opt_expr(e, id),
            walk_opt_expr(g, e).0,
            occ_opt_expr(walk_opt_expr(g, e).1, id),
            walk_opt_expr(g, e).1 == e,
        ),
    decreases e,
{
    reveal(step);
    match e {
        Some(x) => {
            lemma_expr(g, *x, id);
        },
        None => {},
    }
}

proof fn lemma_exprs(g: Engine, es: List<Expr>, id: Id)
    ensures
        step(
            g,
            id,
            occ_exprs(es, id),
            walk_exprs(g, es).0,
            occ_exprs(walk_exprs(g, es).1, id),
            walk_exprs(g, es).1 == es,
        ),
    decreases es,
{
    reveal(step);
    match es {
        List::Nil => {},
        List::Cons(x, rest) => {
            lemma_expr(g, *x, id);
            lemma_exprs(walk_expr(g, *x).0, *rest, id);
        },
    }
}

proof fn lemma_args(g: Engine, args: List<ExprOrSpread>, id: Id)
    ensures
        step(
            g,
            id,
            occ_args(args, id),
            walk_args(g, args).0,
            occ_args(walk_args(g, args).1, id),
            walk_args(g, args).1 == args,
        ),
    decreases args,
{
    reveal(step);
    match args {
        List::Nil => {},
        List::Cons(a, rest) => {
            lemma_expr(g, *a.expr, id);
            lemma_args(walk_expr(g, *a.expr).0, *rest, id);
        },
    }
}

proof fn lemma_prop_name(g: Engine, k: PropName, id: Id)
    ensures
        step(
            g,
            id,
            occ_prop_name(k, id),
            walk_prop_name(g, k).0,
            occ_prop_name(walk_prop_name(g, k).1, id),
            walk_prop_name(g, k).1 == k,
        ),
    decreases k,
{
    reveal(step);
    if unmapped(g) {
        lemma_ident_kept(g);
    }
    match k {
        PropName::Computed(x) => {
            lemma_expr(g, *x, id);
        },
        _ => {},
    }
}

/// A walk over a property only uses substitutions up, and with a single
/// substitution it replaces one occurrence at most.
pub proof fn lemma_prop(g: Engine, p: Prop, id: Id)
    ensures
        step(
            g,
            id,
            occ_prop(p, id),
            walk_prop(g, p).0,
            occ_prop(walk_prop(g, p).1, id),
            walk_prop(g, p).1 == p,
        ),
    decreases p, 1nat,
{
    reveal(step);
    lemma_prop_children(g, p, id);
    let (g1, p1) = walk_prop_children(g, p);
    lemma_hook_prop(g1, p1, id);
    if unmapped(g) {
        lemma_ident_kept(g);
    }
    assert(p is Shorthand ==> g1 == g);
    assert(p is Shorthand <==> p1 is Shorthand);
}

proof fn lemma_prop_children(g: Engine, p: Prop, id: Id)
    ensures
        !(p is Shorthand) ==> step(
            g,
            id,
            occ_prop(p, id),
            walk_prop_children(g, p).0,
            occ_prop(walk_prop_children(g, p).1, id),
            walk_prop_children(g, p).1 == p,
        ),
    decreases p, 0nat,
{
    if unmapped(g) {
        lemma_ident_kept(g);
    }
    match p {
        Prop::Shorthand(_) => {},
        Prop::KeyValue { key, value } => {
            lemma_prop_name(g, key, id);
            let (g1, k1) = walk_prop_name(g, key);
            lemma_expr(g1, *value, id);
            let (g2, v) = walk_expr(g1, *value);
            lemma_then(
                g,
                g1,
                g2,
                id,
                occ_prop_name(key, id),
                occ_prop_name(k1, id),
                k1 == key,
                occ_expr(*value, id),
                occ_expr(v, id),
                v == *value,
            );
        },
        Prop::Getter { key, body } => {
            lemma_prop_name(g, key, id);
            let (g1, k1) = walk_prop_name(g, key);
            lemma_stmts(g1, body, id);
            let (g2, b) = walk_stmts(g1, body);
            lemma_then(
                g,
                g1,
                g2,
                id,
                occ_prop_name(key, id),
                occ_prop_name(k1, id),
                k1 == key,
                occ_stmts(body, id),
                occ_stmts(b, id),
                b == body,
            );
        },
        Prop::Setter { key, param, body } => {
            lemma_prop_name(g, key, id);
            let (g1, k1) = walk_prop_name(g, key);
            lemma_pat(g1, param, id);
            let (g2, p1) = walk_pat(g1, param);
            lemma_stmts(g2, body, id);
            let (g3, b1) = walk_stmts(g2, body);
            lemma_then(
                g,
                g1,
                g2,
                id,
                occ_prop_name(key, id),
                occ_prop_name(k1, id),
                k1 == key,
                occ_pat(param, id),
                occ_pat(p1, id),
                p1 == param,
            );
            lemma_then(
                g,
                g2,
                g3,
                id,
                occ_prop_name(key, id) + occ_pat(param, id),
                occ_prop_name(k1, id) + occ_pat(p1, id),
                k1 == key && p1 == param,
                occ_stmts(body, id),
                occ_stmts(b1, id),
                b1 == body,
            );
        },
        Prop::Method { key, function } => {
            lemma_prop_name(g, key, id);
            let (g1, k1) = walk_prop_name(g, key);
            lemma_function(g1, *function, id);
            let (g2, f) = walk_function(g1, *function);
            lemma_then(
                g,
                g1,
                g2,
                id,
                occ_prop_name(key, id),
                occ_prop_name(k1, id),
                k1 == key,
                occ_function(*function, id),
                occ_function(f, id),
                f == *function,
            );
        },
    }
}

proof fn lemma_props(g: Engine, ps: List<PropOrSpread>, id: Id)
    ensures
        step(
            g,
            id,
            occ_props(ps, id),
            walk_props(g, ps).0,
            occ_props(walk_props(g, ps).1, id),
            walk_props(g, ps).1 == ps,
        ),
    decreases ps,
{
    reveal(step);
    match ps {
        List::Nil => {},
        List::Cons(p, rest) => {
            let g1 = match *p {
                PropOrSpread::Spread(x) => {
                    lemma_expr(g, *x, id);
                    walk_expr(g, *x).0
                },
                PropOrSpread::Prop(q) => {
                    lemma_prop(g, q, id);
                    walk_prop(g, q).0
                },
            };
            lemma_props(g1, *rest, id);
        },
    }
}

/// A walk over a function only uses substitutions up, and with a single
/// substitution it replaces one occurrence at most.
pub proof fn lemma_function(g: Engine, f: Function, id: Id)
    ensures
        step(
            g,
            id,
            occ_function(f, id),
            walk_function(g, f).0,
            occ_function(walk_function(g, f).1, id),
            walk_function(g, f).1 == f,
        ),
    decreases f,
{
    reveal(step);
    lemma_pats(g, f.params, id);
    lemma_stmts(walk_pats(g, f.params).0, f.body, id);
}

proof fn lemma_class(g: Engine, c: Class, id: Id)
    ensures
        step(
            g,
            id,
            occ_class(c, id),
            walk_class(g, c).0,
            occ_class(walk_class(g, c).1, id),
            walk_class(g, c).1 == c,
        ),
    decreases c,
{
    reveal(step);
    lemma_opt_expr(g, c.super_class, id);
    lemma_members(walk_opt_expr(g, c.super_class).0, c.body, id);
}

proof fn lemma_member(g: Engine, m: ClassMember, id: Id)
    ensures
        step(
            g,
            id,
            occ_member(m, id),
            walk_member(g, m).0,
            occ_member(walk_member(g, m).1, id),
            walk_member(g, m).1 == m,
        ),
    decreases m,
{
    reveal(step);
    match m {
        ClassMember::Method { key, function } => {
            lemma_prop_name(g, key, id);
            lemma_function(walk_prop_name(g, key).0, *function, id);
        },
        ClassMember::ClassProp { key, value } => {
            lemma_prop_name(g, key, id);
            lemma_opt_expr(walk_prop_name(g, key).0, value, id);
        },
        ClassMember::PrivateProp { value, .. } => {
            lemma_opt_expr(g, value, id);
        },
        ClassMember::Empty { .. } => {},
    }
}

proof fn lemma_members(g: Engine, ms: List<ClassMember>, id: Id)
    ensures
        step(
            g,
            id,
            occ_members(ms, id),
            walk_members(g, ms).0,
            occ_members(walk_members(g, ms).1, id),
            walk_members(g, ms).1 == ms,
        ),
    decreases ms,
{
    reveal(step);
    match ms {
        List::Nil => {},
        List::Cons(m, rest) => {
            lemma_member(g, *m, id);
            lemma_members(walk_member(g, *m).0, *rest, id);
        },
    }
}

/// A walk over a pattern only uses substitutions up, and with a single
/// substitution it replaces one occurrence at most.
pub proof fn lemma_pat(g: Engine, p: Pat, id: Id)
    ensures
        step(
            g,
            id,
            occ_pat(p, id),
            walk_pat(g, p).0,
            occ_pat(walk_pat(g, p).1, id),
            walk_pat(g, p).1 == p,
        ),
    decreases p,
{
    reveal(step);
    if unmapped(g) {
        lemma_ident_kept(g);
    }
    match p {
        Pat::Invalid { .. } => {},
        Pat::Ident(_) => {},
        Pat::Array { elems, .. } => {
            lemma_pats(g, elems, id);
        },
        Pat::Object { props, .. } => {
            lemma_pats(g, props, id);
        },
        Pat::Rest { arg, .. } => {
            lemma_pat(g, *arg, id);
        },
        Pat::Assign { left, right, .. } => {
            lemma_pat(g, *left, id);
            lemma_expr(walk_pat(g, *left).0, *right, id);
        },
        Pat::Expr(x) => {
            lemma_expr(g, *x, id);
        },
    }
}

proof fn lemma_pats(g: Engine, ps: List<Pat>, id: Id)
    ensures
        step(
            g,
            id,
            occ_pats(ps, id),
            walk_pats(g, ps).0,
            occ_pats(walk_pats(g, ps).1, id),
            walk_pats(g, ps).1 == ps,
        ),
    decreases ps,
{
    reveal(step);
    match ps {
        List::Nil => {},
        List::Cons(p, rest) => {
            lemma_pat(g, *p, id);
            lemma_pats(walk_pat(g, *p).0, *rest, id);
        },
    }
}

/// A walk over a statement only uses substitutions up, and with a single
/// substitution it replaces one occurrence at most.
pub proof fn lemma_stmt(g: Engine, s: Stmt, id: Id)
    ensures
        step(
            g,
            id,
            occ_stmt(s, id),
            walk_stmt(g, s).0,
            occ_stmt(walk_stmt(g, s).1, id),
            walk_stmt(g, s).1 == s,
        ),
    decreases s,
{
    reveal(step);
    match s {
        Stmt::Empty { .. } => {},
        Stmt::Expr { expr, .. } => {
            lemma_expr(g, *expr, id);
        },
        Stmt::Return { arg, .. } => {
            lemma_opt_expr(g, arg, id);
        },
        Stmt::Block { stmts, .. } => {
            lemma_stmts(g, stmts, id);
        },
        Stmt::If { test, cons, alt, .. } => {
            lemma_expr(g, *test, id);
            let g1 = walk_expr(g, *test).0;
            lemma_stmt(g1, *cons, id);
            match alt {
                Some(x) => {
                    lemma_stmt(walk_stmt(g1, *cons).0, *x, id);
                },
                None => {},
            }
        },
        Stmt::Decl(d) => {
            lemma_decl(g, d, id);
        },
    }
}

/// A walk over statements only uses substitutions up, and with a single
/// substitution it replaces one occurrence at most.
pub proof fn lemma_stmts(g: Engine, ss: List<Stmt>, id: Id)
    ensures
        step(
            g,
            id,
            occ_stmts(ss, id),
            walk_stmts(g, ss).0,
            occ_stmts(walk_stmts(g, ss).1, id),
            walk_stmts(g, ss).1 == ss,
        ),
    decreases ss,
{
    reveal(step);
    match ss {
        List::Nil => {},
        List::Cons(s, rest) => {
            lemma_stmt(g, *s, id);
            lemma_stmts(walk_stmt(g, *s).0, *rest, id);
        },
    }
}

proof fn lemma_decl(g: Engine, d: Decl, id: Id)
    ensures
        step(
            g,
            id,
            occ_decl(d, id),
            walk_decl(g, d).0,
            occ_decl(walk_decl(g, d).1, id),
            walk_decl(g, d).1 == d,
        ),
    decreases d,
{
    reveal(step);
    if unmapped(g) {
        lemma_ident_kept(g);
    }
    match d {
        Decl::Var(v) => {
            lemma_declarators(g, v.decls, id);
        },
        Decl::Fn { function, .. } => {
            lemma_function(g, *function, id);
        },
        Decl::Class { class, .. } => {
            lemma_class(g, *class, id);
        },
        _ => {},
    }
}

proof fn lemma_declarators(g: Engine, ds: List<VarDeclarator>, id: Id)
    ensures
        step(
            g,
            id,
            occ_declarators(ds, id),
            walk_declarators(g, ds).0,
            occ_declarators(walk_declarators(g, ds).1, id),
            walk_declarators(g, ds).1 == ds,
        ),
    decreases ds,
{
    reveal(step);
    match ds {
        List::Nil => {},
        List::Cons(d, rest) => {
            lemma_pat(g, d.name, id);
            let g1 = walk_pat(g, d.name).0;
            lemma_opt_expr(g1, d.init, id);
            lemma_declarators(walk_opt_expr(g1, d.init).0, *rest, id);
        },
    }
}

} // verus!
