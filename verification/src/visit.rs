//! The traversal that the substitution engines share: every node is visited
//! after its children, in source order, and an engine may rewrite an
//! identifier, an expression or a property when its turn comes.

use crate::ast::ArrowBody;
use crate::ast::AssignTarget;
use crate::ast::Callee;
use crate::ast::Class;
use crate::ast::ClassMember;
use crate::ast::Decl;
use crate::ast::Expr;
use crate::ast::ExprOrSpread;
use crate::ast::Function;
use crate::ast::Id;
use crate::ast::Ident;
use crate::ast::List;
use crate::ast::MemberProp;
use crate::ast::Pat;
use crate::ast::Prop;
use crate::ast::PropName;
use crate::ast::PropOrSpread;
use crate::ast::Stmt;
use crate::ast::SyntaxContext;
use crate::ast::VarDecl;
use crate::ast::VarDeclarator;
use vstd::prelude::*;

verus! {

/// What an engine holds while it walks a tree.
pub struct Engine {
    /// The hygiene context that each of these identities is moved to.
    pub remap: Map<Id, SyntaxContext>,
    /// The substitutions that have not been applied yet.
    pub pending: Map<Id, Expr>,
    /// Whether a substitution has been applied.
    pub changed: bool,
}

impl Engine {
    /// The identifier `i` as the engine leaves it.
    pub open spec fn ident(self, i: Ident) -> Ident {
        if self.remap.contains_key(i.id()) {
            Ident { ctxt: self.remap[i.id()], ..i }
        } else {
            i
        }
    }

    /// The engine after it has used up the substitution for `id`.
    pub open spec fn consumed(self, id: Id) -> Engine {
        Engine { pending: self.pending.remove(id), changed: true, ..self }
    }

    /// The engine and the expression `e` after the engine has looked at `e`:
    /// an identifier with a pending substitution gives way to its replacement,
    /// which is thereby used up.
    pub open spec fn expr(self, e: Expr) -> (Engine, Expr) {
        match e {
            Expr::Ident(i) => if self.pending.contains_key(i.id()) {
                (self.consumed(i.id()), self.pending[i.id()])
            } else {
                (self, e)
            },
            _ => (self, e),
        }
    }

    /// The engine and the property `p` after the engine has looked at `p`: a
    /// shorthand whose name has a pending substitution becomes a key-value
    /// property that carries the replacement.
    pub open spec fn prop(self, p: Prop) -> (Engine, Prop) {
        match p {
            Prop::Shorthand(i) => if self.pending.contains_key(i.id()) {
                (
                    self.consumed(i.id()),
                    Prop::KeyValue { key: PropName::Ident(i), value: Box::new(self.pending[i.id()]) },
                )
            } else {
                (self, p)
            },
            _ => (self, p),
        }
    }

    /// The identifier `i`, if there is one, as the engine leaves it.
    pub open spec fn opt_ident(self, i: Option<Ident>) -> Option<Ident> {
        match i {
            Some(i) => Some(self.ident(i)),
            None => None,
        }
    }
}

/// An engine that the traversal can drive.
pub trait Rewrite {
    /// What the engine holds.
    spec fn engine(&self) -> Engine;

    /// Looks at an identifier.
    fn on_ident(&mut self, i: &mut Ident)
        ensures
            final(self).engine() == old(self).engine(),
            *final(i) == old(self).engine().ident(*old(i)),
    ;

    /// Looks at an expression whose children have been visited.
    fn on_expr(&mut self, e: &mut Expr)
        ensures
            (final(self).engine(), *final(e)) == old(self).engine().expr(*old(e)),
    ;

    /// Looks at a property whose children have been visited.
    fn on_prop(&mut self, p: &mut Prop)
        ensures
            (final(self).engine(), *final(p)) == old(self).engine().prop(*old(p)),
    ;
}

/// The engine and the expression after a walk: the children first, in source
/// order, then the expression itself.
pub open spec fn walk_expr(g: Engine, e: Expr) -> (Engine, Expr)
    decreases e, 1nat,
{
    let (g1, e1) = walk_expr_children(g, e);
    g1.expr(e1)
}

/// The engine and the expression after the engine has walked the children of
/// the expression.
pub open spec fn walk_expr_children(g: Engine, e: Expr) -> (Engine, Expr)
    decreases e, 0nat,
{
    match e {
        Expr::Invalid { .. } => (g, e),
        Expr::Lit { .. } => (g, e),
        Expr::Ident(i) => (g, Expr::Ident(g.ident(i))),
        Expr::Unary { span, op, arg } => {
            let (g1, a) = walk_expr(g, *arg);
            (g1, Expr::Unary { span, op, arg: Box::new(a) })
        },
        Expr::Bin { span, op, left, right } => {
            let (g1, l) = walk_expr(g, *left);
            let (g2, r) = walk_expr(g1, *right);
            (g2, Expr::Bin { span, op, left: Box::new(l), right: Box::new(r) })
        },
        Expr::Assign { span, op, left, right } => {
            let (g1, l) = match left {
                AssignTarget::Expr(x) => {
                    let (g1, x1) = walk_expr(g, *x);
                    (g1, AssignTarget::Expr(Box::new(x1)))
                },
                AssignTarget::Pat(p) => {
                    let (g1, p1) = walk_pat(g, *p);
                    (g1, AssignTarget::Pat(Box::new(p1)))
                },
            };
            let (g2, r) = walk_expr(g1, *right);
            (g2, Expr::Assign { span, op, left: l, right: Box::new(r) })
        },
        Expr::Member { span, obj, prop } => {
            let (g1, o) = walk_expr(g, *obj);
            let (g2, p) = match prop {
                MemberProp::Ident(i) => (g1, MemberProp::Ident(g1.ident(i))),
                MemberProp::Computed(x) => {
                    let (g2, x1) = walk_expr(g1, *x);
                    (g2, MemberProp::Computed(Box::new(x1)))
                },
            };
            (g2, Expr::Member { span, obj: Box::new(o), prop: p })
        },
        Expr::Cond { span, test, cons, alt } => {
            let (g1, t) = walk_expr(g, *test);
            let (g2, c) = walk_expr(g1, *cons);
            let (g3, a) = walk_expr(g2, *alt);
            (g3, Expr::Cond { span, test: Box::new(t), cons: Box::new(c), alt: Box::new(a) })
        },
        Expr::Call { span, callee, args } => {
            let (g1, c) = match callee {
                Callee::Super { .. } => (g, callee),
                Callee::Expr(x) => {
                    let (g1, x1) = walk_expr(g, *x);
                    (g1, Callee::Expr(Box::new(x1)))
                },
            };
            let (g2, a) = walk_args(g1, args);
            (g2, Expr::Call { span, callee: c, args: a })
        },
        Expr::New { span, callee, args } => {
            let (g1, c) = walk_expr(g, *callee);
            let (g2, a) = walk_args(g1, args);
            (g2, Expr::New { span, callee: Box::new(c), args: a })
        },
        Expr::Sequence { span, exprs } => {
            let (g1, x) = walk_exprs(g, exprs);
            (g1, Expr::Sequence { span, exprs: x })
        },
        Expr::Object { span, props } => {
            let (g1, p) = walk_props(g, props);
            (g1, Expr::Object { span, props: p })
        },
        Expr::Fn { ident, function } => {
            let (g1, f) = walk_function(g, *function);
            (g1, Expr::Fn { ident: g.opt_ident(ident), function: Box::new(f) })
        },
        Expr::Arrow { span, params, body } => {
            let (g1, p) = walk_pats(g, params);
            let (g2, b) = match body {
                ArrowBody::Block(ss) => {
                    let (g2, ss1) = walk_stmts(g1, ss);
                    (g2, ArrowBody::Block(ss1))
                },
                ArrowBody::Expr(x) => {
                    let (g2, x1) = walk_expr(g1, *x);
                    (g2, ArrowBody::Expr(Box::new(x1)))
                },
            };
            (g2, Expr::Arrow { span, params: p, body: b })
        },
        Expr::Class { ident, class } => {
            let (g1, c) = walk_class(g, *class);
            (g1, Expr::Class { ident: g.opt_ident(ident), class: Box::new(c) })
        },
    }
}

/// The engine and the expression, if there is one, after the engine has
/// walked it.
pub open spec fn walk_opt_expr(g: Engine, e: Option<Box<Expr>>) -> (Engine, Option<Box<Expr>>)
    decreases e,
{
    match e {
        Some(x) => {
            let (g1, x1) = walk_expr(g, *x);
            (g1, Some(Box::new(x1)))
        },
        None => (g, e),
    }
}

/// The engine and the list of expressions after the engine has walked them.
pub open spec fn walk_exprs(g: Engine, es: List<Expr>) -> (Engine, List<Expr>)
    decreases es,
{
    match es {
        List::Nil => (g, es),
        List::Cons(x, rest) => {
            let (g1, x1) = walk_expr(g, *x);
            let (g2, r) = walk_exprs(g1, *rest);
            (g2, List::Cons(Box::new(x1), Box::new(r)))
        },
    }
}

/// The engine and the arguments of the call after the engine has walked them.
pub open spec fn walk_args(g: Engine, args: List<ExprOrSpread>) -> (Engine, List<ExprOrSpread>)
    decreases args,
{
    match args {
        List::Nil => (g, args),
        List::Cons(a, rest) => {
            let (g1, x1) = walk_expr(g, *a.expr);
            let (g2, r) = walk_args(g1, *rest);
            (
                g2,
                List::Cons(
                    Box::new(ExprOrSpread { spread: a.spread, expr: Box::new(x1) }),
                    Box::new(r),
                ),
            )
        },
    }
}

/// The engine and the property name after the engine has walked it.
pub open spec fn walk_prop_name(g: Engine, k: PropName) -> (Engine, PropName)
    decreases k,
{
    match k {
        PropName::Ident(i) => (g, PropName::Ident(g.ident(i))),
        PropName::Computed(x) => {
            let (g1, x1) = walk_expr(g, *x);
            (g1, PropName::Computed(Box::new(x1)))
        },
        _ => (g, k),
    }
}

/// The engine and the property after a walk: the children first, then the
/// property itself.
pub open spec fn walk_prop(g: Engine, p: Prop) -> (Engine, Prop)
    decreases p, 1nat,
{
    let (g1, p1) = walk_prop_children(g, p);
    g1.prop(p1)
}

/// The engine and the property after the engine has walked the children of
/// the property.
pub open spec fn walk_prop_children(g: Engine, p: Prop) -> (Engine, Prop)
    decreases p, 0nat,
{
    match p {
        Prop::Shorthand(i) => (g, Prop::Shorthand(g.ident(i))),
        Prop::KeyValue { key, value } => {
            let (g1, k) = walk_prop_name(g, key);
            let (g2, v) = walk_expr(g1, *value);
            (g2, Prop::KeyValue { key: k, value: Box::new(v) })
        },
        Prop::Getter { key, body } => {
            let (g1, k) = walk_prop_name(g, key);
            let (g2, b) = walk_stmts(g1, body);
            (g2, Prop::Getter { key: k, body: b })
        },
        Prop::Setter { key, param, body } => {
            let (g1, k) = walk_prop_name(g, key);
            let (g2, p1) = walk_pat(g1, param);
            let (g3, b) = walk_stmts(g2, body);
            (g3, Prop::Setter { key: k, param: p1, body: b })
        },
        Prop::Method { key, function } => {
            let (g1, k) = walk_prop_name(g, key);
            let (g2, f) = walk_function(g1, *function);
            (g2, Prop::Method { key: k, function: Box::new(f) })
        },
    }
}

/// The engine and the properties of the object literal after the engine has walked them.
pub open spec fn walk_props(g: Engine, ps: List<PropOrSpread>) -> (Engine, List<PropOrSpread>)
    decreases ps,
{
    match ps {
        List::Nil => (g, ps),
        List::Cons(p, rest) => {
            let (g1, p1) = match *p {
                PropOrSpread::Spread(x) => {
                    let (g1, x1) = walk_expr(g, *x);
                    (g1, PropOrSpread::Spread(Box::new(x1)))
                },
                PropOrSpread::Prop(q) => {
                    let (g1, q1) = walk_prop(g, q);
                    (g1, PropOrSpread::Prop(q1))
                },
            };
            let (g2, r) = walk_props(g1, *rest);
            (g2, List::Cons(Box::new(p1), Box::new(r)))
        },
    }
}

/// The engine and the function after the engine has walked it.
pub open spec fn walk_function(g: Engine, f: Function) -> (Engine, Function)
    decreases f,
{
    let (g1, p) = walk_pats(g, f.params);
    let (g2, b) = walk_stmts(g1, f.body);
    (g2, Function { params: p, body: b, ..f })
}

/// The engine and the class after the engine has walked it.
pub open spec fn walk_class(g: Engine, c: Class) -> (Engine, Class)
    decreases c,
{
    let (g1, s) = walk_opt_expr(g, c.super_class);
    let (g2, b) = walk_members(g1, c.body);
    (g2, Class { super_class: s, body: b, ..c })
}

/// The engine and the class member after the engine has walked it.
pub open spec fn walk_member(g: Engine, m: ClassMember) -> (Engine, ClassMember)
    decreases m,
{
    match m {
        ClassMember::Method { key, function } => {
            let (g1, k) = walk_prop_name(g, key);
            let (g2, f) = walk_function(g1, *function);
            (g2, ClassMember::Method { key: k, function: Box::new(f) })
        },
        ClassMember::ClassProp { key, value } => {
            let (g1, k) = walk_prop_name(g, key);
            let (g2, v) = walk_opt_expr(g1, value);
            (g2, ClassMember::ClassProp { key: k, value: v })
        },
        ClassMember::PrivateProp { key, value } => {
            let (g1, v) = walk_opt_expr(g, value);
            (g1, ClassMember::PrivateProp { key, value: v })
        },
        ClassMember::Empty { .. } => (g, m),
    }
}

/// The engine and the members of the class after the engine has walked them.
pub open spec fn walk_members(g: Engine, ms: List<ClassMember>) -> (Engine, List<ClassMember>)
    decreases ms,
{
    match ms {
        List::Nil => (g, ms),
        List::Cons(m, rest) => {
            let (g1, m1) = walk_member(g, *m);
            let (g2, r) = walk_members(g1, *rest);
            (g2, List::Cons(Box::new(m1), Box::new(r)))
        },
    }
}

/// The engine and the pattern after the engine has walked it.
pub open spec fn walk_pat(g: Engine, p: Pat) -> (Engine, Pat)
    decreases p,
{
    match p {
        Pat::Invalid { .. } => (g, p),
        Pat::Ident(i) => (g, Pat::Ident(g.ident(i))),
        Pat::Array { span, elems } => {
            let (g1, e) = walk_pats(g, elems);
            (g1, Pat::Array { span, elems: e })
        },
        Pat::Object { span, props } => {
            let (g1, e) = walk_pats(g, props);
            (g1, Pat::Object { span, props: e })
        },
        Pat::Rest { span, arg } => {
            let (g1, a) = walk_pat(g, *arg);
            (g1, Pat::Rest { span, arg: Box::new(a) })
        },
        Pat::Assign { span, left, right } => {
            let (g1, l) = walk_pat(g, *left);
            let (g2, r) = walk_expr(g1, *right);
            (g2, Pat::Assign { span, left: Box::new(l), right: Box::new(r) })
        },
        Pat::Expr(x) => {
            let (g1, x1) = walk_expr(g, *x);
            (g1, Pat::Expr(Box::new(x1)))
        },
    }
}

/// The engine and the list of patterns after the engine has walked them.
pub open spec fn walk_pats(g: Engine, ps: List<Pat>) -> (Engine, List<Pat>)
    decreases ps,
{
    match ps {
        List::Nil => (g, ps),
        List::Cons(p, rest) => {
            let (g1, p1) = walk_pat(g, *p);
            let (g2, r) = walk_pats(g1, *rest);
            (g2, List::Cons(Box::new(p1), Box::new(r)))
        },
    }
}

/// The engine and the statement after the engine has walked it.
pub open spec fn walk_stmt(g: Engine, s: Stmt) -> (Engine, Stmt)
    decreases s,
{
    match s {
        Stmt::Empty { .. } => (g, s),
        Stmt::Expr { span, expr } => {
            let (g1, x) = walk_expr(g, *expr);
            (g1, Stmt::Expr { span, expr: Box::new(x) })
        },
        Stmt::Return { span, arg } => {
            let (g1, a) = walk_opt_expr(g, arg);
            (g1, Stmt::Return { span, arg: a })
        },
        Stmt::Block { span, stmts } => {
            let (g1, ss) = walk_stmts(g, stmts);
            (g1, Stmt::Block { span, stmts: ss })
        },
        Stmt::If { span, test, cons, alt } => {
            let (g1, t) = walk_expr(g, *test);
            let (g2, c) = walk_stmt(g1, *cons);
            let (g3, a) = match alt {
                Some(x) => {
                    let (g3, x1) = walk_stmt(g2, *x);
                    (g3, Some(Box::new(x1)))
                },
                None => (g2, alt),
            };
            (g3, Stmt::If { span, test: Box::new(t), cons: Box::new(c), alt: a })
        },
        Stmt::Decl(d) => {
            let (g1, d1) = walk_decl(g, d);
            (g1, Stmt::Decl(d1))
        },
    }
}

/// The engine and the list of statements after the engine has walked them.
pub open spec fn walk_stmts(g: Engine, ss: List<Stmt>) -> (Engine, List<Stmt>)
    decreases ss,
{
    match ss {
        List::Nil => (g, ss),
        List::Cons(s, rest) => {
            let (g1, s1) = walk_stmt(g, *s);
            let (g2, r) = walk_stmts(g1, *rest);
            (g2, List::Cons(Box::new(s1), Box::new(r)))
        },
    }
}

/// The engine and the declaration after the engine has walked it.
pub open spec fn walk_decl(g: Engine, d: Decl) -> (Engine, Decl)
    decreases d,
{
    match d {
        Decl::Var(v) => {
            let (g1, ds) = walk_declarators(g, v.decls);
            (g1, Decl::Var(VarDecl { decls: ds, ..v }))
        },
        Decl::Fn { ident, function } => {
            let (g1, f) = walk_function(g, *function);
            (g1, Decl::Fn { ident: g.ident(ident), function: Box::new(f) })
        },
        Decl::Class { ident, class } => {
            let (g1, c) = walk_class(g, *class);
            (g1, Decl::Class { ident: g.ident(ident), class: Box::new(c) })
        },
        _ => (g, d),
    }
}

/// The engine and the list of variable declarators after the engine has walked them.
pub open spec fn walk_declarators(g: Engine, ds: List<VarDeclarator>) -> (
    Engine,
    List<VarDeclarator>,
)
    decreases ds,
{
    match ds {
        List::Nil => (g, ds),
        List::Cons(d, rest) => {
            let (g1, n) = walk_pat(g, d.name);
            let (g2, i) = walk_opt_expr(g1, d.init);
            let (g3, r) = walk_declarators(g2, *rest);
            (g3, List::Cons(Box::new(VarDeclarator { name: n, init: i, ..*d }), Box::new(r)))
        },
    }
}

/// Walks an expression: its children in source order, then the expression
/// itself.
pub fn visit_expr<H: Rewrite>(h: &mut H, e: &mut Expr)
    ensures
        (final(h).engine(), *final(e)) == walk_expr(old(h).engine(), *old(e)),
    decreases *old(e), 1nat,
{
    visit_expr_children(h, e);
    h.on_expr(e);
}

fn visit_opt_ident<H: Rewrite>(h: &mut H, i: &mut Option<Ident>)
    ensures
        final(h).engine() == old(h).engine(),
        *final(i) == old(h).engine().opt_ident(*old(i)),
{
    match i {
        Some(i) => {
            h.on_ident(i);
        },
        None => {},
    }
}

fn visit_expr_children<H: Rewrite>(h: &mut H, e: &mut Expr)
    ensures
        (final(h).engine(), *final(e)) == walk_expr_children(old(h).engine(), *old(e)),
    decreases *old(e), 0nat,
{
    match e {
        Expr::Invalid { .. } => {},
        Expr::Lit { .. } => {},
        Expr::Ident(i) => {
            h.on_ident(i);
        },
        Expr::Unary { arg, .. } => {
            visit_expr(h, arg);
        },
        Expr::Bin { left, right, .. } => {
            visit_expr(h, left);
            visit_expr(h, right);
        },
        Expr::Assign { left, right, .. } => {
            match left {
                AssignTarget::Expr(x) => {
                    visit_expr(h, x);
                },
                AssignTarget::Pat(p) => {
                    visit_pat(h, p);
                },
            }
            visit_expr(h, right);
        },
        Expr::Member { obj, prop, .. } => {
            visit_expr(h, obj);
            match prop {
                MemberProp::Ident(i) => {
                    h.on_ident(i);
                },
                MemberProp::Computed(x) => {
                    visit_expr(h, x);
                },
            }
        },
        Expr::Cond { test, cons, alt, .. } => {
            visit_expr(h, test);
            visit_expr(h, cons);
            visit_expr(h, alt);
        },
        Expr::Call { callee, args, .. } => {
            match callee {
                Callee::Super { .. } => {},
                Callee::Expr(x) => {
                    visit_expr(h, x);
                },
            }
            visit_args(h, args);
        },
        Expr::New { callee, args, .. } => {
            visit_expr(h, callee);
            visit_args(h, args);
        },
        Expr::Sequence { exprs, .. } => {
            visit_exprs(h, exprs);
        },
        Expr::Object { props, .. } => {
            visit_props(h, props);
        },
        Expr::Fn { ident, function } => {
            visit_opt_ident(h, ident);
            visit_function(h, function);
        },
        Expr::Arrow { params, body, .. } => {
            visit_pats(h, params);
            match body {
                ArrowBody::Block(ss) => {
                    visit_stmts(h, ss);
                },
                ArrowBody::Expr(x) => {
                    visit_expr(h, x);
                },
            }
        },
        Expr::Class { ident, class } => {
            visit_opt_ident(h, ident);
            visit_class(h, class);
        },
    }
}

fn visit_opt_expr<H: Rewrite>(h: &mut H, e: &mut Option<Box<Expr>>)
    ensures
        (final(h).engine(), *final(e)) == walk_opt_expr(old(h).engine(), *old(e)),
    decreases *old(e),
{
    match e {
        Some(x) => {
            visit_expr(h, x);
        },
        None => {},
    }
}

fn visit_exprs<H: Rewrite>(h: &mut H, es: &mut List<Expr>)
    ensures
        (final(h).engine(), *final(es)) == walk_exprs(old(h).engine(), *old(es)),
    decreases *old(es),
{
    match es {
        List::Nil => {},
        List::Cons(x, rest) => {
            visit_expr(h, x);
            visit_exprs(h, rest);
        },
    }
}

fn visit_args<H: Rewrite>(h: &mut H, args: &mut List<ExprOrSpread>)
    ensures
        (final(h).engine(), *final(args)) == walk_args(old(h).engine(), *old(args)),
    decreases *old(args),
{
    match args {
        List::Nil => {},
        List::Cons(a, rest) => {
            visit_expr(h, &mut a.expr);
            visit_args(h, rest);
        },
    }
}

fn visit_prop_name<H: Rewrite>(h: &mut H, k: &mut PropName)
    ensures
        (final(h).engine(), *final(k)) == walk_prop_name(old(h).engine(), *old(k)),
    decreases *old(k),
{
    match k {
        PropName::Ident(i) => {
            h.on_ident(i);
        },
        PropName::Computed(x) => {
            visit_expr(h, x);
        },
        _ => {},
    }
}

/// Walks a property: its children in source order, then the property itself.
pub fn visit_prop<H: Rewrite>(h: &mut H, p: &mut Prop)
    ensures
        (final(h).engine(), *final(p)) == walk_prop(old(h).engine(), *old(p)),
    decreases *old(p), 1nat,
{
    visit_prop_children(h, p);
    h.on_prop(p);
}

fn visit_prop_children<H: Rewrite>(h: &mut H, p: &mut Prop)
    ensures
        (final(h).engine(), *final(p)) == walk_prop_children(old(h).engine(), *old(p)),
    decreases *old(p), 0nat,
{
    match p {
        Prop::Shorthand(i) => {
            h.on_ident(i);
        },
        Prop::KeyValue { key, value } => {
            visit_prop_name(h, key);
            visit_expr(h, value);
        },
        Prop::Getter { key, body } => {
            visit_prop_name(h, key);
            visit_stmts(h, body);
        },
        Prop::Setter { key, param, body } => {
            visit_prop_name(h, key);
            visit_pat(h, param);
            visit_stmts(h, body);
        },
        Prop::Method { key, function } => {
            visit_prop_name(h, key);
            visit_function(h, function);
        },
    }
}

fn visit_props<H: Rewrite>(h: &mut H, ps: &mut List<PropOrSpread>)
    ensures
        (final(h).engine(), *final(ps)) == walk_props(old(h).engine(), *old(ps)),
    decreases *old(ps),
{
    match ps {
        List::Nil => {},
        List::Cons(p, rest) => {
            match &mut **p {
                PropOrSpread::Spread(x) => {
                    visit_expr(h, x);
                },
                PropOrSpread::Prop(q) => {
                    visit_prop(h, q);
                },
            }
            visit_props(h, rest);
        },
    }
}

/// Walks a function: its parameters, then its body.
pub fn visit_function<H: Rewrite>(h: &mut H, f: &mut Function)
    ensures
        (final(h).engine(), *final(f)) == walk_function(old(h).engine(), *old(f)),
    decreases *old(f),
{
    visit_pats(h, &mut f.params);
    visit_stmts(h, &mut f.body);
}

fn visit_class<H: Rewrite>(h: &mut H, c: &mut Class)
    ensures
        (final(h).engine(), *final(c)) == walk_class(old(h).engine(), *old(c)),
    decreases *old(c),
{
    visit_opt_expr(h, &mut c.super_class);
    visit_members(h, &mut c.body);
}

fn visit_member<H: Rewrite>(h: &mut H, m: &mut ClassMember)
    ensures
        (final(h).engine(), *final(m)) == walk_member(old(h).engine(), *old(m)),
    decreases *old(m),
{
    match m {
        ClassMember::Method { key, function } => {
            visit_prop_name(h, key);
            visit_function(h, function);
        },
        ClassMember::ClassProp { key, value } => {
            visit_prop_name(h, key);
            visit_opt_expr(h, value);
        },
        ClassMember::PrivateProp { value, .. } => {
            visit_opt_expr(h, value);
        },
        ClassMember::Empty { .. } => {},
    }
}

fn visit_members<H: Rewrite>(h: &mut H, ms: &mut List<ClassMember>)
    ensures
        (final(h).engine(), *final(ms)) == walk_members(old(h).engine(), *old(ms)),
    decreases *old(ms),
{
    match ms {
        List::Nil => {},
        List::Cons(m, rest) => {
            visit_member(h, m);
            visit_members(h, rest);
        },
    }
}

/// Walks a pattern.
pub fn visit_pat<H: Rewrite>(h: &mut H, p: &mut Pat)
    ensures
        (final(h).engine(), *final(p)) == walk_pat(old(h).engine(), *old(p)),
    decreases *old(p),
{
    match p {
        Pat::Invalid { .. } => {},
        Pat::Ident(i) => {
            h.on_ident(i);
        },
        Pat::Array { elems, .. } => {
            visit_pats(h, elems);
        },
        Pat::Object { props, .. } => {
            visit_pats(h, props);
        },
        Pat::Rest { arg, .. } => {
            visit_pat(h, arg);
        },
        Pat::Assign { left, right, .. } => {
            visit_pat(h, left);
            visit_expr(h, right);
        },
        Pat::Expr(x) => {
            visit_expr(h, x);
        },
    }
}

fn visit_pats<H: Rewrite>(h: &mut H, ps: &mut List<Pat>)
    ensures
        (final(h).engine(), *final(ps)) == walk_pats(old(h).engine(), *old(ps)),
    decreases *old(ps),
{
    match ps {
        List::Nil => {},
        List::Cons(p, rest) => {
            visit_pat(h, p);
            visit_pats(h, rest);
        },
    }
}

/// Walks a statement.
pub fn visit_stmt<H: Rewrite>(h: &mut H, s: &mut Stmt)
    ensures
        (final(h).engine(), *final(s)) == walk_stmt(old(h).engine(), *old(s)),
    decreases *old(s),
{
    match s {
        Stmt::Empty { .. } => {},
        Stmt::Expr { expr, .. } => {
            visit_expr(h, expr);
        },
        Stmt::Return { arg, .. } => {
            visit_opt_expr(h, arg);
        },
        Stmt::Block { stmts, .. } => {
            visit_stmts(h, stmts);
        },
        Stmt::If { test, cons, alt, .. } => {
            visit_expr(h, test);
            visit_stmt(h, cons);
            match alt {
                Some(x) => {
                    visit_stmt(h, x);
                },
                None => {},
            }
        },
        Stmt::Decl(d) => {
            visit_decl(h, d);
        },
    }
}

/// Walks the statements of a list in order.
pub fn visit_stmts<H: Rewrite>(h: &mut H, ss: &mut List<Stmt>)
    ensures
        (final(h).engine(), *final(ss)) == walk_stmts(old(h).engine(), *old(ss)),
    decreases *old(ss),
{
    match ss {
        List::Nil => {},
        List::Cons(s, rest) => {
            visit_stmt(h, s);
            visit_stmts(h, rest);
        },
    }
}

fn visit_decl<H: Rewrite>(h: &mut H, d: &mut Decl)
    ensures
        (final(h).engine(), *final(d)) == walk_decl(old(h).engine(), *old(d)),
    decreases *old(d),
{
    match d {
        Decl::Var(v) => {
            visit_declarators(h, &mut v.decls);
        },
        Decl::Fn { ident, function } => {
            h.on_ident(ident);
            visit_function(h, function);
        },
        Decl::Class { ident, class } => {
            h.on_ident(ident);
            visit_class(h, class);
        },
        _ => {},
    }
}

fn visit_declarators<H: Rewrite>(h: &mut H, ds: &mut List<VarDeclarator>)
    ensures
        (final(h).engine(), *final(ds)) == walk_declarators(old(h).engine(), *old(ds)),
    decreases *old(ds),
{
    match ds {
        List::Nil => {},
        List::Cons(d, rest) => {
            visit_pat(h, &mut d.name);
            visit_opt_expr(h, &mut d.init);
            visit_declarators(h, rest);
        },
    }
}

} // verus!
