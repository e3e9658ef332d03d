//! The substitution engines: one that moves identifiers to another hygiene
//! context, one that applies many pending substitutions until none fires, and
//! one that puts a single expression in the place of a single identifier.

use crate::ast::Expr;
use crate::ast::Function;
use crate::ast::Pat;
use crate::ast::Id;
use crate::ast::Ident;
use crate::ast::List;
use crate::ast::Prop;
use crate::ast::PropName;
use crate::ast::Stmt;
use crate::ast::SyntaxContext;
use crate::maps::table_get;
use crate::maps::table_is_empty;
use crate::maps::table_remove;
use crate::occurrences::occ_expr;
use crate::occurrences::occ_stmts;
use crate::visit::visit_expr;
use crate::visit::visit_prop;
use crate::visit::visit_stmts;
use crate::visit::walk_expr;
use crate::visit::walk_stmts;
use crate::visit::Engine;
use crate::visit::Rewrite;
use crate::walk_laws::lemma_expr;
use crate::walk_laws::lemma_stmts;
use crate::walk_laws::lone;
use crate::walk_laws::quiet;
use crate::walk_laws::step;
use crate::walk_laws::unmapped;
use crate::walk_laws::used;
use crate::walk_laws::worn;
use rustc_hash::FxHashMap;
use vstd::prelude::*;

verus! {

/// Moves identifiers to another hygiene context, so that a binding keeps
/// naming the same thing after scopes are merged.
pub struct Remapper {
    /// The new context of each identity to be moved.
    pub vars: FxHashMap<Id, SyntaxContext>,
}

impl Rewrite for Remapper {
    open spec fn engine(&self) -> Engine {
        Engine { remap: self.vars@, pending: Map::empty(), changed: false }
    }

    fn on_ident(&mut self, i: &mut Ident) {
        let found = match table_get(&self.vars, &i.to_id()) {
            Some(c) => Some(*c),
            None => None,
        };
        match found {
            Some(c) => {
                i.ctxt = c;
            },
            None => {},
        }
    }

    fn on_expr(&mut self, e: &mut Expr) {
    }

    fn on_prop(&mut self, p: &mut Prop) {
    }
}

impl Remapper {
    /// Moves `i` to its new context, if it has one.
    pub fn visit_mut_ident(&mut self, i: &mut Ident)
        ensures
            final(self).vars@ == old(self).vars@,
            *final(i) == (if old(self).vars@.contains_key(old(i).id()) {
                Ident { ctxt: old(self).vars@[old(i).id()], ..*old(i) }
            } else {
                *old(i)
            }),
    {
        self.on_ident(i);
    }
}

/// Applies many pending substitutions, each at most once.
pub struct MultiReplacer {
    /// The substitutions that have not been applied yet.
    pub vars: FxHashMap<Id, Expr>,
    /// Whether the last pass applied one.
    pub changed: bool,
}

impl Rewrite for MultiReplacer {
    open spec fn engine(&self) -> Engine {
        Engine { remap: Map::empty(), pending: self.vars@, changed: self.changed }
    }

    fn on_ident(&mut self, i: &mut Ident) {
    }

    fn on_expr(&mut self, e: &mut Expr) {
        let id = match &*e {
            Expr::Ident(i) => Some(i.to_id()),
            _ => None,
        };
        match id {
            Some(id) => {
                match self.var(&id) {
                    Some(new) => {
                        *e = new;
                        self.changed = true;
                    },
                    None => {
                        assert(old(self).vars@.remove(id) =~= old(self).vars@);
                    },
                }
            },
            None => {},
        }
    }

    fn on_prop(&mut self, p: &mut Prop) {
        let name = match &*p {
            Prop::Shorthand(i) => Some(*i),
            _ => None,
        };
        match name {
            Some(i) => {
                match self.var(&i.to_id()) {
                    Some(value) => {
                        *p = Prop::KeyValue { key: PropName::Ident(i), value: Box::new(value) };
                        self.changed = true;
                    },
                    None => {
                        assert(old(self).vars@.remove(i.id()) =~= old(self).vars@);
                    },
                }
            },
            None => {},
        }
    }
}

/// The engine with its changed flag cleared, as at the start of a pass.
pub open spec fn fresh(g: Engine) -> Engine {
    Engine { changed: false, ..g }
}

/// The engine and the statements after the passes of the fixed-point loop:
/// pass follows pass while substitutions are pending and the last pass
/// applied one.
pub open spec fn settled(g: Engine, items: List<Stmt>) -> (Engine, List<Stmt>)
    decreases g.pending.len(),
    when g.pending.dom().finite()
    via settled_terminates
{
    if g.pending.len() == 0 {
        (fresh(g), items)
    } else {
        let (g1, items1) = walk_stmts(fresh(g), items);
        if !g1.changed {
            (g1, items1)
        } else {
            settled(g1, items1)
        }
    }
}

#[via_fn]
proof fn settled_terminates(g: Engine, items: List<Stmt>) {
    lemma_pass(g, items);
}

/// The number of passes that the fixed-point loop makes.
pub open spec fn passes(g: Engine, items: List<Stmt>) -> nat
    decreases g.pending.len(),
    when g.pending.dom().finite()
    via passes_terminates
{
    if g.pending.len() == 0 {
        0
    } else {
        let (g1, items1) = walk_stmts(fresh(g), items);
        if !g1.changed {
            1
        } else {
            1 + passes(g1, items1)
        }
    }
}

#[via_fn]
proof fn passes_terminates(g: Engine, items: List<Stmt>) {
    lemma_pass(g, items);
}

/// A pass that applies a substitution leaves fewer pending, and no pass
/// leaves more.
pub proof fn lemma_pass(g: Engine, items: List<Stmt>)
    requires
        g.pending.dom().finite(),
    ensures
        walk_stmts(fresh(g), items).0.pending.dom().finite(),
        walk_stmts(fresh(g), items).0.pending.len() <= g.pending.len(),
        walk_stmts(fresh(g), items).0.changed ==> walk_stmts(fresh(g), items).0.pending.len()
            < g.pending.len(),
{
    reveal(step);
    lemma_stmts(fresh(g), items, (0u64, 0u32));
}

/// The fixed-point loop ends: with `n` substitutions pending it makes at most
/// `n` passes, and it leaves no more pending than it found.
pub proof fn law_fixed_point_terminates(g: Engine, items: List<Stmt>)
    requires
        g.pending.dom().finite(),
    ensures
        passes(g, items) <= g.pending.len(),
        settled(g, items).0.pending.dom().finite(),
        settled(g, items).0.pending.len() <= g.pending.len(),
        !settled(g, items).0.changed,
    decreases g.pending.len(),
{
    if g.pending.len() != 0 {
        lemma_pass(g, items);
        let (g1, items1) = walk_stmts(fresh(g), items);
        if g1.changed {
            law_fixed_point_terminates(g1, items1);
        }
    }
}

/// The fixed-point loop makes exactly one pass where substitutions are
/// pending and the first pass applies none of them or all of them.
pub proof fn law_single_pass(g: Engine, items: List<Stmt>)
    requires
        g.pending.dom().finite(),
        g.pending.len() > 0,
        !walk_stmts(fresh(g), items).0.changed || walk_stmts(fresh(g), items).0.pending.len() == 0,
    ensures
        passes(g, items) == 1,
        settled(g, items).1 == walk_stmts(fresh(g), items).1,
{
    lemma_pass(g, items);
    let (g1, items1) = walk_stmts(fresh(g), items);
    if g1.changed {
        assert(passes(g1, items1) == 0);
        assert(settled(g1, items1) == (fresh(g1), items1));
    }
}

/// Where every pending substitution has an occurrence in the statements, one
/// pass applies them all: the fixed-point loop makes exactly one pass and
/// leaves nothing pending, whatever the replacements refer to.
pub proof fn law_one_pass_applies_all(g: Engine, items: List<Stmt>)
    requires
        g.pending.dom().finite(),
        g.pending.len() > 0,
        unmapped(g),
        forall|id: Id| g.pending.contains_key(id) ==> occ_stmts(items, id) >= 1,
    ensures
        passes(g, items) == 1,
        settled(g, items).0.pending.len() == 0,
        settled(g, items).1 == walk_stmts(fresh(g), items).1,
{
    let (g1, items1) = walk_stmts(fresh(g), items);
    assert forall|id: Id| !g1.pending.contains_key(id) by {
        reveal(step);
        lemma_stmts(fresh(g), items, id);
    }
    assert(g1.pending.dom() =~= Set::<Id>::empty());
    lemma_pass(g, items);
    law_single_pass(g, items);
    if g1.changed {
        assert(settled(g1, items1) == (fresh(g1), items1));
    }
}

/// The fixed-point loop leaves nothing to apply: an identity whose
/// substitution is still pending when the loop ends does not occur in the
/// statements that the loop leaves.
pub proof fn law_fixed_point_complete(g: Engine, items: List<Stmt>, id: Id)
    requires
        g.pending.dom().finite(),
        unmapped(g),
        settled(g, items).0.pending.contains_key(id),
    ensures
        occ_stmts(settled(g, items).1, id) == 0,
    decreases g.pending.len(),
{
    if g.pending.len() != 0 {
        lemma_pass(g, items);
        let (g1, items1) = walk_stmts(fresh(g), items);
        assert(step(fresh(g), id, occ_stmts(items, id), g1, occ_stmts(items1, id), items1 == items))
            by {
            lemma_stmts(fresh(g), items, id);
        }
        assert(worn(fresh(g), g1) && used(fresh(g), id, occ_stmts(items, id), g1) && quiet(
            fresh(g),
            g1,
            items1 == items,
        )) by {
            reveal(step);
        }
        if g1.changed {
            law_fixed_point_complete(g1, items1, id);
        }
    } else {
        assert(g.pending.dom().len() == 0);
        assert(!g.pending.dom().contains(id));
    }
}

impl MultiReplacer {
    /// Takes the substitution pending for `i`, if there is one.
    pub fn var(&mut self, i: &Id) -> (r: Option<Expr>)
        ensures
            final(self).vars@ == old(self).vars@.remove(*i),
            final(self).changed == old(self).changed,
            r == (if old(self).vars@.contains_key(*i) {
                Some(old(self).vars@[*i])
            } else {
                None::<Expr>
            }),
    {
        table_remove(&mut self.vars, i)
    }

    /// Walks an expression, applying pending substitutions to the identifiers
    /// in it, innermost first.
    pub fn visit_mut_expr(&mut self, e: &mut Expr)
        ensures
            (final(self).engine(), *final(e)) == walk_expr(old(self).engine(), *old(e)),
    {
        visit_expr(self, e);
    }

    /// Walks a property; a shorthand whose name has a pending substitution
    /// becomes a key-value property that carries the replacement.
    pub fn visit_mut_prop(&mut self, p: &mut Prop)
        ensures
            (final(self).engine(), *final(p)) == crate::visit::walk_prop(
                old(self).engine(),
                *old(p),
            ),
    {
        visit_prop(self, p);
    }

    /// Walks the statements of a module again and again, until no
    /// substitution is pending or a pass applies none.
    pub fn visit_mut_module_items(&mut self, items: &mut List<Stmt>)
        ensures
            (final(self).engine(), *final(items)) == settled(old(self).engine(), *old(items)),
    {
        let ghost target = settled(self.engine(), *items);
        let mut done = false;
        while !done
            invariant
                done ==> (self.engine(), *items) == target,
                !done ==> self.engine().pending.dom().finite() ==> settled(self.engine(), *items)
                    == target,
            decreases
                    (if done {
                        0
                    } else {
                        self.vars@.len() + 1
                    }),
        {
            self.changed = false;
            if table_is_empty(&self.vars) {
                done = true;
            } else {
                proof {
                    lemma_pass(self.engine(), *items);
                }
                visit_stmts(self, items);
                if !self.changed {
                    done = true;
                }
            }
        }
    }
}

/// A kind of tree node that the engines can walk.
pub trait Node: Sized {
    /// The engine and the node after the engine has walked the node.
    spec fn walked(self, g: Engine) -> (Engine, Self);

    /// The number of substitutable occurrences of `id` in the node.
    spec fn occurrences(self, id: Id) -> nat;

    /// Walks the node with the engine `h`.
    fn visit_mut_with<H: Rewrite>(&mut self, h: &mut H)
        ensures
            (final(h).engine(), *final(self)) == old(self).walked(old(h).engine()),
    ;

    /// A walk only uses substitutions up, and with a single substitution it
    /// replaces one occurrence at most.
    proof fn lemma_walked(self, g: Engine, id: Id)
        ensures
            step(
                g,
                id,
                self.occurrences(id),
                self.walked(g).0,
                self.walked(g).1.occurrences(id),
                self.walked(g).1 == self,
            ),
    ;
}

impl Node for Expr {
    open spec fn walked(self, g: Engine) -> (Engine, Self) {
        walk_expr(g, self)
    }

    open spec fn occurrences(self, id: Id) -> nat {
        occ_expr(self, id)
    }

    fn visit_mut_with<H: Rewrite>(&mut self, h: &mut H) {
        visit_expr(h, self);
    }

    proof fn lemma_walked(self, g: Engine, id: Id) {
        lemma_expr(g, self, id);
    }
}

impl Node for Stmt {
    open spec fn walked(self, g: Engine) -> (Engine, Self) {
        crate::visit::walk_stmt(g, self)
    }

    open spec fn occurrences(self, id: Id) -> nat {
        crate::occurrences::occ_stmt(self, id)
    }

    fn visit_mut_with<H: Rewrite>(&mut self, h: &mut H) {
        crate::visit::visit_stmt(h, self);
    }

    proof fn lemma_walked(self, g: Engine, id: Id) {
        crate::walk_laws::lemma_stmt(g, self, id);
    }
}

impl Node for List<Stmt> {
    open spec fn walked(self, g: Engine) -> (Engine, Self) {
        walk_stmts(g, self)
    }

    open spec fn occurrences(self, id: Id) -> nat {
        occ_stmts(self, id)
    }

    fn visit_mut_with<H: Rewrite>(&mut self, h: &mut H) {
        visit_stmts(h, self);
    }

    proof fn lemma_walked(self, g: Engine, id: Id) {
        lemma_stmts(g, self, id);
    }
}

impl Node for Function {
    open spec fn walked(self, g: Engine) -> (Engine, Self) {
        crate::visit::walk_function(g, self)
    }

    open spec fn occurrences(self, id: Id) -> nat {
        crate::occurrences::occ_function(self, id)
    }

    fn visit_mut_with<H: Rewrite>(&mut self, h: &mut H) {
        crate::visit::visit_function(h, self);
    }

    proof fn lemma_walked(self, g: Engine, id: Id) {
        crate::walk_laws::lemma_function(g, self, id);
    }
}

impl Node for Pat {
    open spec fn walked(self, g: Engine) -> (Engine, Self) {
        crate::visit::walk_pat(g, self)
    }

    open spec fn occurrences(self, id: Id) -> nat {
        crate::occurrences::occ_pat(self, id)
    }

    fn visit_mut_with<H: Rewrite>(&mut self, h: &mut H) {
        crate::visit::visit_pat(h, self);
    }

    proof fn lemma_walked(self, g: Engine, id: Id) {
        crate::walk_laws::lemma_pat(g, self, id);
    }
}

impl Node for Prop {
    open spec fn walked(self, g: Engine) -> (Engine, Self) {
        crate::visit::walk_prop(g, self)
    }

    open spec fn occurrences(self, id: Id) -> nat {
        crate::occurrences::occ_prop(self, id)
    }

    fn visit_mut_with<H: Rewrite>(&mut self, h: &mut H) {
        visit_prop(h, self);
    }

    proof fn lemma_walked(self, g: Engine, id: Id) {
        crate::walk_laws::lemma_prop(g, self, id);
    }
}

/// The engine that holds the one substitution of `to` for `from`.
pub open spec fn single(from: Id, to: Expr) -> Engine {
    Engine { remap: Map::empty(), pending: Map::empty().insert(from, to), changed: false }
}

/// The node with `to` in the place of the first occurrence of `from`.
pub open spec fn replaced<N: Node>(node: N, from: Id, to: Expr) -> N {
    node.walked(single(from, to)).1
}

/// Puts one expression in the place of one identifier. It is made and driven
/// by `replace_id_with_expr` alone, which sees to it that the identifier does
/// not occur a second time.
pub struct ExprReplacer {
    from: Id,
    /// The replacement, until it has been put in place.
    to: Option<Expr>,
}

impl Rewrite for ExprReplacer {
    closed spec fn engine(&self) -> Engine {
        Engine {
            remap: Map::empty(),
            pending: match self.to {
                Some(t) => Map::empty().insert(self.from, t),
                None => Map::empty(),
            },
            changed: self.to is None,
        }
    }

    fn on_ident(&mut self, i: &mut Ident) {
    }

    fn on_expr(&mut self, e: &mut Expr) {
        let found = match &*e {
            Expr::Ident(i) => i.sym == self.from.0 && i.ctxt == self.from.1,
            _ => false,
        };
        if found {
            let mut new: Option<Expr> = None;
            std::mem::swap(&mut self.to, &mut new);
            match new {
                Some(x) => {
                    assert(Map::<Id, Expr>::empty().insert(self.from, x).remove(self.from)
                        =~= Map::<Id, Expr>::empty());
                    *e = x;
                },
                None => {},
            }
        }
    }

    fn on_prop(&mut self, p: &mut Prop) {
        let name = match &*p {
            Prop::Shorthand(i) => if i.sym == self.from.0 && i.ctxt == self.from.1 {
                Some(*i)
            } else {
                None
            },
            _ => None,
        };
        match name {
            Some(i) => {
                let mut new: Option<Expr> = None;
                std::mem::swap(&mut self.to, &mut new);
                match new {
                    Some(x) => {
                        assert(Map::<Id, Expr>::empty().insert(self.from, x).remove(self.from)
                            =~= Map::<Id, Expr>::empty());
                        *p = Prop::KeyValue { key: PropName::Ident(i), value: Box::new(x) };
                    },
                    None => {},
                }
            },
            None => {},
        }
    }
}

/// An engine that remaps nothing and has no substitution pending leaves
/// every node, and itself, as it is.
pub proof fn law_idle_engine<N: Node>(node: N, g: Engine)
    requires
        unmapped(g),
        forall|k: Id| !g.pending.contains_key(k),
    ensures
        node.walked(g) == (g, node),
{
    reveal(step);
    node.lemma_walked(g, (0u64, 0u32));
}

/// Where `from` occurs once in a node and not in `to`, putting `to` in its
/// place uses the replacement up and leaves no occurrence of `from`; in
/// general one occurrence gives way to the occurrences in `to`. Where `from`
/// does not occur, the node stays as it is and the replacement is left over.
pub proof fn law_substitution_exactness<N: Node>(node: N, from: Id, to: Expr)
    ensures
        node.occurrences(from) == 1 && occ_expr(to, from) == 0 ==> replaced(
            node,
            from,
            to,
        ).occurrences(from) == 0 && !node.walked(single(from, to)).0.pending.contains_key(from),
        node.occurrences(from) >= 1 ==> replaced(node, from, to).occurrences(from) + 1
            == node.occurrences(from) + occ_expr(to, from) && !node.walked(
            single(from, to),
        ).0.pending.contains_key(from),
        node.occurrences(from) == 0 ==> replaced(node, from, to) == node && node.walked(
            single(from, to),
        ).0 == single(from, to),
{
    reveal(step);
    node.lemma_walked(single(from, to), from);
    assert(lone(single(from, to), from));
}

/// Puts `to` in the place of the one occurrence of `from` in `node`, a
/// shorthand property included, and hands back `None`; where `from` does not
/// occur, leaves `node` as it is and hands `to` back. `from` must not occur
/// more than once.
pub fn replace_id_with_expr<N: Node>(node: &mut N, from: Id, to: Expr) -> (left: Option<Expr>)
    requires
        old(node).occurrences(from) <= 1,
    ensures
        *final(node) == replaced(*old(node), from, to),
        old(node).occurrences(from) == 0 ==> *final(node) == *old(node) && left == Some(to),
        old(node).occurrences(from) == 1 ==> left is None && final(node).occurrences(from)
            == occ_expr(to, from),
{
    let mut v = ExprReplacer { from, to: Some(to) };
    assert(v.engine() == single(from, to));
    let ghost before = *node;
    proof {
        law_substitution_exactness(*node, from, to);
    }
    node.visit_mut_with(&mut v);
    proof {
        if v.engine() == single(from, to) {
            assert(v.engine().pending.contains_key(from));
            assert(v.engine().pending[from] == to);
        }
        if v.to is Some {
            reveal(step);
            before.lemma_walked(single(from, to), from);
            assert(v.engine().pending.contains_key(v.from));
            assert(single(from, to).pending.contains_key(v.from));
        }
    }
    v.to
}

} // verus!
