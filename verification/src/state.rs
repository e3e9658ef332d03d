//! What a rule is handed: the switches, the place in the tree, and the usage
//! facts that an earlier analysis computed.

use crate::ast::Atom;
use crate::ast::Expr;
use crate::ast::Id;
use crate::ast::Stmt;
use crate::ast::SyntaxContext;
use crate::maps::table_get;
use rustc_hash::FxHashMap;
use vstd::prelude::*;

verus! {

/// The switches that the rules read.
#[derive(Debug)]
pub struct Options {
    /// Enables the rules that drop unused code.
    pub unused: bool,
    /// Enables the rules that negate immediately invoked functions.
    pub negate_iife: bool,
    /// How eagerly to inline; zero switches inlining off.
    pub inline: u8,
    /// Whether bindings at the top level may be pruned like local ones.
    pub top_level: bool,
    /// Top-level names that are never pruned.
    pub top_retain: Vec<Atom>,
}

impl Options {
    /// Whether `sym` is on the retain list.
    pub open spec fn retains(self, sym: Atom) -> bool {
        self.top_retain@.contains(sym)
    }

    /// Whether nothing at the top level may be pruned: the top level is not
    /// opened up, and no retain list was given.
    pub open spec fn keeps_top_level(self) -> bool {
        !self.top_level && self.top_retain@.len() == 0
    }

    /// Tells whether `sym` is on the retain list.
    pub fn is_retained(&self, sym: Atom) -> (r: bool)
        ensures
            r == self.retains(sym),
    {
        let mut i: usize = 0;
        while i < self.top_retain.len()
            invariant
                i <= self.top_retain@.len(),
                forall|j: int| 0 <= j < i ==> self.top_retain@[j] != sym,
            decreases self.top_retain@.len() - i,
        {
            if self.top_retain[i] == sym {
                return true;
            }
            i += 1;
        }
        false
    }

    /// Tells whether nothing at the top level may be pruned.
    pub fn top_level_kept(&self) -> (r: bool)
        ensures
            r == self.keeps_top_level(),
    {
        !self.top_level && self.top_retain.len() == 0
    }
}

/// Where in the tree the traversal stands.
#[derive(Clone, Copy, Debug, PartialEq, Eq, Structural)]
pub struct Ctx {
    /// The scope being visited.
    pub scope: SyntaxContext,
    /// Directly under the argument of a boolean negation.
    pub in_bang_arg: bool,
    /// Inlining is switched off for this sub-tree.
    pub inline_prevented: bool,
    /// In the object position of a member expression that is not computed.
    pub in_obj_of_non_computed_member: bool,
    /// In the binding position of a `for-in` or `for-of` loop.
    pub in_var_decl_of_for_in_or_of_loop: bool,
    /// The enclosing declaration is exported.
    pub is_exported: bool,
    /// The operand of `delete`.
    pub is_delete_arg: bool,
    /// Inside the body of a function.
    pub in_fn_like: bool,
    /// At the top level of the program.
    pub top_level: bool,
}

impl Ctx {
    /// Whether the position belongs to the top level: marked so, or outside
    /// every function body.
    pub open spec fn at_top_level(self) -> bool {
        self.top_level || !self.in_fn_like
    }

    /// Tells whether the position belongs to the top level.
    pub fn in_top_level(&self) -> (r: bool)
        ensures
            r == self.at_top_level(),
    {
        self.top_level || !self.in_fn_like
    }
}

/// The escape flags of one scope.
#[derive(Clone, Copy, Debug, PartialEq, Eq, Structural)]
pub struct ScopeData {
    pub has_eval_call: bool,
    pub has_with_stmt: bool,
}

impl ScopeData {
    /// Whether a dynamic lookup in this scope may observe any binding.
    pub open spec fn escapes(self) -> bool {
        self.has_eval_call || self.has_with_stmt
    }
}

/// The usage counts of one variable.
#[derive(Clone, Copy, Debug, PartialEq, Eq, Structural)]
pub struct VarUsageInfo {
    /// All references to the variable.
    pub ref_count: u32,
    /// The references that read it.
    pub usage_count: u32,
    /// Whether it is declared in a function body.
    pub is_fn_local: bool,
}

/// The usage facts of one round of analysis.
pub struct ProgramData {
    pub vars: FxHashMap<Id, VarUsageInfo>,
    pub top: ScopeData,
    pub scopes: FxHashMap<SyntaxContext, ScopeData>,
}

/// The state that the rules share.
pub struct Optimizer {
    pub options: Options,
    pub ctx: Ctx,
    /// The usage facts, where the analysis has run.
    pub data: Option<ProgramData>,
    /// Set by every rule that rewrites.
    pub changed: bool,
    /// Statements to be placed after the statement being visited.
    pub append_stmts: Vec<Stmt>,
    /// Substitutions waiting to be applied, by the identity they replace.
    pub lits: FxHashMap<Id, Expr>,
}

impl Optimizer {
    /// The usage counts recorded for `id`, if any.
    pub open spec fn var(self, id: Id) -> Option<VarUsageInfo> {
        match self.data {
            Some(data) => if data.vars@.contains_key(id) {
                Some(data.vars@[id])
            } else {
                None
            },
            None => None,
        }
    }

    /// The escape flags recorded for scope `scope`, if any.
    pub open spec fn scope(self, scope: SyntaxContext) -> Option<ScopeData> {
        match self.data {
            Some(data) => if data.scopes@.contains_key(scope) {
                Some(data.scopes@[scope])
            } else {
                None
            },
            None => None,
        }
    }

    /// Whether the scope being visited has a record in the usage facts, and
    /// that record shows neither `eval` nor `with`. A scope without a record
    /// was not analysed and is not clear.
    pub open spec fn scope_clear(self) -> bool {
        match self.scope(self.ctx.scope) {
            Some(s) => !s.escapes(),
            None => false,
        }
    }

    /// Whether the usage facts are there and show neither `eval` nor `with`
    /// in the program's top scope.
    pub open spec fn top_clear(self) -> bool {
        match self.data {
            Some(data) => !data.top.escapes(),
            None => false,
        }
    }

    /// Whether `id` is known to be referenced nowhere.
    pub open spec fn unreferenced(self, id: Id) -> bool {
        match self.var(id) {
            Some(v) => v.ref_count == 0,
            None => false,
        }
    }

    /// This state with the changed flag set.
    pub open spec fn marked(self) -> Optimizer {
        Optimizer { changed: true, ..self }
    }

    /// Looks up the usage counts of `id`.
    pub fn var_info(&self, id: &Id) -> (r: Option<VarUsageInfo>)
        ensures
            r == self.var(*id),
    {
        match &self.data {
            Some(data) => match table_get(&data.vars, id) {
                Some(v) => Some(*v),
                None => None,
            },
            None => None,
        }
    }

    /// Looks up the escape flags of a scope.
    pub fn scope_info(&self, scope: SyntaxContext) -> (r: Option<ScopeData>)
        ensures
            r == self.scope(scope),
    {
        match &self.data {
            Some(data) => match table_get(&data.scopes, &scope) {
                Some(s) => Some(*s),
                None => None,
            },
            None => None,
        }
    }

    /// Tells whether the scope being visited is on record and holds neither
    /// `eval` nor `with`.
    pub fn in_clear_scope(&self) -> (r: bool)
        ensures
            r == self.scope_clear(),
    {
        match self.scope_info(self.ctx.scope) {
            Some(s) => !(s.has_eval_call || s.has_with_stmt),
            None => false,
        }
    }

    /// Tells whether the usage facts are there and show neither `eval` nor
    /// `with` in the program's top scope.
    pub fn top_scope_clear(&self) -> (r: bool)
        ensures
            r == self.top_clear(),
    {
        match &self.data {
            Some(data) => !(data.top.has_eval_call || data.top.has_with_stmt),
            None => false,
        }
    }

    /// Tells whether `id` is known to be referenced nowhere.
    pub fn is_unreferenced(&self, id: &Id) -> (r: bool)
        ensures
            r == self.unreferenced(*id),
    {
        match self.var_info(id) {
            Some(v) => v.ref_count == 0,
            None => false,
        }
    }

    /// Installs `ctx` as the place of the traversal and hands back the place
    /// that was current, for `restore_ctx` to put back when the visit ends.
    /// A scope other than the current one must be known to the usage facts.
    pub fn with_ctx(&mut self, ctx: Ctx) -> (saved: Ctx)
        requires
            ctx.scope != old(self).ctx.scope ==> old(self).scope(ctx.scope) is Some,
        ensures
            saved == old(self).ctx,
            *final(self) == (Optimizer { ctx: ctx, ..*old(self) }),
    {
        let saved = self.ctx;
        self.ctx = ctx;
        saved
    }

    /// Puts back the place that `with_ctx` handed out.
    pub fn restore_ctx(&mut self, saved: Ctx)
        ensures
            *final(self) == (Optimizer { ctx: saved, ..*old(self) }),
    {
        self.ctx = saved;
    }
}

} // verus!
