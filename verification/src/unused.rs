//! The rules that drop what the usage facts show to be unused: bindings,
//! declarations, dead stores, names of function and class expressions, and a
//! trailing `return void`.

use crate::ast::dummy_sp;
use crate::ast::dummy_span;
use crate::ast::AssignOp;
use crate::ast::AssignTarget;
use crate::ast::Decl;
use crate::ast::Expr;
use crate::ast::Ident;
use crate::ast::List;
use crate::ast::Pat;
use crate::ast::Stmt;
use crate::ast::UnaryOp;
use crate::ast::VarDecl;
use crate::ast::VarDeclKind;
use crate::ast::VarDeclarator;
use crate::ast::ATOM_ARGUMENTS;
use crate::side_effects::is_pure;
use crate::side_effects::may_have_side_effects;
use crate::state::Optimizer;
use vstd::prelude::*;

verus! {

/// The placeholder that an erased binding leaves behind.
pub open spec fn invalid_pat() -> Pat {
    Pat::Invalid { span: dummy_span() }
}

/// The empty declaration that an erased declaration leaves behind.
pub open spec fn empty_decl() -> Decl {
    Decl::Var(
        VarDecl { span: dummy_span(), kind: VarDeclKind::Var, declare: false, decls: List::Nil },
    )
}

/// Whether `s` is a `return` of a `void` expression.
pub open spec fn is_return_void(s: Stmt) -> bool {
    match s {
        Stmt::Return { arg: Some(a), .. } => match *a {
            Expr::Unary { op: UnaryOp::Void, .. } => true,
            _ => false,
        },
        _ => false,
    }
}

/// `return void e` as the statement `e`; any other statement as it is.
pub open spec fn return_void_dropped(s: Stmt) -> Stmt {
    match s {
        Stmt::Return { arg: Some(a), .. } => match *a {
            Expr::Unary { span, op: UnaryOp::Void, arg } => Stmt::Expr { span, expr: arg },
            _ => s,
        },
        _ => s,
    }
}

/// `x = e` as `e`; any other expression as it is.
pub open spec fn store_dropped(e: Expr) -> Expr {
    match e {
        Expr::Assign { right, .. } => *right,
        _ => e,
    }
}

/// The name that a plain assignment to a simple name stores into.
pub open spec fn stored_name(e: Expr) -> Option<Ident> {
    match e {
        Expr::Assign { op: AssignOp::Assign, left: AssignTarget::Pat(p), .. } => match *p {
            Pat::Ident(i) => Some(i),
            _ => None,
        },
        _ => None,
    }
}

/// The name that a class or function declaration declares.
pub open spec fn declared_name(d: Decl) -> Option<Ident> {
    match d {
        Decl::Class { ident, .. } => Some(ident),
        Decl::Fn { ident, .. } => Some(ident),
        _ => None,
    }
}

/// Whether an initializer is an `async` function expression.
pub open spec fn is_async_fn(e: Expr) -> bool {
    match e {
        Expr::Fn { function, .. } => function.is_async,
        _ => false,
    }
}

impl Optimizer {
    /// Whether the rules on unused code may act at all here: the switch is on,
    /// the enclosing declaration is not exported, and the scope being visited
    /// is on record in the usage facts with neither `eval` nor `with`.
    pub open spec fn may_prune(self) -> bool {
        self.options.unused && !self.ctx.is_exported && self.scope_clear()
    }

    /// Whether the position is at a top level that is to be left alone.
    pub open spec fn top_level_kept(self) -> bool {
        self.options.keeps_top_level() && self.ctx.at_top_level()
    }

    /// Whether the rule on a trailing `return void` applies to `s`.
    pub open spec fn return_void_applies(self, s: Stmt) -> bool {
        self.may_prune() && is_return_void(s)
    }

    /// Whether the binding `name` is erased: a simple name outside the head of
    /// a `for-in` or `for-of` loop, not retained, and referenced nowhere.
    pub open spec fn drop_var_applies(self, name: Pat) -> bool {
        match name {
            Pat::Ident(i) => self.may_prune() && !self.ctx.in_var_decl_of_for_in_or_of_loop
                && !self.top_level_kept() && !self.options.retains(i.sym) && self.unreferenced(
                i.id(),
            ),
            _ => false,
        }
    }

    /// The binding `name` after the rule on unused names.
    pub open spec fn var_dropped(self, name: Pat) -> Pat {
        if self.drop_var_applies(name) {
            invalid_pat()
        } else {
            name
        }
    }

    /// Whether the declaration `d` is erased: a class or a function, in a
    /// function body or with the top level opened up, whose name is not
    /// `arguments`, not retained, and referenced nowhere.
    pub open spec fn drop_decl_applies(self, d: Decl) -> bool {
        match declared_name(d) {
            Some(ident) => self.may_prune() && !(!self.options.top_level
                && self.ctx.at_top_level()) && ident.sym != ATOM_ARGUMENTS
                && !self.options.retains(ident.sym) && self.unreferenced(ident.id()),
            None => false,
        }
    }

    /// Whether the assignment `e` is a dead store: a plain assignment to a
    /// simple name that is local to a function, not retained, and never read.
    pub open spec fn drop_assign_applies(self, e: Expr) -> bool {
        match stored_name(e) {
            Some(i) => self.options.unused && !self.ctx.is_exported && !self.ctx.is_delete_arg
                && self.top_clear() && !self.top_level_kept() && !self.options.retains(i.sym)
                && match self.var(i.id()) {
                Some(v) => v.is_fn_local && v.usage_count == 0,
                None => false,
            },
            None => false,
        }
    }

    /// Whether the name of a function or class expression is cleared.
    pub open spec fn remove_name_applies(self, name: Option<Ident>) -> bool {
        match name {
            Some(i) => self.may_prune() && !self.options.retains(i.sym) && self.unreferenced(
                i.id(),
            ),
            None => false,
        }
    }

    /// The declarator `var` after the rule on unused declarators. Where the
    /// rules may act, an invalid initializer is dropped; an `async` function
    /// initializer keeps the declarator whole; otherwise the binding goes
    /// through the rule on unused names, and where no binding is left, an
    /// initializer that is not free of side effects moves out.
    pub open spec fn declarator_dropped(self, var: VarDeclarator) -> VarDeclarator {
        if !self.may_prune() {
            var
        } else {
            match var.init {
                Some(init) => if *init is Invalid {
                    VarDeclarator { init: None, ..var }
                } else if is_async_fn(*init) {
                    var
                } else {
                    let name = self.var_dropped(var.name);
                    if name is Invalid && !is_pure(*init) {
                        VarDeclarator { name, init: None, ..var }
                    } else {
                        VarDeclarator { name, ..var }
                    }
                },
                None => VarDeclarator { name: self.var_dropped(var.name), ..var },
            }
        }
    }

    /// The statements that the rule on a declarator hands over to be appended:
    /// the initializer that moved out, if one did.
    pub open spec fn declarator_residue(self, var: VarDeclarator) -> Seq<Stmt> {
        match var.init {
            Some(init) => if self.may_prune() && !(*init is Invalid) && !is_async_fn(*init)
                && self.var_dropped(var.name) is Invalid && !is_pure(*init) {
                seq![Stmt::Expr { span: var.span, expr: init }]
            } else {
                Seq::empty()
            },
            None => Seq::empty(),
        }
    }

    fn can_prune(&self) -> (r: bool)
        ensures
            r == self.may_prune(),
    {
        self.options.unused && !self.ctx.is_exported && self.in_clear_scope()
    }

    fn keeps_top_level_here(&self) -> (r: bool)
        ensures
            r == self.top_level_kept(),
    {
        self.options.top_level_kept() && self.ctx.in_top_level()
    }

    /// Turns a `return void e` that ends a function body into the statement
    /// `e`.
    pub fn drop_unused_stmt_at_end_of_fn(&mut self, s: &mut Stmt)
        ensures
            old(self).return_void_applies(*old(s)) ==> *final(s) == return_void_dropped(*old(s))
                && *final(self) == old(self).marked(),
            !old(self).return_void_applies(*old(s)) ==> *final(s) == *old(s) && *final(self)
                == *old(self),
    {
        if !self.can_prune() {
            return ;
        }
        let applies = match &*s {
            Stmt::Return { arg: Some(a), .. } => match &**a {
                Expr::Unary { op: UnaryOp::Void, .. } => true,
                _ => false,
            },
            _ => false,
        };
        if applies {
            let mut whole = Stmt::Empty { span: dummy_sp() };
            std::mem::swap(s, &mut whole);
            *s = match whole {
                Stmt::Return { span: at, arg: Some(a) } => match *a {
                    Expr::Unary { span, op: UnaryOp::Void, arg } => Stmt::Expr { span, expr: arg },
                    other => Stmt::Return { span: at, arg: Some(Box::new(other)) },
                },
                other => other,
            };
            self.changed = true;
        }
    }

    /// Erases the binding `name` where the usage facts show that nothing
    /// refers to it; the caller clears away the placeholder left behind.
    pub fn drop_unused_vars(&mut self, name: &mut Pat)
        ensures
            *final(name) == old(self).var_dropped(*old(name)),
            old(self).drop_var_applies(*old(name)) ==> *final(self) == old(self).marked(),
            !old(self).drop_var_applies(*old(name)) ==> *final(self) == *old(self),
    {
        if !self.can_prune() || self.ctx.in_var_decl_of_for_in_or_of_loop {
            return ;
        }
        if self.keeps_top_level_here() {
            return ;
        }
        let applies = match &*name {
            Pat::Ident(i) => !self.options.is_retained(i.sym) && self.is_unreferenced(&i.to_id()),
            _ => false,
        };
        if applies {
            *name = Pat::Invalid { span: dummy_sp() };
            self.changed = true;
        }
    }

    /// Prunes a variable declarator: drops an invalid initializer, erases an
    /// unused binding, and where no binding is left, moves an initializer that
    /// could have a side effect to the statements to be appended. A declarator
    /// initialized with an `async` function is kept whole.
    pub fn drop_unused_var_declarator(&mut self, var: &mut VarDeclarator)
        ensures
            *final(var) == old(self).declarator_dropped(*old(var)),
            final(self).append_stmts@ == old(self).append_stmts@ + old(self).declarator_residue(
                *old(var),
            ),
            final(self).changed == (old(self).changed || *final(var) != *old(var)),
            final(self).options == old(self).options,
            final(self).ctx == old(self).ctx,
            final(self).data == old(self).data,
            final(self).lits == old(self).lits,
    {
        assert(old(self).append_stmts@ + Seq::<Stmt>::empty() =~= old(self).append_stmts@);
        if !self.can_prune() {
            return ;
        }
        let kind: u8 = match &var.init {
            Some(init) => match &**init {
                Expr::Invalid { .. } => 0,
                Expr::Fn { function, .. } => if function.is_async {
                    1
                } else {
                    2
                },
                _ => 2,
            },
            None => 3,
        };
        if kind == 0 {
            var.init = None;
            self.changed = true;
        } else if kind == 2 {
            self.drop_unused_vars(&mut var.name);
            let gone = match &var.name {
                Pat::Invalid { .. } => true,
                _ => false,
            };
            let effect = match &var.init {
                Some(init) => may_have_side_effects(init),
                None => false,
            };
            if gone && effect {
                let mut init: Option<Box<Expr>> = None;
                std::mem::swap(&mut var.init, &mut init);
                match init {
                    Some(e) => {
                        self.append_stmts.push(Stmt::Expr { span: var.span, expr: e });
                        self.changed = true;
                        assert(old(self).append_stmts@.push(Stmt::Expr { span: var.span, expr: e })
                            =~= old(self).append_stmts@ + seq![Stmt::Expr { span: var.span, expr: e }]);
                    },
                    None => {},
                }
            }
        } else if kind == 3 {
            self.drop_unused_vars(&mut var.name);
        }
    }

    /// Erases a class or function declaration that nothing refers to, leaving
    /// an empty variable declaration in its place. Variable declarations and
    /// declarations of types are not touched.
    pub fn drop_unused_decl(&mut self, decl: &mut Decl)
        ensures
            old(self).drop_decl_applies(*old(decl)) ==> *final(decl) == empty_decl() && *final(self)
                == old(self).marked(),
            !old(self).drop_decl_applies(*old(decl)) ==> *final(decl) == *old(decl) && *final(self)
                == *old(self),
    {
        if !self.can_prune() {
            return ;
        }
        if !self.options.top_level && self.ctx.in_top_level() {
            return ;
        }
        let applies = match &*decl {
            Decl::Class { ident, .. } | Decl::Fn { ident, .. } => ident.sym != ATOM_ARGUMENTS
                && !self.options.is_retained(ident.sym) && self.is_unreferenced(&ident.to_id()),
            Decl::Var(_) => false,
            Decl::TsInterface { .. } | Decl::TsTypeAlias { .. } | Decl::TsEnum { .. }
            | Decl::TsModule { .. } => false,
        };
        if applies {
            *decl = Decl::Var(
                VarDecl { span: dummy_sp(), kind: VarDeclKind::Var, declare: false, decls: List::Nil },
            );
            self.changed = true;
        }
    }

    /// Replaces a dead store `x = e` by `e`: the value and its side effects
    /// stay, the store goes.
    pub fn drop_unused_assignments(&mut self, e: &mut Expr)
        ensures
            old(self).drop_assign_applies(*old(e)) ==> *final(e) == store_dropped(*old(e))
                && *final(self) == old(self).marked(),
            !old(self).drop_assign_applies(*old(e)) ==> *final(e) == *old(e) && *final(self)
                == *old(self),
    {
        if !self.options.unused || self.ctx.is_exported || self.ctx.is_delete_arg {
            return ;
        }
        if !self.top_scope_clear() {
            return ;
        }
        if self.keeps_top_level_here() {
            return ;
        }
        let applies = match &*e {
            Expr::Assign { op: AssignOp::Assign, left: AssignTarget::Pat(p), .. } => match &**p {
                Pat::Ident(i) => !self.options.is_retained(i.sym) && match self.var_info(
                    &i.to_id(),
                ) {
                    Some(v) => v.is_fn_local && v.usage_count == 0,
                    None => false,
                },
                _ => false,
            },
            _ => false,
        };
        if applies {
            let whole = e.take();
            *e = match whole {
                Expr::Assign { right, .. } => *right,
                other => other,
            };
            self.changed = true;
        }
    }

    /// Clears the name of a function or class expression that nothing refers
    /// to.
    pub fn remove_name_if_not_used(&mut self, name: &mut Option<Ident>)
        ensures
            old(self).remove_name_applies(*old(name)) ==> *final(name) == None::<Ident>
                && *final(self) == old(self).marked(),
            !old(self).remove_name_applies(*old(name)) ==> *final(name) == *old(name)
                && *final(self) == *old(self),
    {
        if !self.can_prune() {
            return ;
        }
        let applies = match &*name {
            Some(i) => !self.options.is_retained(i.sym) && self.is_unreferenced(&i.to_id()),
            None => false,
        };
        if applies {
            *name = None;
            self.changed = true;
        }
    }
}

/// A binding local to a function that nothing refers to is erased where the
/// rules may act and the name is not retained. It stays where the name is
/// retained, where the scope holds `eval` or `with`, where the usage facts
/// have no record of the scope or of the variable, where the declaration is
/// exported, or where the switch is off.
pub proof fn law_unused_pruning(o: Optimizer, i: Ident)
    ensures
        o.options.unused && !o.ctx.is_exported && o.scope_clear()
            && !o.ctx.in_var_decl_of_for_in_or_of_loop && !o.ctx.at_top_level()
            && !o.options.retains(i.sym) && o.unreferenced(i.id()) ==> o.var_dropped(Pat::Ident(i))
            == invalid_pat(),
        o.options.retains(i.sym) || o.ctx.is_exported || !o.options.unused ==> o.var_dropped(
            Pat::Ident(i),
        ) == Pat::Ident(i),
        o.scope(o.ctx.scope) is None ==> o.var_dropped(Pat::Ident(i)) == Pat::Ident(i),
        (match o.scope(o.ctx.scope) {
            Some(s) => s.has_eval_call || s.has_with_stmt,
            None => false,
        }) ==> o.var_dropped(Pat::Ident(i)) == Pat::Ident(i),
        o.var(i.id()) is None ==> o.var_dropped(Pat::Ident(i)) == Pat::Ident(i),
{
}

/// No rule on unused code acts where the usage facts have no record of the
/// scope being visited, or none of the variable that the rule asks about.
pub proof fn law_absent_facts_bail_out(
    o: Optimizer,
    name: Pat,
    d: Decl,
    e: Expr,
    n: Option<Ident>,
    s: Stmt,
    var: VarDeclarator,
)
    ensures
        o.scope(o.ctx.scope) is None ==> !o.drop_var_applies(name) && !o.drop_decl_applies(d)
            && !o.remove_name_applies(n) && !o.return_void_applies(s) && o.declarator_dropped(var)
            == var && o.declarator_residue(var) == Seq::<Stmt>::empty(),
        o.data is None ==> !o.drop_assign_applies(e),
        (match name {
            Pat::Ident(i) => o.var(i.id()) is None,
            _ => true,
        }) ==> !o.drop_var_applies(name),
        (match declared_name(d) {
            Some(i) => o.var(i.id()) is None,
            None => true,
        }) ==> !o.drop_decl_applies(d),
        (match stored_name(e) {
            Some(i) => o.var(i.id()) is None,
            None => true,
        }) ==> !o.drop_assign_applies(e),
        (match n {
            Some(i) => o.var(i.id()) is None,
            None => true,
        }) ==> !o.remove_name_applies(n),
{
}

/// Dropping a dead store keeps the value stored: what is left of `x = e` is
/// `e` itself, whatever it does when evaluated.
pub proof fn law_dead_store_keeps_value(o: Optimizer, e: Expr)
    requires
        o.drop_assign_applies(e),
    ensures
        e matches Expr::Assign { right, .. } && store_dropped(e) == *right,
{
}

} // verus!
