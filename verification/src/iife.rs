//! The rules on immediately invoked functions: negating them, handing their
//! arguments inward, and replacing the call by what the body computes.

use crate::ast::dummy_sp;
use crate::ast::dummy_span;
use crate::ast::ArrowBody;
use crate::ast::Callee;
use crate::ast::Expr;
use crate::ast::ExprOrSpread;
use crate::ast::Id;
use crate::ast::List;
use crate::ast::Lit;
use crate::ast::Pat;
use crate::ast::Span;
use crate::ast::Stmt;
use crate::ast::UnaryOp;
use crate::maps::table_insert;
use crate::side_effects::any_arg_impure;
use crate::side_effects::args_may_have_side_effects;
use crate::side_effects::is_pure;
use crate::state::Ctx;
use crate::state::Optimizer;
use vstd::prelude::*;

verus! {

/// Whether `e` is a call whose callee is a plain function expression.
pub open spec fn is_fn_call(e: Expr) -> bool {
    match e {
        Expr::Call { callee: Callee::Expr(c), .. } => *c is Fn,
        _ => false,
    }
}

/// `e` under a boolean negation.
pub open spec fn negated(e: Expr) -> Expr {
    Expr::Unary { span: dummy_span(), op: UnaryOp::Bang, arg: Box::new(e) }
}

/// Whether the rule that negates a call in statement position applies.
pub open spec fn negate_applies(negate_iife: bool, ctx: Ctx, e: Expr) -> bool {
    negate_iife && !ctx.in_bang_arg && is_fn_call(e)
}

/// Whether the rule that negates the test of a conditional applies.
pub open spec fn negate_cond_applies(negate_iife: bool, e: Expr) -> bool {
    match e {
        Expr::Cond { test, .. } => negate_iife && is_fn_call(*test),
        _ => false,
    }
}

/// A conditional with its test negated and its branches exchanged; any other
/// expression as it is.
pub open spec fn cond_negated(e: Expr) -> Expr {
    match e {
        Expr::Cond { span, test, cons, alt } => Expr::Cond {
            span,
            test: Box::new(negated(*test)),
            cons: alt,
            alt: cons,
        },
        _ => e,
    }
}

/// Whether some argument is a spread.
pub open spec fn any_spread(args: List<ExprOrSpread>) -> bool
    decreases args,
{
    match args {
        List::Nil => false,
        List::Cons(a, rest) => a.spread is Some || any_spread(*rest),
    }
}

/// The pending substitutions after each simple parameter whose argument is
/// free of side effects has been registered, parameter by parameter.
pub open spec fn registered(lits: Map<Id, Expr>, params: List<Pat>, args: List<ExprOrSpread>) -> Map<
    Id,
    Expr,
>
    decreases params,
{
    match (params, args) {
        (List::Cons(p, ps), List::Cons(a, rest)) => {
            let next = match *p {
                Pat::Ident(i) => if is_pure(*a.expr) {
                    lits.insert(i.id(), *a.expr)
                } else {
                    lits
                },
                _ => lits,
            };
            registered(next, *ps, *rest)
        },
        _ => lits,
    }
}

/// Whether the rule that hands arguments inward applies to `e`.
pub open spec fn inline_args_applies(inline: u8, e: Expr) -> bool {
    match e {
        Expr::Call { callee: Callee::Expr(c), args, .. } => inline != 0 && !any_spread(args)
            && *c is Fn,
        _ => false,
    }
}

/// The pending substitutions after the rule that hands arguments inward.
pub open spec fn inline_args_lits(lits: Map<Id, Expr>, e: Expr) -> Map<Id, Expr> {
    match e {
        Expr::Call { callee: Callee::Expr(c), args, .. } => match *c {
            Expr::Fn { function, .. } => registered(lits, function.params, args),
            _ => lits,
        },
        _ => lits,
    }
}

/// Whether a parameter has a shape other than a plain name.
pub open spec fn complex_param(p: Pat) -> bool {
    p is Object || p is Array || p is Assign || p is Rest
}

/// Whether some parameter has a shape other than a plain name.
pub open spec fn any_complex_param(params: List<Pat>) -> bool
    decreases params,
{
    match params {
        List::Nil => false,
        List::Cons(p, rest) => complex_param(*p) || any_complex_param(*rest),
    }
}

/// Whether `e` is a numeric literal.
pub open spec fn is_num_lit(e: Expr) -> bool {
    match e {
        Expr::Lit { lit: Lit::Num(_), .. } => true,
        _ => false,
    }
}

/// Whether a statement of a body can go into a sequence expression: an
/// expression statement, or a return; a return of a numeric literal only
/// where the call is not the object of a member expression.
pub open spec fn stmt_inlinable(s: Stmt, in_member_obj: bool) -> bool {
    match s {
        Stmt::Expr { .. } => true,
        Stmt::Return { arg: Some(a), .. } => !(is_num_lit(*a) && in_member_obj),
        Stmt::Return { arg: None, .. } => true,
        _ => false,
    }
}

/// Whether every statement of a body can go into a sequence expression.
pub open spec fn all_inlinable(stmts: List<Stmt>, in_member_obj: bool) -> bool
    decreases stmts,
{
    match stmts {
        List::Nil => true,
        List::Cons(s, rest) => stmt_inlinable(*s, in_member_obj) && all_inlinable(
            *rest,
            in_member_obj,
        ),
    }
}

/// What a return statement yields: its argument, or the undefined value.
pub open spec fn returned(span: Span, arg: Option<Box<Expr>>) -> Expr {
    match arg {
        Some(a) => *a,
        None => Expr::undefined_at(span),
    }
}

/// `e` under `void`.
pub open spec fn voided(e: Expr) -> Expr {
    Expr::Unary { span: dummy_span(), op: UnaryOp::Void, arg: Box::new(e) }
}

/// The elements of the sequence expression that stands for a body: the
/// expression statements in order up to the first return, then what that
/// return yields; where the body ends without a return, its last expression
/// goes under `void`.
pub open spec fn body_sequence(stmts: List<Stmt>) -> List<Expr>
    decreases stmts,
{
    match stmts {
        List::Nil => List::Nil,
        List::Cons(s, rest) => match *s {
            Stmt::Return { span, arg } => List::Cons(Box::new(returned(span, arg)), Box::new(List::Nil)),
            Stmt::Expr { expr, .. } => if *rest is Nil {
                List::Cons(Box::new(voided(*expr)), Box::new(List::Nil))
            } else {
                List::Cons(expr, Box::new(body_sequence(*rest)))
            },
            _ => body_sequence(*rest),
        },
    }
}

/// The expression that stands for a call of a function with body `stmts`,
/// whose own span is `span`.
pub open spec fn body_value(span: Span, stmts: List<Stmt>) -> Expr {
    match stmts {
        List::Nil => Expr::undefined_at(span),
        List::Cons(s, _) => match *s {
            Stmt::Return { span: at, arg } => returned(at, arg),
            _ => Expr::Sequence { span: dummy_span(), exprs: body_sequence(stmts) },
        },
    }
}

/// Whether the callee is one whose call can be replaced by what it computes.
pub open spec fn callee_inlinable(c: Expr, in_member_obj: bool) -> bool {
    match c {
        Expr::Arrow { params, body: ArrowBody::Expr(b), .. } => params is Nil && !(is_num_lit(*b)
            && in_member_obj),
        Expr::Fn { function, .. } => !function.is_generator && !any_complex_param(
            function.params,
        ) && all_inlinable(function.body, in_member_obj),
        _ => false,
    }
}

/// Whether the rule that replaces a call by what its callee computes applies.
pub open spec fn invoke_applies(inline: u8, ctx: Ctx, e: Expr) -> bool {
    match e {
        Expr::Call { span, callee: Callee::Expr(c), args } => (inline != 0 || span.synthetic())
            && !ctx.inline_prevented && !any_arg_impure(args) && callee_inlinable(
            *c,
            ctx.in_obj_of_non_computed_member,
        ),
        _ => false,
    }
}

/// What the call `e` is replaced by, where the rule applies.
pub open spec fn invoked(e: Expr) -> Expr {
    match e {
        Expr::Call { callee: Callee::Expr(c), .. } => match *c {
            Expr::Arrow { body: ArrowBody::Expr(b), .. } => *b,
            Expr::Fn { function, .. } => body_value(function.span, function.body),
            _ => e,
        },
        _ => e,
    }
}

fn check_fn_call(e: &Expr) -> (r: bool)
    ensures
        r == is_fn_call(*e),
{
    match e {
        Expr::Call { callee: Callee::Expr(c), .. } => match &**c {
            Expr::Fn { .. } => true,
            _ => false,
        },
        _ => false,
    }
}

fn negate(e: Expr) -> (r: Expr)
    ensures
        r == negated(e),
{
    Expr::Unary { span: dummy_sp(), op: UnaryOp::Bang, arg: Box::new(e) }
}

fn has_spread(args: &List<ExprOrSpread>) -> (r: bool)
    ensures
        r == any_spread(*args),
    decreases *args,
{
    match args {
        List::Nil => false,
        List::Cons(a, rest) => a.spread.is_some() || has_spread(rest),
    }
}

fn has_complex_param(params: &List<Pat>) -> (r: bool)
    ensures
        r == any_complex_param(*params),
    decreases *params,
{
    match params {
        List::Nil => false,
        List::Cons(p, rest) => {
            let here = match &**p {
                Pat::Object { .. } | Pat::Array { .. } | Pat::Assign { .. } | Pat::Rest { .. } => true,
                _ => false,
            };
            here || has_complex_param(rest)
        },
    }
}

fn check_num_lit(e: &Expr) -> (r: bool)
    ensures
        r == is_num_lit(*e),
{
    match e {
        Expr::Lit { lit: Lit::Num(_), .. } => true,
        _ => false,
    }
}

fn check_all_inlinable(stmts: &List<Stmt>, in_member_obj: bool) -> (r: bool)
    ensures
        r == all_inlinable(*stmts, in_member_obj),
    decreases *stmts,
{
    match stmts {
        List::Nil => true,
        List::Cons(s, rest) => {
            let here = match &**s {
                Stmt::Expr { .. } => true,
                Stmt::Return { arg: Some(a), .. } => !(check_num_lit(a) && in_member_obj),
                Stmt::Return { arg: None, .. } => true,
                _ => false,
            };
            here && check_all_inlinable(rest, in_member_obj)
        },
    }
}

fn return_value(span: Span, arg: Option<Box<Expr>>) -> (r: Expr)
    ensures
        r == returned(span, arg),
{
    match arg {
        Some(a) => *a,
        None => Expr::undefined(span),
    }
}

fn build_sequence(stmts: List<Stmt>) -> (r: List<Expr>)
    ensures
        r == body_sequence(stmts),
    decreases stmts,
{
    match stmts {
        List::Nil => List::Nil,
        List::Cons(s, rest) => match *s {
            Stmt::Return { span, arg } => List::Cons(
                Box::new(return_value(span, arg)),
                Box::new(List::Nil),
            ),
            Stmt::Expr { expr, .. } => if rest.is_empty() {
                let last = Expr::Unary { span: dummy_sp(), op: UnaryOp::Void, arg: expr };
                List::Cons(Box::new(last), Box::new(List::Nil))
            } else {
                List::Cons(expr, Box::new(build_sequence(*rest)))
            },
            _ => build_sequence(*rest),
        },
    }
}

fn build_body_value(span: Span, stmts: List<Stmt>) -> (r: Expr)
    ensures
        r == body_value(span, stmts),
{
    match stmts {
        List::Nil => Expr::undefined(span),
        List::Cons(s, rest) => match *s {
            Stmt::Return { span: at, arg } => return_value(at, arg),
            other => Expr::Sequence {
                span: dummy_sp(),
                exprs: build_sequence(List::Cons(Box::new(other), rest)),
            },
        },
    }
}

fn invoke(e: Expr) -> (r: Expr)
    ensures
        r == invoked(e),
{
    match e {
        Expr::Call { span, callee: Callee::Expr(c), args } => match *c {
            Expr::Arrow { body: ArrowBody::Expr(b), .. } => *b,
            Expr::Fn { function, .. } => {
                let f = *function;
                build_body_value(f.span, f.body)
            },
            other => Expr::Call { span, callee: Callee::Expr(Box::new(other)), args },
        },
        other => other,
    }
}

fn copy_pure(e: &Expr) -> (r: Expr)
    requires
        is_pure(*e),
    ensures
        r == *e,
    decreases *e,
{
    match e {
        Expr::Lit { span, lit } => Expr::Lit { span: *span, lit: *lit },
        Expr::Unary { span, op, arg } => Expr::Unary {
            span: *span,
            op: *op,
            arg: Box::new(copy_pure(arg)),
        },
        _ => Expr::Invalid { span: dummy_sp() },
    }
}

impl Optimizer {
    /// Negates a call of a plain function expression whose value is thrown
    /// away. Does nothing where the switch is off, or under the argument of a
    /// negation, where it would undo itself.
    pub fn negate_iife_ignoring_ret(&mut self, e: &mut Expr)
        ensures
            negate_applies(old(self).options.negate_iife, old(self).ctx, *old(e)) ==> *final(e)
                == negated(*old(e)) && *final(self) == old(self).marked(),
            !negate_applies(old(self).options.negate_iife, old(self).ctx, *old(e)) ==> *final(e)
                == *old(e) && *final(self) == *old(self),
    {
        if !self.options.negate_iife || self.ctx.in_bang_arg {
            return ;
        }
        if check_fn_call(e) {
            let call = e.take();
            *e = negate(call);
            self.changed = true;
        }
    }

    /// Rewrites `f() ? a : b`, where `f` is a plain function expression, to
    /// `!f() ? b : a`.
    pub fn negate_iife_in_cond(&mut self, e: &mut Expr)
        ensures
            negate_cond_applies(old(self).options.negate_iife, *old(e)) ==> *final(e)
                == cond_negated(*old(e)) && *final(self) == old(self).marked(),
            !negate_cond_applies(old(self).options.negate_iife, *old(e)) ==> *final(e) == *old(e)
                && *final(self) == *old(self),
    {
        if !self.options.negate_iife {
            return ;
        }
        let applies = match &*e {
            Expr::Cond { test, .. } => check_fn_call(test),
            _ => false,
        };
        if applies {
            let whole = e.take();
            *e = match whole {
                Expr::Cond { span, test, cons, alt } => Expr::Cond {
                    span,
                    test: Box::new(negate(*test)),
                    cons: alt,
                    alt: cons,
                },
                other => other,
            };
            self.changed = true;
        }
    }

    fn register_args(&mut self, params: &List<Pat>, args: &List<ExprOrSpread>)
        ensures
            final(self).lits@ == registered(old(self).lits@, *params, *args),
            final(self).options == old(self).options,
            final(self).ctx == old(self).ctx,
            final(self).data == old(self).data,
            final(self).changed == old(self).changed,
            final(self).append_stmts == old(self).append_stmts,
        decreases *params,
    {
        match params {
            List::Cons(p, ps) => match args {
                List::Cons(a, rest) => {
                    match &**p {
                        Pat::Ident(i) => {
                            if !crate::side_effects::may_have_side_effects(&a.expr) {
                                table_insert(&mut self.lits, i.to_id(), copy_pure(&a.expr));
                            }
                        },
                        _ => {},
                    }
                    self.register_args(ps, rest);
                },
                List::Nil => {},
            },
            List::Nil => {},
        }
    }

    /// For a call of a function expression without a spread argument,
    /// registers each plain parameter whose argument is free of side effects
    /// as a pending substitution. Hands back the place under which the
    /// function is then to be visited, with inlining enabled again; `None`
    /// where the rule does not apply.
    pub fn inline_args_of_iife(&mut self, e: &Expr) -> (visit: Option<Ctx>)
        ensures
            inline_args_applies(old(self).options.inline, *e) ==> visit == Some(
                Ctx { inline_prevented: false, ..old(self).ctx },
            ) && final(self).lits@ == inline_args_lits(old(self).lits@, *e),
            !inline_args_applies(old(self).options.inline, *e) ==> visit is None
                && final(self).lits@ == old(self).lits@,
            final(self).options == old(self).options,
            final(self).ctx == old(self).ctx,
            final(self).data == old(self).data,
            final(self).changed == old(self).changed,
            final(self).append_stmts == old(self).append_stmts,
    {
        if self.options.inline == 0 {
            return None;
        }
        match e {
            Expr::Call { callee: Callee::Expr(c), args, .. } => {
                if has_spread(args) {
                    return None;
                }
                match &**c {
                    Expr::Fn { function, .. } => {
                        self.register_args(&function.params, args);
                        let c = self.ctx;
                        Some(Ctx { inline_prevented: false, ..c })
                    },
                    _ => None,
                }
            },
            _ => None,
        }
    }

    /// Tells whether an argument may be handed inward: a literal, or a boolean
    /// negation of such an argument.
    pub fn can_be_inlined_for_iife(&self, arg: &Expr) -> (r: bool)
        ensures
            r == is_pure(*arg),
    {
        !crate::side_effects::may_have_side_effects(arg)
    }

    fn invoke_iife_applies(&self, e: &Expr) -> (r: bool)
        ensures
            r == invoke_applies(self.options.inline, self.ctx, *e),
    {
        match e {
            Expr::Call { span, callee: Callee::Expr(c), args } => {
                if self.options.inline == 0 && !span.is_dummy() {
                    return false;
                }
                if self.ctx.inline_prevented {
                    return false;
                }
                if args_may_have_side_effects(args) {
                    return false;
                }
                let in_member_obj = self.ctx.in_obj_of_non_computed_member;
                match &**c {
                    Expr::Arrow { params, body: ArrowBody::Expr(b), .. } => params.is_empty() && !(
                    check_num_lit(b) && in_member_obj),
                    Expr::Fn { function, .. } => !function.is_generator && !has_complex_param(
                        &function.params,
                    ) && check_all_inlinable(&function.body, in_member_obj),
                    _ => false,
                }
            },
            _ => false,
        }
    }

    /// Replaces a call of a function or arrow expression by what the callee
    /// computes, where no argument could have a side effect and the body is
    /// made of expression statements and returns only. Otherwise leaves the
    /// tree as it is.
    pub fn invoke_iife(&mut self, e: &mut Expr)
        ensures
            invoke_applies(old(self).options.inline, old(self).ctx, *old(e)) ==> *final(e)
                == invoked(*old(e)) && *final(self) == old(self).marked(),
            !invoke_applies(old(self).options.inline, old(self).ctx, *old(e)) ==> *final(e)
                == *old(e) && *final(self) == *old(self),
    {
        if self.invoke_iife_applies(e) {
            let call = e.take();
            *e = invoke(call);
            self.changed = true;
        }
    }
}

/// A call under the argument of a negation is never negated, and what the
/// negating rules produce is never negated again, whatever the place: the
/// rules cannot toggle a call between its two forms.
pub proof fn law_negation_settles(negate_iife: bool, ctx: Ctx, later: Ctx, e: Expr)
    ensures
        ctx.in_bang_arg ==> !negate_applies(negate_iife, ctx, e),
        !negate_applies(negate_iife, later, negated(e)),
        !negate_cond_applies(negate_iife, negated(e)),
        negate_cond_applies(negate_iife, e) ==> !negate_cond_applies(negate_iife, cond_negated(e)),
{
}

/// A call with an argument that could have a side effect is never replaced by
/// what its callee computes, and no rule applies where inlining is prevented.
pub proof fn law_invoke_keeps_effects(inline: u8, ctx: Ctx, e: Expr)
    ensures
        (match e {
            Expr::Call { args, .. } => any_arg_impure(args),
            _ => true,
        }) ==> !invoke_applies(inline, ctx, e),
        ctx.inline_prevented ==> !invoke_applies(inline, ctx, e),
{
}

} // verus!
