use minifier_rules::ast::dummy_sp;
use minifier_rules::ast::ArrowBody;
use minifier_rules::ast::AssignOp;
use minifier_rules::ast::AssignTarget;
use minifier_rules::ast::Atom;
use minifier_rules::ast::Callee;
use minifier_rules::ast::Class;
use minifier_rules::ast::ClassMember;
use minifier_rules::ast::Decl;
use minifier_rules::ast::Expr;
use minifier_rules::ast::ExprOrSpread;
use minifier_rules::ast::Function;
use minifier_rules::ast::Ident;
use minifier_rules::ast::List;
use minifier_rules::ast::Lit;
use minifier_rules::ast::MemberProp;
use minifier_rules::ast::Pat;
use minifier_rules::ast::Prop;
use minifier_rules::ast::PropName;
use minifier_rules::ast::PropOrSpread;
use minifier_rules::ast::Span;
use minifier_rules::ast::Stmt;
use minifier_rules::ast::UnaryOp;
use minifier_rules::ast::VarDecl;
use minifier_rules::ast::VarDeclKind;
use minifier_rules::ast::VarDeclarator;
use minifier_rules::ast::ATOM_ARGUMENTS;
use minifier_rules::props::prop_name_eq;
use minifier_rules::replace::replace_id_with_expr;
use minifier_rules::replace::MultiReplacer;
use minifier_rules::replace::Node;
use minifier_rules::replace::Remapper;
use minifier_rules::side_effects::class_has_side_effect;
use minifier_rules::side_effects::is_valid_for_lhs;
use minifier_rules::side_effects::may_have_side_effects;
use minifier_rules::state::Ctx;
use minifier_rules::state::Optimizer;
use minifier_rules::state::Options;
use minifier_rules::state::ProgramData;
use minifier_rules::state::ScopeData;
use minifier_rules::state::VarUsageInfo;
use minifier_rules::hoist::UnreachableHandler;
use minifier_rules::visit::visit_expr;
use rustc_hash::FxHashMap;

const X: Atom = 1;
const F: Atom = 2;
const CONSOLE: Atom = 3;
const LOG: Atom = 4;
const A: Atom = 5;
const B: Atom = 6;
const ONE: u64 = 0x3ff0_0000_0000_0000;
const TWO: u64 = 0x4000_0000_0000_0000;
const FIVE: u64 = 0x4014_0000_0000_0000;

fn sp(lo: u32, hi: u32) -> Span {
    Span { lo, hi }
}

fn list<T>(items: Vec<T>) -> List<T> {
    List::from_vec(items)
}

fn ident(sym: Atom, ctxt: u32) -> Ident {
    Ident { span: sp(1, 2), ctxt, sym }
}

fn name(sym: Atom) -> Expr {
    Expr::Ident(ident(sym, 0))
}

fn num(bits: u64) -> Expr {
    Expr::Lit { span: sp(3, 4), lit: Lit::Num(bits) }
}

fn arg(e: Expr) -> ExprOrSpread {
    ExprOrSpread { spread: None, expr: Box::new(e) }
}

fn call(callee: Expr, args: Vec<Expr>) -> Expr {
    Expr::Call {
        span: sp(10, 20),
        callee: Callee::Expr(Box::new(callee)),
        args: list(args.into_iter().map(arg).collect()),
    }
}

fn console_log(e: Expr) -> Expr {
    call(
        Expr::Member {
            span: sp(5, 6),
            obj: Box::new(name(CONSOLE)),
            prop: MemberProp::Ident(ident(LOG, 0)),
        },
        vec![e],
    )
}

fn function(params: Vec<Pat>, body: Vec<Stmt>) -> Function {
    Function {
        span: sp(30, 40),
        params: list(params),
        body: list(body),
        is_generator: false,
        is_async: false,
    }
}

fn fn_expr(params: Vec<Pat>, body: Vec<Stmt>) -> Expr {
    Expr::Fn { ident: None, function: Box::new(function(params, body)) }
}

fn ret(e: Option<Expr>) -> Stmt {
    Stmt::Return { span: sp(7, 8), arg: e.map(Box::new) }
}

fn expr_stmt(e: Expr) -> Stmt {
    Stmt::Expr { span: sp(9, 9), expr: Box::new(e) }
}

fn void_zero(span: Span) -> Expr {
    Expr::Unary {
        span,
        op: UnaryOp::Void,
        arg: Box::new(Expr::Lit { span: dummy_sp(), lit: Lit::Num(0) }),
    }
}

fn not(e: Expr) -> Expr {
    Expr::Unary { span: dummy_sp(), op: UnaryOp::Bang, arg: Box::new(e) }
}

fn local_ctx() -> Ctx {
    Ctx {
        scope: 1,
        in_bang_arg: false,
        inline_prevented: false,
        in_obj_of_non_computed_member: false,
        in_var_decl_of_for_in_or_of_loop: false,
        is_exported: false,
        is_delete_arg: false,
        in_fn_like: true,
        top_level: false,
    }
}

fn options() -> Options {
    Options { unused: true, negate_iife: true, inline: 1, top_level: false, top_retain: vec![] }
}

fn data(vars: Vec<(Atom, u32, u32, bool)>) -> ProgramData {
    let mut table = FxHashMap::default();
    for (sym, ref_count, usage_count, is_fn_local) in vars {
        table.insert((sym, 0), VarUsageInfo { ref_count, usage_count, is_fn_local });
    }
    let mut scopes = FxHashMap::default();
    scopes.insert(1, ScopeData { has_eval_call: false, has_with_stmt: false });
    ProgramData {
        vars: table,
        top: ScopeData { has_eval_call: false, has_with_stmt: false },
        scopes,
    }
}

fn optimizer(vars: Vec<(Atom, u32, u32, bool)>) -> Optimizer {
    Optimizer {
        options: options(),
        ctx: local_ctx(),
        data: Some(data(vars)),
        changed: false,
        append_stmts: vec![],
        lits: FxHashMap::default(),
    }
}

fn let_x_5() -> VarDeclarator {
    VarDeclarator {
        span: sp(50, 60),
        name: Pat::Ident(ident(X, 0)),
        init: Some(Box::new(num(FIVE))),
        definite: false,
    }
}

#[test]
fn invoke_iife_returns_the_returned_literal() {
    let mut o = optimizer(vec![]);
    let mut e = call(fn_expr(vec![], vec![ret(Some(num(ONE)))]), vec![]);
    o.invoke_iife(&mut e);
    assert_eq!(e, num(ONE));
    assert!(o.changed);
}

#[test]
fn invoke_iife_of_empty_body_is_undefined() {
    let mut o = optimizer(vec![]);
    let mut e = call(fn_expr(vec![], vec![]), vec![]);
    o.invoke_iife(&mut e);
    assert_eq!(e, void_zero(sp(30, 40)));
    assert!(o.changed);
}

#[test]
fn invoke_iife_keeps_statements_before_return() {
    let mut o = optimizer(vec![]);
    let body = vec![expr_stmt(console_log(num(ONE))), ret(Some(num(TWO)))];
    let mut e = call(fn_expr(vec![], body), vec![]);
    o.invoke_iife(&mut e);
    let expected =
        Expr::Sequence { span: dummy_sp(), exprs: list(vec![console_log(num(ONE)), num(TWO)]) };
    assert_eq!(e, expected);
}

#[test]
fn invoke_iife_stops_at_first_return() {
    let mut o = optimizer(vec![]);
    let body = vec![
        expr_stmt(name(A)),
        ret(None),
        expr_stmt(name(B)),
    ];
    let mut e = call(fn_expr(vec![], body), vec![]);
    o.invoke_iife(&mut e);
    let expected =
        Expr::Sequence { span: dummy_sp(), exprs: list(vec![name(A), void_zero(sp(7, 8))]) };
    assert_eq!(e, expected);
}

#[test]
fn invoke_iife_without_return_voids_last_expression() {
    let mut o = optimizer(vec![]);
    let body = vec![expr_stmt(name(A)), expr_stmt(console_log(num(ONE)))];
    let mut e = call(fn_expr(vec![], body), vec![]);
    o.invoke_iife(&mut e);
    let last = Expr::Unary {
        span: dummy_sp(),
        op: UnaryOp::Void,
        arg: Box::new(console_log(num(ONE))),
    };
    let expected = Expr::Sequence { span: dummy_sp(), exprs: list(vec![name(A), last]) };
    assert_eq!(e, expected);
}

#[test]
fn invoke_iife_leaves_call_with_impure_argument() {
    let mut o = optimizer(vec![]);
    let make = || {
        call(
            fn_expr(vec![Pat::Ident(ident(X, 0))], vec![ret(Some(name(X)))]),
            vec![call(name(F), vec![])],
        )
    };
    let mut e = make();
    o.invoke_iife(&mut e);
    assert_eq!(e, make());
    assert!(!o.changed);
}

#[test]
fn invoke_iife_accepts_pure_arguments() {
    let mut o = optimizer(vec![]);
    let mut e = call(
        fn_expr(vec![Pat::Ident(ident(X, 0))], vec![ret(Some(name(X)))]),
        vec![not(num(ONE))],
    );
    o.invoke_iife(&mut e);
    assert_eq!(e, name(X));
}

#[test]
fn invoke_iife_inlines_arrow_expression_body() {
    let mut o = optimizer(vec![]);
    let arrow = Expr::Arrow {
        span: sp(1, 9),
        params: List::Nil,
        body: ArrowBody::Expr(Box::new(name(A))),
    };
    let mut e = call(arrow, vec![]);
    o.invoke_iife(&mut e);
    assert_eq!(e, name(A));
    assert!(o.changed);
}

#[test]
fn invoke_iife_leaves_arrow_with_block_body() {
    let mut o = optimizer(vec![]);
    let make = || {
        call(
            Expr::Arrow {
                span: sp(1, 9),
                params: List::Nil,
                body: ArrowBody::Block(list(vec![ret(Some(num(ONE)))])),
            },
            vec![],
        )
    };
    let mut e = make();
    o.invoke_iife(&mut e);
    assert_eq!(e, make());
    assert!(!o.changed);
}

#[test]
fn invoke_iife_rejects_numeric_literal_in_member_object() {
    let mut o = optimizer(vec![]);
    o.ctx.in_obj_of_non_computed_member = true;
    let make_arrow = || {
        call(
            Expr::Arrow {
                span: sp(1, 9),
                params: List::Nil,
                body: ArrowBody::Expr(Box::new(num(ONE))),
            },
            vec![],
        )
    };
    let mut e = make_arrow();
    o.invoke_iife(&mut e);
    assert_eq!(e, make_arrow());
    let make_fn = || call(fn_expr(vec![], vec![ret(Some(num(ONE)))]), vec![]);
    let mut e = make_fn();
    o.invoke_iife(&mut e);
    assert_eq!(e, make_fn());
    assert!(!o.changed);
}

#[test]
fn invoke_iife_rejects_generators_and_complex_parameters() {
    let mut o = optimizer(vec![]);
    let make_gen = || {
        let mut f = function(vec![], vec![ret(Some(num(ONE)))]);
        f.is_generator = true;
        call(Expr::Fn { ident: None, function: Box::new(f) }, vec![])
    };
    let mut e = make_gen();
    o.invoke_iife(&mut e);
    assert_eq!(e, make_gen());
    let make_rest = || {
        let rest = Pat::Rest { span: sp(1, 1), arg: Box::new(Pat::Ident(ident(X, 0))) };
        call(fn_expr(vec![rest], vec![ret(Some(num(ONE)))]), vec![])
    };
    let mut e = make_rest();
    o.invoke_iife(&mut e);
    assert_eq!(e, make_rest());
    let make_if = || {
        let s = Stmt::If {
            span: sp(1, 1),
            test: Box::new(name(A)),
            cons: Box::new(ret(None)),
            alt: None,
        };
        call(fn_expr(vec![], vec![s]), vec![])
    };
    let mut e = make_if();
    o.invoke_iife(&mut e);
    assert_eq!(e, make_if());
    assert!(!o.changed);
}

#[test]
fn invoke_iife_respects_inline_prevented() {
    let mut o = optimizer(vec![]);
    o.ctx.inline_prevented = true;
    let make = || call(fn_expr(vec![], vec![ret(Some(num(ONE)))]), vec![]);
    let mut e = make();
    o.invoke_iife(&mut e);
    assert_eq!(e, make());
}

#[test]
fn invoke_iife_with_inline_off_needs_synthetic_span() {
    let mut o = optimizer(vec![]);
    o.options.inline = 0;
    let make = |span: Span| Expr::Call {
        span,
        callee: Callee::Expr(Box::new(fn_expr(vec![], vec![ret(Some(num(ONE)))]))),
        args: List::Nil,
    };
    let mut e = make(sp(10, 20));
    o.invoke_iife(&mut e);
    assert_eq!(e, make(sp(10, 20)));
    assert!(!o.changed);
    let mut e = make(dummy_sp());
    o.invoke_iife(&mut e);
    assert_eq!(e, num(ONE));
    assert!(o.changed);
}

#[test]
fn list_from_vec_keeps_order() {
    let built = List::from_vec(vec![1u8, 2, 3]);
    let by_hand = List::Cons(
        Box::new(1u8),
        Box::new(List::Cons(Box::new(2), Box::new(List::Cons(Box::new(3), Box::new(List::Nil))))),
    );
    assert_eq!(built, by_hand);
    assert!(!built.is_empty());
    assert!(List::from_vec(Vec::<u8>::new()).is_empty());
}

#[test]
fn span_is_dummy_at_origin_and_in_reserved_range() {
    assert!(sp(0, 0).is_dummy());
    assert!(!sp(0, 5).is_dummy());
    assert!(!sp(10, 20).is_dummy());
    assert!(sp(4294901759, 4294901760).is_dummy());
    assert!(!sp(4294901758, 4294901760).is_dummy());
}

#[test]
fn negate_iife_wraps_call_in_negation() {
    let mut o = optimizer(vec![]);
    let mut e = call(fn_expr(vec![], vec![]), vec![]);
    o.negate_iife_ignoring_ret(&mut e);
    assert_eq!(e, not(call(fn_expr(vec![], vec![]), vec![])));
    assert!(o.changed);
    o.changed = false;
    o.negate_iife_ignoring_ret(&mut e);
    assert_eq!(e, not(call(fn_expr(vec![], vec![]), vec![])));
    assert!(!o.changed);
}

#[test]
fn negate_iife_does_not_apply_under_negation() {
    let mut o = optimizer(vec![]);
    o.ctx.in_bang_arg = true;
    let mut e = call(fn_expr(vec![], vec![]), vec![]);
    o.negate_iife_ignoring_ret(&mut e);
    assert_eq!(e, call(fn_expr(vec![], vec![]), vec![]));
    assert!(!o.changed);
}

#[test]
fn negate_iife_needs_option_and_function_callee() {
    let mut o = optimizer(vec![]);
    o.options.negate_iife = false;
    let mut e = call(fn_expr(vec![], vec![]), vec![]);
    o.negate_iife_ignoring_ret(&mut e);
    assert_eq!(e, call(fn_expr(vec![], vec![]), vec![]));
    o.options.negate_iife = true;
    let mut e = call(name(F), vec![]);
    o.negate_iife_ignoring_ret(&mut e);
    assert_eq!(e, call(name(F), vec![]));
    assert!(!o.changed);
}

#[test]
fn negate_iife_in_cond_swaps_branches() {
    let mut o = optimizer(vec![]);
    let mut e = Expr::Cond {
        span: sp(1, 2),
        test: Box::new(call(fn_expr(vec![], vec![]), vec![])),
        cons: Box::new(name(A)),
        alt: Box::new(name(B)),
    };
    o.negate_iife_in_cond(&mut e);
    let expected = Expr::Cond {
        span: sp(1, 2),
        test: Box::new(not(call(fn_expr(vec![], vec![]), vec![]))),
        cons: Box::new(name(B)),
        alt: Box::new(name(A)),
    };
    assert_eq!(e, expected);
    assert!(o.changed);
    o.changed = false;
    o.negate_iife_in_cond(&mut e);
    assert_eq!(e, expected);
    assert!(!o.changed);
}

#[test]
fn inline_args_registers_pure_arguments() {
    let mut o = optimizer(vec![]);
    o.ctx.inline_prevented = true;
    let e = call(
        fn_expr(
            vec![Pat::Ident(ident(A, 3)), Pat::Ident(ident(B, 3)), Pat::Ident(ident(X, 3))],
            vec![],
        ),
        vec![num(ONE), call(name(F), vec![])],
    );
    let visit = o.inline_args_of_iife(&e);
    let mut expected = local_ctx();
    expected.inline_prevented = false;
    assert_eq!(visit, Some(expected));
    assert_eq!(o.lits.len(), 1);
    assert_eq!(o.lits.get(&(A, 3)), Some(&num(ONE)));
    assert!(o.ctx.inline_prevented);
}

#[test]
fn inline_args_skips_spread_and_inline_off() {
    let mut o = optimizer(vec![]);
    let e = Expr::Call {
        span: sp(1, 2),
        callee: Callee::Expr(Box::new(fn_expr(vec![Pat::Ident(ident(A, 3))], vec![]))),
        args: list(vec![ExprOrSpread { spread: Some(sp(1, 1)), expr: Box::new(num(ONE)) }]),
    };
    assert_eq!(o.inline_args_of_iife(&e), None);
    assert!(o.lits.is_empty());
    o.options.inline = 0;
    let e = call(fn_expr(vec![Pat::Ident(ident(A, 3))], vec![]), vec![num(ONE)]);
    assert_eq!(o.inline_args_of_iife(&e), None);
    assert!(o.lits.is_empty());
}

#[test]
fn can_be_inlined_only_literals_and_their_negations() {
    let o = optimizer(vec![]);
    assert!(o.can_be_inlined_for_iife(&num(ONE)));
    assert!(o.can_be_inlined_for_iife(&not(not(num(ONE)))));
    assert!(!o.can_be_inlined_for_iife(&name(A)));
    assert!(!o.can_be_inlined_for_iife(&not(name(A))));
    assert!(!may_have_side_effects(&num(ONE)));
    assert!(may_have_side_effects(&call(name(F), vec![])));
}

#[test]
fn unused_local_binding_is_pruned() {
    let mut o = optimizer(vec![(X, 0, 0, true)]);
    let mut d = let_x_5();
    o.drop_unused_var_declarator(&mut d);
    assert_eq!(d.name, Pat::Invalid { span: dummy_sp() });
    assert_eq!(d.init, Some(Box::new(num(FIVE))));
    assert!(o.changed);
    assert!(o.append_stmts.is_empty());
}

#[test]
fn retained_binding_is_kept() {
    let mut o = optimizer(vec![(X, 0, 0, true)]);
    o.options.top_retain = vec![X];
    let mut d = let_x_5();
    o.drop_unused_var_declarator(&mut d);
    assert_eq!(d, let_x_5());
    assert!(!o.changed);
}

#[test]
fn binding_in_scope_with_eval_is_kept() {
    let mut o = optimizer(vec![(X, 0, 0, true)]);
    let mut facts = data(vec![(X, 0, 0, true)]);
    facts.scopes.insert(1, ScopeData { has_eval_call: true, has_with_stmt: false });
    o.data = Some(facts);
    let mut d = let_x_5();
    o.drop_unused_var_declarator(&mut d);
    assert_eq!(d, let_x_5());
    assert!(!o.changed);
}

#[test]
fn exported_binding_is_kept() {
    let mut o = optimizer(vec![(X, 0, 0, true)]);
    o.ctx.is_exported = true;
    let mut d = let_x_5();
    o.drop_unused_var_declarator(&mut d);
    assert_eq!(d, let_x_5());
    assert!(!o.changed);
}

fn without_scope_record(vars: Vec<(Atom, u32, u32, bool)>) -> Optimizer {
    let mut o = optimizer(vec![]);
    let mut facts = data(vars);
    facts.scopes = FxHashMap::default();
    facts.scopes.insert(2, ScopeData { has_eval_call: false, has_with_stmt: false });
    o.data = Some(facts);
    o
}

#[test]
fn binding_in_scope_without_record_is_kept() {
    let mut o = without_scope_record(vec![(X, 0, 0, true)]);
    assert_eq!(o.scope_info(1), None);
    assert!(!o.in_clear_scope());
    let mut p = Pat::Ident(ident(X, 0));
    o.drop_unused_vars(&mut p);
    assert_eq!(p, Pat::Ident(ident(X, 0)));
    let mut d = let_x_5();
    o.drop_unused_var_declarator(&mut d);
    assert_eq!(d, let_x_5());
    assert!(o.append_stmts.is_empty());
    assert!(!o.changed);
    o.ctx.scope = 2;
    assert!(o.in_clear_scope());
    o.drop_unused_vars(&mut p);
    assert_eq!(p, Pat::Invalid { span: dummy_sp() });
    assert!(o.changed);
}

#[test]
fn rules_bail_out_in_scope_without_record() {
    let mut o = without_scope_record(vec![(F, 0, 0, true)]);
    let make = || Decl::Fn { ident: ident(F, 0), function: Box::new(function(vec![], vec![])) };
    let mut d = make();
    o.drop_unused_decl(&mut d);
    assert_eq!(d, make());
    let mut n = Some(ident(F, 0));
    o.remove_name_if_not_used(&mut n);
    assert_eq!(n, Some(ident(F, 0)));
    let make = || {
        ret(Some(Expr::Unary {
            span: sp(70, 80),
            op: UnaryOp::Void,
            arg: Box::new(call(name(F), vec![])),
        }))
    };
    let mut s = make();
    o.drop_unused_stmt_at_end_of_fn(&mut s);
    assert_eq!(s, make());
    assert!(!o.changed);
}

#[test]
fn rules_bail_out_without_usage_facts() {
    let mut o = optimizer(vec![]);
    o.data = None;
    assert!(!o.in_clear_scope());
    assert!(!o.top_scope_clear());
    let make = || Expr::Assign {
        span: sp(1, 9),
        op: AssignOp::Assign,
        left: AssignTarget::Pat(Box::new(Pat::Ident(ident(X, 0)))),
        right: Box::new(call(name(F), vec![])),
    };
    let mut e = make();
    o.drop_unused_assignments(&mut e);
    assert_eq!(e, make());
    let mut d = let_x_5();
    o.drop_unused_var_declarator(&mut d);
    assert_eq!(d, let_x_5());
    assert!(!o.changed);
}

#[test]
fn referenced_or_unknown_binding_is_kept() {
    let mut o = optimizer(vec![(X, 2, 1, true)]);
    let mut p = Pat::Ident(ident(X, 0));
    o.drop_unused_vars(&mut p);
    assert_eq!(p, Pat::Ident(ident(X, 0)));
    let mut p = Pat::Ident(ident(A, 0));
    o.drop_unused_vars(&mut p);
    assert_eq!(p, Pat::Ident(ident(A, 0)));
    o.data = None;
    let mut p = Pat::Ident(ident(X, 0));
    o.drop_unused_vars(&mut p);
    assert_eq!(p, Pat::Ident(ident(X, 0)));
    assert!(!o.changed);
}

#[test]
fn top_level_binding_is_kept_by_default() {
    let mut o = optimizer(vec![(X, 0, 0, false)]);
    o.ctx.top_level = true;
    let mut p = Pat::Ident(ident(X, 0));
    o.drop_unused_vars(&mut p);
    assert_eq!(p, Pat::Ident(ident(X, 0)));
    o.options.top_level = true;
    o.drop_unused_vars(&mut p);
    assert_eq!(p, Pat::Invalid { span: dummy_sp() });
    assert!(o.changed);
}

#[test]
fn binding_of_for_in_head_is_kept() {
    let mut o = optimizer(vec![(X, 0, 0, true)]);
    o.ctx.in_var_decl_of_for_in_or_of_loop = true;
    let mut p = Pat::Ident(ident(X, 0));
    o.drop_unused_vars(&mut p);
    assert_eq!(p, Pat::Ident(ident(X, 0)));
}

#[test]
fn pruned_declarator_hoists_side_effects() {
    let mut o = optimizer(vec![(X, 0, 0, true)]);
    let mut d = VarDeclarator {
        span: sp(50, 60),
        name: Pat::Ident(ident(X, 0)),
        init: Some(Box::new(call(name(F), vec![]))),
        definite: false,
    };
    o.drop_unused_var_declarator(&mut d);
    assert_eq!(d.name, Pat::Invalid { span: dummy_sp() });
    assert_eq!(d.init, None);
    assert_eq!(
        o.append_stmts,
        vec![Stmt::Expr { span: sp(50, 60), expr: Box::new(call(name(F), vec![])) }]
    );
    assert!(o.changed);
}

#[test]
fn declarator_with_invalid_or_async_initializer() {
    let mut o = optimizer(vec![(X, 0, 0, true)]);
    let mut d = VarDeclarator {
        span: sp(50, 60),
        name: Pat::Ident(ident(X, 0)),
        init: Some(Box::new(Expr::Invalid { span: dummy_sp() })),
        definite: false,
    };
    o.drop_unused_var_declarator(&mut d);
    assert_eq!(d.name, Pat::Ident(ident(X, 0)));
    assert_eq!(d.init, None);
    let make = || {
        let mut f = function(vec![], vec![]);
        f.is_async = true;
        VarDeclarator {
            span: sp(50, 60),
            name: Pat::Ident(ident(X, 0)),
            init: Some(Box::new(Expr::Fn { ident: None, function: Box::new(f) })),
            definite: false,
        }
    };
    let mut d = make();
    o.changed = false;
    o.drop_unused_var_declarator(&mut d);
    assert_eq!(d, make());
    assert!(!o.changed);
}

#[test]
fn dead_store_keeps_right_hand_side() {
    let mut o = optimizer(vec![(X, 1, 0, true)]);
    let mut e = Expr::Assign {
        span: sp(1, 9),
        op: AssignOp::Assign,
        left: AssignTarget::Pat(Box::new(Pat::Ident(ident(X, 0)))),
        right: Box::new(call(name(F), vec![])),
    };
    o.drop_unused_assignments(&mut e);
    assert_eq!(e, call(name(F), vec![]));
    assert!(o.changed);
}

#[test]
fn store_that_is_read_or_not_local_is_kept() {
    let make = || Expr::Assign {
        span: sp(1, 9),
        op: AssignOp::Assign,
        left: AssignTarget::Pat(Box::new(Pat::Ident(ident(X, 0)))),
        right: Box::new(call(name(F), vec![])),
    };
    let mut o = optimizer(vec![(X, 2, 1, true)]);
    let mut e = make();
    o.drop_unused_assignments(&mut e);
    assert_eq!(e, make());
    let mut o = optimizer(vec![(X, 1, 0, false)]);
    o.drop_unused_assignments(&mut e);
    assert_eq!(e, make());
    let mut o = optimizer(vec![(X, 1, 0, true)]);
    o.ctx.is_delete_arg = true;
    o.drop_unused_assignments(&mut e);
    assert_eq!(e, make());
    let mut o = optimizer(vec![(X, 1, 0, true)]);
    let mut facts = data(vec![(X, 1, 0, true)]);
    facts.top = ScopeData { has_eval_call: false, has_with_stmt: true };
    o.data = Some(facts);
    o.drop_unused_assignments(&mut e);
    assert_eq!(e, make());
    let mut o = optimizer(vec![(X, 1, 0, true)]);
    o.options.top_retain = vec![X];
    o.drop_unused_assignments(&mut e);
    assert_eq!(e, make());
    assert!(!o.changed);
}

#[test]
fn unused_function_declaration_is_erased() {
    let mut o = optimizer(vec![(F, 0, 0, true), (ATOM_ARGUMENTS, 0, 0, true)]);
    let mut d = Decl::Fn { ident: ident(F, 0), function: Box::new(function(vec![], vec![])) };
    o.drop_unused_decl(&mut d);
    let empty = Decl::Var(VarDecl {
        span: dummy_sp(),
        kind: VarDeclKind::Var,
        declare: false,
        decls: List::Nil,
    });
    assert_eq!(d, empty);
    assert!(o.changed);
    o.changed = false;
    let make = || Decl::Fn {
        ident: ident(ATOM_ARGUMENTS, 0),
        function: Box::new(function(vec![], vec![])),
    };
    let mut d = make();
    o.drop_unused_decl(&mut d);
    assert_eq!(d, make());
    let mut d = Decl::TsEnum { span: sp(1, 2) };
    o.drop_unused_decl(&mut d);
    assert_eq!(d, Decl::TsEnum { span: sp(1, 2) });
    assert!(!o.changed);
}

#[test]
fn unused_name_of_function_expression_is_cleared() {
    let mut o = optimizer(vec![(F, 0, 0, true), (A, 1, 1, true)]);
    let mut n = Some(ident(F, 0));
    o.remove_name_if_not_used(&mut n);
    assert_eq!(n, None);
    assert!(o.changed);
    o.changed = false;
    let mut n = Some(ident(A, 0));
    o.remove_name_if_not_used(&mut n);
    assert_eq!(n, Some(ident(A, 0)));
    let mut n = Some(ident(B, 0));
    o.remove_name_if_not_used(&mut n);
    assert_eq!(n, Some(ident(B, 0)));
    assert!(!o.changed);
}

#[test]
fn trailing_return_void_becomes_expression() {
    let mut o = optimizer(vec![]);
    let mut s = ret(Some(Expr::Unary {
        span: sp(70, 80),
        op: UnaryOp::Void,
        arg: Box::new(call(name(F), vec![])),
    }));
    o.drop_unused_stmt_at_end_of_fn(&mut s);
    assert_eq!(s, Stmt::Expr { span: sp(70, 80), expr: Box::new(call(name(F), vec![])) });
    assert!(o.changed);
    o.changed = false;
    let mut s = ret(Some(name(A)));
    o.drop_unused_stmt_at_end_of_fn(&mut s);
    assert_eq!(s, ret(Some(name(A))));
    assert!(!o.changed);
}

#[test]
fn unreachable_block_keeps_hoisted_var() {
    let decl = Stmt::Decl(Decl::Var(VarDecl {
        span: sp(1, 5),
        kind: VarDeclKind::Var,
        declare: false,
        decls: list(vec![VarDeclarator {
            span: sp(2, 4),
            name: Pat::Ident(ident(A, 0)),
            init: Some(Box::new(num(ONE))),
            definite: false,
        }]),
    }));
    let mut s = Stmt::Block {
        span: sp(0, 9),
        stmts: list(vec![decl, expr_stmt(console_log(name(A)))]),
    };
    assert!(UnreachableHandler::preserve_vars(&mut s));
    let expected = Stmt::Decl(Decl::Var(VarDecl {
        span: dummy_sp(),
        kind: VarDeclKind::Var,
        declare: false,
        decls: list(vec![VarDeclarator {
            span: dummy_sp(),
            name: Pat::Ident(ident(A, 0)),
            init: None,
            definite: false,
        }]),
    }));
    assert_eq!(s, expected);
}

#[test]
fn unreachable_statement_without_vars_becomes_empty() {
    let let_decl = Stmt::Decl(Decl::Var(VarDecl {
        span: sp(1, 5),
        kind: VarDeclKind::Let,
        declare: false,
        decls: list(vec![let_x_5()]),
    }));
    let mut s = Stmt::Block { span: sp(0, 9), stmts: list(vec![let_decl, expr_stmt(name(A))]) };
    assert!(UnreachableHandler::preserve_vars(&mut s));
    assert_eq!(s, Stmt::Empty { span: dummy_sp() });
    let mut s = Stmt::Empty { span: sp(3, 4) };
    assert!(!UnreachableHandler::preserve_vars(&mut s));
    assert_eq!(s, Stmt::Empty { span: sp(3, 4) });
}

#[test]
fn unreachable_const_or_let_declaration_becomes_empty() {
    let decl = |kind: VarDeclKind| {
        Stmt::Decl(Decl::Var(VarDecl {
            span: sp(1, 5),
            kind,
            declare: false,
            decls: list(vec![let_x_5()]),
        }))
    };
    let mut s = decl(VarDeclKind::Const);
    assert!(UnreachableHandler::preserve_vars(&mut s));
    assert_eq!(s, Stmt::Empty { span: dummy_sp() });
    let mut s = decl(VarDeclKind::Let);
    assert!(UnreachableHandler::preserve_vars(&mut s));
    assert_eq!(s, Stmt::Empty { span: dummy_sp() });
    let bare_const = || {
        Stmt::Decl(Decl::Var(VarDecl {
            span: sp(1, 5),
            kind: VarDeclKind::Const,
            declare: false,
            decls: list(vec![VarDeclarator {
                span: sp(2, 4),
                name: Pat::Ident(ident(X, 0)),
                init: None,
                definite: false,
            }]),
        }))
    };
    let mut s = bare_const();
    assert!(UnreachableHandler::preserve_vars(&mut s));
    assert_eq!(s, Stmt::Empty { span: dummy_sp() });
    let mut s = decl(VarDeclKind::Var);
    assert!(UnreachableHandler::preserve_vars(&mut s));
    let kept = Stmt::Decl(Decl::Var(VarDecl {
        span: sp(1, 5),
        kind: VarDeclKind::Var,
        declare: false,
        decls: list(vec![VarDeclarator {
            span: sp(50, 60),
            name: Pat::Ident(ident(X, 0)),
            init: None,
            definite: false,
        }]),
    }));
    assert_eq!(s, kept);
}

#[test]
fn unreachable_var_declaration_loses_initializers() {
    let make = |init: Option<Expr>| {
        Stmt::Decl(Decl::Var(VarDecl {
            span: sp(1, 5),
            kind: VarDeclKind::Var,
            declare: false,
            decls: list(vec![
                VarDeclarator {
                    span: sp(2, 4),
                    name: Pat::Ident(ident(A, 0)),
                    init: init.map(Box::new),
                    definite: false,
                },
                VarDeclarator {
                    span: sp(2, 4),
                    name: Pat::Ident(ident(B, 0)),
                    init: None,
                    definite: false,
                },
            ]),
        }))
    };
    let mut s = make(Some(num(ONE)));
    assert!(UnreachableHandler::preserve_vars(&mut s));
    assert_eq!(s, make(None));
    assert!(!UnreachableHandler::preserve_vars(&mut s));
    assert_eq!(s, make(None));
}

#[test]
fn unreachable_nested_statements_keep_order_and_skip_functions() {
    let var = |sym: Atom| {
        Stmt::Decl(Decl::Var(VarDecl {
            span: sp(1, 5),
            kind: VarDeclKind::Var,
            declare: false,
            decls: list(vec![VarDeclarator {
                span: sp(2, 4),
                name: Pat::Array {
                    span: sp(2, 3),
                    elems: list(vec![Pat::Ident(ident(sym, 0))]),
                },
                init: Some(Box::new(name(F))),
                definite: false,
            }]),
        }))
    };
    let inner_fn = Stmt::Decl(Decl::Fn {
        ident: ident(F, 0),
        function: Box::new(function(vec![], vec![var(X)])),
    });
    let mut s = Stmt::If {
        span: sp(0, 9),
        test: Box::new(name(A)),
        cons: Box::new(Stmt::Block { span: sp(1, 2), stmts: list(vec![var(A), inner_fn]) }),
        alt: Some(Box::new(var(B))),
    };
    assert!(UnreachableHandler::preserve_vars(&mut s));
    let bare = |sym: Atom| VarDeclarator {
        span: dummy_sp(),
        name: Pat::Ident(ident(sym, 0)),
        init: None,
        definite: false,
    };
    let expected = Stmt::Decl(Decl::Var(VarDecl {
        span: dummy_sp(),
        kind: VarDeclKind::Var,
        declare: false,
        decls: list(vec![bare(A), bare(B)]),
    }));
    assert_eq!(s, expected);
}

#[test]
fn replace_id_replaces_the_single_occurrence() {
    let mut e = call(name(F), vec![name(A), name(B)]);
    let left = replace_id_with_expr(&mut e, (A, 0), num(ONE));
    assert_eq!(left, None);
    assert_eq!(e, call(name(F), vec![num(ONE), name(B)]));
}

#[test]
fn replace_id_without_occurrence_hands_replacement_back() {
    let mut e = call(name(F), vec![Expr::Ident(ident(A, 7))]);
    let left = replace_id_with_expr(&mut e, (A, 0), num(ONE));
    assert_eq!(left, Some(num(ONE)));
    assert_eq!(e, call(name(F), vec![Expr::Ident(ident(A, 7))]));
}

#[test]
fn replace_id_expands_shorthand_property() {
    let mut e = Expr::Object {
        span: sp(1, 2),
        props: list(vec![PropOrSpread::Prop(Prop::Shorthand(ident(A, 0)))]),
    };
    let left = replace_id_with_expr(&mut e, (A, 0), num(ONE));
    assert_eq!(left, None);
    let expected = Expr::Object {
        span: sp(1, 2),
        props: list(vec![PropOrSpread::Prop(Prop::KeyValue {
            key: PropName::Ident(ident(A, 0)),
            value: Box::new(num(ONE)),
        })]),
    };
    assert_eq!(e, expected);
}

#[test]
fn replace_id_works_on_statements_and_functions() {
    let mut items = list(vec![expr_stmt(name(B)), ret(Some(not(name(A))))]);
    let left = replace_id_with_expr(&mut items, (A, 0), num(TWO));
    assert_eq!(left, None);
    assert_eq!(items, list(vec![expr_stmt(name(B)), ret(Some(not(num(TWO))))]));
    let mut f = function(vec![Pat::Ident(ident(A, 0))], vec![ret(Some(name(B)))]);
    let left = replace_id_with_expr(&mut f, (A, 0), num(TWO));
    assert_eq!(left, Some(num(TWO)));
    assert_eq!(f, function(vec![Pat::Ident(ident(A, 0))], vec![ret(Some(name(B)))]));
    let mut s = expr_stmt(console_log(name(A)));
    let left = replace_id_with_expr(&mut s, (A, 0), name(A));
    assert_eq!(left, None);
    assert_eq!(s, expr_stmt(console_log(name(A))));
}

#[test]
fn multi_replacer_applies_independent_substitutions_in_one_pass() {
    let mut vars = FxHashMap::default();
    vars.insert((A, 0), num(ONE));
    vars.insert((B, 0), num(TWO));
    let mut r = MultiReplacer { vars, changed: false };
    let mut items = list(vec![expr_stmt(call(name(F), vec![name(A), name(B), name(A)]))]);
    r.visit_mut_module_items(&mut items);
    assert_eq!(items, list(vec![expr_stmt(call(name(F), vec![num(ONE), num(TWO), name(A)]))]));
    assert!(r.vars.is_empty());
    assert!(!r.changed);
}

#[test]
fn multi_replacer_follows_a_chain_to_the_end() {
    let mut vars = FxHashMap::default();
    vars.insert((A, 0), not(name(B)));
    vars.insert((B, 0), num(TWO));
    let mut r = MultiReplacer { vars, changed: false };
    let mut items = list(vec![ret(Some(name(A)))]);
    r.visit_mut_module_items(&mut items);
    assert_eq!(items, list(vec![ret(Some(not(num(TWO))))]));
    assert!(r.vars.is_empty());
}

#[test]
fn multi_replacer_single_walk_does_not_revisit_replacement() {
    let mut vars = FxHashMap::default();
    vars.insert((A, 0), not(name(B)));
    vars.insert((B, 0), num(TWO));
    let mut r = MultiReplacer { vars, changed: false };
    let mut e = name(A);
    r.visit_mut_expr(&mut e);
    assert_eq!(e, not(name(B)));
    assert!(r.changed);
    assert_eq!(r.vars.len(), 1);
    assert_eq!(r.var(&(B, 0)), Some(num(TWO)));
    assert_eq!(r.var(&(B, 0)), None);
}

#[test]
fn multi_replacer_stops_when_nothing_fires() {
    let mut vars = FxHashMap::default();
    vars.insert((X, 0), num(ONE));
    let mut r = MultiReplacer { vars, changed: true };
    let mut items = list(vec![expr_stmt(name(A))]);
    r.visit_mut_module_items(&mut items);
    assert_eq!(items, list(vec![expr_stmt(name(A))]));
    assert_eq!(r.vars.len(), 1);
    assert!(!r.changed);
    let mut r = MultiReplacer { vars: FxHashMap::default(), changed: true };
    r.visit_mut_module_items(&mut items);
    assert!(!r.changed);
}

#[test]
fn multi_replacer_expands_shorthand() {
    let mut vars = FxHashMap::default();
    vars.insert((A, 0), num(ONE));
    let mut r = MultiReplacer { vars, changed: false };
    let mut p = Prop::Shorthand(ident(A, 0));
    r.visit_mut_prop(&mut p);
    assert_eq!(p, Prop::KeyValue { key: PropName::Ident(ident(A, 0)), value: Box::new(num(ONE)) });
    assert!(r.changed);
}

#[test]
fn remapper_moves_matching_identifiers() {
    let mut vars = FxHashMap::default();
    vars.insert((A, 0), 9u32);
    let mut r = Remapper { vars };
    let mut e = Expr::Assign {
        span: sp(1, 2),
        op: AssignOp::Assign,
        left: AssignTarget::Pat(Box::new(Pat::Ident(ident(A, 0)))),
        right: Box::new(call(name(A), vec![name(B), Expr::Ident(ident(A, 4))])),
    };
    visit_expr(&mut r, &mut e);
    let mut s = ret(Some(name(A)));
    s.visit_mut_with(&mut r);
    assert_eq!(s, ret(Some(Expr::Ident(ident(A, 9)))));
    let expected = Expr::Assign {
        span: sp(1, 2),
        op: AssignOp::Assign,
        left: AssignTarget::Pat(Box::new(Pat::Ident(ident(A, 9)))),
        right: Box::new(call(
            Expr::Ident(ident(A, 9)),
            vec![name(B), Expr::Ident(ident(A, 4))],
        )),
    };
    assert_eq!(e, expected);
    let mut i = ident(A, 0);
    r.visit_mut_ident(&mut i);
    assert_eq!(i, ident(A, 9));
}

#[test]
fn class_side_effects_come_from_super_keys_and_values() {
    let class = |super_class: Option<Expr>, body: Vec<ClassMember>| Class {
        span: sp(1, 2),
        super_class: super_class.map(Box::new),
        body: list(body),
    };
    assert!(!class_has_side_effect(&class(None, vec![])));
    assert!(!class_has_side_effect(&class(Some(num(ONE)), vec![])));
    assert!(class_has_side_effect(&class(Some(call(name(F), vec![])), vec![])));
    let method = |key: PropName| ClassMember::Method {
        key,
        function: Box::new(function(vec![], vec![expr_stmt(call(name(F), vec![]))])),
    };
    assert!(!class_has_side_effect(&class(None, vec![method(PropName::Ident(ident(A, 0)))])));
    assert!(class_has_side_effect(&class(
        None,
        vec![ClassMember::Empty { span: sp(1, 1) }, method(PropName::Computed(Box::new(name(A))))]
    )));
    let prop = |value: Option<Expr>| ClassMember::ClassProp {
        key: PropName::Computed(Box::new(num(ONE))),
        value: value.map(Box::new),
    };
    assert!(!class_has_side_effect(&class(None, vec![prop(Some(not(num(ONE)))), prop(None)])));
    assert!(class_has_side_effect(&class(None, vec![prop(Some(name(A)))])));
    let private = ClassMember::PrivateProp { key: X, value: Some(Box::new(name(A))) };
    assert!(class_has_side_effect(&class(None, vec![private])));
}

#[test]
fn literals_and_unary_are_not_assignment_targets() {
    assert!(!is_valid_for_lhs(&num(ONE)));
    assert!(!is_valid_for_lhs(&not(name(A))));
    assert!(is_valid_for_lhs(&name(A)));
    assert!(is_valid_for_lhs(&call(name(F), vec![])));
}

#[test]
fn access_property_finds_first_key_value() {
    let mut o = optimizer(vec![]);
    let mut obj = Expr::Object {
        span: sp(1, 2),
        props: list(vec![
            PropOrSpread::Spread(Box::new(name(F))),
            PropOrSpread::Prop(Prop::Shorthand(ident(A, 0))),
            PropOrSpread::Prop(Prop::KeyValue { key: PropName::Str(B), value: Box::new(num(ONE)) }),
            PropOrSpread::Prop(Prop::KeyValue {
                key: PropName::Ident(ident(A, 0)),
                value: Box::new(num(TWO)),
            }),
            PropOrSpread::Prop(Prop::KeyValue {
                key: PropName::Ident(ident(A, 0)),
                value: Box::new(num(FIVE)),
            }),
        ]),
    };
    assert_eq!(o.access_property(&mut obj, A), Some(&mut num(TWO)));
    assert_eq!(o.access_property(&mut obj, B), Some(&mut num(ONE)));
    assert_eq!(o.access_property(&mut obj, X), None);
    assert_eq!(o.access_property(&mut name(A), A), None);
    assert_eq!(o.access_property_with_prop_name(&mut obj, &PropName::Str(A)), Some(&mut num(TWO)));
    assert_eq!(o.access_property_with_prop_name(&mut obj, &PropName::Num(ONE)), None);
    assert_eq!(o.access_numeric_property(&mut obj, 0), None);
    assert!(prop_name_eq(
        &PropName::Computed(Box::new(Expr::Lit { span: sp(1, 1), lit: Lit::Str(A) })),
        A
    ));
    assert!(!prop_name_eq(&PropName::Num(ONE), A));
}

#[test]
fn access_property_hands_out_the_value_in_place() {
    let mut o = optimizer(vec![]);
    let make = |first: Expr| Expr::Object {
        span: sp(1, 2),
        props: list(vec![
            PropOrSpread::Prop(Prop::KeyValue {
                key: PropName::Ident(ident(A, 0)),
                value: Box::new(first),
            }),
            PropOrSpread::Prop(Prop::KeyValue {
                key: PropName::Ident(ident(A, 0)),
                value: Box::new(num(FIVE)),
            }),
        ]),
    };
    let mut obj = make(num(ONE));
    match o.access_property(&mut obj, A) {
        Some(v) => *v = name(B),
        None => panic!("the property is there"),
    }
    assert_eq!(obj, make(name(B)));
}

#[test]
fn with_ctx_installs_and_restore_puts_back() {
    let mut o = optimizer(vec![(X, 3, 2, true)]);
    let mut inner = local_ctx();
    inner.in_bang_arg = true;
    let saved = o.with_ctx(inner);
    assert_eq!(saved, local_ctx());
    assert_eq!(o.ctx, inner);
    o.restore_ctx(saved);
    assert_eq!(o.ctx, local_ctx());
    assert_eq!(
        o.var_info(&(X, 0)),
        Some(VarUsageInfo { ref_count: 3, usage_count: 2, is_fn_local: true })
    );
    assert_eq!(o.var_info(&(A, 0)), None);
    assert_eq!(
        o.scope_info(1),
        Some(ScopeData { has_eval_call: false, has_with_stmt: false })
    );
    assert_eq!(o.scope_info(2), None);
    assert!(o.options.is_retained(X) == false);
}
