//! What is left of a statement that can never run: the `var` bindings that it
//! hoists into its function, without their initializers.

use crate::ast::dummy_sp;
use crate::ast::dummy_span;
use crate::ast::Decl;
use crate::ast::Ident;
use crate::ast::List;
use crate::ast::Pat;
use crate::ast::Stmt;
use crate::ast::VarDecl;
use crate::ast::VarDeclKind;
use crate::ast::VarDeclarator;
use vstd::prelude::*;

verus! {

/// The names that a pattern binds, in source order.
pub open spec fn pat_names(p: Pat) -> Seq<Ident>
    decreases p,
{
    match p {
        Pat::Ident(i) => seq![i],
        Pat::Array { elems, .. } => pats_names(elems),
        Pat::Object { props, .. } => pats_names(props),
        Pat::Rest { arg, .. } => pat_names(*arg),
        Pat::Assign { left, .. } => pat_names(*left),
        Pat::Invalid { .. } => Seq::empty(),
        Pat::Expr(_) => Seq::empty(),
    }
}

/// The names that the patterns of a list bind, in source order.
pub open spec fn pats_names(ps: List<Pat>) -> Seq<Ident>
    decreases ps,
{
    match ps {
        List::Nil => Seq::empty(),
        List::Cons(p, rest) => pat_names(*p) + pats_names(*rest),
    }
}

/// The names that the declarators of a list bind, in source order.
pub open spec fn declarators_names(ds: List<VarDeclarator>) -> Seq<Ident>
    decreases ds,
{
    match ds {
        List::Nil => Seq::empty(),
        List::Cons(d, rest) => pat_names(d.name) + declarators_names(*rest),
    }
}

/// The `var` bindings that a statement hoists into the enclosing function, in
/// source order. Bodies of nested functions hoist for themselves and are not
/// looked into.
pub open spec fn hoisted(s: Stmt) -> Seq<Ident>
    decreases s,
{
    match s {
        Stmt::Decl(Decl::Var(v)) => if v.kind == VarDeclKind::Var {
            declarators_names(v.decls)
        } else {
            Seq::empty()
        },
        Stmt::Block { stmts, .. } => hoisted_list(stmts),
        Stmt::If { cons, alt, .. } => hoisted(*cons) + (match alt {
            Some(a) => hoisted(*a),
            None => Seq::empty(),
        }),
        _ => Seq::empty(),
    }
}

/// The `var` bindings that the statements of a list hoist, in source order.
pub open spec fn hoisted_list(ss: List<Stmt>) -> Seq<Ident>
    decreases ss,
{
    match ss {
        List::Nil => Seq::empty(),
        List::Cons(s, rest) => hoisted(*s) + hoisted_list(*rest),
    }
}

/// Whether some declarator has an initializer.
pub open spec fn any_init(ds: List<VarDeclarator>) -> bool
    decreases ds,
{
    match ds {
        List::Nil => false,
        List::Cons(d, rest) => d.init is Some || any_init(*rest),
    }
}

/// The declarators without their initializers.
pub open spec fn inits_cleared(ds: List<VarDeclarator>) -> List<VarDeclarator>
    decreases ds,
{
    match ds {
        List::Nil => List::Nil,
        List::Cons(d, rest) => List::Cons(
            Box::new(VarDeclarator { init: None, ..*d }),
            Box::new(inits_cleared(*rest)),
        ),
    }
}

/// The declarator that binds `name` and nothing more.
pub open spec fn bare_declarator(name: Ident) -> VarDeclarator {
    VarDeclarator { span: dummy_span(), name: Pat::Ident(name), init: None, definite: false }
}

/// One bare declarator for each name, in order.
pub open spec fn bare_declarators(names: Seq<Ident>) -> List<VarDeclarator>
    decreases names.len(),
{
    if names.len() == 0 {
        List::Nil
    } else {
        List::Cons(
            Box::new(bare_declarator(names[0])),
            Box::new(bare_declarators(names.drop_first())),
        )
    }
}

/// Whether `s` is a `var` declaration in statement position. A `let` or
/// `const` declaration is none.
pub open spec fn is_var_stmt(s: Stmt) -> bool {
    match s {
        Stmt::Decl(Decl::Var(v)) => v.kind == VarDeclKind::Var,
        _ => false,
    }
}

/// The one `var` declaration of `names` without initializers, or the empty
/// statement where there is no name.
pub open spec fn declared_bare(names: Seq<Ident>) -> Stmt {
    if names.len() == 0 {
        Stmt::Empty { span: dummy_span() }
    } else {
        Stmt::Decl(
            Decl::Var(
                VarDecl {
                    span: dummy_span(),
                    kind: VarDeclKind::Var,
                    declare: false,
                    decls: bare_declarators(names),
                },
            ),
        )
    }
}

/// What is kept of the unreachable statement `s`: an empty statement stays; a
/// `var` declaration loses its initializers; any other statement, a `let` or
/// `const` declaration included, becomes one `var` declaration of the names
/// it hoists, or the empty statement where it hoists none.
pub open spec fn preserved(s: Stmt) -> Stmt {
    match s {
        Stmt::Empty { .. } => s,
        Stmt::Decl(Decl::Var(v)) => if v.kind == VarDeclKind::Var {
            Stmt::Decl(Decl::Var(VarDecl { decls: inits_cleared(v.decls), ..v }))
        } else {
            declared_bare(hoisted(s))
        },
        _ => declared_bare(hoisted(s)),
    }
}

/// Whether keeping only the bindings of `s` changes it.
pub open spec fn preserving_changes(s: Stmt) -> bool {
    match s {
        Stmt::Empty { .. } => false,
        Stmt::Decl(Decl::Var(v)) => v.kind != VarDeclKind::Var || any_init(v.decls),
        _ => true,
    }
}

/// Collects the `var` bindings of a statement that can never run.
#[derive(Debug)]
pub struct UnreachableHandler {
    /// The bindings found so far, in source order.
    pub vars: Vec<Ident>,
}

impl UnreachableHandler {
    fn visit_pat(&mut self, p: &Pat)
        ensures
            final(self).vars@ == old(self).vars@ + pat_names(*p),
        decreases *p,
    {
        match p {
            Pat::Ident(i) => {
                self.vars.push(*i);
            },
            Pat::Array { elems, .. } => {
                self.visit_pats(elems);
            },
            Pat::Object { props, .. } => {
                self.visit_pats(props);
            },
            Pat::Rest { arg, .. } => {
                self.visit_pat(arg);
            },
            Pat::Assign { left, .. } => {
                self.visit_pat(left);
            },
            Pat::Invalid { .. } => {},
            Pat::Expr(_) => {},
        }
    }

    fn visit_pats(&mut self, ps: &List<Pat>)
        ensures
            final(self).vars@ == old(self).vars@ + pats_names(*ps),
        decreases *ps,
    {
        match ps {
            List::Nil => {},
            List::Cons(p, rest) => {
                self.visit_pat(p);
                self.visit_pats(rest);
                assert(old(self).vars@ + pat_names(**p) + pats_names(**rest) =~= old(self).vars@
                    + (pat_names(**p) + pats_names(**rest)));
            },
        }
    }

    fn visit_var_declarators(&mut self, ds: &List<VarDeclarator>)
        ensures
            final(self).vars@ == old(self).vars@ + declarators_names(*ds),
        decreases *ds,
    {
        match ds {
            List::Nil => {},
            List::Cons(d, rest) => {
                self.visit_pat(&d.name);
                self.visit_var_declarators(rest);
                assert(old(self).vars@ + pat_names(d.name) + declarators_names(**rest)
                    =~= old(self).vars@ + (pat_names(d.name) + declarators_names(**rest)));
            },
        }
    }

    fn visit_stmt(&mut self, s: &Stmt)
        ensures
            final(self).vars@ == old(self).vars@ + hoisted(*s),
        decreases *s,
    {
        match s {
            Stmt::Decl(Decl::Var(v)) => {
                if v.kind == VarDeclKind::Var {
                    self.visit_var_declarators(&v.decls);
                }
            },
            Stmt::Block { stmts, .. } => {
                self.visit_stmts(stmts);
            },
            Stmt::If { cons, alt, .. } => {
                self.visit_stmt(cons);
                match alt {
                    Some(a) => {
                        self.visit_stmt(a);
                        assert(old(self).vars@ + hoisted(**cons) + hoisted(**a) =~= old(self).vars@
                            + (hoisted(**cons) + hoisted(**a)));
                    },
                    None => {
                        assert(old(self).vars@ + hoisted(**cons) =~= old(self).vars@ + (hoisted(
                            **cons,
                        ) + Seq::<Ident>::empty()));
                    },
                }
            },
            _ => {},
        }
    }

    fn visit_stmts(&mut self, ss: &List<Stmt>)
        ensures
            final(self).vars@ == old(self).vars@ + hoisted_list(*ss),
        decreases *ss,
    {
        match ss {
            List::Nil => {},
            List::Cons(s, rest) => {
                self.visit_stmt(s);
                self.visit_stmts(rest);
                assert(old(self).vars@ + hoisted(**s) + hoisted_list(**rest) =~= old(self).vars@
                    + (hoisted(**s) + hoisted_list(**rest)));
            },
        }
    }

    /// Takes `s` to be unreachable and keeps of it only the `var` bindings
    /// that it hoists, without initializers. Tells whether `s` changed.
    pub fn preserve_vars(s: &mut Stmt) -> (changed: bool)
        ensures
            *final(s) == preserved(*old(s)),
            changed == preserving_changes(*old(s)),
    {
        let in_place = match &*s {
            Stmt::Empty { .. } => {
                return false;
            },
            Stmt::Decl(Decl::Var(v)) => v.kind == VarDeclKind::Var,
            _ => false,
        };
        if in_place {
            match s {
                Stmt::Decl(Decl::Var(v)) => {
                    return clear_inits(&mut v.decls);
                },
                _ => {},
            }
        }
        let mut v = UnreachableHandler { vars: Vec::new() };
        v.visit_stmt(s);
        assert(v.vars@ =~= hoisted(*s));
        if v.vars.len() == 0 {
            *s = Stmt::Empty { span: dummy_sp() };
        } else {
            *s = Stmt::Decl(
                Decl::Var(
                    VarDecl {
                        span: dummy_sp(),
                        kind: VarDeclKind::Var,
                        declare: false,
                        decls: declare_all(&v.vars),
                    },
                ),
            );
        }
        true
    }
}

fn clear_inits(ds: &mut List<VarDeclarator>) -> (changed: bool)
    ensures
        *final(ds) == inits_cleared(*old(ds)),
        changed == any_init(*old(ds)),
    decreases *old(ds),
{
    match ds {
        List::Nil => false,
        List::Cons(d, rest) => {
            let here = d.init.is_some();
            d.init = None;
            let there = clear_inits(rest);
            here || there
        },
    }
}

fn declare_all(names: &Vec<Ident>) -> (r: List<VarDeclarator>)
    ensures
        r == bare_declarators(names@),
{
    let mut decls: List<VarDeclarator> = List::Nil;
    let mut i: usize = names.len();
    assert(names@.subrange(i as int, names@.len() as int) =~= Seq::<Ident>::empty());
    while i > 0
        invariant
            i <= names@.len(),
            decls == bare_declarators(names@.subrange(i as int, names@.len() as int)),
        decreases i,
    {
        i -= 1;
        let d = VarDeclarator {
            span: dummy_sp(),
            name: Pat::Ident(names[i]),
            init: None,
            definite: false,
        };
        decls = List::Cons(Box::new(d), Box::new(decls));
        assert(names@.subrange(i as int, names@.len() as int).drop_first() =~= names@.subrange(
            i + 1,
            names@.len() as int,
        ));
    }
    assert(names@.subrange(0, names@.len() as int) =~= names@);
    decls
}

proof fn lemma_cleared_names(ds: List<VarDeclarator>)
    ensures
        declarators_names(inits_cleared(ds)) == declarators_names(ds),
        !any_init(inits_cleared(ds)),
    decreases ds,
{
    match ds {
        List::Nil => {},
        List::Cons(_, rest) => {
            lemma_cleared_names(*rest);
        },
    }
}

proof fn lemma_bare_names(names: Seq<Ident>)
    ensures
        declarators_names(bare_declarators(names)) == names,
        !any_init(bare_declarators(names)),
    decreases names.len(),
{
    if names.len() > 0 {
        lemma_bare_names(names.drop_first());
        assert(seq![names[0]] + names.drop_first() =~= names);
    } else {
        assert(names =~= Seq::<Ident>::empty());
    }
}

/// Whether the statement holds nothing that runs: it is empty, or a `var`
/// declaration without any initializer.
pub open spec fn inert(s: Stmt) -> bool {
    match s {
        Stmt::Empty { .. } => true,
        Stmt::Decl(Decl::Var(v)) => v.kind == VarDeclKind::Var && !any_init(v.decls),
        _ => false,
    }
}

/// What is kept of an unreachable statement hoists the same `var` bindings
/// as the statement did, in the same order, and holds nothing that runs: it
/// is the empty statement or a `var` declaration without initializers, never
/// a `let` or `const` declaration. Of a statement that is neither empty nor
/// itself a `var` declaration, what is kept is the one bare `var` declaration
/// of the names it hoists, and the empty statement where it hoists none.
pub proof fn law_hoisted_preserved(s: Stmt)
    ensures
        hoisted(preserved(s)) == hoisted(s),
        inert(preserved(s)),
        !(s is Empty) && !is_var_stmt(s) ==> preserved(s) == declared_bare(hoisted(s)),
        hoisted(s).len() == 0 && !is_var_stmt(s) ==> preserved(s) is Empty,
        declarators_names(bare_declarators(hoisted(s))) == hoisted(s),
{
    lemma_bare_names(hoisted(s));
    if hoisted(s).len() == 0 {
        assert(hoisted(s) =~= Seq::<Ident>::empty());
    }
    match s {
        Stmt::Decl(Decl::Var(v)) => {
            lemma_cleared_names(v.decls);
        },
        _ => {},
    }
}

} // verus!
