//! The program tree: a closed family of plain algebraic values.
//!
//! Sequences of children are algebraic lists, so that two trees are equal
//! exactly when they have the same shape and the same leaves.

use vstd::prelude::*;

verus! {

/// A symbol: the handle under which a name or a literal's text is interned.
pub type Atom = u64;

/// A hygiene context: the marker that tells same-named bindings of different
/// scopes apart.
pub type SyntaxContext = u32;

/// A lexical identity: a name paired with its hygiene context.
pub type Id = (Atom, SyntaxContext);

/// The symbol of the name `arguments`, which aliases a function's implicit
/// arguments object.
pub const ATOM_ARGUMENTS: Atom = 0;

/// A range of byte positions in the source text.
#[derive(Clone, Copy, Debug, PartialEq, Eq, Structural, Hash)]
pub struct Span {
    pub lo: u32,
    pub hi: u32,
}

/// The span of a node that no source text stands for.
pub open spec fn dummy_span() -> Span {
    Span { lo: 0, hi: 0 }
}

/// Gives the span of a node that no source text stands for.
pub fn dummy_sp() -> (r: Span)
    ensures
        r == dummy_span(),
{
    Span { lo: 0, hi: 0 }
}

impl Span {
    /// Whether the span stands for no source text: the empty span at the
    /// origin, or a position in the range reserved for synthetic nodes.
    pub open spec fn synthetic(self) -> bool {
        self.lo == 0 && self.hi == 0 || self.lo >= 4294901759u32
    }

    /// Tells whether the span stands for no source text.
    pub fn is_dummy(self) -> (r: bool)
        ensures
            r == self.synthetic(),
    {
        span_is_dummy(self.lo, self.hi)
    }
}

/// `swc_common::Span::is_dummy` on the span from `lo` to `hi`: true for the
/// span with both ends at zero and for one that starts in the reserved range.
/// Taken on trust.
#[verifier::external_body]
fn span_is_dummy(lo: u32, hi: u32) -> (r: bool)
    ensures
        r == (lo == 0 && hi == 0 || lo >= 4294901759u32),
{
    (swc_common::Span { lo: swc_common::BytePos(lo), hi: swc_common::BytePos(hi) }).is_dummy()
}

/// An identifier occurrence.
#[derive(Clone, Copy, Debug, PartialEq, Eq, Structural, Hash)]
pub struct Ident {
    pub span: Span,
    pub ctxt: SyntaxContext,
    pub sym: Atom,
}

impl Ident {
    /// The lexical identity of this occurrence.
    pub open spec fn id(self) -> Id {
        (self.sym, self.ctxt)
    }

    /// Gives the lexical identity of this occurrence.
    pub fn to_id(&self) -> (r: Id)
        ensures
            r == self.id(),
    {
        (self.sym, self.ctxt)
    }
}

/// A sequence of children.
#[derive(Debug, PartialEq, Eq)]
pub enum List<T> {
    Nil,
    Cons(Box<T>, Box<List<T>>),
}

impl<T> List<T> {
    /// The items in order.
    pub open spec fn to_seq(self) -> Seq<T>
        decreases self,
    {
        match self {
            List::Nil => Seq::empty(),
            List::Cons(head, rest) => seq![*head] + rest.to_seq(),
        }
    }

    /// Builds the list that holds the items of `v`, in order.
    pub fn from_vec(v: Vec<T>) -> (r: List<T>)
        ensures
            r.to_seq() == v@,
    {
        let mut v = v;
        let ghost all = v@;
        let mut out: List<T> = List::Nil;
        assert(all.subrange(all.len() as int, all.len() as int) =~= Seq::<T>::empty());
        assert(all.subrange(0, all.len() as int) =~= all);
        while v.len() > 0
            invariant
                v@.len() <= all.len(),
                v@ == all.subrange(0, v@.len() as int),
                out.to_seq() == all.subrange(v@.len() as int, all.len() as int),
            decreases v@.len(),
        {
            let ghost n = v@.len() as int;
            match v.pop() {
                Some(x) => {
                    out = List::Cons(Box::new(x), Box::new(out));
                    assert(v@ =~= all.subrange(0, n - 1));
                    assert(seq![x] + all.subrange(n, all.len() as int) =~= all.subrange(
                        n - 1,
                        all.len() as int,
                    ));
                },
                None => {},
            }
        }
        assert(all.subrange(0, all.len() as int) =~= all);
        out
    }

    /// Whether the list has no item.
    pub fn is_empty(&self) -> (r: bool)
        ensures
            r == (*self == List::<T>::Nil),
    {
        match self {
            List::Nil => true,
            List::Cons(_, _) => false,
        }
    }
}

/// A literal. Text and numbers are held by their interned handle or bit
/// pattern: the rules only ask which kind of literal stands there.
#[derive(Clone, Copy, Debug, PartialEq, Eq, Structural, Hash)]
pub enum Lit {
    Str(Atom),
    Bool(bool),
    Null,
    /// A number, by the bits of its double-precision value.
    Num(u64),
    BigInt(Atom),
    Regex(Atom, Atom),
}

/// A unary operator.
#[derive(Clone, Copy, Debug, PartialEq, Eq, Structural, Hash)]
pub enum UnaryOp {
    Minus,
    Plus,
    Bang,
    Tilde,
    TypeOf,
    Void,
    Delete,
}

/// A binary operator.
#[derive(Clone, Copy, Debug, PartialEq, Eq, Structural, Hash)]
pub enum BinaryOp {
    EqEq,
    NotEq,
    Lt,
    Gt,
    Add,
    Sub,
    Mul,
    Div,
    LogicalOr,
    LogicalAnd,
    In,
    InstanceOf,
}

/// An assignment operator; `Assign` is the plain `=`.
#[derive(Clone, Copy, Debug, PartialEq, Eq, Structural, Hash)]
pub enum AssignOp {
    Assign,
    AddAssign,
    SubAssign,
    MulAssign,
    DivAssign,
    OrAssign,
    AndAssign,
}

/// The keyword of a variable declaration.
#[derive(Clone, Copy, Debug, PartialEq, Eq, Structural, Hash)]
pub enum VarDeclKind {
    Var,
    Let,
    Const,
}

/// An expression.
#[derive(Debug, PartialEq, Eq)]
pub enum Expr {
    /// A placeholder that stands for no expression.
    Invalid { span: Span },
    Lit { span: Span, lit: Lit },
    Ident(Ident),
    Unary { span: Span, op: UnaryOp, arg: Box<Expr> },
    Bin { span: Span, op: BinaryOp, left: Box<Expr>, right: Box<Expr> },
    Assign { span: Span, op: AssignOp, left: AssignTarget, right: Box<Expr> },
    Member { span: Span, obj: Box<Expr>, prop: MemberProp },
    Cond { span: Span, test: Box<Expr>, cons: Box<Expr>, alt: Box<Expr> },
    Call { span: Span, callee: Callee, args: List<ExprOrSpread> },
    New { span: Span, callee: Box<Expr>, args: List<ExprOrSpread> },
    Sequence { span: Span, exprs: List<Expr> },
    Object { span: Span, props: List<PropOrSpread> },
    Fn { ident: Option<Ident>, function: Box<Function> },
    Arrow { span: Span, params: List<Pat>, body: ArrowBody },
    Class { ident: Option<Ident>, class: Box<Class> },
}

impl Expr {
    /// The canonical expression for the undefined value, `void 0`, at `span`.
    pub open spec fn undefined_at(span: Span) -> Expr {
        Expr::Unary {
            span,
            op: UnaryOp::Void,
            arg: Box::new(Expr::Lit { span: dummy_span(), lit: Lit::Num(0) }),
        }
    }

    /// Builds the canonical expression for the undefined value at `span`.
    pub fn undefined(span: Span) -> (r: Expr)
        ensures
            r == Expr::undefined_at(span),
    {
        Expr::Unary {
            span,
            op: UnaryOp::Void,
            arg: Box::new(Expr::Lit { span: dummy_sp(), lit: Lit::Num(0) }),
        }
    }

    /// Moves the expression out and leaves the invalid placeholder behind.
    pub fn take(&mut self) -> (r: Expr)
        ensures
            r == *old(self),
            *final(self) == (Expr::Invalid { span: dummy_span() }),
    {
        let mut out = Expr::Invalid { span: dummy_sp() };
        std::mem::swap(self, &mut out);
        out
    }
}

/// What a call invokes.
#[derive(Debug, PartialEq, Eq)]
pub enum Callee {
    Super { span: Span },
    Expr(Box<Expr>),
}

/// The property that a member expression reads.
#[derive(Debug, PartialEq, Eq)]
pub enum MemberProp {
    Ident(Ident),
    Computed(Box<Expr>),
}

/// The left-hand side of an assignment.
#[derive(Debug, PartialEq, Eq)]
pub enum AssignTarget {
    Expr(Box<Expr>),
    Pat(Box<Pat>),
}

/// A call argument; `spread` holds the span of the three dots, if any.
#[derive(Debug, PartialEq, Eq)]
pub struct ExprOrSpread {
    pub spread: Option<Span>,
    pub expr: Box<Expr>,
}

/// The body of an arrow function.
#[derive(Debug, PartialEq, Eq)]
pub enum ArrowBody {
    Block(List<Stmt>),
    Expr(Box<Expr>),
}

/// A function with its body.
#[derive(Debug, PartialEq, Eq)]
pub struct Function {
    pub span: Span,
    pub params: List<Pat>,
    pub body: List<Stmt>,
    pub is_generator: bool,
    pub is_async: bool,
}

/// A class.
#[derive(Debug, PartialEq, Eq)]
pub struct Class {
    pub span: Span,
    pub super_class: Option<Box<Expr>>,
    pub body: List<ClassMember>,
}

/// A member of a class body.
#[derive(Debug, PartialEq, Eq)]
pub enum ClassMember {
    Method { key: PropName, function: Box<Function> },
    ClassProp { key: PropName, value: Option<Box<Expr>> },
    PrivateProp { key: Atom, value: Option<Box<Expr>> },
    Empty { span: Span },
}

/// The name of a property.
#[derive(Debug, PartialEq, Eq)]
pub enum PropName {
    Ident(Ident),
    Str(Atom),
    /// A number, by the bits of its double-precision value.
    Num(u64),
    BigInt(Atom),
    Computed(Box<Expr>),
}

/// An entry of an object literal.
#[derive(Debug, PartialEq, Eq)]
pub enum PropOrSpread {
    Spread(Box<Expr>),
    Prop(Prop),
}

/// A property of an object literal.
#[derive(Debug, PartialEq, Eq)]
pub enum Prop {
    /// `{ a }`
    Shorthand(Ident),
    /// `{ key: value }`
    KeyValue { key: PropName, value: Box<Expr> },
    Getter { key: PropName, body: List<Stmt> },
    Setter { key: PropName, param: Pat, body: List<Stmt> },
    Method { key: PropName, function: Box<Function> },
}

/// A binding pattern.
#[derive(Debug, PartialEq, Eq)]
pub enum Pat {
    /// A placeholder that binds nothing.
    Invalid { span: Span },
    Ident(Ident),
    Array { span: Span, elems: List<Pat> },
    Object { span: Span, props: List<Pat> },
    Rest { span: Span, arg: Box<Pat> },
    Assign { span: Span, left: Box<Pat>, right: Box<Expr> },
    Expr(Box<Expr>),
}

/// A statement.
#[derive(Debug, PartialEq, Eq)]
pub enum Stmt {
    Empty { span: Span },
    Expr { span: Span, expr: Box<Expr> },
    Return { span: Span, arg: Option<Box<Expr>> },
    Block { span: Span, stmts: List<Stmt> },
    If { span: Span, test: Box<Expr>, cons: Box<Stmt>, alt: Option<Box<Stmt>> },
    Decl(Decl),
}

/// A declaration.
#[derive(Debug, PartialEq, Eq)]
pub enum Decl {
    Var(VarDecl),
    Fn { ident: Ident, function: Box<Function> },
    Class { ident: Ident, class: Box<Class> },
    TsInterface { span: Span },
    TsTypeAlias { span: Span },
    TsEnum { span: Span },
    TsModule { span: Span },
}

/// A variable declaration: a keyword and its declarators.
#[derive(Debug, PartialEq, Eq)]
pub struct VarDecl {
    pub span: Span,
    pub kind: VarDeclKind,
    pub declare: bool,
    pub decls: List<VarDeclarator>,
}

/// One binding of a variable declaration, with its initializer.
#[derive(Debug, PartialEq, Eq)]
pub struct VarDeclarator {
    pub span: Span,
    pub name: Pat,
    pub init: Option<Box<Expr>>,
    pub definite: bool,
}

} // verus!
