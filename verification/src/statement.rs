use vstd::prelude::*;
use crate::expression::{eview, eviews, AbsExpr, Expression};

verus! {

/// One statement of the language, together with the byte range of the source
/// text it was parsed from. The range serves diagnostics only; it plays no
/// part in execution.
#[derive(Debug)]
pub struct Statement {
    pub start: usize,
    pub end: usize,
    pub kind: StatementKind,
}

#[derive(Debug)]
pub enum StatementKind {
    Assignment(String, Expression),
    Delete(String),
    Print(Expression),
    PrintNoNl(Expression),
    ListNew(String),
    ListAppend(String, Expression),
    ListAssign(String, Expression, Expression),
    ListDelete(String, Expression),
    If(Expression, Vec<Statement>, Option<Vec<Statement>>),
    While(Expression, Vec<Statement>),
    Input(String),
    Catch(Vec<Statement>, Vec<Statement>),
    Function(String, Vec<String>, Vec<Statement>),
    Return(Expression),
    FunctionCall(String, Vec<Expression>),
    DylibLoad(String, Vec<Statement>),
}

/// Mathematical model of a statement.
#[verifier::ext_equal]
pub struct AbsStmt {
    pub start: int,
    pub end: int,
    pub kind: AbsKind,
}

#[verifier::ext_equal]
pub enum AbsKind {
    Assignment(Seq<char>, AbsExpr),
    Delete(Seq<char>),
    Print(AbsExpr),
    PrintNoNl(AbsExpr),
    ListNew(Seq<char>),
    ListAppend(Seq<char>, AbsExpr),
    ListAssign(Seq<char>, AbsExpr, AbsExpr),
    ListDelete(Seq<char>, AbsExpr),
    If(AbsExpr, Seq<AbsStmt>, Option<Seq<AbsStmt>>),
    While(AbsExpr, Seq<AbsStmt>),
    Input(Seq<char>),
    Catch(Seq<AbsStmt>, Seq<AbsStmt>),
    Function(Seq<char>, Seq<Seq<char>>, Seq<AbsStmt>),
    Return(AbsExpr),
    FunctionCall(Seq<char>, Seq<AbsExpr>),
    DylibLoad(Seq<char>, Seq<AbsStmt>),
}

pub open spec fn strviews(l: Seq<String>) -> Seq<Seq<char>> {
    Seq::new(l.len(), |i: int| l[i]@)
}

pub open spec fn sviews(l: Seq<Statement>) -> Seq<AbsStmt>
    decreases l,
{
    Seq::new(
        l.len(),
        |i: int|
            if 0 <= i < l.len() {
                sview(l[i])
            } else {
                AbsStmt { start: 0, end: 0, kind: AbsKind::Delete(Seq::empty()) }
            },
    )
}

pub open spec fn sview(s: Statement) -> AbsStmt
    decreases s,
{
    AbsStmt { start: s.start as int, end: s.end as int, kind: kview(s.kind) }
}

pub open spec fn kview(k: StatementKind) -> AbsKind
    decreases k,
{
    match k {
        StatementKind::Assignment(n, e) => AbsKind::Assignment(n@, eview(e)),
        StatementKind::Delete(n) => AbsKind::Delete(n@),
        StatementKind::Print(e) => AbsKind::Print(eview(e)),
        StatementKind::PrintNoNl(e) => AbsKind::PrintNoNl(eview(e)),
        StatementKind::ListNew(n) => AbsKind::ListNew(n@),
        StatementKind::ListAppend(n, e) => AbsKind::ListAppend(n@, eview(e)),
        StatementKind::ListAssign(n, i, e) => AbsKind::ListAssign(n@, eview(i), eview(e)),
        StatementKind::ListDelete(n, e) => AbsKind::ListDelete(n@, eview(e)),
        StatementKind::If(c, t, e) => AbsKind::If(
            eview(c),
            sviews(t@),
            match e {
                Some(b) => Some(sviews(b@)),
                None => None,
            },
        ),
        StatementKind::While(c, b) => AbsKind::While(eview(c), sviews(b@)),
        StatementKind::Input(n) => AbsKind::Input(n@),
        StatementKind::Catch(t, c) => AbsKind::Catch(sviews(t@), sviews(c@)),
        StatementKind::Function(n, p, b) => AbsKind::Function(n@, strviews(p@), sviews(b@)),
        StatementKind::Return(e) => AbsKind::Return(eview(e)),
        StatementKind::FunctionCall(n, a) => AbsKind::FunctionCall(n@, eviews(a@)),
        StatementKind::DylibLoad(p, f) => AbsKind::DylibLoad(p@, sviews(f@)),
    }
}

impl View for StatementKind {
    type V = AbsKind;

    open spec fn view(&self) -> AbsKind {
        kview(*self)
    }
}

impl DeepView for StatementKind {
    type V = AbsKind;

    open spec fn deep_view(&self) -> AbsKind {
        kview(*self)
    }
}

impl View for Statement {
    type V = AbsStmt;

    open spec fn view(&self) -> AbsStmt {
        sview(*self)
    }
}

impl DeepView for Statement {
    type V = AbsStmt;

    open spec fn deep_view(&self) -> AbsStmt {
        sview(*self)
    }
}

impl Statement {
    pub fn new(kind: StatementKind, start: usize, end: usize) -> (r: Statement)
        ensures
            r@ == (AbsStmt { start: start as int, end: end as int, kind: kind@ }),
    {
        Statement { kind, start, end }
    }

    /// A statement with a zeroed source range, for building statement values
    /// directly rather than through the parser.
    pub fn tnew(kind: StatementKind) -> (r: Statement)
        ensures
            r@ == (AbsStmt { start: 0, end: 0, kind: kind@ }),
    {
        Statement { kind, start: 0, end: 0 }
    }
}

} // verus!

verus! {

broadcast use vstd::std_specs::vec::group_vec_axioms;

/// Clones a block of statements; the copies have the same models.
pub fn dup_statements(v: &Vec<Statement>) -> (r: Vec<Statement>)
    ensures
        sviews(r@) == sviews(v@),
    decreases v,
{
    let mut r: Vec<Statement> = Vec::new();
    let n = v.len();
    for i in 0..n
        invariant
            n == v@.len(),
            r@.len() == i,
            forall|j: int| 0 <= j < i ==> sview(#[trigger] r@[j]) == sview(v@[j]),
    {
        r.push(v[i].duplicate());
    }
    proof {
        assert(sviews(r@) =~= sviews(v@));
    }
    r
}

impl Statement {
    /// A copy of this statement with the same model.
    pub fn duplicate(&self) -> (r: Statement)
        ensures
            r@ == self@,
        decreases self,
    {
        Statement { start: self.start, end: self.end, kind: self.kind.duplicate() }
    }
}

impl StatementKind {
    /// A copy of this statement kind with the same model.
    pub fn duplicate(&self) -> (r: StatementKind)
        ensures
            kview(r) == kview(*self),
        decreases self,
    {
        match self {
            StatementKind::Assignment(n, e) => StatementKind::Assignment(n.clone(), e.duplicate()),
            StatementKind::Delete(n) => StatementKind::Delete(n.clone()),
            StatementKind::Print(e) => StatementKind::Print(e.duplicate()),
            StatementKind::PrintNoNl(e) => StatementKind::PrintNoNl(e.duplicate()),
            StatementKind::ListNew(n) => StatementKind::ListNew(n.clone()),
            StatementKind::ListAppend(n, e) => StatementKind::ListAppend(n.clone(), e.duplicate()),
            StatementKind::ListAssign(n, i, e) => StatementKind::ListAssign(
                n.clone(),
                i.duplicate(),
                e.duplicate(),
            ),
            StatementKind::ListDelete(n, e) => StatementKind::ListDelete(n.clone(), e.duplicate()),
            StatementKind::If(c, t, e) => StatementKind::If(
                c.duplicate(),
                dup_statements(t),
                match e {
                    Some(b) => Some(dup_statements(b)),
                    None => None,
                },
            ),
            StatementKind::While(c, b) => StatementKind::While(c.duplicate(), dup_statements(b)),
            StatementKind::Input(n) => StatementKind::Input(n.clone()),
            StatementKind::Catch(t, c) => StatementKind::Catch(
                dup_statements(t),
                dup_statements(c),
            ),
            StatementKind::Function(n, p, b) => StatementKind::Function(
                n.clone(),
                crate::value::dup_strings(p),
                dup_statements(b),
            ),
            StatementKind::Return(e) => StatementKind::Return(e.duplicate()),
            StatementKind::FunctionCall(n, a) => StatementKind::FunctionCall(
                n.clone(),
                crate::expression::dup_expressions(a),
            ),
            StatementKind::DylibLoad(p, f) => StatementKind::DylibLoad(
                p.clone(),
                dup_statements(f),
            ),
        }
    }
}

/// Statement equality disregards the statements' source ranges at every
/// depth: two statements are equal when they direct the same execution.
pub open spec fn abs_stmt_eq(a: AbsStmt, b: AbsStmt) -> bool
    decreases a,
{
    abs_kind_eq(a.kind, b.kind)
}

pub open spec fn abs_stmts_eq(x: Seq<AbsStmt>, y: Seq<AbsStmt>) -> bool
    decreases x,
{
    x.len() == y.len() && (forall|i: int|
        0 <= i < x.len() ==> abs_stmt_eq(#[trigger] x[i], y[i]))
}

pub open spec fn abs_kind_eq(a: AbsKind, b: AbsKind) -> bool
    decreases a,
{
    match (a, b) {
        (AbsKind::Assignment(n1, e1), AbsKind::Assignment(n2, e2)) => n1 == n2
            && crate::expression::abs_expr_eq(e1, e2),
        (AbsKind::Delete(n1), AbsKind::Delete(n2)) => n1 == n2,
        (AbsKind::Print(e1), AbsKind::Print(e2)) => crate::expression::abs_expr_eq(e1, e2),
        (AbsKind::PrintNoNl(e1), AbsKind::PrintNoNl(e2)) => crate::expression::abs_expr_eq(e1, e2),
        (AbsKind::ListNew(n1), AbsKind::ListNew(n2)) => n1 == n2,
        (AbsKind::ListAppend(n1, e1), AbsKind::ListAppend(n2, e2)) => n1 == n2
            && crate::expression::abs_expr_eq(e1, e2),
        (AbsKind::ListAssign(n1, i1, e1), AbsKind::ListAssign(n2, i2, e2)) => n1 == n2
            && crate::expression::abs_expr_eq(i1, i2) && crate::expression::abs_expr_eq(e1, e2),
        (AbsKind::ListDelete(n1, e1), AbsKind::ListDelete(n2, e2)) => n1 == n2
            && crate::expression::abs_expr_eq(e1, e2),
        (AbsKind::If(c1, t1, e1), AbsKind::If(c2, t2, e2)) => crate::expression::abs_expr_eq(
            c1,
            c2,
        ) && abs_stmts_eq(t1, t2) && match (e1, e2) {
            (Some(b1), Some(b2)) => abs_stmts_eq(b1, b2),
            (None, None) => true,
            _ => false,
        },
        (AbsKind::While(c1, b1), AbsKind::While(c2, b2)) => crate::expression::abs_expr_eq(c1, c2)
            && abs_stmts_eq(b1, b2),
        (AbsKind::Input(n1), AbsKind::Input(n2)) => n1 == n2,
        (AbsKind::Catch(t1, c1), AbsKind::Catch(t2, c2)) => abs_stmts_eq(t1, t2) && abs_stmts_eq(
            c1,
            c2,
        ),
        (AbsKind::Function(n1, p1, b1), AbsKind::Function(n2, p2, b2)) => n1 == n2 && p1 == p2
            && abs_stmts_eq(b1, b2),
        (AbsKind::Return(e1), AbsKind::Return(e2)) => crate::expression::abs_expr_eq(e1, e2),
        (AbsKind::FunctionCall(n1, a1), AbsKind::FunctionCall(n2, a2)) => n1 == n2
            && crate::expression::abs_exprs_eq(a1, a2),
        (AbsKind::DylibLoad(p1, f1), AbsKind::DylibLoad(p2, f2)) => p1 == p2 && abs_stmts_eq(
            f1,
            f2,
        ),
        _ => false,
    }
}

/// Runtime form of `abs_stmts_eq`.
pub fn statements_eq(x: &Vec<Statement>, y: &Vec<Statement>) -> (r: bool)
    ensures
        r == abs_stmts_eq(sviews(x@), sviews(y@)),
    decreases x,
{
    if x.len() != y.len() {
        return false;
    }
    let n = x.len();
    for i in 0..n
        invariant
            n == x@.len(),
            n == y@.len(),
            forall|j: int| 0 <= j < i ==> abs_stmt_eq(#[trigger] sviews(x@)[j], sviews(y@)[j]),
    {
        if !statement_eq(&x[i], &y[i]) {
            proof {
                assert(!abs_stmt_eq(sviews(x@)[i as int], sviews(y@)[i as int]));
            }
            return false;
        }
    }
    true
}

/// Runtime form of `abs_stmt_eq`.
pub fn statement_eq(a: &Statement, b: &Statement) -> (r: bool)
    ensures
        r == abs_stmt_eq(a@, b@),
    decreases a,
{
    kind_eq(&a.kind, &b.kind)
}

fn opt_block_eq(x: &Option<Vec<Statement>>, y: &Option<Vec<Statement>>) -> (r: bool)
    ensures
        r == match (x, y) {
            (Some(b1), Some(b2)) => abs_stmts_eq(sviews(b1@), sviews(b2@)),
            (None, None) => true,
            _ => false,
        },
    decreases x,
{
    match (x, y) {
        (Some(b1), Some(b2)) => statements_eq(b1, b2),
        (None, None) => true,
        _ => false,
    }
}

/// Runtime form of `abs_kind_eq`.
pub fn kind_eq(a: &StatementKind, b: &StatementKind) -> (r: bool)
    ensures
        r == abs_kind_eq(a@, b@),
    decreases a,
{
    match (a, b) {
        (StatementKind::Assignment(n1, e1), StatementKind::Assignment(n2, e2)) => {
            let ns = <String as PartialEq>::eq(n1, n2);
            ns && crate::expression::expression_eq(e1, e2)
        }
        (StatementKind::Delete(n1), StatementKind::Delete(n2)) => {
            let r = <String as PartialEq>::eq(n1, n2);
            r
        }
        (StatementKind::Print(e1), StatementKind::Print(e2)) => crate::expression::expression_eq(
            e1,
            e2,
        ),
        (StatementKind::PrintNoNl(e1), StatementKind::PrintNoNl(e2)) => {
            crate::expression::expression_eq(e1, e2)
        }
        (StatementKind::ListNew(n1), StatementKind::ListNew(n2)) => {
            let r = <String as PartialEq>::eq(n1, n2);
            r
        }
        (StatementKind::ListAppend(n1, e1), StatementKind::ListAppend(n2, e2)) => {
            let ns = <String as PartialEq>::eq(n1, n2);
            ns && crate::expression::expression_eq(e1, e2)
        }
        (StatementKind::ListAssign(n1, i1, e1), StatementKind::ListAssign(n2, i2, e2)) => {
            let ns = <String as PartialEq>::eq(n1, n2);
            ns && crate::expression::expression_eq(i1, i2) && crate::expression::expression_eq(
                e1,
                e2,
            )
        }
        (StatementKind::ListDelete(n1, e1), StatementKind::ListDelete(n2, e2)) => {
            let ns = <String as PartialEq>::eq(n1, n2);
            ns && crate::expression::expression_eq(e1, e2)
        }
        (StatementKind::If(c1, t1, e1), StatementKind::If(c2, t2, e2)) => {
            crate::expression::expression_eq(c1, c2) && statements_eq(t1, t2) && opt_block_eq(
                e1,
                e2,
            )
        }
        (StatementKind::While(c1, b1), StatementKind::While(c2, b2)) => {
            crate::expression::expression_eq(c1, c2) && statements_eq(b1, b2)
        }
        (StatementKind::Input(n1), StatementKind::Input(n2)) => {
            let r = <String as PartialEq>::eq(n1, n2);
            r
        }
        (StatementKind::Catch(t1, c1), StatementKind::Catch(t2, c2)) => {
            statements_eq(t1, t2) && statements_eq(c1, c2)
        }
        (StatementKind::Function(n1, p1, b1), StatementKind::Function(n2, p2, b2)) => {
            let ns = <String as PartialEq>::eq(n1, n2);
            ns && crate::value::string_vecs_eq(p1, p2) && statements_eq(b1, b2)
        }
        (StatementKind::Return(e1), StatementKind::Return(e2)) => {
            crate::expression::expression_eq(e1, e2)
        }
        (StatementKind::FunctionCall(n1, a1), StatementKind::FunctionCall(n2, a2)) => {
            let ns = <String as PartialEq>::eq(n1, n2);
            ns && crate::expression::expressions_eq(a1, a2)
        }
        (StatementKind::DylibLoad(p1, f1), StatementKind::DylibLoad(p2, f2)) => {
            let ps = <String as PartialEq>::eq(p1, p2);
            ps && statements_eq(f1, f2)
        }
        _ => false,
    }
}

impl PartialEq for Statement {
    fn eq(&self, other: &Statement) -> (r: bool) {
        statement_eq(self, other)
    }
}

impl vstd::std_specs::cmp::PartialEqSpecImpl for Statement {
    open spec fn obeys_eq_spec() -> bool {
        true
    }

    open spec fn eq_spec(&self, other: &Statement) -> bool {
        abs_stmt_eq(self@, other@)
    }
}

impl PartialEq<StatementKind> for Statement {
    fn eq(&self, other: &StatementKind) -> (r: bool) {
        kind_eq(&self.kind, other)
    }
}

impl vstd::std_specs::cmp::PartialEqSpecImpl<StatementKind> for Statement {
    open spec fn obeys_eq_spec() -> bool {
        true
    }

    open spec fn eq_spec(&self, other: &StatementKind) -> bool {
        abs_kind_eq(self@.kind, other@)
    }
}

impl PartialEq for StatementKind {
    fn eq(&self, other: &StatementKind) -> (r: bool) {
        kind_eq(self, other)
    }
}

impl vstd::std_specs::cmp::PartialEqSpecImpl for StatementKind {
    open spec fn obeys_eq_spec() -> bool {
        true
    }

    open spec fn eq_spec(&self, other: &StatementKind) -> bool {
        abs_kind_eq(self@, other@)
    }
}

} // verus!

verus! {

impl StatementKind {
    pub fn assignment<S: Into<String>, E: Into<Expression>>(name: S, expr: E) -> StatementKind {
        StatementKind::Assignment(name.into(), expr.into())
    }

    pub fn dylib_load<S: Into<String>>(lib_path: S, functions: Vec<Statement>) -> StatementKind {
        StatementKind::DylibLoad(lib_path.into(), functions)
    }

    pub fn return_it<E: Into<Expression>>(expr: E) -> StatementKind {
        StatementKind::Return(expr.into())
    }

    pub fn list_append<S: Into<String>, E: Into<Expression>>(name: S, expr: E) -> StatementKind {
        StatementKind::ListAppend(name.into(), expr.into())
    }

    pub fn list_delete<S: Into<String>, E: Into<Expression>>(name: S, expr: E) -> StatementKind {
        StatementKind::ListDelete(name.into(), expr.into())
    }

    pub fn if_block<E: Into<Expression>>(
        condition: E,
        if_body: Vec<Statement>,
        else_body: Option<Vec<Statement>>,
    ) -> StatementKind {
        StatementKind::If(condition.into(), if_body, else_body)
    }

    pub fn while_block<E: Into<Expression>>(condition: E, body: Vec<Statement>) -> StatementKind {
        StatementKind::While(condition.into(), body)
    }

    pub fn input<S: Into<String>>(name: S) -> StatementKind {
        StatementKind::Input(name.into())
    }

    pub fn catch(try_block: Vec<Statement>, catch_block: Vec<Statement>) -> StatementKind {
        StatementKind::Catch(try_block, catch_block)
    }

    pub fn list_assign<S: Into<String>, E: Into<Expression>, R: Into<Expression>>(
        name: S,
        index: E,
        assign: R,
    ) -> StatementKind {
        StatementKind::ListAssign(name.into(), index.into(), assign.into())
    }

    pub fn delete<S: Into<String>>(name: S) -> StatementKind {
        StatementKind::Delete(name.into())
    }

    pub fn print<E: Into<Expression>>(expr: E) -> StatementKind {
        StatementKind::Print(expr.into())
    }

    pub fn new_list<S: Into<String>>(name: S) -> StatementKind {
        StatementKind::ListNew(name.into())
    }
}

} // verus!
