use vstd::prelude::*;
use crate::value::{vview, AbsValue, Value};
use crate::Operator;

verus! {

/// One expression of the language. Expressions are immutable trees;
/// evaluating one never changes it.
#[derive(Debug)]
pub enum Expression {
    Variable(String),
    OpExp(Box<Expression>, Operator, Box<Expression>),
    Value(Value),
    ListIndex(String, Box<Expression>),
    ListLength(String),
    Not(Box<Expression>),
    Eval(Box<Expression>),
    FunctionCall(String, Vec<Expression>),
}

/// Mathematical model of an expression.
#[verifier::ext_equal]
pub enum AbsExpr {
    Variable(Seq<char>),
    OpExp(Box<AbsExpr>, Operator, Box<AbsExpr>),
    Value(AbsValue),
    ListIndex(Seq<char>, Box<AbsExpr>),
    ListLength(Seq<char>),
    Not(Box<AbsExpr>),
    Eval(Box<AbsExpr>),
    FunctionCall(Seq<char>, Seq<AbsExpr>),
}

pub open spec fn eviews(l: Seq<Expression>) -> Seq<AbsExpr>
    decreases l,
{
    Seq::new(
        l.len(),
        |i: int|
            if 0 <= i < l.len() {
                eview(l[i])
            } else {
                AbsExpr::Variable(Seq::empty())
            },
    )
}

pub open spec fn eview(e: Expression) -> AbsExpr
    decreases e,
{
    match e {
        Expression::Variable(n) => AbsExpr::Variable(n@),
        Expression::OpExp(l, op, r) => AbsExpr::OpExp(Box::new(eview(*l)), op, Box::new(eview(*r))),
        Expression::Value(v) => AbsExpr::Value(vview(v)),
        Expression::ListIndex(n, i) => AbsExpr::ListIndex(n@, Box::new(eview(*i))),
        Expression::ListLength(n) => AbsExpr::ListLength(n@),
        Expression::Not(e1) => AbsExpr::Not(Box::new(eview(*e1))),
        Expression::Eval(e1) => AbsExpr::Eval(Box::new(eview(*e1))),
        Expression::FunctionCall(n, a) => AbsExpr::FunctionCall(n@, eviews(a@)),
    }
}

impl View for Expression {
    type V = AbsExpr;

    open spec fn view(&self) -> AbsExpr {
        eview(*self)
    }
}

impl DeepView for Expression {
    type V = AbsExpr;

    open spec fn deep_view(&self) -> AbsExpr {
        eview(*self)
    }
}

impl Expression {
    pub fn variable<S: Into<String>>(name: S) -> Expression {
        Expression::Variable(name.into())
    }

    pub fn list_length<S: Into<String>>(name: S) -> Expression {
        Expression::ListLength(name.into())
    }

    pub fn operator<L: Into<Expression>, R: Into<Expression>>(
        left: L,
        op: Operator,
        right: R,
    ) -> Expression {
        Expression::OpExp(Box::new(left.into()), op, Box::new(right.into()))
    }

    pub fn not<E: Into<Expression>>(expr: E) -> Expression {
        Expression::Not(Box::new(expr.into()))
    }

    pub fn eval<E: Into<Expression>>(expr: E) -> Expression {
        Expression::Eval(Box::new(expr.into()))
    }

    pub fn list_index<S: Into<String>, E: Into<Expression>>(name: S, index: E) -> Expression {
        Expression::ListIndex(name.into(), Box::new(index.into()))
    }

    pub fn value<V: Into<Value>>(val: V) -> Expression {
        Expression::Value(val.into())
    }

    pub fn new<T: Into<Expression>>(from: T) -> Expression {
        from.into()
    }
}

impl<T: Into<Value>> From<T> for Expression {
    fn from(fr: T) -> Expression {
        Expression::Value(fr.into())
    }
}

impl<T: Into<Value>> vstd::std_specs::convert::FromSpecImpl<T> for Expression {
    open spec fn obeys_from_spec() -> bool {
        false
    }

    open spec fn from_spec(v: T) -> Expression {
        vstd::pervasive::arbitrary()
    }
}

} // verus!

verus! {

broadcast use vstd::std_specs::vec::group_vec_axioms;

/// Clones a vector of expressions; the copies have the same models.
pub fn dup_expressions(v: &Vec<Expression>) -> (r: Vec<Expression>)
    ensures
        eviews(r@) == eviews(v@),
    decreases v,
{
    let mut r: Vec<Expression> = Vec::new();
    let n = v.len();
    for i in 0..n
        invariant
            n == v@.len(),
            r@.len() == i,
            forall|j: int| 0 <= j < i ==> eview(#[trigger] r@[j]) == eview(v@[j]),
    {
        r.push(v[i].duplicate());
    }
    proof {
        assert(eviews(r@) =~= eviews(v@));
    }
    r
}

impl Expression {
    /// A copy of this expression with the same model.
    pub fn duplicate(&self) -> (r: Expression)
        ensures
            r@ == self@,
        decreases self,
    {
        match self {
            Expression::Variable(n) => Expression::Variable(n.clone()),
            Expression::OpExp(l, op, r) => Expression::OpExp(
                Box::new(l.duplicate()),
                *op,
                Box::new(r.duplicate()),
            ),
            Expression::Value(v) => Expression::Value(v.duplicate()),
            Expression::ListIndex(n, i) => Expression::ListIndex(
                n.clone(),
                Box::new(i.duplicate()),
            ),
            Expression::ListLength(n) => Expression::ListLength(n.clone()),
            Expression::Not(e) => Expression::Not(Box::new(e.duplicate())),
            Expression::Eval(e) => Expression::Eval(Box::new(e.duplicate())),
            Expression::FunctionCall(n, a) => Expression::FunctionCall(
                n.clone(),
                dup_expressions(a),
            ),
        }
    }
}

/// Expression equality: structural, with values compared as the language's
/// `==` compares them.
pub open spec fn abs_expr_eq(a: AbsExpr, b: AbsExpr) -> bool
    decreases a,
{
    match (a, b) {
        (AbsExpr::Variable(n1), AbsExpr::Variable(n2)) => n1 == n2,
        (AbsExpr::OpExp(l1, o1, r1), AbsExpr::OpExp(l2, o2, r2)) => o1 == o2 && abs_expr_eq(
            *l1,
            *l2,
        ) && abs_expr_eq(*r1, *r2),
        (AbsExpr::Value(v1), AbsExpr::Value(v2)) => crate::value::val_eq(v1, v2),
        (AbsExpr::ListIndex(n1, i1), AbsExpr::ListIndex(n2, i2)) => n1 == n2 && abs_expr_eq(
            *i1,
            *i2,
        ),
        (AbsExpr::ListLength(n1), AbsExpr::ListLength(n2)) => n1 == n2,
        (AbsExpr::Not(e1), AbsExpr::Not(e2)) => abs_expr_eq(*e1, *e2),
        (AbsExpr::Eval(e1), AbsExpr::Eval(e2)) => abs_expr_eq(*e1, *e2),
        (AbsExpr::FunctionCall(n1, a1), AbsExpr::FunctionCall(n2, a2)) => n1 == n2 && abs_exprs_eq(
            a1,
            a2,
        ),
        _ => false,
    }
}

pub open spec fn abs_exprs_eq(x: Seq<AbsExpr>, y: Seq<AbsExpr>) -> bool
    decreases x,
{
    x.len() == y.len() && (forall|i: int|
        0 <= i < x.len() ==> abs_expr_eq(#[trigger] x[i], y[i]))
}

/// Runtime form of `abs_expr_eq`.
pub fn expression_eq(a: &Expression, b: &Expression) -> (r: bool)
    ensures
        r == abs_expr_eq(a@, b@),
    decreases a,
{
    match (a, b) {
        (Expression::Variable(n1), Expression::Variable(n2)) => {
            let r = <String as PartialEq>::eq(n1, n2);
            r
        }
        (Expression::OpExp(l1, o1, r1), Expression::OpExp(l2, o2, r2)) => {
            *o1 == *o2 && expression_eq(l1, l2) && expression_eq(r1, r2)
        }
        (Expression::Value(v1), Expression::Value(v2)) => crate::value::value_eq(v1, v2),
        (Expression::ListIndex(n1, i1), Expression::ListIndex(n2, i2)) => {
            let ns = <String as PartialEq>::eq(n1, n2);
            ns && expression_eq(i1, i2)
        }
        (Expression::ListLength(n1), Expression::ListLength(n2)) => {
            let r = <String as PartialEq>::eq(n1, n2);
            r
        }
        (Expression::Not(e1), Expression::Not(e2)) => expression_eq(e1, e2),
        (Expression::Eval(e1), Expression::Eval(e2)) => expression_eq(e1, e2),
        (Expression::FunctionCall(n1, a1), Expression::FunctionCall(n2, a2)) => {
            let ns = <String as PartialEq>::eq(n1, n2);
            ns && expressions_eq(a1, a2)
        }
        _ => false,
    }
}

/// Runtime form of `abs_exprs_eq`.
pub fn expressions_eq(x: &Vec<Expression>, y: &Vec<Expression>) -> (r: bool)
    ensures
        r == abs_exprs_eq(eviews(x@), eviews(y@)),
    decreases x,
{
    if x.len() != y.len() {
        return false;
    }
    let n = x.len();
    for i in 0..n
        invariant
            n == x@.len(),
            n == y@.len(),
            forall|j: int| 0 <= j < i ==> abs_expr_eq(#[trigger] eviews(x@)[j], eviews(y@)[j]),
    {
        if !expression_eq(&x[i], &y[i]) {
            proof {
                assert(!abs_expr_eq(eviews(x@)[i as int], eviews(y@)[i as int]));
            }
            return false;
        }
    }
    true
}

impl PartialEq for Expression {
    fn eq(&self, other: &Expression) -> (r: bool) {
        expression_eq(self, other)
    }
}

impl vstd::std_specs::cmp::PartialEqSpecImpl for Expression {
    open spec fn obeys_eq_spec() -> bool {
        true
    }

    open spec fn eq_spec(&self, other: &Expression) -> bool {
        abs_expr_eq(self@, other@)
    }
}

} // verus!
