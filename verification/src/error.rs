use vstd::prelude::*;
use crate::grammar::ParseError;
use crate::statement::{sview, AbsStmt, Statement};
use crate::value::Type;
use crate::Operator;

verus! {

/// The result type of every operation of the interpreter that can fail.
pub type SwResult<T> = Result<T, EitherError>;

/// Everything that can go wrong while running a program.
#[derive(Debug)]
pub enum ErrorKind {
    UnknownVariable(String),
    IndexUnindexable(Type),
    SyntaxError(ParseError),
    IndexOutOfBounds { len: usize, index: usize },
    IOError,
    UnexpectedType { actual: Type, expected: Type },
    LoadError(String),
    InvalidBinaryExpression(Type, Type, Operator),
    InvalidArguments(String, usize, usize),
    NoReturn(String),
    NonFunctionCallInDylib(Statement),
    MissingAbiCompat { library: String },
    IncompatibleAbi(u32),
    DylibReturnedNil,
    DivisionByZero,
    RecursionLimit,
}

/// Mathematical model of an error.
#[verifier::ext_equal]
pub enum AbsErr {
    UnknownVariable(Seq<char>),
    IndexUnindexable(Type),
    SyntaxError(ParseError),
    IndexOutOfBounds { len: usize, index: usize },
    IOError,
    UnexpectedType { actual: Type, expected: Type },
    LoadError(Seq<char>),
    InvalidBinaryExpression(Type, Type, Operator),
    InvalidArguments(Seq<char>, usize, usize),
    NoReturn(Seq<char>),
    NonFunctionCallInDylib(AbsStmt),
    MissingAbiCompat { library: Seq<char> },
    IncompatibleAbi(u32),
    DylibReturnedNil,
    DivisionByZero,
    RecursionLimit,
}

pub open spec fn ekview(k: ErrorKind) -> AbsErr {
    match k {
        ErrorKind::UnknownVariable(n) => AbsErr::UnknownVariable(n@),
        ErrorKind::IndexUnindexable(t) => AbsErr::IndexUnindexable(t),
        ErrorKind::SyntaxError(p) => AbsErr::SyntaxError(p),
        ErrorKind::IndexOutOfBounds { len, index } => AbsErr::IndexOutOfBounds { len, index },
        ErrorKind::IOError => AbsErr::IOError,
        ErrorKind::UnexpectedType { actual, expected } => AbsErr::UnexpectedType {
            actual,
            expected,
        },
        ErrorKind::LoadError(m) => AbsErr::LoadError(m@),
        ErrorKind::InvalidBinaryExpression(a, b, op) => AbsErr::InvalidBinaryExpression(a, b, op),
        ErrorKind::InvalidArguments(n, got, want) => AbsErr::InvalidArguments(n@, got, want),
        ErrorKind::NoReturn(n) => AbsErr::NoReturn(n@),
        ErrorKind::NonFunctionCallInDylib(s) => AbsErr::NonFunctionCallInDylib(sview(s)),
        ErrorKind::MissingAbiCompat { library } => AbsErr::MissingAbiCompat { library: library@ },
        ErrorKind::IncompatibleAbi(v) => AbsErr::IncompatibleAbi(v),
        ErrorKind::DylibReturnedNil => AbsErr::DylibReturnedNil,
        ErrorKind::DivisionByZero => AbsErr::DivisionByZero,
        ErrorKind::RecursionLimit => AbsErr::RecursionLimit,
    }
}

impl View for ErrorKind {
    type V = AbsErr;

    open spec fn view(&self) -> AbsErr {
        ekview(*self)
    }
}

impl DeepView for ErrorKind {
    type V = AbsErr;

    open spec fn deep_view(&self) -> AbsErr {
        ekview(*self)
    }
}

/// An error tied to the statement it arose in.
#[derive(Debug)]
pub struct ErrorWithContext {
    pub place: Statement,
    pub kind: ErrorKind,
}

/// Model of an error with its statement of origin.
#[verifier::ext_equal]
pub struct AbsCtxErr {
    pub place: AbsStmt,
    pub kind: AbsErr,
}

impl View for ErrorWithContext {
    type V = AbsCtxErr;

    open spec fn view(&self) -> AbsCtxErr {
        AbsCtxErr { place: self.place@, kind: self.kind@ }
    }
}

impl DeepView for ErrorWithContext {
    type V = AbsCtxErr;

    open spec fn deep_view(&self) -> AbsCtxErr {
        self.view()
    }
}

/// An error that may or may not have picked up its statement of origin yet.
#[derive(Debug)]
pub enum EitherError {
    WithContext(ErrorWithContext),
    NoContext(ErrorKind),
}

/// Model of an error that may carry context.
#[verifier::ext_equal]
pub enum AbsEither {
    WithContext(AbsCtxErr),
    NoContext(AbsErr),
}

impl View for EitherError {
    type V = AbsEither;

    open spec fn view(&self) -> AbsEither {
        match self {
            EitherError::WithContext(e) => AbsEither::WithContext(e@),
            EitherError::NoContext(k) => AbsEither::NoContext(k@),
        }
    }
}

impl DeepView for EitherError {
    type V = AbsEither;

    open spec fn deep_view(&self) -> AbsEither {
        self.view()
    }
}

impl ErrorWithContext {
    pub fn new(kind: ErrorKind, place: Statement) -> (r: Self)
        ensures
            r@ == (AbsCtxErr { place: place@, kind: kind@ }),
    {
        ErrorWithContext { kind, place }
    }
}

impl From<ErrorKind> for EitherError {
    fn from(x: ErrorKind) -> (r: EitherError) {
        EitherError::NoContext(x)
    }
}

impl vstd::std_specs::convert::FromSpecImpl<ErrorKind> for EitherError {
    open spec fn obeys_from_spec() -> bool {
        true
    }

    open spec fn from_spec(v: ErrorKind) -> EitherError {
        EitherError::NoContext(v)
    }
}

} // verus!

use crate::statement::{abs_stmt_eq, statement_eq};

verus! {

/// Equality of error kinds, payload for payload: the same variant carrying
/// the same details. Statements attached to an error compare as statements
/// do, by what they direct rather than their source ranges.
pub open spec fn abs_err_eq(a: AbsErr, b: AbsErr) -> bool {
    match (a, b) {
        (AbsErr::UnknownVariable(x), AbsErr::UnknownVariable(y)) => x == y,
        (AbsErr::IndexUnindexable(x), AbsErr::IndexUnindexable(y)) => x == y,
        (AbsErr::SyntaxError(x), AbsErr::SyntaxError(y)) => x == y,
        (
            AbsErr::IndexOutOfBounds { len: l1, index: i1 },
            AbsErr::IndexOutOfBounds { len: l2, index: i2 },
        ) => l1 == l2 && i1 == i2,
        (AbsErr::IOError, AbsErr::IOError) => true,
        (
            AbsErr::UnexpectedType { actual: a1, expected: e1 },
            AbsErr::UnexpectedType { actual: a2, expected: e2 },
        ) => a1 == a2 && e1 == e2,
        (AbsErr::LoadError(x), AbsErr::LoadError(y)) => x == y,
        (
            AbsErr::InvalidBinaryExpression(x1, y1, o1),
            AbsErr::InvalidBinaryExpression(x2, y2, o2),
        ) => x1 == x2 && y1 == y2 && o1 == o2,
        (AbsErr::InvalidArguments(n1, g1, w1), AbsErr::InvalidArguments(n2, g2, w2)) => n1 == n2
            && g1 == g2 && w1 == w2,
        (AbsErr::NoReturn(x), AbsErr::NoReturn(y)) => x == y,
        (AbsErr::NonFunctionCallInDylib(s1), AbsErr::NonFunctionCallInDylib(s2)) => abs_stmt_eq(
            s1,
            s2,
        ),
        (
            AbsErr::MissingAbiCompat { library: l1 },
            AbsErr::MissingAbiCompat { library: l2 },
        ) => l1 == l2,
        (AbsErr::IncompatibleAbi(v1), AbsErr::IncompatibleAbi(v2)) => v1 == v2,
        (AbsErr::DylibReturnedNil, AbsErr::DylibReturnedNil) => true,
        (AbsErr::DivisionByZero, AbsErr::DivisionByZero) => true,
        (AbsErr::RecursionLimit, AbsErr::RecursionLimit) => true,
        _ => false,
    }
}

/// Runtime equality of two reported types.
fn type_eq(a: &Type, b: &Type) -> (r: bool)
    ensures
        r == (*a == *b),
    decreases a,
{
    match (a, b) {
        (Type::Str, Type::Str) => true,
        (Type::Int, Type::Int) => true,
        (Type::Float, Type::Float) => true,
        (Type::Bool, Type::Bool) => true,
        (Type::List, Type::List) => true,
        (Type::Function, Type::Function) => true,
        (Type::NativeFunction, Type::NativeFunction) => true,
        (Type::Union(a1, b1), Type::Union(a2, b2)) => type_eq(a1, a2) && type_eq(b1, b2),
        _ => false,
    }
}

/// Runtime form of `abs_err_eq`.
pub fn err_kind_eq(a: &ErrorKind, b: &ErrorKind) -> (r: bool)
    ensures
        r == abs_err_eq(a@, b@),
{
    match (a, b) {
        (ErrorKind::UnknownVariable(x), ErrorKind::UnknownVariable(y)) => {
            let r = <String as PartialEq>::eq(x, y);
            r
        }
        (ErrorKind::IndexUnindexable(x), ErrorKind::IndexUnindexable(y)) => type_eq(x, y),
        (ErrorKind::SyntaxError(x), ErrorKind::SyntaxError(y)) => *x == *y,
        (
            ErrorKind::IndexOutOfBounds { len: l1, index: i1 },
            ErrorKind::IndexOutOfBounds { len: l2, index: i2 },
        ) => *l1 == *l2 && *i1 == *i2,
        (ErrorKind::IOError, ErrorKind::IOError) => true,
        (
            ErrorKind::UnexpectedType { actual: a1, expected: e1 },
            ErrorKind::UnexpectedType { actual: a2, expected: e2 },
        ) => type_eq(a1, a2) && type_eq(e1, e2),
        (ErrorKind::LoadError(x), ErrorKind::LoadError(y)) => {
            let r = <String as PartialEq>::eq(x, y);
            r
        }
        (
            ErrorKind::InvalidBinaryExpression(x1, y1, o1),
            ErrorKind::InvalidBinaryExpression(x2, y2, o2),
        ) => type_eq(x1, x2) && type_eq(y1, y2) && *o1 == *o2,
        (
            ErrorKind::InvalidArguments(n1, g1, w1),
            ErrorKind::InvalidArguments(n2, g2, w2),
        ) => {
            let ns = <String as PartialEq>::eq(n1, n2);
            ns && *g1 == *g2 && *w1 == *w2
        }
        (ErrorKind::NoReturn(x), ErrorKind::NoReturn(y)) => {
            let r = <String as PartialEq>::eq(x, y);
            r
        }
        (ErrorKind::NonFunctionCallInDylib(s1), ErrorKind::NonFunctionCallInDylib(s2)) => {
            statement_eq(s1, s2)
        }
        (
            ErrorKind::MissingAbiCompat { library: l1 },
            ErrorKind::MissingAbiCompat { library: l2 },
        ) => {
            let r = <String as PartialEq>::eq(l1, l2);
            r
        }
        (ErrorKind::IncompatibleAbi(v1), ErrorKind::IncompatibleAbi(v2)) => *v1 == *v2,
        (ErrorKind::DylibReturnedNil, ErrorKind::DylibReturnedNil) => true,
        (ErrorKind::DivisionByZero, ErrorKind::DivisionByZero) => true,
        (ErrorKind::RecursionLimit, ErrorKind::RecursionLimit) => true,
        _ => false,
    }
}

impl PartialEq for ErrorKind {
    fn eq(&self, other: &ErrorKind) -> (r: bool) {
        err_kind_eq(self, other)
    }
}

impl vstd::std_specs::cmp::PartialEqSpecImpl for ErrorKind {
    open spec fn obeys_eq_spec() -> bool {
        true
    }

    open spec fn eq_spec(&self, other: &ErrorKind) -> bool {
        abs_err_eq(self@, other@)
    }
}

/// Equality of errors with context: the statement and the kind.
pub open spec fn abs_ctx_err_eq(a: AbsCtxErr, b: AbsCtxErr) -> bool {
    abs_stmt_eq(a.place, b.place) && abs_err_eq(a.kind, b.kind)
}

impl PartialEq for ErrorWithContext {
    fn eq(&self, other: &ErrorWithContext) -> (r: bool) {
        statement_eq(&self.place, &other.place) && err_kind_eq(&self.kind, &other.kind)
    }
}

impl vstd::std_specs::cmp::PartialEqSpecImpl for ErrorWithContext {
    open spec fn obeys_eq_spec() -> bool {
        true
    }

    open spec fn eq_spec(&self, other: &ErrorWithContext) -> bool {
        abs_ctx_err_eq(self@, other@)
    }
}

/// Equality of errors that may carry context: both bare with equal kinds,
/// or both placed with equal statements and kinds.
pub open spec fn abs_either_eq(a: AbsEither, b: AbsEither) -> bool {
    match (a, b) {
        (AbsEither::NoContext(k1), AbsEither::NoContext(k2)) => abs_err_eq(k1, k2),
        (AbsEither::WithContext(c1), AbsEither::WithContext(c2)) => abs_ctx_err_eq(c1, c2),
        _ => false,
    }
}

impl PartialEq for EitherError {
    fn eq(&self, other: &EitherError) -> (r: bool) {
        match (self, other) {
            (EitherError::NoContext(k1), EitherError::NoContext(k2)) => err_kind_eq(k1, k2),
            (EitherError::WithContext(c1), EitherError::WithContext(c2)) => {
                let ps = statement_eq(&c1.place, &c2.place);
                ps && err_kind_eq(&c1.kind, &c2.kind)
            }
            _ => false,
        }
    }
}

impl vstd::std_specs::cmp::PartialEqSpecImpl for EitherError {
    open spec fn obeys_eq_spec() -> bool {
        true
    }

    open spec fn eq_spec(&self, other: &EitherError) -> bool {
        abs_either_eq(self@, other@)
    }
}

} // verus!
