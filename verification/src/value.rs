use vstd::prelude::*;
use crate::statement::{sviews, strviews, AbsStmt, Statement};

verus! {

broadcast use vstd::std_specs::vec::group_vec_axioms;

/// The integer type of the language's `Int` values.
pub type IntT = i64;

/// An opaque handle naming a callable loaded from a native module. The
/// handle is minted by the host that loaded the module; invoking it goes
/// back through that host.
#[derive(Debug, Clone, Copy, PartialEq, Eq, Structural)]
pub struct Func {
    handle: u64,
}

impl View for Func {
    type V = u64;

    closed spec fn view(&self) -> u64 {
        self.handle
    }
}

impl Func {
    pub fn new(handle: u64) -> (r: Func)
        ensures
            r@ == handle,
    {
        Func { handle }
    }

    pub fn handle(&self) -> (r: u64)
        ensures
            r == self@,
    {
        self.handle
    }
}

/// A runtime value of the language.
#[derive(Debug)]
pub enum Value {
    Str(String),
    Int(IntT),
    Bool(bool),
    List(Vec<Value>),
    Function(Vec<String>, Vec<Statement>),
    NativeFunction(Func),
}

/// Mathematical model of a runtime value.
#[verifier::ext_equal]
pub enum AbsValue {
    Str(Seq<char>),
    Int(IntT),
    Bool(bool),
    List(Seq<AbsValue>),
    Function(Seq<Seq<char>>, Seq<AbsStmt>),
    Native(u64),
}

pub open spec fn vviews(l: Seq<Value>) -> Seq<AbsValue>
    decreases l,
{
    Seq::new(
        l.len(),
        |i: int|
            if 0 <= i < l.len() {
                vview(l[i])
            } else {
                AbsValue::Bool(false)
            },
    )
}

pub open spec fn vview(v: Value) -> AbsValue
    decreases v,
{
    match v {
        Value::Str(s) => AbsValue::Str(s@),
        Value::Int(i) => AbsValue::Int(i),
        Value::Bool(b) => AbsValue::Bool(b),
        Value::List(l) => AbsValue::List(vviews(l@)),
        Value::Function(p, b) => AbsValue::Function(strviews(p@), sviews(b@)),
        Value::NativeFunction(f) => AbsValue::Native(f@),
    }
}

impl View for Value {
    type V = AbsValue;

    open spec fn view(&self) -> AbsValue {
        vview(*self)
    }
}

impl DeepView for Value {
    type V = AbsValue;

    open spec fn deep_view(&self) -> AbsValue {
        vview(*self)
    }
}

/// The runtime type of a value, as reported in error messages.
#[derive(Debug, PartialEq)]
pub enum Type {
    Str,
    Int,
    Float,
    Bool,
    List,
    Function,
    NativeFunction,
    Union(Box<Type>, Box<Type>),
}

/// The type of a value's model.
pub open spec fn type_of(v: AbsValue) -> Type {
    match v {
        AbsValue::Str(_) => Type::Str,
        AbsValue::Int(_) => Type::Int,
        AbsValue::Bool(_) => Type::Bool,
        AbsValue::List(_) => Type::List,
        AbsValue::Function(_, _) => Type::Function,
        AbsValue::Native(_) => Type::NativeFunction,
    }
}

impl Value {
    pub fn get_type(&self) -> (r: Type)
        ensures
            r == type_of(self@),
    {
        match self {
            Value::Str(_) => Type::Str,
            Value::Int(_) => Type::Int,
            Value::Bool(_) => Type::Bool,
            Value::List(_) => Type::List,
            Value::Function(_, _) => Type::Function,
            Value::NativeFunction(_) => Type::NativeFunction,
        }
    }
}

impl From<IntT> for Value {
    fn from(from: IntT) -> (r: Self) {
        Value::Int(from)
    }
}

impl vstd::std_specs::convert::FromSpecImpl<IntT> for Value {
    open spec fn obeys_from_spec() -> bool {
        true
    }

    open spec fn from_spec(v: IntT) -> Value {
        Value::Int(v)
    }
}

impl From<bool> for Value {
    fn from(from: bool) -> (r: Self) {
        Value::Bool(from)
    }
}

impl vstd::std_specs::convert::FromSpecImpl<bool> for Value {
    open spec fn obeys_from_spec() -> bool {
        true
    }

    open spec fn from_spec(v: bool) -> Value {
        Value::Bool(v)
    }
}

impl From<String> for Value {
    fn from(from: String) -> (r: Self) {
        Value::Str(from)
    }
}

impl vstd::std_specs::convert::FromSpecImpl<String> for Value {
    open spec fn obeys_from_spec() -> bool {
        true
    }

    open spec fn from_spec(v: String) -> Value {
        Value::Str(v)
    }
}

impl From<&'static str> for Value {
    fn from(from: &'static str) -> (r: Self)
        ensures
            r@ == AbsValue::Str(from@),
    {
        let s = from.to_owned();
        Value::Str(s)
    }
}

impl vstd::std_specs::convert::FromSpecImpl<&'static str> for Value {
    open spec fn obeys_from_spec() -> bool {
        false
    }

    open spec fn from_spec(v: &'static str) -> Value {
        vstd::pervasive::arbitrary()
    }
}

impl<T: Into<Value>> From<Vec<T>> for Value {
    fn from(from: Vec<T>) -> (r: Self) {
        let mut buf: Vec<Value> = Vec::new();
        let mut rest = from;
        loop
            invariant true,
            decreases rest.len(),
        {
            match rest.pop() {
                Some(x) => {
                    buf.insert(0, x.into());
                }
                None => {
                    break;
                }
            }
        }
        Value::List(buf)
    }
}

impl<T: Into<Value>> vstd::std_specs::convert::FromSpecImpl<Vec<T>> for Value {
    open spec fn obeys_from_spec() -> bool {
        false
    }

    open spec fn from_spec(v: Vec<T>) -> Value {
        vstd::pervasive::arbitrary()
    }
}

impl Value {
    pub fn new<T: Into<Self>>(val: T) -> Self {
        val.into()
    }
}

} // verus!

use crate::error::{AbsEither, AbsErr, EitherError, ErrorKind, SwResult};
use crate::Operator;
use vstd::string::StrSliceExecFns;
use vstd::string::StringExecFns;

verus! {

/// Relates an operation's runtime result to its mathematical counterpart:
/// the same value on success, the same kind (with no statement context) on
/// failure.
pub open spec fn res_is(r: SwResult<Value>, m: Result<AbsValue, AbsErr>) -> bool {
    match m {
        Ok(av) => r matches Ok(v) && vview(v) == av,
        Err(k) => r matches Err(e) && e@ == AbsEither::NoContext(k),
    }
}

/// Truncating division (the host language's signed `/`), for nonzero `b`.
pub open spec fn trunc_div(a: int, b: int) -> int {
    let q = (vstd::math::abs(a) / vstd::math::abs(b)) as int;
    if (a < 0) != (b < 0) {
        -q
    } else {
        q
    }
}

/// `a / b` on the language's integers: wraps on the one overflowing case.
pub open spec fn wrap_div(a: IntT, b: IntT) -> IntT
    recommends
        b != 0,
{
    if a == IntT::MIN && b == -1 {
        IntT::MIN
    } else {
        trunc_div(a as int, b as int) as IntT
    }
}

/// `a % b` on the language's integers (remainder of truncating division).
pub open spec fn wrap_rem(a: IntT, b: IntT) -> IntT
    recommends
        b != 0,
{
    if a == IntT::MIN && b == -1 {
        0
    } else {
        (a - trunc_div(a as int, b as int) * b) as IntT
    }
}

/// The string-repeat of `*`: `n` copies of `s` when `n` is positive, the
/// empty string otherwise.
pub open spec fn str_repeat(s: Seq<char>, n: IntT) -> Seq<char>
    decreases n,
{
    if n <= 0 {
        Seq::empty()
    } else {
        str_repeat(s, (n - 1) as IntT) + s
    }
}

/// Equality as the language's `==` sees it: total, false across distinct
/// types, elementwise on lists, never true of functions.
pub open spec fn val_eq(a: AbsValue, b: AbsValue) -> bool
    decreases a,
{
    match (a, b) {
        (AbsValue::Bool(x), AbsValue::Bool(y)) => x == y,
        (AbsValue::Str(x), AbsValue::Str(y)) => x == y,
        (AbsValue::Int(x), AbsValue::Int(y)) => x == y,
        (AbsValue::List(x), AbsValue::List(y)) => x.len() == y.len() && (forall|i: int|
            0 <= i < x.len() ==> val_eq(#[trigger] x[i], y[i])),
        _ => false,
    }
}

pub open spec fn spec_add(a: AbsValue, b: AbsValue) -> Result<AbsValue, AbsErr> {
    match (a, b) {
        (AbsValue::Int(x), AbsValue::Int(y)) => Ok(AbsValue::Int(x.wrapping_add(y))),
        (AbsValue::Str(x), AbsValue::Str(y)) => Ok(AbsValue::Str(x + y)),
        _ => Err(AbsErr::InvalidBinaryExpression(type_of(a), type_of(b), Operator::Add)),
    }
}

pub open spec fn spec_subtract(a: AbsValue, b: AbsValue) -> Result<AbsValue, AbsErr> {
    match (a, b) {
        (AbsValue::Int(x), AbsValue::Int(y)) => Ok(AbsValue::Int(x.wrapping_sub(y))),
        _ => Err(AbsErr::InvalidBinaryExpression(type_of(a), type_of(b), Operator::Subtract)),
    }
}

pub open spec fn spec_multiply(a: AbsValue, b: AbsValue) -> Result<AbsValue, AbsErr> {
    match (a, b) {
        (AbsValue::Int(x), AbsValue::Int(y)) => Ok(AbsValue::Int(x.wrapping_mul(y))),
        (AbsValue::Str(x), AbsValue::Int(y)) => Ok(AbsValue::Str(str_repeat(x, y))),
        _ => Err(AbsErr::InvalidBinaryExpression(type_of(a), type_of(b), Operator::Multiply)),
    }
}

pub open spec fn spec_divide(a: AbsValue, b: AbsValue) -> Result<AbsValue, AbsErr> {
    match (a, b) {
        (AbsValue::Int(x), AbsValue::Int(y)) => if y == 0 {
            Err(AbsErr::DivisionByZero)
        } else {
            Ok(AbsValue::Int(wrap_div(x, y)))
        },
        _ => Err(AbsErr::InvalidBinaryExpression(type_of(a), type_of(b), Operator::Divide)),
    }
}

pub open spec fn spec_modulus(a: AbsValue, b: AbsValue) -> Result<AbsValue, AbsErr> {
    match a {
        AbsValue::Int(x) => match b {
            AbsValue::Int(y) => if y == 0 {
                Err(AbsErr::DivisionByZero)
            } else {
                Ok(AbsValue::Int(wrap_rem(x, y)))
            },
            _ => Err(AbsErr::UnexpectedType { expected: Type::Int, actual: type_of(b) }),
        },
        _ => Err(AbsErr::UnexpectedType { expected: Type::Int, actual: type_of(a) }),
    }
}

pub open spec fn spec_shift_left(a: AbsValue, b: AbsValue) -> Result<AbsValue, AbsErr> {
    match (a, b) {
        (AbsValue::Int(x), AbsValue::Int(y)) => Ok(AbsValue::Int(x.wrapping_shl((y & 63) as u32))),
        _ => Err(AbsErr::InvalidBinaryExpression(type_of(a), type_of(b), Operator::ShiftLeft)),
    }
}

pub open spec fn spec_shift_right(a: AbsValue, b: AbsValue) -> Result<AbsValue, AbsErr> {
    match (a, b) {
        (AbsValue::Int(x), AbsValue::Int(y)) => Ok(AbsValue::Int(x.wrapping_shr((y & 63) as u32))),
        _ => Err(AbsErr::InvalidBinaryExpression(type_of(a), type_of(b), Operator::ShiftRight)),
    }
}

/// Checks that both operands are numbers, reporting the left operand's fault
/// first, as the ordering comparisons do.
pub open spec fn spec_num_fault(a: AbsValue, b: AbsValue) -> Option<AbsErr> {
    if !(a is Int) {
        Some(AbsErr::UnexpectedType { expected: Type::Float, actual: type_of(a) })
    } else if !(b is Int) {
        Some(AbsErr::UnexpectedType { expected: Type::Float, actual: type_of(b) })
    } else {
        None
    }
}

/// Checks that both operands are booleans, reporting the left operand's
/// fault first, as `and`/`or` do. The fault names the numeric type as the
/// expected one: the boolean operations share the numeric check's report.
pub open spec fn spec_bool_fault(a: AbsValue, b: AbsValue) -> Option<AbsErr> {
    if !(a is Bool) {
        Some(AbsErr::UnexpectedType { expected: Type::Float, actual: type_of(a) })
    } else if !(b is Bool) {
        Some(AbsErr::UnexpectedType { expected: Type::Float, actual: type_of(b) })
    } else {
        None
    }
}

pub open spec fn spec_less_than(a: AbsValue, b: AbsValue) -> Result<AbsValue, AbsErr> {
    match spec_num_fault(a, b) {
        Some(k) => Err(k),
        None => Ok(AbsValue::Bool(a->Int_0 < b->Int_0)),
    }
}

pub open spec fn spec_greater_than(a: AbsValue, b: AbsValue) -> Result<AbsValue, AbsErr> {
    match spec_num_fault(a, b) {
        Some(k) => Err(k),
        None => Ok(AbsValue::Bool(a->Int_0 > b->Int_0)),
    }
}

pub open spec fn spec_less_than_equal(a: AbsValue, b: AbsValue) -> Result<AbsValue, AbsErr> {
    match spec_num_fault(a, b) {
        Some(k) => Err(k),
        None => Ok(AbsValue::Bool(a->Int_0 <= b->Int_0)),
    }
}

pub open spec fn spec_greater_than_equal(a: AbsValue, b: AbsValue) -> Result<AbsValue, AbsErr> {
    match spec_num_fault(a, b) {
        Some(k) => Err(k),
        None => Ok(AbsValue::Bool(a->Int_0 >= b->Int_0)),
    }
}

pub open spec fn spec_and(a: AbsValue, b: AbsValue) -> Result<AbsValue, AbsErr> {
    match spec_bool_fault(a, b) {
        Some(k) => Err(k),
        None => Ok(AbsValue::Bool(a->Bool_0 && b->Bool_0)),
    }
}

pub open spec fn spec_or(a: AbsValue, b: AbsValue) -> Result<AbsValue, AbsErr> {
    match spec_bool_fault(a, b) {
        Some(k) => Err(k),
        None => Ok(AbsValue::Bool(a->Bool_0 || b->Bool_0)),
    }
}

pub open spec fn spec_not(a: AbsValue) -> Result<AbsValue, AbsErr> {
    match a {
        AbsValue::Bool(x) => Ok(AbsValue::Bool(!x)),
        _ => Err(AbsErr::UnexpectedType { expected: Type::Bool, actual: type_of(a) }),
    }
}

/// The length the language gives a value: characters of a string, elements
/// of a list; anything else is a fault.
pub open spec fn spec_len(a: AbsValue) -> Result<nat, AbsErr> {
    match a {
        AbsValue::Str(s) => Ok(s.len()),
        AbsValue::List(l) => Ok(l.len()),
        _ => Err(
            AbsErr::UnexpectedType {
                expected: Type::Union(Box::new(Type::Str), Box::new(Type::List)),
                actual: type_of(a),
            },
        ),
    }
}

fn type_union(a: Type, b: Type) -> (r: Type)
    ensures
        r == Type::Union(Box::new(a), Box::new(b)),
{
    Type::Union(Box::new(a), Box::new(b))
}

fn err_of(k: ErrorKind) -> (r: EitherError)
    ensures
        r@ == AbsEither::NoContext(k@),
{
    EitherError::NoContext(k)
}

/// Runtime equality of two values, matching `val_eq` of their models.
#[verifier::loop_isolation(false)]
pub fn value_eq(a: &Value, b: &Value) -> (r: bool)
    ensures
        r == val_eq(a@, b@),
    decreases a,
{
    match (a, b) {
        (Value::Bool(x), Value::Bool(y)) => *x == *y,
        (Value::Str(x), Value::Str(y)) => {
            let r = <String as PartialEq>::eq(x, y);
            r
        }
        (Value::Int(x), Value::Int(y)) => *x == *y,
        (Value::List(x), Value::List(y)) => {
            if x.len() != y.len() {
                return false;
            }
            let n = x.len();
            for i in 0..n
                invariant
                    n == x@.len(),
                    n == y@.len(),
                    a@ == vview(Value::List(*x)),
                    b@ == vview(Value::List(*y)),
                    forall|j: int| 0 <= j < i ==> val_eq(#[trigger] vviews(x@)[j], vviews(y@)[j]),
            {
                if !value_eq(&x[i], &y[i]) {
                    proof {
                        assert(!val_eq(vviews(x@)[i as int], vviews(y@)[i as int]));
                    }
                    return false;
                }
            }
            true
        }
        _ => false,
    }
}

impl Value {
    pub fn len(&self) -> (r: SwResult<usize>)
        ensures
            match spec_len(self@) {
                Ok(n) => r matches Ok(m) && m == n,
                Err(k) => r matches Err(e) && e@ == AbsEither::NoContext(k),
            },
    {
        match self {
            Value::Str(s) => Ok(s.as_str().unicode_len()),
            Value::List(l) => Ok(l.len()),
            _ => Err(
                err_of(
                    ErrorKind::UnexpectedType {
                        expected: type_union(Type::Str, Type::List),
                        actual: self.get_type(),
                    },
                ),
            ),
        }
    }

    pub fn is_empty(&self) -> (r: SwResult<bool>)
        ensures
            match spec_len(self@) {
                Ok(n) => r matches Ok(m) && m == (n == 0),
                Err(k) => r matches Err(e) && e@ == AbsEither::NoContext(k),
            },
    {
        match self {
            Value::Str(s) => Ok(s.as_str().is_empty()),
            Value::List(l) => Ok(l.len() == 0),
            _ => Err(
                err_of(
                    ErrorKind::UnexpectedType {
                        expected: type_union(Type::Str, Type::List),
                        actual: self.get_type(),
                    },
                ),
            ),
        }
    }

    fn assert_bool(&self) -> (r: Result<bool, EitherError>)
        ensures
            match self@ {
                AbsValue::Bool(x) => r matches Ok(y) && y == x,
                _ => r matches Err(e) && e@ == AbsEither::NoContext(
                    AbsErr::UnexpectedType { expected: Type::Float, actual: type_of(self@) },
                ),
            },
    {
        match self {
            Value::Bool(b) => Ok(*b),
            _ => Err(
                err_of(
                    ErrorKind::UnexpectedType { expected: Type::Float, actual: self.get_type() },
                ),
            ),
        }
    }

    pub fn not(&self) -> (r: SwResult<Value>)
        ensures
            res_is(r, spec_not(self@)),
    {
        match self {
            Value::Bool(b) => Ok(Value::Bool(!*b)),
            _ => Err(
                err_of(ErrorKind::UnexpectedType { expected: Type::Bool, actual: self.get_type() }),
            ),
        }
    }

    pub fn equals(&self, other: &Self) -> (r: Value)
        ensures
            r@ == AbsValue::Bool(val_eq(self@, other@)),
    {
        Value::Bool(value_eq(self, other))
    }

    pub fn and(&self, other: &Self) -> (r: SwResult<Value>)
        ensures
            res_is(r, spec_and(self@, other@)),
    {
        let x = match self.assert_bool() {
            Ok(x) => x,
            Err(e) => {
                return Err(e);
            }
        };
        let y = match other.assert_bool() {
            Ok(y) => y,
            Err(e) => {
                return Err(e);
            }
        };
        Ok(Value::Bool(x && y))
    }

    pub fn or(&self, other: &Self) -> (r: SwResult<Value>)
        ensures
            res_is(r, spec_or(self@, other@)),
    {
        let x = match self.assert_bool() {
            Ok(x) => x,
            Err(e) => {
                return Err(e);
            }
        };
        let y = match other.assert_bool() {
            Ok(y) => y,
            Err(e) => {
                return Err(e);
            }
        };
        Ok(Value::Bool(x || y))
    }
}

} // verus!

verus! {

impl Value {
    fn assert_num(&self) -> (r: Result<IntT, EitherError>)
        ensures
            match self@ {
                AbsValue::Int(x) => r matches Ok(y) && y == x,
                _ => r matches Err(e) && e@ == AbsEither::NoContext(
                    AbsErr::UnexpectedType { expected: Type::Float, actual: type_of(self@) },
                ),
            },
    {
        match self {
            Value::Int(i) => Ok(*i),
            _ => Err(
                err_of(
                    ErrorKind::UnexpectedType { expected: Type::Float, actual: self.get_type() },
                ),
            ),
        }
    }

    pub fn less_than(&self, other: &Self) -> (r: SwResult<Value>)
        ensures
            res_is(r, spec_less_than(self@, other@)),
    {
        let x = match self.assert_num() {
            Ok(x) => x,
            Err(e) => {
                return Err(e);
            }
        };
        let y = match other.assert_num() {
            Ok(y) => y,
            Err(e) => {
                return Err(e);
            }
        };
        Ok(Value::Bool(x < y))
    }

    pub fn greater_than(&self, other: &Self) -> (r: SwResult<Value>)
        ensures
            res_is(r, spec_greater_than(self@, other@)),
    {
        let x = match self.assert_num() {
            Ok(x) => x,
            Err(e) => {
                return Err(e);
            }
        };
        let y = match other.assert_num() {
            Ok(y) => y,
            Err(e) => {
                return Err(e);
            }
        };
        Ok(Value::Bool(x > y))
    }

    pub fn less_than_equal(&self, other: &Self) -> (r: SwResult<Value>)
        ensures
            res_is(r, spec_less_than_equal(self@, other@)),
    {
        let x = match self.assert_num() {
            Ok(x) => x,
            Err(e) => {
                return Err(e);
            }
        };
        let y = match other.assert_num() {
            Ok(y) => y,
            Err(e) => {
                return Err(e);
            }
        };
        Ok(Value::Bool(x <= y))
    }

    pub fn greater_than_equal(&self, other: &Self) -> (r: SwResult<Value>)
        ensures
            res_is(r, spec_greater_than_equal(self@, other@)),
    {
        let x = match self.assert_num() {
            Ok(x) => x,
            Err(e) => {
                return Err(e);
            }
        };
        let y = match other.assert_num() {
            Ok(y) => y,
            Err(e) => {
                return Err(e);
            }
        };
        Ok(Value::Bool(x >= y))
    }

    pub fn add(&self, other: &Self) -> (r: SwResult<Value>)
        ensures
            res_is(r, spec_add(self@, other@)),
    {
        match (self, other) {
            (Value::Int(x), Value::Int(y)) => Ok(Value::Int(x.wrapping_add(*y))),
            (Value::Str(s1), Value::Str(s2)) => {
                let mut buf = s1.clone();
                buf.append(s2.as_str());
                Ok(Value::Str(buf))
            }
            _ => Err(
                err_of(
                    ErrorKind::InvalidBinaryExpression(
                        self.get_type(),
                        other.get_type(),
                        Operator::Add,
                    ),
                ),
            ),
        }
    }

    pub fn subtract(&self, other: &Self) -> (r: SwResult<Value>)
        ensures
            res_is(r, spec_subtract(self@, other@)),
    {
        match (self, other) {
            (Value::Int(x), Value::Int(y)) => Ok(Value::Int(x.wrapping_sub(*y))),
            _ => Err(
                err_of(
                    ErrorKind::InvalidBinaryExpression(
                        self.get_type(),
                        other.get_type(),
                        Operator::Subtract,
                    ),
                ),
            ),
        }
    }

    pub fn multiply(&self, other: &Self) -> (r: SwResult<Value>)
        ensures
            res_is(r, spec_multiply(self@, other@)),
    {
        match (self, other) {
            (Value::Int(x), Value::Int(y)) => Ok(Value::Int(x.wrapping_mul(*y))),
            (Value::Str(s), Value::Int(n)) => {
                if *n <= 0 {
                    Ok(Value::Str(String::new()))
                } else {
                    let mut buf = s.clone();
                    proof {
                        reveal_with_fuel(str_repeat, 2);
                        assert(buf@ =~= str_repeat(s@, 1));
                    }
                    let mut count: IntT = 1;
                    while count < *n
                        invariant
                            1 <= count <= *n,
                            buf@ == str_repeat(s@, count),
                        decreases *n - count,
                    {
                        buf.append(s.as_str());
                        count = count + 1;
                        proof {
                            assert(buf@ == str_repeat(s@, count));
                        }
                    }
                    Ok(Value::Str(buf))
                }
            }
            _ => Err(
                err_of(
                    ErrorKind::InvalidBinaryExpression(
                        self.get_type(),
                        other.get_type(),
                        Operator::Multiply,
                    ),
                ),
            ),
        }
    }

    pub fn divide(&self, other: &Self) -> (r: SwResult<Value>)
        ensures
            res_is(r, spec_divide(self@, other@)),
    {
        match (self, other) {
            (Value::Int(x), Value::Int(y)) => {
                if *y == 0 {
                    Err(err_of(ErrorKind::DivisionByZero))
                } else if *x == IntT::MIN && *y == -1 {
                    Ok(Value::Int(IntT::MIN))
                } else {
                    Ok(Value::Int(div_trunc(*x, *y)))
                }
            }
            _ => Err(
                err_of(
                    ErrorKind::InvalidBinaryExpression(
                        self.get_type(),
                        other.get_type(),
                        Operator::Divide,
                    ),
                ),
            ),
        }
    }

    pub fn modulus(&self, other: &Self) -> (r: SwResult<Value>)
        ensures
            res_is(r, spec_modulus(self@, other@)),
    {
        let x = match self {
            Value::Int(x) => *x,
            _ => {
                return Err(
                    err_of(
                        ErrorKind::UnexpectedType { expected: Type::Int, actual: self.get_type() },
                    ),
                );
            }
        };
        let y = match other {
            Value::Int(y) => *y,
            _ => {
                return Err(
                    err_of(
                        ErrorKind::UnexpectedType { expected: Type::Int, actual: other.get_type() },
                    ),
                );
            }
        };
        if y == 0 {
            Err(err_of(ErrorKind::DivisionByZero))
        } else if x == IntT::MIN && y == -1 {
            Ok(Value::Int(0))
        } else {
            Ok(Value::Int(rem_trunc(x, y)))
        }
    }

    pub fn shift_left(&self, other: &Self) -> (r: SwResult<Value>)
        ensures
            res_is(r, spec_shift_left(self@, other@)),
    {
        match (self, other) {
            (Value::Int(x), Value::Int(y)) => {
                proof {
                    lemma_shift_amount_bound(*y);
                }
                Ok(Value::Int(x.wrapping_shl((*y & 63) as u32)))
            }
            _ => Err(
                err_of(
                    ErrorKind::InvalidBinaryExpression(
                        self.get_type(),
                        other.get_type(),
                        Operator::ShiftLeft,
                    ),
                ),
            ),
        }
    }

    pub fn shift_right(&self, other: &Self) -> (r: SwResult<Value>)
        ensures
            res_is(r, spec_shift_right(self@, other@)),
    {
        match (self, other) {
            (Value::Int(x), Value::Int(y)) => {
                proof {
                    lemma_shift_amount_bound(*y);
                }
                Ok(Value::Int(x.wrapping_shr((*y & 63) as u32)))
            }
            _ => Err(
                err_of(
                    ErrorKind::InvalidBinaryExpression(
                        self.get_type(),
                        other.get_type(),
                        Operator::ShiftRight,
                    ),
                ),
            ),
        }
    }
}

/// The magnitude of a signed integer, as an unsigned one.
fn magnitude(x: IntT) -> (r: u64)
    ensures
        r == vstd::math::abs(x as int),
{
    if x >= 0 {
        x as u64
    } else if x == IntT::MIN {
        9223372036854775808u64
    } else {
        (-x) as u64
    }
}

/// Truncating division, the host language's `/` on its integers.
fn div_trunc(x: IntT, y: IntT) -> (r: IntT)
    requires
        y != 0,
        !(x == IntT::MIN && y == -1),
    ensures
        r == trunc_div(x as int, y as int),
{
    let mx = magnitude(x);
    let my = magnitude(y);
    let mq = mx / my;
    proof {
        lemma_magnitude_div_bounds(x as int, y as int, mq as int);
    }
    if (x < 0) != (y < 0) {
        if mq >= 9223372036854775808u64 {
            IntT::MIN
        } else {
            -(mq as IntT)
        }
    } else {
        mq as IntT
    }
}

/// Truncating remainder, the host language's `%` on its integers.
fn rem_trunc(x: IntT, y: IntT) -> (r: IntT)
    requires
        y != 0,
        !(x == IntT::MIN && y == -1),
    ensures
        r == x - trunc_div(x as int, y as int) * y,
{
    let mx = magnitude(x);
    let my = magnitude(y);
    let mr = mx % my;
    proof {
        lemma_magnitude_div_bounds(x as int, y as int, (mx / my) as int);
        lemma_magnitude_rem(x as int, y as int, (mx / my) as int, mr as int);
    }
    if x < 0 {
        if mr == 0 {
            0
        } else {
            -(mr as IntT)
        }
    } else {
        mr as IntT
    }
}

/// The magnitude quotient is in range, and `trunc_div` is its signed form.
proof fn lemma_magnitude_div_bounds(x: int, y: int, mq: int)
    requires
        y != 0,
        !(x == IntT::MIN as int && y == -1),
        IntT::MIN <= x <= IntT::MAX,
        IntT::MIN <= y <= IntT::MAX,
        mq == vstd::math::abs(x) / vstd::math::abs(y),
    ensures
        0 <= mq <= vstd::math::abs(x),
        trunc_div(x, y) == if (x < 0) != (y < 0) {
            -mq
        } else {
            mq
        },
        (x < 0) == (y < 0) ==> mq < 0x8000_0000_0000_0000,
{
    let ax = vstd::math::abs(x) as int;
    let ay = vstd::math::abs(y) as int;
    vstd::arithmetic::div_mod::lemma_div_pos_is_pos(ax, ay);
    vstd::arithmetic::div_mod::lemma_div_nonincreasing(ax, ay);
    if (x < 0) == (y < 0) && mq >= 0x8000_0000_0000_0000 {
        assert(ax == 0x8000_0000_0000_0000 && x == IntT::MIN as int);
        vstd::arithmetic::div_mod::lemma_fundamental_div_mod(ax, ay);
        vstd::arithmetic::div_mod::lemma_remainder_lower(ax, ay);
        assert(ay * mq <= ax) by (nonlinear_arith)
            requires
                ax == ay * mq + ax % ay,
                0 <= ax % ay,
        ;
        assert(ay == 1) by (nonlinear_arith)
            requires
                ay * mq <= ax,
                ax <= mq,
                1 <= ay,
                1 <= mq,
        ;
        assert(y == -1);
        assert(false);
    }
}

/// The magnitude remainder gives the truncating remainder once signed.
proof fn lemma_magnitude_rem(x: int, y: int, mq: int, mr: int)
    requires
        y != 0,
        IntT::MIN <= x <= IntT::MAX,
        IntT::MIN <= y <= IntT::MAX,
        mq == vstd::math::abs(x) / vstd::math::abs(y),
        mr == vstd::math::abs(x) % vstd::math::abs(y),
    ensures
        0 <= mr <= vstd::math::abs(x),
        mr < vstd::math::abs(y),
        x - trunc_div(x, y) * y == if x < 0 {
            -mr
        } else {
            mr
        },
{
    let ax = vstd::math::abs(x) as int;
    let ay = vstd::math::abs(y) as int;
    vstd::arithmetic::div_mod::lemma_fundamental_div_mod(ax, ay);
    vstd::arithmetic::div_mod::lemma_remainder_lower(ax, ay);
    vstd::arithmetic::div_mod::lemma_remainder_upper(ax, ay);
    assert(ax == ay * mq + mr);
    assert(0 <= mr < ay);
    assert(mr <= ax);
    let q = trunc_div(x, y);
    if x >= 0 && y > 0 {
        assert(q == mq && ax == x && ay == y);
        assert(x - q * y == mr) by (nonlinear_arith)
            requires
                x == y * mq + mr,
                q == mq,
        ;
    } else if x >= 0 && y < 0 {
        assert(q == -mq && ax == x && ay == -y);
        assert(x - q * y == mr) by (nonlinear_arith)
            requires
                x == (-y) * mq + mr,
                q == -mq,
        ;
    } else if x < 0 && y > 0 {
        assert(q == -mq && ax == -x && ay == y);
        assert(x - q * y == -mr) by (nonlinear_arith)
            requires
                -x == y * mq + mr,
                q == -mq,
        ;
    } else {
        assert(q == mq && ax == -x && ay == -y);
        assert(x - q * y == -mr) by (nonlinear_arith)
            requires
                -x == (-y) * mq + mr,
                q == mq,
        ;
    }
}

proof fn lemma_shift_amount_bound(y: IntT)
    ensures
        0 <= (y & 63) < 64,
{
    assert(0 <= (y & 63) < 64) by (bit_vector);
}

} // verus!

verus! {

/// Clones a vector of names, keeping each name's text.
pub fn dup_strings(v: &Vec<String>) -> (r: Vec<String>)
    ensures
        r@ == v@,
{
    let mut r: Vec<String> = Vec::new();
    let n = v.len();
    for i in 0..n
        invariant
            n == v@.len(),
            r@ =~= v@.subrange(0, i as int),
    {
        r.push(v[i].clone());
    }
    proof {
        assert(v@.subrange(0, n as int) =~= v@);
    }
    r
}

/// Clones a vector of values; the copies have the same models.
pub fn dup_values(v: &Vec<Value>) -> (r: Vec<Value>)
    ensures
        vviews(r@) == vviews(v@),
    decreases v,
{
    let mut r: Vec<Value> = Vec::new();
    let n = v.len();
    for i in 0..n
        invariant
            n == v@.len(),
            r@.len() == i,
            forall|j: int| 0 <= j < i ==> vview(#[trigger] r@[j]) == vview(v@[j]),
    {
        r.push(v[i].duplicate());
    }
    proof {
        assert(vviews(r@) =~= vviews(v@));
    }
    r
}

impl Value {
    /// A copy of this value with the same model; lists and function bodies
    /// are copied throughout (the language's copy-on-assignment semantics).
    pub fn duplicate(&self) -> (r: Value)
        ensures
            r@ == self@,
        decreases self,
    {
        match self {
            Value::Str(s) => Value::Str(s.clone()),
            Value::Int(i) => Value::Int(*i),
            Value::Bool(b) => Value::Bool(*b),
            Value::List(l) => Value::List(dup_values(l)),
            Value::Function(p, b) => Value::Function(
                dup_strings(p),
                crate::statement::dup_statements(b),
            ),
            Value::NativeFunction(f) => Value::NativeFunction(*f),
        }
    }
}

impl PartialEq for Value {
    fn eq(&self, other: &Value) -> (r: bool) {
        value_eq(self, other)
    }
}

impl vstd::std_specs::cmp::PartialEqSpecImpl for Value {
    open spec fn obeys_eq_spec() -> bool {
        true
    }

    open spec fn eq_spec(&self, other: &Value) -> bool {
        val_eq(self@, other@)
    }
}

/// The language's integer operations agree with unbounded integer
/// arithmetic whenever the result is in range, and division by a nonzero
/// divisor is integer division truncating toward zero.
pub proof fn lemma_integer_arithmetic(a: IntT, b: IntT)
    ensures
        IntT::MIN <= a + b <= IntT::MAX ==> spec_add(AbsValue::Int(a), AbsValue::Int(b)) == Ok::<
            AbsValue,
            AbsErr,
        >(AbsValue::Int((a + b) as IntT)),
        IntT::MIN <= a - b <= IntT::MAX ==> spec_subtract(AbsValue::Int(a), AbsValue::Int(b))
            == Ok::<AbsValue, AbsErr>(AbsValue::Int((a - b) as IntT)),
        IntT::MIN <= a * b <= IntT::MAX ==> spec_multiply(AbsValue::Int(a), AbsValue::Int(b))
            == Ok::<AbsValue, AbsErr>(AbsValue::Int((a * b) as IntT)),
        b != 0 && !(a == IntT::MIN && b == -1) ==> spec_divide(AbsValue::Int(a), AbsValue::Int(b))
            == Ok::<AbsValue, AbsErr>(AbsValue::Int(trunc_div(a as int, b as int) as IntT)),
        b != 0 ==> spec_divide(AbsValue::Int(a), AbsValue::Int(b)) matches Ok(v),
        b == 0 ==> spec_divide(AbsValue::Int(a), AbsValue::Int(b)) == Err::<AbsValue, AbsErr>(
            AbsErr::DivisionByZero,
        ),
{
    if IntT::MIN <= a * b <= IntT::MAX {
        lemma_signed_crop_identity(a as int * b as int);
    }
}

proof fn lemma_signed_crop_identity(p: int)
    requires
        IntT::MIN <= p <= IntT::MAX,
    ensures
        vstd::wrapping::i64_specs::signed_crop(p) == p,
{
    let range = 0x1_0000_0000_0000_0000;
    if p >= 0 {
        vstd::arithmetic::div_mod::lemma_small_mod(p as nat, range as nat);
    } else {
        vstd::arithmetic::div_mod::lemma_mod_add_multiples_vanish(p, range);
        vstd::arithmetic::div_mod::lemma_small_mod((p + range) as nat, range as nat);
    }
}

/// Under `add`, `subtract`, `multiply` and `divide`, operands of mismatched
/// or unsupported types always give the invalid-binary-expression error,
/// never a value and never a panic.
pub proof fn lemma_mismatched_operands(a: AbsValue, b: AbsValue)
    ensures
        !(a is Int && b is Int) && !(a is Str && b is Str) ==> spec_add(a, b) == Err::<
            AbsValue,
            AbsErr,
        >(AbsErr::InvalidBinaryExpression(type_of(a), type_of(b), Operator::Add)),
        !(a is Int && b is Int) ==> spec_subtract(a, b) == Err::<AbsValue, AbsErr>(
            AbsErr::InvalidBinaryExpression(type_of(a), type_of(b), Operator::Subtract),
        ),
        !(a is Int && b is Int) && !(a is Str && b is Int) ==> spec_multiply(a, b) == Err::<
            AbsValue,
            AbsErr,
        >(AbsErr::InvalidBinaryExpression(type_of(a), type_of(b), Operator::Multiply)),
        !(a is Int && b is Int) ==> spec_divide(a, b) == Err::<AbsValue, AbsErr>(
            AbsErr::InvalidBinaryExpression(type_of(a), type_of(b), Operator::Divide),
        ),
{
}

} // verus!

verus! {

/// Runtime equality of two name lists.
pub fn string_vecs_eq(x: &Vec<String>, y: &Vec<String>) -> (r: bool)
    ensures
        r == (strviews(x@) == strviews(y@)),
{
    if x.len() != y.len() {
        proof {
            assert(strviews(x@).len() != strviews(y@).len());
        }
        return false;
    }
    let n = x.len();
    for i in 0..n
        invariant
            n == x@.len(),
            n == y@.len(),
            forall|j: int| 0 <= j < i ==> #[trigger] strviews(x@)[j] == strviews(y@)[j],
    {
        let same = <String as PartialEq>::eq(&x[i], &y[i]);
        if !same {
            proof {
                assert(strviews(x@)[i as int] != strviews(y@)[i as int]);
            }
            return false;
        }
    }
    proof {
        assert(strviews(x@) =~= strviews(y@));
    }
    true
}

} // verus!


verus! {

/// The decimal digit character for `d`.
pub open spec fn digit_char(d: int) -> char {
    ((48 + d) as u8) as char
}

/// The decimal digits of a nonnegative number, most significant first.
pub open spec fn dec_digits(n: nat) -> Seq<char>
    decreases n,
{
    if n < 10 {
        seq![digit_char(n as int)]
    } else {
        dec_digits(n / 10).push(digit_char((n % 10) as int))
    }
}

/// The decimal text of an integer, a minus sign leading when negative.
pub open spec fn dec_int(i: int) -> Seq<char> {
    if i < 0 {
        seq!['-'] + dec_digits((-i) as nat)
    } else {
        dec_digits(i as nat)
    }
}

/// How a value is shown: strings as their text, booleans by the language's
/// two keywords, lists in brackets with string items quoted, functions by
/// their parameter list.
pub open spec fn display_of(v: AbsValue) -> Seq<char>
    decreases v, 1int,
{
    match v {
        AbsValue::Str(s) => s,
        AbsValue::Int(i) => dec_int(i as int),
        AbsValue::Bool(b) => if b {
            seq!['r', 'i', 'c', 'k']
        } else {
            seq!['m', 'o', 'r', 't', 'y']
        },
        AbsValue::List(l) => crate::util::list_disp(l),
        AbsValue::Function(p, _) => {
            seq!['[', 'F', 'u', 'n', 'c', 't', 'i', 'o', 'n', ' '] + crate::util::names_disp(p)
                + seq![']']
        },
        AbsValue::Native(_) => {
            seq![
                '[',
                'N',
                'a',
                't',
                'i',
                'v',
                'e',
                ' ',
                'F',
                'u',
                'n',
                'c',
                't',
                'i',
                'o',
                'n',
                ']',
            ]
        },
    }
}

/// One item of a displayed list: a string in quotes, anything else plain.
pub open spec fn quoted_item(v: AbsValue) -> Seq<char>
    decreases v, 2int,
{
    match v {
        AbsValue::Str(s) => seq!['"'] + s + seq!['"'],
        _ => display_of(v),
    }
}

/// Relies on String::push: appends one character.
#[verifier::external_body]
pub fn push_char(s: &mut String, c: char)
    ensures
        final(s)@ == old(s)@.push(c),
{
    s.push(c);
}

/// The decimal text of an integer.
pub fn int_to_string(i: IntT) -> (s: String)
    ensures
        s@ == dec_int(i as int),
{
    let mut m = magnitude(i);
    let ghost m0 = m as nat;
    let mut digits: Vec<char> = Vec::new();
    if m == 0 {
        digits.push('0');
        proof {
            assert(dec_digits(m0) =~= digits@.reverse());
        }
    } else {
        while m > 0
            invariant
                m >= 0,
                m > 0 ==> dec_digits(m0) =~= dec_digits(m as nat) + digits@.reverse(),
                m == 0 ==> dec_digits(m0) =~= digits@.reverse(),
            decreases m,
        {
            let d = (m % 10) as u8;
            let c = (48 + d) as char;
            let ghost old_digits = digits@;
            digits.push(c);
            proof {
                assert(digits@.reverse() =~= seq![c] + old_digits.reverse());
                if m >= 10 {
                    assert(dec_digits(m as nat) =~= dec_digits((m as nat) / 10) + seq![c]);
                    assert(dec_digits((m as nat) / 10) + (seq![c] + old_digits.reverse())
                        =~= (dec_digits((m as nat) / 10) + seq![c]) + old_digits.reverse());
                } else {
                    assert(dec_digits(m as nat) =~= seq![c]);
                }
            }
            m = m / 10;
        }
    }
    let mut s = String::new();
    if i < 0 {
        push_char(&mut s, '-');
    }
    let ghost head = s@;
    proof {
        assert(s@ + digits@.reverse() =~= head + dec_digits(m0));
    }
    loop
        invariant
            s@ + digits@.reverse() =~= head + dec_digits(m0),
        ensures
            digits@.len() == 0,
            s@ + digits@.reverse() =~= head + dec_digits(m0),
        decreases digits@.len(),
    {
        match digits.pop() {
            Some(c) => {
                let ghost old_s = s@;
                let ghost old_digits = digits@.push(c);
                push_char(&mut s, c);
                proof {
                    assert(old_digits.reverse() =~= seq![c] + digits@.reverse());
                    assert(s@ =~= old_s + seq![c]);
                    assert(s@ + digits@.reverse() =~= old_s + old_digits.reverse());
                }
            }
            None => {
                break;
            }
        }
    }
    proof {
        assert(digits@.reverse() =~= Seq::<char>::empty());
        assert(s@ =~= head + dec_digits(m0));
        if i < 0 {
            assert(head =~= seq!['-']);
            assert(m0 == -(i as int));
            assert(s@ =~= dec_int(i as int));
        } else {
            assert(head =~= Seq::<char>::empty());
            assert(s@ =~= dec_int(i as int));
        }
    }
    s
}

impl Value {
    /// The text this value is printed as.
    pub fn to_display_string(&self) -> (s: String)
        ensures
            s@ == display_of(self@),
        decreases self, 0int,
    {
        match self {
            Value::Str(s) => s.clone(),
            Value::Int(i) => int_to_string(*i),
            Value::Bool(b) => {
                let s = if *b {
                    "rick".to_owned()
                } else {
                    "morty".to_owned()
                };
                proof {
                    reveal_strlit("rick");
                    reveal_strlit("morty");
                    assert(s@ =~= display_of(self@));
                }
                s
            }
            Value::List(l) => crate::util::slice_value_format(l),
            Value::Function(p, _) => {
                let mut s = "[Function ".to_owned();
                let names = crate::util::slice_format(p);
                s.append(names.as_str());
                s.append("]");
                proof {
                    reveal_strlit("[Function ");
                    reveal_strlit("]");
                    assert(s@ =~= display_of(self@));
                }
                s
            }
            Value::NativeFunction(_) => {
                let s = "[Native Function]".to_owned();
                proof {
                    reveal_strlit("[Native Function]");
                    assert(s@ =~= display_of(self@));
                }
                s
            }
        }
    }

    /// Writes this value's display form to standard output.
    pub fn print(&self) {
        let s = self.to_display_string();
        crate::io::emit(s.as_str());
    }

    /// Writes this value's display form and a line break to standard output.
    pub fn println(&self) {
        self.print();
        crate::io::emit("\n");
    }
}

} // verus!

verus! {

/// The escape handling applied to string literals as they are parsed: a
/// backslash-n pair becomes a line break, and the character just before it,
/// when there is one and it is not itself a backslash, is taken with it.
pub open spec fn unescape_newlines(s: Seq<char>) -> Seq<char>
    decreases s.len(),
{
    if s.len() >= 3 && s[0] != '\\' && s[1] == '\\' && s[2] == 'n' {
        seq!['\n'] + unescape_newlines(s.skip(3))
    } else if s.len() >= 2 && s[0] == '\\' && s[1] == 'n' {
        seq!['\n'] + unescape_newlines(s.skip(2))
    } else if s.len() >= 1 {
        seq![s[0]] + unescape_newlines(s.skip(1))
    } else {
        Seq::empty()
    }
}

/// Applies the language's escape handling to the raw text of a string
/// literal.
pub fn string_parse(string: &str) -> (r: String)
    ensures
        r@ == unescape_newlines(string@),
{
    let src: Vec<char> = crate::grammar::chars_of(string);
    let n = src.len();
    let mut out = String::new();
    let mut i: usize = 0;
    proof {
        assert(string@.skip(0) =~= string@);
    }
    while i < n
        invariant
            n == src@.len(),
            src@ == string@,
            i <= n,
            unescape_newlines(string@) =~= out@ + unescape_newlines(string@.skip(i as int)),
        decreases n - i,
    {
        let ghost rest = string@.skip(i as int);
        let ghost oldi = i as int;
        if n - i >= 3 && src[i] != '\\' && src[i + 1] == '\\' && src[i + 2] == 'n' {
            push_char(&mut out, '\n');
            i = i + 3;
            proof {
                assert(rest.skip(3) =~= string@.skip(oldi + 3));
                assert(unescape_newlines(rest) =~= seq!['\n'] + unescape_newlines(rest.skip(3)));
            }
        } else if n - i >= 2 && src[i] == '\\' && src[i + 1] == 'n' {
            push_char(&mut out, '\n');
            i = i + 2;
            proof {
                assert(rest.skip(2) =~= string@.skip(oldi + 2));
                assert(!(rest.len() >= 3 && rest[0] != '\\' && rest[1] == '\\' && rest[2]
                    == 'n'));
                assert(unescape_newlines(rest) =~= seq!['\n'] + unescape_newlines(rest.skip(2)));
            }
        } else {
            push_char(&mut out, src[i]);
            i = i + 1;
            proof {
                assert(rest.skip(1) =~= string@.skip(oldi + 1));
                assert(unescape_newlines(rest) =~= seq![rest[0]] + unescape_newlines(
                    rest.skip(1),
                ));
            }
        }
        proof {
            assert(unescape_newlines(string@) =~= out@ + unescape_newlines(
                string@.skip(i as int),
            ));
        }
    }
    proof {
        assert(string@.skip(n as int) =~= Seq::<char>::empty());
        assert(out@ =~= unescape_newlines(string@));
    }
    out
}

} // verus!
