use vstd::prelude::*;
use vstd::string::StrSliceExecFns;
use crate::error::{
    AbsCtxErr, AbsEither, AbsErr, EitherError, ErrorKind, ErrorWithContext, SwResult,
};
use crate::expression::{eview, eviews, AbsExpr, Expression};
use crate::native::{NativeHost, NoHost};
use crate::statement::{sview, sviews, AbsKind, AbsStmt, Statement, StatementKind};
use crate::value::{
    push_char, spec_add, spec_and, spec_divide, spec_greater_than, spec_greater_than_equal,
    spec_len, spec_less_than, spec_less_than_equal, spec_modulus, spec_multiply, spec_not, spec_or,
    spec_shift_left, spec_shift_right, spec_subtract, type_of, val_eq, vview, AbsValue, IntT, Type,
    Value,
};
use crate::Operator;
use crate::vec_map::VecMap;

verus! {

broadcast use vstd::std_specs::vec::group_vec_axioms;

/// How many steps of looping, function-call nesting and dynamic evaluation a
/// run may spend before it stops with a resource error: a runaway program
/// ends in an explicit, recoverable error rather than exhausting the host.
pub const DEFAULT_FUEL: u64 = 0xFFFF_FFFF;

/// What a block of statements decided: carry on with the next statement, or
/// unwind with this return value to the nearest function-call boundary.
#[derive(Debug)]
pub enum Control {
    Continue,
    Return(Value),
}

/// Model of a control signal.
#[verifier::ext_equal]
pub enum AbsControl {
    Continue,
    Return(AbsValue),
}

pub open spec fn cview(c: Control) -> AbsControl {
    match c {
        Control::Continue => AbsControl::Continue,
        Control::Return(v) => AbsControl::Return(vview(v)),
    }
}

impl View for Control {
    type V = AbsControl;

    open spec fn view(&self) -> AbsControl {
        cview(*self)
    }
}

/// Maps an evaluation result to models.
pub open spec fn res_view(r: SwResult<Value>) -> Result<AbsValue, AbsEither> {
    match r {
        Ok(v) => Ok(vview(v)),
        Err(e) => Err(e@),
    }
}

/// Maps an execution result to models.
pub open spec fn ctl_view(r: Result<Control, ErrorWithContext>) -> Result<AbsControl, AbsCtxErr> {
    match r {
        Ok(c) => Ok(cview(c)),
        Err(e) => Err(e@),
    }
}

/// Agreement of a runtime evaluation with a modelled one: binding wherever
/// the model determines the outcome.
pub open spec fn eval_agrees(o: Option<Result<AbsValue, AbsEither>>, r: SwResult<Value>) -> bool {
    match o {
        None => true,
        Some(out) => res_view(r) == out,
    }
}

/// Agreement of a runtime argument-list evaluation with a modelled one.
pub open spec fn args_agrees(
    o: Option<Result<Seq<AbsValue>, AbsEither>>,
    r: SwResult<Vec<Value>>,
) -> bool {
    match o {
        None => true,
        Some(Ok(vs)) => r matches Ok(vals) && crate::value::vviews(vals@) == vs,
        Some(Err(e)) => r matches Err(er) && er@ == e,
    }
}

/// Agreement of a runtime execution with a modelled one: the same
/// environment left behind and the same control signal or error.
pub open spec fn exec_agrees(
    o: Option<(Map<Seq<char>, AbsValue>, Result<AbsControl, AbsCtxErr>)>,
    new_st: Map<Seq<char>, AbsValue>,
    r: Result<Control, ErrorWithContext>,
) -> bool {
    match o {
        None => true,
        Some((m, out)) => new_st == m && ctl_view(r) == out,
    }
}

/// Attaching a statement to an error that lacks one.
pub open spec fn wrap_err(e: AbsEither, s: AbsStmt) -> AbsCtxErr {
    match e {
        AbsEither::NoContext(k) => AbsCtxErr { place: s, kind: k },
        AbsEither::WithContext(c) => c,
    }
}

/// The environment a program runs against: the variables in scope.
pub struct State {
    symbols: VecMap<String, Value>,
}

impl View for State {
    type V = Map<Seq<char>, AbsValue>;

    closed spec fn view(&self) -> Map<Seq<char>, AbsValue> {
        Map::new(
            |k: Seq<char>| self.symbols@.contains_key(k),
            |k: Seq<char>| vview(self.symbols@[k]),
        )
    }
}

/// What indexing the variable `name` with the value `iv` yields: the element
/// for an in-bounds integer index into a list, the one-character string for
/// one into a string, and the exact error otherwise.
pub open spec fn spec_index(
    st: Map<Seq<char>, AbsValue>,
    name: Seq<char>,
    iv: AbsValue,
) -> Result<AbsValue, AbsErr> {
    if !st.contains_key(name) {
        Err(AbsErr::UnknownVariable(name))
    } else {
        match st[name] {
            AbsValue::List(l) => match iv {
                AbsValue::Int(i) => if (i as usize) < l.len() {
                    Ok(l[(i as usize) as int])
                } else {
                    Err(AbsErr::IndexOutOfBounds { len: l.len() as usize, index: i as usize })
                },
                _ => Err(AbsErr::UnexpectedType { expected: Type::Int, actual: type_of(iv) }),
            },
            AbsValue::Str(s) => match iv {
                AbsValue::Int(i) => if (i as usize) < s.len() {
                    Ok(AbsValue::Str(seq![s[(i as usize) as int]]))
                } else {
                    Err(AbsErr::IndexOutOfBounds { len: s.len() as usize, index: i as usize })
                },
                _ => Err(AbsErr::UnexpectedType { expected: Type::Int, actual: type_of(iv) }),
            },
            _ => Err(AbsErr::IndexUnindexable(type_of(st[name]))),
        }
    }
}

/// What appending `av` to the list named `name` does to the environment.
pub open spec fn spec_list_append(
    st: Map<Seq<char>, AbsValue>,
    name: Seq<char>,
    av: AbsValue,
) -> Result<Map<Seq<char>, AbsValue>, AbsErr> {
    if !st.contains_key(name) {
        Err(AbsErr::UnknownVariable(name))
    } else {
        match st[name] {
            AbsValue::List(l) => Ok(st.insert(name, AbsValue::List(l.push(av)))),
            _ => Err(AbsErr::IndexUnindexable(type_of(st[name]))),
        }
    }
}

/// What storing `av` at index `iv` of the list named `name` does. The index
/// is required of the caller to be an integer already; the bounds check and
/// the remaining faults are decided here.
pub open spec fn spec_list_assign(
    st: Map<Seq<char>, AbsValue>,
    name: Seq<char>,
    i: IntT,
    av: AbsValue,
) -> Result<Map<Seq<char>, AbsValue>, AbsErr> {
    if !st.contains_key(name) {
        Err(AbsErr::UnknownVariable(name))
    } else {
        match st[name] {
            AbsValue::List(l) => if (i as usize) < l.len() {
                Ok(st.insert(name, AbsValue::List(l.update((i as usize) as int, av))))
            } else {
                Err(AbsErr::IndexOutOfBounds { len: l.len() as usize, index: i as usize })
            },
            _ => Err(AbsErr::IndexUnindexable(type_of(st[name]))),
        }
    }
}

/// What removing index `i` of the list named `name` does.
pub open spec fn spec_list_delete(
    st: Map<Seq<char>, AbsValue>,
    name: Seq<char>,
    i: IntT,
) -> Result<Map<Seq<char>, AbsValue>, AbsErr> {
    if !st.contains_key(name) {
        Err(AbsErr::UnknownVariable(name))
    } else {
        match st[name] {
            AbsValue::List(l) => if (i as usize) < l.len() {
                Ok(st.insert(name, AbsValue::List(l.remove((i as usize) as int))))
            } else {
                Err(AbsErr::IndexOutOfBounds { len: l.len() as usize, index: i as usize })
            },
            _ => Err(AbsErr::IndexUnindexable(type_of(st[name]))),
        }
    }
}

/// What one binary operator does to two already evaluated operands.
pub open spec fn spec_binop(op: Operator, a: AbsValue, b: AbsValue) -> Result<AbsValue, AbsErr> {
    match op {
        Operator::Add => spec_add(a, b),
        Operator::Subtract => spec_subtract(a, b),
        Operator::Multiply => spec_multiply(a, b),
        Operator::Divide => spec_divide(a, b),
        Operator::Modulus => spec_modulus(a, b),
        Operator::Equality => Ok(AbsValue::Bool(val_eq(a, b))),
        Operator::LessThan => spec_less_than(a, b),
        Operator::GreaterThan => spec_greater_than(a, b),
        Operator::LessThanEqual => spec_less_than_equal(a, b),
        Operator::GreaterThanEqual => spec_greater_than_equal(a, b),
        Operator::ShiftLeft => spec_shift_left(a, b),
        Operator::ShiftRight => spec_shift_right(a, b),
        Operator::And => spec_and(a, b),
        Operator::Or => spec_or(a, b),
    }
}

/// What evaluation promises at the root of the expression: literals give
/// their value, variable lookups give the bound value or the unknown-variable
/// error, length queries follow `spec_len`, operators and negation applied
/// to literal operands follow the value operations exactly. Forms whose
/// result rests on deeper recursive evaluation promise nothing here.
pub open spec fn eval_partial(
    e: AbsExpr,
    st: Map<Seq<char>, AbsValue>,
    r: Result<AbsValue, AbsEither>,
) -> bool {
    match e {
        AbsExpr::Value(av) => r == Ok::<AbsValue, AbsEither>(av),
        AbsExpr::Variable(n) => if st.contains_key(n) {
            r == Ok::<AbsValue, AbsEither>(st[n])
        } else {
            r == Err::<AbsValue, AbsEither>(AbsEither::NoContext(AbsErr::UnknownVariable(n)))
        },
        AbsExpr::ListLength(n) => if st.contains_key(n) {
            match spec_len(st[n]) {
                Ok(l) => r == Ok::<AbsValue, AbsEither>(AbsValue::Int(l as IntT)),
                Err(k) => r == Err::<AbsValue, AbsEither>(AbsEither::NoContext(k)),
            }
        } else {
            r == Err::<AbsValue, AbsEither>(AbsEither::NoContext(AbsErr::UnknownVariable(n)))
        },
        AbsExpr::OpExp(l, op, r2) => (match (*l, *r2) {
            (AbsExpr::Value(av1), AbsExpr::Value(av2)) => match spec_binop(op, av1, av2) {
                Ok(v) => r == Ok::<AbsValue, AbsEither>(v),
                Err(k) => r == Err::<AbsValue, AbsEither>(AbsEither::NoContext(k)),
            },
            _ => true,
        }),
        AbsExpr::Not(e1) => (match *e1 {
            AbsExpr::Value(av) => match spec_not(av) {
                Ok(v) => r == Ok::<AbsValue, AbsEither>(v),
                Err(k) => r == Err::<AbsValue, AbsEither>(AbsEither::NoContext(k)),
            },
            _ => true,
        }),
        _ => true,
    }
}

/// What executing one statement promises of the environment it leaves
/// behind, stated where the effect does not rest on recursive evaluation.
pub open spec fn exec_partial(
    stmt: AbsStmt,
    old_st: Map<Seq<char>, AbsValue>,
    new_st: Map<Seq<char>, AbsValue>,
    r: Result<AbsControl, AbsCtxErr>,
) -> bool {
    match stmt.kind {
        AbsKind::ListNew(n) => r == Ok::<AbsControl, AbsCtxErr>(AbsControl::Continue) && new_st
            == old_st.insert(n, AbsValue::List(Seq::empty())),
        AbsKind::Function(n, p, b) => r == Ok::<AbsControl, AbsCtxErr>(AbsControl::Continue)
            && new_st == old_st.insert(n, AbsValue::Function(p, b)),
        AbsKind::Delete(n) => if old_st.contains_key(n) {
            r == Ok::<AbsControl, AbsCtxErr>(AbsControl::Continue) && new_st == old_st.remove(n)
        } else {
            r == Err::<AbsControl, AbsCtxErr>(
                AbsCtxErr { place: stmt, kind: AbsErr::UnknownVariable(n) },
            ) && new_st == old_st
        },
        AbsKind::Assignment(n, e) => {
            &&& (r matches Ok(c) ==> c is Continue && exists|av: AbsValue|
                new_st == #[trigger] old_st.insert(n, av))
            &&& (r is Err ==> new_st == old_st)
            &&& (e matches AbsExpr::Value(av) ==> r == Ok::<AbsControl, AbsCtxErr>(
                AbsControl::Continue,
            ) && new_st == old_st.insert(n, av))
        },
        AbsKind::Print(_) => new_st == old_st,
        AbsKind::PrintNoNl(_) => new_st == old_st,
        AbsKind::Return(e) => {
            &&& new_st == old_st
            &&& (r matches Ok(c) ==> c is Return)
            &&& (e matches AbsExpr::Value(av) ==> r == Ok::<AbsControl, AbsCtxErr>(
                AbsControl::Return(av),
            ))
        },
        AbsKind::Input(n) => r matches Ok(c) ==> c is Continue && new_st.contains_key(n)
            && new_st[n] is Str && new_st == old_st.insert(n, new_st[n]),
        AbsKind::FunctionCall(_, _) => new_st == old_st,
        AbsKind::ListAppend(n, _) => r matches Ok(c) ==> c is Continue && exists|av: AbsValue|
            #[trigger] spec_list_append(old_st, n, av) == Ok::<Map<Seq<char>, AbsValue>, AbsErr>(
                new_st,
            ),
        AbsKind::ListAssign(n, _, _) => r matches Ok(c) ==> c is Continue && exists|
            i: IntT,
            av: AbsValue,
        |
            #[trigger] spec_list_assign(old_st, n, i, av) == Ok::<Map<Seq<char>, AbsValue>, AbsErr>(
                new_st,
            ),
        AbsKind::ListDelete(n, _) => r matches Ok(c) ==> c is Continue && exists|i: IntT|
            #[trigger] spec_list_delete(old_st, n, i) == Ok::<Map<Seq<char>, AbsValue>, AbsErr>(
                new_st,
            ),
        _ => true,
    }
}

/// The environments the interpreter's model runs against.
pub type AbsEnv = Map<Seq<char>, AbsValue>;

/// A value of one of the literal forms the surface syntax can write.
pub open spec fn literal_shape(v: AbsValue) -> bool {
    v is Int || v is Str || v is Bool
}

/// The bindings a function call starts from: each parameter bound to its
/// argument, in order, a repeated name keeping its last argument.
pub open spec fn bind_params(params: Seq<Seq<char>>, vals: Seq<AbsValue>) -> AbsEnv
    decreases params.len(),
{
    if params.len() == 0 {
        Map::empty()
    } else {
        bind_params(params.drop_last(), vals.drop_last()).insert(params.last(), vals.last())
    }
}

/// The model of evaluation: what an expression yields against an
/// environment, with `None` where the result lies beyond the model (the
/// outside world: reading input, a native callable, re-parsing under the
/// dynamic-evaluation form, or exhausted fuel). Where it is `Some`, the
/// runtime evaluator is proven to agree exactly, errors included.
pub open spec fn spec_eval(e: AbsExpr, st: AbsEnv, fuel: nat) -> Option<
    Result<AbsValue, AbsEither>,
>
    decreases fuel, e, 0int, 0int,
{
    match e {
        AbsExpr::Value(av) => Some(Ok(av)),
        AbsExpr::Variable(n) => if st.contains_key(n) {
            Some(Ok(st[n]))
        } else {
            Some(Err(AbsEither::NoContext(AbsErr::UnknownVariable(n))))
        },
        AbsExpr::ListLength(n) => if st.contains_key(n) {
            match spec_len(st[n]) {
                Ok(l) => Some(Ok(AbsValue::Int(l as IntT))),
                Err(k) => Some(Err(AbsEither::NoContext(k))),
            }
        } else {
            Some(Err(AbsEither::NoContext(AbsErr::UnknownVariable(n))))
        },
        AbsExpr::OpExp(l, op, r2) => match spec_eval(*l, st, fuel) {
            None => None,
            Some(Err(e1)) => Some(Err(e1)),
            Some(Ok(a)) => match spec_eval(*r2, st, fuel) {
                None => None,
                Some(Err(e2)) => Some(Err(e2)),
                Some(Ok(b)) => match spec_binop(op, a, b) {
                    Ok(v) => Some(Ok(v)),
                    Err(k) => Some(Err(AbsEither::NoContext(k))),
                },
            },
        },
        AbsExpr::ListIndex(n, i) => match spec_eval(*i, st, fuel) {
            None => None,
            Some(Err(e1)) => Some(Err(e1)),
            Some(Ok(iv)) => match spec_index(st, n, iv) {
                Ok(v) => Some(Ok(v)),
                Err(k) => Some(Err(AbsEither::NoContext(k))),
            },
        },
        AbsExpr::Not(e1) => match spec_eval(*e1, st, fuel) {
            None => None,
            Some(Err(e2)) => Some(Err(e2)),
            Some(Ok(v)) => match spec_not(v) {
                Ok(w) => Some(Ok(w)),
                Err(k) => Some(Err(AbsEither::NoContext(k))),
            },
        },
        AbsExpr::Eval(e1) => match spec_eval(*e1, st, fuel) {
            None => None,
            Some(Err(e2)) => Some(Err(e2)),
            Some(Ok(v)) => match v {
                AbsValue::Str(_) => None,
                _ => Some(
                    Err(
                        AbsEither::NoContext(
                            AbsErr::UnexpectedType { expected: Type::Str, actual: type_of(v) },
                        ),
                    ),
                ),
            },
        },
        AbsExpr::FunctionCall(n, args) => spec_call(n, args, st, fuel),
    }
}

/// The model of evaluating the argument expressions from position `i` on,
/// left to right, stopping at the first failure.
pub open spec fn spec_eval_args(args: Seq<AbsExpr>, st: AbsEnv, fuel: nat, i: int) -> Option<
    Result<Seq<AbsValue>, AbsEither>,
>
    decreases fuel, args, args.len() - i, 0int,
{
    if i < 0 || i >= args.len() {
        Some(Ok(Seq::empty()))
    } else {
        match spec_eval(args[i], st, fuel) {
            None => None,
            Some(Err(e)) => Some(Err(e)),
            Some(Ok(v)) => match spec_eval_args(args, st, fuel, i + 1) {
                None => None,
                Some(Err(e)) => Some(Err(e)),
                Some(Ok(rest)) => Some(Ok(seq![v] + rest)),
            },
        }
    }
}

/// The model of a call: the arguments are evaluated first, then the name is
/// looked up, then the callable is applied with one unit of fuel spent.
pub open spec fn spec_call(name: Seq<char>, args: Seq<AbsExpr>, st: AbsEnv, fuel: nat) -> Option<
    Result<AbsValue, AbsEither>,
>
    decreases fuel, args, args.len() + 1, 0int,
{
    match spec_eval_args(args, st, fuel, 0) {
        None => None,
        Some(Err(e)) => Some(Err(e)),
        Some(Ok(vals)) => if !st.contains_key(name) {
            Some(Err(AbsEither::NoContext(AbsErr::UnknownVariable(name))))
        } else if fuel == 0 {
            Some(Err(AbsEither::NoContext(AbsErr::RecursionLimit)))
        } else {
            spec_apply(name, st[name], vals, (fuel - 1) as nat)
        },
    }
}

/// The model of applying an already looked-up callable to already evaluated
/// arguments: a user function of matching arity runs its body in a fresh
/// environment holding only the parameter bindings and must end on a
/// return; a native callable's result lies with its host.
pub open spec fn spec_apply(name: Seq<char>, callee: AbsValue, vals: Seq<AbsValue>, fuel: nat) -> Option<
    Result<AbsValue, AbsEither>,
>
    decreases fuel, callee, 0int, 0int,
{
    match callee {
        AbsValue::Native(_) => None,
        AbsValue::Function(p, b) => if p.len() != vals.len() {
            Some(
                Err(
                    AbsEither::NoContext(
                        AbsErr::InvalidArguments(name, vals.len() as usize, p.len() as usize),
                    ),
                ),
            )
        } else {
            match spec_exec_block(b, bind_params(p, vals), fuel, 0) {
                None => None,
                Some((_, Err(e))) => Some(Err(AbsEither::WithContext(e))),
                Some((_, Ok(AbsControl::Return(v)))) => Some(Ok(v)),
                Some((_, Ok(AbsControl::Continue))) => Some(
                    Err(AbsEither::NoContext(AbsErr::NoReturn(name))),
                ),
            }
        },
        _ => Some(
            Err(
                AbsEither::NoContext(
                    AbsErr::UnexpectedType { expected: Type::Function, actual: type_of(callee) },
                ),
            ),
        ),
    }
}

/// The model of running a block from statement `i` on: statements in order,
/// the first failure aborting the rest with its effects kept, a pending
/// return stopping the block at once.
pub open spec fn spec_exec_block(stmts: Seq<AbsStmt>, st: AbsEnv, fuel: nat, i: int) -> Option<
    (AbsEnv, Result<AbsControl, AbsCtxErr>),
>
    decreases fuel, stmts, stmts.len() - i, 0int,
{
    if i < 0 || i >= stmts.len() {
        Some((st, Ok(AbsControl::Continue)))
    } else {
        match spec_exec_stmt(stmts[i], st, fuel) {
            None => None,
            Some((st2, Err(e))) => Some((st2, Err(e))),
            Some((st2, Ok(AbsControl::Return(v)))) => Some((st2, Ok(AbsControl::Return(v)))),
            Some((st2, Ok(AbsControl::Continue))) => spec_exec_block(stmts, st2, fuel, i + 1),
        }
    }
}

/// The model of the while statement: the condition is re-evaluated before
/// every iteration and must be a boolean each time; a pending return stops
/// the loop at once; `steps` bounds the iterations that remain before the
/// resource error.
pub open spec fn spec_while(stmt: AbsStmt, st: AbsEnv, fuel: nat, steps: nat) -> Option<
    (AbsEnv, Result<AbsControl, AbsCtxErr>),
>
    decreases fuel, stmt, 1int, steps,
{
    match stmt.kind {
        AbsKind::While(cond, body) => match spec_eval(cond, st, fuel) {
            None => None,
            Some(Err(e)) => Some((st, Err(wrap_err(e, stmt)))),
            Some(Ok(AbsValue::Bool(false))) => Some((st, Ok(AbsControl::Continue))),
            Some(Ok(AbsValue::Bool(true))) => match spec_exec_block(body, st, fuel, 0) {
                None => None,
                Some((st2, Err(e))) => Some((st2, Err(e))),
                Some((st2, Ok(AbsControl::Return(v)))) => Some((st2, Ok(AbsControl::Return(v)))),
                Some((st2, Ok(AbsControl::Continue))) => if steps == 0 {
                    Some((st2, Err(AbsCtxErr { place: stmt, kind: AbsErr::RecursionLimit })))
                } else {
                    spec_while(stmt, st2, fuel, (steps - 1) as nat)
                },
            },
            Some(Ok(v)) => Some(
                (
                    st,
                    Err(
                        AbsCtxErr {
                            place: stmt,
                            kind: AbsErr::UnexpectedType {
                                expected: Type::Bool,
                                actual: type_of(v),
                            },
                        },
                    ),
                ),
            ),
        },
        _ => None,
    }
}

/// The model of executing one statement: `None` where the statement's
/// outcome lies beyond the model (reading input, loading a native module,
/// or an evaluation that does). Where it is `Some`, the runtime executor is
/// proven to agree exactly: the same environment left behind, the same
/// control signal or the same error with the same statement attached.
pub open spec fn spec_exec_stmt(stmt: AbsStmt, st: AbsEnv, fuel: nat) -> Option<
    (AbsEnv, Result<AbsControl, AbsCtxErr>),
>
    decreases fuel, stmt, 2int, 0int,
{
    match stmt.kind {
        AbsKind::Input(_) => None,
        AbsKind::DylibLoad(_, _) => None,
        AbsKind::ListNew(n) => Some(
            (st.insert(n, AbsValue::List(Seq::empty())), Ok(AbsControl::Continue)),
        ),
        AbsKind::Function(n, p, b) => Some(
            (st.insert(n, AbsValue::Function(p, b)), Ok(AbsControl::Continue)),
        ),
        AbsKind::Delete(n) => if st.contains_key(n) {
            Some((st.remove(n), Ok(AbsControl::Continue)))
        } else {
            Some((st, Err(AbsCtxErr { place: stmt, kind: AbsErr::UnknownVariable(n) })))
        },
        AbsKind::Assignment(n, e) => match spec_eval(e, st, fuel) {
            None => None,
            Some(Err(er)) => Some((st, Err(wrap_err(er, stmt)))),
            Some(Ok(v)) => Some((st.insert(n, v), Ok(AbsControl::Continue))),
        },
        AbsKind::Print(e) => match spec_eval(e, st, fuel) {
            None => None,
            Some(Err(er)) => Some((st, Err(wrap_err(er, stmt)))),
            Some(Ok(_)) => Some((st, Ok(AbsControl::Continue))),
        },
        AbsKind::PrintNoNl(e) => match spec_eval(e, st, fuel) {
            None => None,
            Some(Err(er)) => Some((st, Err(wrap_err(er, stmt)))),
            Some(Ok(_)) => Some((st, Ok(AbsControl::Continue))),
        },
        AbsKind::Return(e) => match spec_eval(e, st, fuel) {
            None => None,
            Some(Err(er)) => Some((st, Err(wrap_err(er, stmt)))),
            Some(Ok(v)) => Some((st, Ok(AbsControl::Return(v)))),
        },
        AbsKind::ListAppend(n, e) => match spec_eval(e, st, fuel) {
            None => None,
            Some(Err(er)) => Some((st, Err(wrap_err(er, stmt)))),
            Some(Ok(v)) => match spec_list_append(st, n, v) {
                Ok(m) => Some((m, Ok(AbsControl::Continue))),
                Err(k) => Some((st, Err(AbsCtxErr { place: stmt, kind: k }))),
            },
        },
        AbsKind::ListAssign(n, ie, ae) => match spec_eval(ae, st, fuel) {
            None => None,
            Some(Err(er)) => Some((st, Err(wrap_err(er, stmt)))),
            Some(Ok(v)) => match spec_eval(ie, st, fuel) {
                None => None,
                Some(Err(er)) => Some((st, Err(wrap_err(er, stmt)))),
                Some(Ok(AbsValue::Int(ix))) => match spec_list_assign(st, n, ix, v) {
                    Ok(m) => Some((m, Ok(AbsControl::Continue))),
                    Err(k) => Some((st, Err(AbsCtxErr { place: stmt, kind: k }))),
                },
                Some(Ok(iv)) => Some(
                    (
                        st,
                        Err(
                            AbsCtxErr {
                                place: stmt,
                                kind: AbsErr::UnexpectedType {
                                    expected: Type::Int,
                                    actual: type_of(iv),
                                },
                            },
                        ),
                    ),
                ),
            },
        },
        AbsKind::ListDelete(n, ie) => match spec_eval(ie, st, fuel) {
            None => None,
            Some(Err(er)) => Some((st, Err(wrap_err(er, stmt)))),
            Some(Ok(AbsValue::Int(ix))) => match spec_list_delete(st, n, ix) {
                Ok(m) => Some((m, Ok(AbsControl::Continue))),
                Err(k) => Some((st, Err(AbsCtxErr { place: stmt, kind: k }))),
            },
            Some(Ok(iv)) => Some(
                (
                    st,
                    Err(
                        AbsCtxErr {
                            place: stmt,
                            kind: AbsErr::UnexpectedType {
                                expected: Type::Int,
                                actual: type_of(iv),
                            },
                        },
                    ),
                ),
            ),
        },
        AbsKind::If(cond, tb, eb) => match spec_eval(cond, st, fuel) {
            None => None,
            Some(Err(er)) => Some((st, Err(wrap_err(er, stmt)))),
            Some(Ok(AbsValue::Bool(true))) => spec_exec_block(tb, st, fuel, 0),
            Some(Ok(AbsValue::Bool(false))) => match eb {
                Some(els) => spec_exec_block(els, st, fuel, 0),
                None => Some((st, Ok(AbsControl::Continue))),
            },
            Some(Ok(v)) => Some(
                (
                    st,
                    Err(
                        AbsCtxErr {
                            place: stmt,
                            kind: AbsErr::UnexpectedType {
                                expected: Type::Bool,
                                actual: type_of(v),
                            },
                        },
                    ),
                ),
            ),
        },
        AbsKind::While(_, _) => spec_while(stmt, st, fuel, fuel),
        AbsKind::Catch(tb, cb) => match spec_exec_block(tb, st, fuel, 0) {
            None => None,
            Some((st2, Err(_))) => spec_exec_block(cb, st2, fuel, 0),
            Some((st2, Ok(c))) => Some((st2, Ok(c))),
        },
        AbsKind::FunctionCall(n, args) => match spec_call(n, args, st, fuel) {
            None => None,
            Some(Err(e)) => Some((st, Err(wrap_err(e, stmt)))),
            Some(Ok(_)) => Some((st, Ok(AbsControl::Continue))),
        },
    }
}

impl State {
    /// The environment's bookkeeping invariant: its variable names are
    /// stored without duplicates.
    pub closed spec fn wf(&self) -> bool {
        self.symbols.wf()
    }

    pub fn new() -> (r: State)
        ensures
            r@ == Map::<Seq<char>, AbsValue>::empty(),
            r.wf(),
    {
        let r = State { symbols: VecMap::new() };
        proof {
            assert(r@ =~= Map::<Seq<char>, AbsValue>::empty());
        }
        r
    }

    /// Binds `name` to `value`, replacing any previous binding.
    fn insert_value(&mut self, name: String, value: Value)
        requires
            old(self).wf(),
        ensures
            final(self).wf(),
            final(self)@ == old(self)@.insert(name@, vview(value)),
    {
        let ghost gname = name@;
        let ghost gval = vview(value);
        self.symbols.insert(name, value);
        proof {
            assert(self@ =~= old(self)@.insert(gname, gval));
        }
    }

    /// Binds `name` to `value`, replacing any previous binding and leaving
    /// every other binding as it was.
    pub fn insert(&mut self, name: String, value: Value)
        requires
            old(self).wf(),
        ensures
            final(self).wf(),
            final(self)@ == old(self)@.insert(name@, vview(value)),
    {
        self.insert_value(name, value);
    }

    /// The value bound to `name`, or the unknown-variable error.
    pub fn get(&self, name: &str) -> (r: SwResult<&Value>)
        requires
            self.wf(),
        ensures
            match r {
                Ok(v) => self@.contains_key(name@) && vview(*v) == self@[name@],
                Err(e) => !self@.contains_key(name@) && e@ == AbsEither::NoContext(
                    AbsErr::UnknownVariable(name@),
                ),
            },
    {
        let key = name.to_owned();
        match self.symbols.get(&key) {
            Some(v) => Ok(v),
            None => Err(EitherError::NoContext(ErrorKind::UnknownVariable(name.to_owned()))),
        }
    }

    /// Removes the binding of `name`, or reports it unknown.
    fn delete(&mut self, name: &str) -> (r: SwResult<()>)
        requires
            old(self).wf(),
        ensures
            final(self).wf(),
            match r {
                Ok(()) => old(self)@.contains_key(name@) && final(self)@ == old(self)@.remove(
                    name@,
                ),
                Err(e) => !old(self)@.contains_key(name@) && final(self)@ == old(self)@ && e@
                    == AbsEither::NoContext(AbsErr::UnknownVariable(name@)),
            },
    {
        let key = name.to_owned();
        match self.symbols.remove(&key) {
            Some(_) => {
                proof {
                    assert(self@ =~= old(self)@.remove(name@));
                }
                Ok(())
            }
            None => {
                proof {
                    assert(self@ =~= old(self)@);
                }
                Err(EitherError::NoContext(ErrorKind::UnknownVariable(name.to_owned())))
            }
        }
    }

    /// Evaluates `exp` and binds the result to `str`.
    pub fn assign(&mut self, str: String, exp: &Expression) -> (r: SwResult<()>)
        requires
            old(self).wf(),
        ensures
            final(self).wf(),
            r matches Ok(()) ==> exists|av: AbsValue| final(self)@ == old(self)@.insert(str@, av),
            r is Err ==> final(self)@ == old(self)@,
            exp@ matches AbsExpr::Value(av) ==> r is Ok && final(self)@ == old(self)@.insert(
                str@,
                av,
            ),
            spec_eval(exp@, old(self)@, DEFAULT_FUEL as nat) matches Some(out) ==> (match out {
                Ok(v) => r is Ok && final(self)@ == old(self)@.insert(str@, v),
                Err(e) => (r matches Err(er) && er@ == e) && final(self)@ == old(self)@,
            }),
    {
        let v = match exp.evaluate(self) {
            Ok(v) => v,
            Err(e) => {
                return Err(e);
            }
        };
        let ghost av = vview(v);
        self.insert_value(str, v);
        Ok(())
    }

    /// Looks `list_name` up, evaluates `exp`, and indexes the list or string
    /// bound to the name with the evaluated value, as `spec_index` says.
    pub fn list_index(&self, list_name: &str, exp: &Expression) -> (r: SwResult<Value>)
        requires
            self.wf(),
        ensures
            r matches Ok(v) ==> exists|iv: AbsValue|
                spec_index(self@, list_name@, iv) == Ok::<AbsValue, AbsErr>(vview(v)),
            match spec_eval(exp@, self@, DEFAULT_FUEL as nat) {
                None => true,
                Some(Err(e)) => r matches Err(er) && er@ == e,
                Some(Ok(iv)) => match spec_index(self@, list_name@, iv) {
                    Ok(av) => r matches Ok(v) && vview(v) == av,
                    Err(k) => r matches Err(e2) && e2@ == AbsEither::NoContext(k),
                },
            },
    {
        let mut host = NoHost;
        self.list_index_with(&mut host, DEFAULT_FUEL, list_name, exp)
    }

    /// `list_index` under a given host and fuel.
    fn list_index_with<H: NativeHost>(
        &self,
        host: &mut H,
        fuel: u64,
        list_name: &str,
        exp: &Expression,
    ) -> (r: SwResult<Value>)
        requires
            self.wf(),
        ensures
            r matches Ok(v) ==> exists|iv: AbsValue|
                spec_index(self@, list_name@, iv) == Ok::<AbsValue, AbsErr>(vview(v)),
            match spec_eval(exp@, self@, fuel as nat) {
                None => true,
                Some(Err(e)) => r matches Err(er) && er@ == e,
                Some(Ok(iv)) => match spec_index(self@, list_name@, iv) {
                    Ok(av) => r matches Ok(v) && vview(v) == av,
                    Err(k) => r matches Err(e2) && e2@ == AbsEither::NoContext(k),
                },
            },
        decreases fuel, *exp, 3int,
    {
        let idx_value = match eval_expr(exp, self, host, fuel) {
            Ok(v) => v,
            Err(e) => {
                return Err(e);
            }
        };
        let ghost iv = vview(idx_value);
        let r = self.index_with_value(list_name, &idx_value);
        proof {
            if r is Ok {
                assert(spec_index(self@, list_name@, iv) == Ok::<AbsValue, AbsErr>(
                    vview(r->Ok_0),
                ));
            }
        }
        r
    }

    /// Indexes the list or string bound to `list_name` with the already
    /// evaluated value `idx_value`, exactly as `spec_index` says.
    pub fn index_with_value(&self, list_name: &str, idx_value: &Value) -> (r: SwResult<Value>)
        requires
            self.wf(),
        ensures
            match spec_index(self@, list_name@, vview(*idx_value)) {
                Ok(av) => r matches Ok(v) && vview(v) == av,
                Err(k) => r matches Err(e) && e@ == AbsEither::NoContext(k),
            },
    {
        let bound = match self.get(list_name) {
            Ok(v) => v,
            Err(e) => {
                return Err(e);
            }
        };
        match bound {
            Value::List(l) => {
                let i = match idx_value {
                    Value::Int(i) => *i,
                    _ => {
                        return Err(
                            EitherError::NoContext(
                                ErrorKind::UnexpectedType {
                                    expected: Type::Int,
                                    actual: idx_value.get_type(),
                                },
                            ),
                        );
                    }
                };
                let index = i as usize;
                if index < l.len() {
                    Ok(l[index].duplicate())
                } else {
                    Err(EitherError::NoContext(ErrorKind::IndexOutOfBounds { len: l.len(), index }))
                }
            }
            Value::Str(s) => {
                let i = match idx_value {
                    Value::Int(i) => *i,
                    _ => {
                        return Err(
                            EitherError::NoContext(
                                ErrorKind::UnexpectedType {
                                    expected: Type::Int,
                                    actual: idx_value.get_type(),
                                },
                            ),
                        );
                    }
                };
                let index = i as usize;
                let n = s.as_str().unicode_len();
                if index < n {
                    let c = s.as_str().get_char(index);
                    let mut one = String::new();
                    push_char(&mut one, c);
                    proof {
                        assert(one@ =~= seq![s@[(i as usize) as int]]);
                    }
                    Ok(Value::Str(one))
                } else {
                    Err(EitherError::NoContext(ErrorKind::IndexOutOfBounds { len: n, index }))
                }
            }
            _ => Err(EitherError::NoContext(ErrorKind::IndexUnindexable(bound.get_type()))),
        }
    }

    /// Pushes the already evaluated `value` onto the list bound to `name`,
    /// exactly as `spec_list_append` says.
    fn list_append_value(&mut self, name: &str, value: Value) -> (r: SwResult<()>)
        requires
            old(self).wf(),
        ensures
            final(self).wf(),
            match spec_list_append(old(self)@, name@, vview(value)) {
                Ok(m) => r matches Ok(()) && final(self)@ == m,
                Err(k) => r matches Err(e) && e@ == AbsEither::NoContext(k) && final(self)@ == old(
                    self,
                )@,
            },
    {
        let ghost av = vview(value);
        let key = name.to_owned();
        match self.symbols.remove(&key) {
            Some(current) => {
                match current {
                    Value::List(mut l) => {
                        let ghost orig = l@;
                        l.push(value);
                        self.symbols.insert(key, Value::List(l));
                        proof {
                            assert(crate::value::vviews(l@) =~= crate::value::vviews(orig).push(
                                av,
                            ));
                            assert(old(self)@[name@]->List_0 == crate::value::vviews(orig));
                            assert(self@ =~~= old(self)@.insert(
                                name@,
                                AbsValue::List(old(self)@[name@]->List_0.push(av)),
                            ));
                        }
                        Ok(())
                    }
                    other => {
                        let t = other.get_type();
                        self.symbols.insert(key, other);
                        proof {
                            assert(self@ =~= old(self)@);
                        }
                        Err(EitherError::NoContext(ErrorKind::IndexUnindexable(t)))
                    }
                }
            }
            None => Err(EitherError::NoContext(ErrorKind::UnknownVariable(name.to_owned()))),
        }
    }

    /// Stores the already evaluated `value` at integer index `i` of the
    /// list bound to `name`, exactly as `spec_list_assign` says.
    fn list_assign_value(&mut self, name: &str, i: IntT, value: Value) -> (r: SwResult<()>)
        requires
            old(self).wf(),
        ensures
            final(self).wf(),
            match spec_list_assign(old(self)@, name@, i, vview(value)) {
                Ok(m) => r matches Ok(()) && final(self)@ == m,
                Err(k) => r matches Err(e) && e@ == AbsEither::NoContext(k) && final(self)@ == old(
                    self,
                )@,
            },
    {
        let ghost av = vview(value);
        let index = i as usize;
        let key = name.to_owned();
        match self.symbols.remove(&key) {
            Some(current) => {
                match current {
                    Value::List(mut l) => {
                        if index < l.len() {
                            let ghost orig = l@;
                            let elem = &mut l[index];
                            *elem = value;
                            self.symbols.insert(key, Value::List(l));
                            proof {
                                assert(crate::value::vviews(l@) =~= crate::value::vviews(
                                    orig,
                                ).update((i as usize) as int, av));
                                assert(old(self)@[name@]->List_0 == crate::value::vviews(orig));
                                assert(self@ =~~= old(self)@.insert(
                                    name@,
                                    AbsValue::List(
                                        old(self)@[name@]->List_0.update((i as usize) as int, av),
                                    ),
                                ));
                            }
                            Ok(())
                        } else {
                            let len = l.len();
                            self.symbols.insert(key, Value::List(l));
                            proof {
                                assert(self@ =~= old(self)@);
                            }
                            Err(
                                EitherError::NoContext(
                                    ErrorKind::IndexOutOfBounds { len, index },
                                ),
                            )
                        }
                    }
                    other => {
                        let t = other.get_type();
                        self.symbols.insert(key, other);
                        proof {
                            assert(self@ =~= old(self)@);
                        }
                        Err(EitherError::NoContext(ErrorKind::IndexUnindexable(t)))
                    }
                }
            }
            None => Err(EitherError::NoContext(ErrorKind::UnknownVariable(name.to_owned()))),
        }
    }

    /// Removes integer index `i` of the list bound to `name`, exactly as
    /// `spec_list_delete` says.
    fn list_delete_value(&mut self, name: &str, i: IntT) -> (r: SwResult<()>)
        requires
            old(self).wf(),
        ensures
            final(self).wf(),
            match spec_list_delete(old(self)@, name@, i) {
                Ok(m) => r matches Ok(()) && final(self)@ == m,
                Err(k) => r matches Err(e) && e@ == AbsEither::NoContext(k) && final(self)@ == old(
                    self,
                )@,
            },
    {
        let index = i as usize;
        let key = name.to_owned();
        match self.symbols.remove(&key) {
            Some(current) => {
                match current {
                    Value::List(mut l) => {
                        if index < l.len() {
                            let ghost orig = l@;
                            let _ = l.remove(index);
                            self.symbols.insert(key, Value::List(l));
                            proof {
                                assert(crate::value::vviews(l@) =~= crate::value::vviews(
                                    orig,
                                ).remove((i as usize) as int));
                                assert(old(self)@[name@]->List_0 == crate::value::vviews(orig));
                                assert(self@ =~~= old(self)@.insert(
                                    name@,
                                    AbsValue::List(
                                        old(self)@[name@]->List_0.remove((i as usize) as int),
                                    ),
                                ));
                            }
                            Ok(())
                        } else {
                            let len = l.len();
                            self.symbols.insert(key, Value::List(l));
                            proof {
                                assert(self@ =~= old(self)@);
                            }
                            Err(
                                EitherError::NoContext(
                                    ErrorKind::IndexOutOfBounds { len, index },
                                ),
                            )
                        }
                    }
                    other => {
                        let t = other.get_type();
                        self.symbols.insert(key, other);
                        proof {
                            assert(self@ =~= old(self)@);
                        }
                        Err(EitherError::NoContext(ErrorKind::IndexUnindexable(t)))
                    }
                }
            }
            None => Err(EitherError::NoContext(ErrorKind::UnknownVariable(name.to_owned()))),
        }
    }

    /// Loads a native module and binds each declared function name in it.
    /// The module must declare the interface version this interpreter was
    /// built for, and each declaration in the block must be a bare call.
    fn dylib_load<H: NativeHost>(
        &mut self,
        host: &mut H,
        lib_path: &String,
        functions: &Vec<Statement>,
    ) -> (r: SwResult<()>)
        requires
            old(self).wf(),
        ensures
            final(self).wf(),
            r is Ok ==> forall|i: int|
                0 <= i < functions@.len() ==> (#[trigger] sviews(
                    functions@,
                )[i].kind is FunctionCall && final(self)@.contains_key(
                    sviews(functions@)[i].kind->FunctionCall_0,
                ) && final(self)@[sviews(functions@)[i].kind->FunctionCall_0] is Native),
            (match r {
                Err(e) => match e@ {
                    AbsEither::NoContext(AbsErr::IncompatibleAbi(v)) => v
                        != crate::LIBSCHWIFT_ABI_COMPAT,
                    AbsEither::NoContext(AbsErr::NonFunctionCallInDylib(st)) => !(
                    st.kind is FunctionCall) && exists|i: int|
                        0 <= i < functions@.len() && #[trigger] sviews(functions@)[i] == st,
                    _ => true,
                },
                Ok(()) => true,
            }),
    {
        let module = match host.open_module(lib_path) {
            Ok(m) => m,
            Err(()) => {
                return Err(EitherError::NoContext(ErrorKind::LoadError(lib_path.clone())));
            }
        };
        let compat = match host.module_abi(module) {
            Ok(v) => v,
            Err(()) => {
                return Err(
                    EitherError::NoContext(
                        ErrorKind::MissingAbiCompat { library: lib_path.clone() },
                    ),
                );
            }
        };
        if compat != crate::LIBSCHWIFT_ABI_COMPAT {
            return Err(EitherError::NoContext(ErrorKind::IncompatibleAbi(compat)));
        }
        let n = functions.len();
        for i in 0..n
            invariant
                n == functions@.len(),
                self.wf(),
                forall|j: int|
                    0 <= j < i ==> (#[trigger] sviews(functions@)[j].kind is FunctionCall
                        && self@.contains_key(sviews(functions@)[j].kind->FunctionCall_0)
                        && self@[sviews(functions@)[j].kind->FunctionCall_0] is Native),
        {
            proof {
                assert(sview(functions@[i as int]) == sviews(functions@)[i as int]);
            }
            match &functions[i].kind {
                StatementKind::FunctionCall(name, _) => {
                    match host.resolve(module, name) {
                        Ok(handle) => {
                            self.insert_value(
                                name.clone(),
                                Value::NativeFunction(crate::value::Func::new(handle)),
                            );
                        }
                        Err(()) => {
                            return Err(EitherError::NoContext(ErrorKind::LoadError(name.clone())));
                        }
                    }
                }
                _ => {
                    return Err(
                        EitherError::NoContext(
                            ErrorKind::NonFunctionCallInDylib(functions[i].duplicate()),
                        ),
                    );
                }
            }
        }
        Ok(())
    }

    /// Executes one statement against this environment with no native
    /// modules available.
    pub fn execute(&mut self, statement: &Statement) -> (r: Result<(), ErrorWithContext>)
        requires
            old(self).wf(),
        ensures
            final(self).wf(),
            r matches Err(e) ==> exec_partial(statement@, old(self)@, final(self)@, Err(e@)),
            r is Ok ==> exists|c: AbsControl|
                exec_partial(statement@, old(self)@, final(self)@, Ok(c)),
            spec_exec_stmt(statement@, old(self)@, DEFAULT_FUEL as nat) matches Some((m, out))
                ==> final(self)@ == m && (match r {
                Ok(()) => out is Ok,
                Err(e) => out == Err::<AbsControl, AbsCtxErr>(e@),
            }),
    {
        let mut host = NoHost;
        match exec_statement(self, statement, &mut host, DEFAULT_FUEL) {
            Ok(c) => {
                proof {
                    assert(exec_partial(statement@, old(self)@, self@, Ok(cview(c))));
                }
                Ok(())
            }
            Err(e) => Err(e),
        }
    }

    /// Runs a program: the statements in order, stopping at the first
    /// failure, with no native modules available.
    pub fn run(&mut self, statements: &[Statement]) -> (r: Result<(), ErrorWithContext>)
        requires
            old(self).wf(),
        ensures
            final(self).wf(),
            statements@.len() == 0 ==> r is Ok && final(self)@ == old(self)@,
            spec_exec_block(sviews(statements@), old(self)@, DEFAULT_FUEL as nat, 0) matches Some(
                (m, out),
            ) ==> final(self)@ == m && (match r {
                Ok(()) => out is Ok,
                Err(e) => out == Err::<AbsControl, AbsCtxErr>(e@),
            }),
    {
        let mut host = NoHost;
        self.run_with(&mut host, statements)
    }

    /// Runs a program with the given native-module host.
    pub fn run_with<H: NativeHost>(&mut self, host: &mut H, statements: &[Statement]) -> (r:
        Result<(), ErrorWithContext>)
        requires
            old(self).wf(),
        ensures
            final(self).wf(),
            statements@.len() == 0 ==> r is Ok && final(self)@ == old(self)@,
            spec_exec_block(sviews(statements@), old(self)@, DEFAULT_FUEL as nat, 0) matches Some(
                (m, out),
            ) ==> final(self)@ == m && (match r {
                Ok(()) => out is Ok,
                Err(e) => out == Err::<AbsControl, AbsCtxErr>(e@),
            }),
    {
        match run_block(self, statements, host, DEFAULT_FUEL) {
            Ok(_) => Ok(()),
            Err(e) => Err(e),
        }
    }

    /// Calls the function bound to `name` on argument expressions, with no
    /// native modules available.
    pub fn call_function(&self, name: &str, args: &[Expression]) -> (r: SwResult<Value>)
        requires
            self.wf(),
        ensures
            r is Ok ==> self@.contains_key(name@),
            eval_agrees(spec_call(name@, eviews(args@), self@, DEFAULT_FUEL as nat), r),
    {
        let mut host = NoHost;
        call_function_with(self, &mut host, DEFAULT_FUEL, name, args)
    }

    /// Binds `argv` to the list of command-line arguments, each parsed as a
    /// literal of the language where possible and kept as a string where
    /// not.
    pub fn parse_args(&mut self, args: &Vec<String>)
        requires
            old(self).wf(),
        ensures
            final(self).wf(),
            final(self)@.contains_key("argv"@),
            final(self)@ == old(self)@.insert("argv"@, final(self)@["argv"@]),
            final(self)@["argv"@] matches AbsValue::List(vs) && vs.len() == args@.len() && (forall|
                i: int,
            | 0 <= i < vs.len() ==> #[trigger] literal_shape(vs[i])),
    {
        let mut value_args: Vec<Value> = Vec::new();
        let n = args.len();
        for i in 0..n
            invariant
                n == args@.len(),
                value_args@.len() == i,
                forall|j: int|
                    0 <= j < i ==> #[trigger] literal_shape(crate::value::vviews(value_args@)[j]),
        {
            let ghost pre = value_args@;
            let parsed = match crate::grammar::value(args[i].as_str()) {
                Ok(v) => v,
                Err(_) => Value::Str(args[i].clone()),
            };
            proof {
                assert(literal_shape(vview(parsed)));
            }
            value_args.push(parsed);
            proof {
                assert forall|j: int| 0 <= j < i + 1 implies #[trigger] literal_shape(
                    crate::value::vviews(value_args@)[j],
                ) by {
                    assert(crate::value::vviews(value_args@)[j] == vview(value_args@[j]));
                    if j < i {
                        assert(value_args@[j] == pre[j]);
                        assert(crate::value::vviews(pre)[j] == vview(pre[j]));
                        assert(literal_shape(crate::value::vviews(pre)[j]));
                    } else {
                        assert(value_args@[j] == parsed);
                    }
                }
            }
        }
        let ghost va = value_args@;
        let bound = Value::List(value_args);
        let ghost bv = vview(bound);
        self.insert_value("argv".to_owned(), bound);
        proof {
            assert(self@["argv"@] == bv);
            assert(bv == AbsValue::List(crate::value::vviews(va)));
            assert forall|k: int| 0 <= k < crate::value::vviews(va).len() implies #[trigger] literal_shape(
                (self@["argv"@])->List_0[k],
            ) by {
                assert((self@["argv"@])->List_0 == crate::value::vviews(va));
                assert(literal_shape(crate::value::vviews(va)[k]));
            }
        }
    }
}

impl Default for State {
    fn default() -> (r: State)
        ensures
            r@ == Map::<Seq<char>, AbsValue>::empty(),
            r.wf(),
    {
        State::new()
    }
}

/// Evaluates `e` against `state`. Reading the state never changes it; a
/// function call made along the way runs in its own fresh environment.
pub fn eval_expr<H: NativeHost>(e: &Expression, state: &State, host: &mut H, fuel: u64) -> (r:
    SwResult<Value>)
    requires
        state.wf(),
    ensures
        eval_partial(e@, state@, res_view(r)),
        eval_agrees(spec_eval(e@, state@, fuel as nat), r),
    decreases fuel, *e, 2int,
{
    match e {
        Expression::Value(v) => Ok(v.duplicate()),
        Expression::Variable(name) => {
            match state.get(name.as_str()) {
                Ok(v) => Ok(v.duplicate()),
                Err(e) => Err(e),
            }
        }
        Expression::ListLength(name) => {
            let v = match state.get(name.as_str()) {
                Ok(v) => v,
                Err(e) => {
                    return Err(e);
                }
            };
            let l = match v.len() {
                Ok(l) => l,
                Err(e) => {
                    return Err(e);
                }
            };
            Ok(Value::Int(#[verifier::truncate] (l as IntT)))
        }
        Expression::OpExp(left_exp, operator, right_exp) => {
            let left = match eval_expr(left_exp, state, host, fuel) {
                Ok(v) => v,
                Err(e) => {
                    return Err(e);
                }
            };
            let right = match eval_expr(right_exp, state, host, fuel) {
                Ok(v) => v,
                Err(e) => {
                    return Err(e);
                }
            };
            match operator {
                crate::Operator::Add => left.add(&right),
                crate::Operator::Subtract => left.subtract(&right),
                crate::Operator::Multiply => left.multiply(&right),
                crate::Operator::Divide => left.divide(&right),
                crate::Operator::Equality => Ok(left.equals(&right)),
                crate::Operator::LessThan => left.less_than(&right),
                crate::Operator::GreaterThan => left.greater_than(&right),
                crate::Operator::LessThanEqual => left.less_than_equal(&right),
                crate::Operator::GreaterThanEqual => left.greater_than_equal(&right),
                crate::Operator::ShiftLeft => left.shift_left(&right),
                crate::Operator::ShiftRight => left.shift_right(&right),
                crate::Operator::And => left.and(&right),
                crate::Operator::Or => left.or(&right),
                crate::Operator::Modulus => left.modulus(&right),
            }
        }
        Expression::ListIndex(var_name, e1) => {
            state.list_index_with(host, fuel, var_name.as_str(), e1)
        }
        Expression::Not(e1) => {
            let v = match eval_expr(e1, state, host, fuel) {
                Ok(v) => v,
                Err(e) => {
                    return Err(e);
                }
            };
            v.not()
        }
        Expression::Eval(exp) => {
            let inner_val = match eval_expr(exp, state, host, fuel) {
                Ok(v) => v,
                Err(e) => {
                    return Err(e);
                }
            };
            let inner = match &inner_val {
                Value::Str(s) => s,
                _ => {
                    return Err(
                        EitherError::NoContext(
                            ErrorKind::UnexpectedType {
                                expected: Type::Str,
                                actual: inner_val.get_type(),
                            },
                        ),
                    );
                }
            };
            if fuel == 0 {
                return Err(EitherError::NoContext(ErrorKind::RecursionLimit));
            }
            match crate::grammar::expression(inner.as_str()) {
                Ok(inner_parsed) => eval_expr(&inner_parsed, state, host, fuel - 1),
                Err(p) => Err(EitherError::NoContext(ErrorKind::SyntaxError(p))),
            }
        }
        Expression::FunctionCall(name, args) => {
            call_function_with(state, host, fuel, name.as_str(), args.as_slice())
        }
    }
}

/// Evaluates each argument expression in order.
fn eval_args<H: NativeHost>(args: &[Expression], state: &State, host: &mut H, fuel: u64) -> (r:
    SwResult<Vec<Value>>)
    requires
        state.wf(),
    ensures
        r matches Ok(vals) ==> vals@.len() == args@.len(),
        args@.len() == 0 ==> r is Ok,
        args_agrees(spec_eval_args(eviews(args@), state@, fuel as nat, 0), r),
    decreases fuel, args@, 2int,
{
    let ghost ev = eviews(args@);
    let ghost whole = spec_eval_args(eviews(args@), state@, fuel as nat, 0);
    let mut call_args: Vec<Value> = Vec::new();
    let n = args.len();
    proof {
        match spec_eval_args(ev, state@, fuel as nat, 0) {
            Some(Ok(rest)) => {
                assert(crate::value::vviews(call_args@) + rest =~= rest);
            }
            _ => {}
        }
    }
    for i in 0..n
        invariant
            n == args@.len(),
            ev == eviews(args@),
            whole == spec_eval_args(ev, state@, fuel as nat, 0),
            call_args@.len() == i,
            state.wf(),
            whole matches Some(o) ==> (match spec_eval_args(ev, state@, fuel as nat, i as int) {
                None => false,
                Some(Err(e)) => o == Err::<Seq<AbsValue>, AbsEither>(e),
                Some(Ok(rest)) => o == Ok::<Seq<AbsValue>, AbsEither>(
                    crate::value::vviews(call_args@) + rest,
                ),
            }),
    {
        proof {
            assert(eview(args@[i as int]) == ev[i as int]);
        }
        let ghost pre = call_args@;
        let v = match eval_expr(&args[i], state, host, fuel) {
            Ok(v) => v,
            Err(e) => {
                return Err(e);
            }
        };
        call_args.push(v);
        proof {
            assert(call_args@.drop_last() =~= pre);
            match spec_eval_args(ev, state@, fuel as nat, i + 1 as int) {
                None => {}
                Some(Err(e)) => {}
                Some(Ok(rest)) => {
                    assert(crate::value::vviews(call_args@) + rest =~= crate::value::vviews(pre)
                        + (seq![vview(v)] + rest));
                }
            }
        }
    }
    proof {
        assert(crate::value::vviews(call_args@) + Seq::<AbsValue>::empty() =~= crate::value::vviews(
            call_args@,
        ));
    }
    Ok(call_args)
}

/// Calls the function bound to `name` on the given argument expressions:
/// the arguments are evaluated first, left to right, then the call is
/// dispatched on what the name is bound to.
pub fn call_function_with<H: NativeHost>(
    state: &State,
    host: &mut H,
    fuel: u64,
    name: &str,
    args: &[Expression],
) -> (r: SwResult<Value>)
    requires
        state.wf(),
    ensures
        r is Ok ==> state@.contains_key(name@),
        args@.len() == 0 && !state@.contains_key(name@) ==> (r matches Err(e) && e@
            == AbsEither::NoContext(AbsErr::UnknownVariable(name@))),
        eval_agrees(spec_call(name@, eviews(args@), state@, fuel as nat), r),
    decreases fuel, args@, 3int,
{
    let call_args = match eval_args(args, state, host, fuel) {
        Ok(vals) => vals,
        Err(e) => {
            return Err(e);
        }
    };
    let callee = match state.get(name) {
        Ok(v) => v,
        Err(e) => {
            return Err(e);
        }
    };
    if fuel == 0 {
        return Err(EitherError::NoContext(ErrorKind::RecursionLimit));
    }
    apply_callable(name, callee, call_args, host, fuel - 1)
}

/// Applies an already looked-up callable to already evaluated arguments. A
/// user function must take exactly as many arguments as it has parameters,
/// runs in a fresh environment holding only those bindings, and must leave a
/// pending return value. Anything else bound to the name, short of a native
/// callable, is the wrong type.
pub fn apply_callable<H: NativeHost>(
    name: &str,
    callee: &Value,
    args: Vec<Value>,
    host: &mut H,
    fuel: u64,
) -> (r: SwResult<Value>)
    ensures
        (match callee@ {
            AbsValue::Function(p, _) => p.len() != args@.len() ==> (r matches Err(e) && e@
                == AbsEither::NoContext(
                AbsErr::InvalidArguments(name@, args@.len() as usize, p.len() as usize),
            )),
            _ => true,
        }),
        !(callee@ is Function) && !(callee@ is Native) ==> (r matches Err(e) && e@
            == AbsEither::NoContext(
            AbsErr::UnexpectedType { expected: Type::Function, actual: type_of(callee@) },
        )),
        eval_agrees(spec_apply(name@, callee@, crate::value::vviews(args@), fuel as nat), r),
    decreases fuel, *callee, 0int,
{
    match callee {
        Value::NativeFunction(f) => {
            let handle = f.handle();
            host.call_native(handle, args)
        }
        Value::Function(params, body) => {
            if args.len() != params.len() {
                return Err(
                    EitherError::NoContext(
                        ErrorKind::InvalidArguments(name.to_owned(), args.len(), params.len()),
                    ),
                );
            }
            let ghost p0 = crate::statement::strviews(params@);
            let ghost v0 = crate::value::vviews(args@);
            let mut child_state = State::new();
            let mut rest = args;
            let mut i: usize = 0;
            let n = params.len();
            proof {
                assert(crate::value::vviews(rest@) =~= v0.subrange(0, n as int));
                assert(p0.subrange(0, 0) =~= Seq::<Seq<char>>::empty());
                assert(v0.subrange(0, 0) =~= Seq::<AbsValue>::empty());
            }
            while i < n
                invariant
                    n == params@.len(),
                    p0 == crate::statement::strviews(params@),
                    v0.len() == n,
                    rest@.len() == n - i,
                    i <= n,
                    crate::value::vviews(rest@) =~= v0.subrange(i as int, n as int),
                    child_state.wf(),
                    child_state@ == bind_params(
                        p0.subrange(0, i as int),
                        v0.subrange(0, i as int),
                    ),
                decreases n - i,
            {
                let ghost pre_rest = rest@;
                let val = rest.remove(0);
                proof {
                    assert(vview(val) == crate::value::vviews(pre_rest)[0]);
                    assert forall|j: int| 0 <= j < rest@.len() implies crate::value::vviews(
                        rest@,
                    )[j] == v0.subrange(i + 1 as int, n as int)[j] by {
                        assert(rest@[j] == pre_rest[j + 1]);
                        assert(crate::value::vviews(pre_rest)[j + 1] == vview(pre_rest[j + 1]));
                        assert(crate::value::vviews(rest@)[j] == vview(rest@[j]));
                    }
                    assert(crate::value::vviews(rest@) =~= v0.subrange(i + 1 as int, n as int));
                    assert(p0.subrange(0, i + 1 as int).drop_last() =~= p0.subrange(0, i as int));
                    assert(v0.subrange(0, i + 1 as int).drop_last() =~= v0.subrange(0, i as int));
                }
                child_state.insert_value(params[i].clone(), val);
                i = i + 1;
            }
            proof {
                assert(p0.subrange(0, n as int) =~= p0);
                assert(v0.subrange(0, n as int) =~= v0);
            }
            match run_block(&mut child_state, body.as_slice(), host, fuel) {
                Ok(Control::Return(val)) => Ok(val),
                Ok(Control::Continue) => Err(
                    EitherError::NoContext(ErrorKind::NoReturn(name.to_owned())),
                ),
                Err(e) => Err(EitherError::WithContext(e)),
            }
        }
        _ => Err(
            EitherError::NoContext(
                ErrorKind::UnexpectedType { expected: Type::Function, actual: callee.get_type() },
            ),
        ),
    }
}

/// Runs the statements in order. The first failure aborts the block; a
/// pending return stops it immediately and is handed up unchanged.
#[verifier::loop_isolation(false)]
pub fn run_block<H: NativeHost>(
    state: &mut State,
    statements: &[Statement],
    host: &mut H,
    fuel: u64,
) -> (r: Result<Control, ErrorWithContext>)
    requires
        old(state).wf(),
    ensures
        final(state).wf(),
        statements@.len() == 0 ==> (r matches Ok(c) && c is Continue && final(state)@ == old(
            state,
        )@),
        exec_agrees(
            spec_exec_block(sviews(statements@), old(state)@, fuel as nat, 0),
            final(state)@,
            r,
        ),
    decreases fuel, statements@, 1int,
{
    if statements.is_empty() {
        return Ok(Control::Continue);
    }
    let ghost sv = sviews(statements@);
    let ghost whole = spec_exec_block(sviews(statements@), old(state)@, fuel as nat, 0);
    let n = statements.len();
    for i in 0..n
        invariant
            n == statements@.len(),
            sv == sviews(statements@),
            whole == spec_exec_block(sv, old(state)@, fuel as nat, 0),
            state.wf(),
            whole matches Some(o) ==> spec_exec_block(sv, state@, fuel as nat, i as int) == Some(
                o,
            ),
    {
        proof {
            assert(sview(statements@[i as int]) == sv[i as int]);
        }
        match exec_statement(state, &statements[i], host, fuel) {
            Ok(Control::Continue) => {}
            Ok(Control::Return(v)) => {
                return Ok(Control::Return(v));
            }
            Err(e) => {
                return Err(e);
            }
        }
    }
    Ok(Control::Continue)
}

/// Executes one statement. Every error leaving here carries the statement
/// it arose in: an error raised by this statement's own work gets this
/// statement attached, one arriving from an inner statement keeps its own.
#[verifier::loop_isolation(false)]
#[verifier::rlimit(100)]
#[verifier::spinoff_prover]
pub fn exec_statement<H: NativeHost>(
    state: &mut State,
    statement: &Statement,
    host: &mut H,
    fuel: u64,
) -> (r: Result<Control, ErrorWithContext>)
    requires
        old(state).wf(),
    ensures
        final(state).wf(),
        exec_partial(
            statement@,
            old(state)@,
            final(state)@,
            match r {
                Ok(c) => Ok(cview(c)),
                Err(e) => Err(e@),
            },
        ),
        exec_agrees(spec_exec_stmt(statement@, old(state)@, fuel as nat), final(state)@, r),
    decreases fuel, *statement, 9int,
{
    match &statement.kind {
        StatementKind::Input(s) => {
            match crate::io::read_input_line() {
                Ok(line) => {
                    state.insert_value(s.clone(), Value::Str(line));
                    proof {
                        assert(state@.contains_key(s@) && state@[s@] is Str);
                        assert(state@ == old(state)@.insert(s@, state@[s@]));
                        assert(exec_partial(
                            statement@,
                            old(state)@,
                            state@,
                            Ok(AbsControl::Continue),
                        ));
                    }
                    Ok(Control::Continue)
                }
                Err(()) => Err(ErrorWithContext::new(ErrorKind::IOError, statement.duplicate())),
            }
        }
        StatementKind::Assignment(name, value) => {
            let v = match eval_expr(value, state, host, fuel) {
                Ok(v) => v,
                Err(e) => {
                    return Err(attach(e, statement));
                }
            };
            let ghost gv = vview(v);
            state.insert_value(name.clone(), v);
            proof {
                lemma_assign_partial(statement@, old(state)@, state@, name@, eview(*value), gv);
            }
            Ok(Control::Continue)
        }
        StatementKind::Delete(name) => {
            match state.delete(name.as_str()) {
                Ok(()) => Ok(Control::Continue),
                Err(e) => Err(attach(e, statement)),
            }
        }
        StatementKind::ListNew(s) => {
            let empty: Vec<Value> = Vec::new();
            proof {
                assert(crate::value::vviews(empty@) =~= Seq::<AbsValue>::empty());
                assert(vview(Value::List(empty)) == AbsValue::List(Seq::empty()));
            }
            state.insert_value(s.clone(), Value::List(empty));
            Ok(Control::Continue)
        }
        StatementKind::Function(name, args, body) => {
            let params = crate::value::dup_strings(args);
            let fbody = crate::statement::dup_statements(body);
            state.insert_value(name.clone(), Value::Function(params, fbody));
            Ok(Control::Continue)
        }
        StatementKind::Print(exp) => {
            match eval_expr(exp, state, host, fuel) {
                Ok(v) => {
                    v.println();
                    Ok(Control::Continue)
                }
                Err(e) => Err(attach(e, statement)),
            }
        }
        StatementKind::PrintNoNl(exp) => {
            match eval_expr(exp, state, host, fuel) {
                Ok(v) => {
                    v.print();
                    Ok(Control::Continue)
                }
                Err(e) => Err(attach(e, statement)),
            }
        }
        StatementKind::Return(expr) => {
            match eval_expr(expr, state, host, fuel) {
                Ok(v) => Ok(Control::Return(v)),
                Err(e) => Err(attach(e, statement)),
            }
        }
        StatementKind::ListAppend(s, append_exp) => {
            let v = match eval_expr(append_exp, state, host, fuel) {
                Ok(v) => v,
                Err(e) => {
                    return Err(attach(e, statement));
                }
            };
            match state.list_append_value(s.as_str(), v) {
                Ok(()) => {
                    proof {
                        assert(exists|av: AbsValue|
                            #[trigger] spec_list_append(old(state)@, s@, av) == Ok::<
                                Map<Seq<char>, AbsValue>,
                                AbsErr,
                            >(state@));
                    }
                    Ok(Control::Continue)
                }
                Err(e) => Err(attach(e, statement)),
            }
        }
        StatementKind::ListAssign(s, index_exp, assign_exp) => {
            let to_assign = match eval_expr(assign_exp, state, host, fuel) {
                Ok(v) => v,
                Err(e) => {
                    return Err(attach(e, statement));
                }
            };
            let idx_val = match eval_expr(index_exp, state, host, fuel) {
                Ok(v) => v,
                Err(e) => {
                    return Err(attach(e, statement));
                }
            };
            let i = match idx_val {
                Value::Int(i) => i,
                other => {
                    return Err(
                        ErrorWithContext::new(
                            ErrorKind::UnexpectedType {
                                expected: Type::Int,
                                actual: other.get_type(),
                            },
                            statement.duplicate(),
                        ),
                    );
                }
            };
            match state.list_assign_value(s.as_str(), i, to_assign) {
                Ok(()) => {
                    proof {
                        assert(exists|j: IntT, av: AbsValue|
                            #[trigger] spec_list_assign(old(state)@, s@, j, av) == Ok::<
                                Map<Seq<char>, AbsValue>,
                                AbsErr,
                            >(state@));
                    }
                    Ok(Control::Continue)
                }
                Err(e) => Err(attach(e, statement)),
            }
        }
        StatementKind::ListDelete(name, idx) => {
            let idx_val = match eval_expr(idx, state, host, fuel) {
                Ok(v) => v,
                Err(e) => {
                    return Err(attach(e, statement));
                }
            };
            let i = match idx_val {
                Value::Int(i) => i,
                other => {
                    return Err(
                        ErrorWithContext::new(
                            ErrorKind::UnexpectedType {
                                expected: Type::Int,
                                actual: other.get_type(),
                            },
                            statement.duplicate(),
                        ),
                    );
                }
            };
            match state.list_delete_value(name.as_str(), i) {
                Ok(()) => {
                    proof {
                        assert(exists|j: IntT|
                            #[trigger] spec_list_delete(old(state)@, name@, j) == Ok::<
                                Map<Seq<char>, AbsValue>,
                                AbsErr,
                            >(state@));
                    }
                    Ok(Control::Continue)
                }
                Err(e) => Err(attach(e, statement)),
            }
        }
        StatementKind::If(cond, if_body, else_body) => {
            let c = match eval_expr(cond, state, host, fuel) {
                Ok(v) => v,
                Err(e) => {
                    return Err(attach(e, statement));
                }
            };
            match c {
                Value::Bool(b) => {
                    if b {
                        run_block(state, if_body.as_slice(), host, fuel)
                    } else {
                        match else_body {
                            Some(els) => run_block(state, els.as_slice(), host, fuel),
                            None => Ok(Control::Continue),
                        }
                    }
                }
                _ => Err(
                    ErrorWithContext::new(
                        ErrorKind::UnexpectedType { expected: Type::Bool, actual: c.get_type() },
                        statement.duplicate(),
                    ),
                ),
            }
        }
        StatementKind::While(cond, body) => {
            let mut steps = fuel;
            proof {
                assert(spec_exec_stmt(statement@, old(state)@, fuel as nat) == spec_while(
                    statement@,
                    old(state)@,
                    fuel as nat,
                    fuel as nat,
                ));
            }
            loop
                invariant
                    state.wf(),
                    spec_exec_stmt(statement@, old(state)@, fuel as nat) matches Some(o)
                        ==> spec_while(statement@, state@, fuel as nat, steps as nat) == Some(o),
                decreases steps,
            {
                let c = match eval_expr(cond, state, host, fuel) {
                    Ok(v) => v,
                    Err(e) => {
                        return Err(attach(e, statement));
                    }
                };
                let go = match c {
                    Value::Bool(b) => b,
                    _ => {
                        return Err(
                            ErrorWithContext::new(
                                ErrorKind::UnexpectedType {
                                    expected: Type::Bool,
                                    actual: c.get_type(),
                                },
                                statement.duplicate(),
                            ),
                        );
                    }
                };
                if !go {
                    return Ok(Control::Continue);
                }
                match run_block(state, body.as_slice(), host, fuel) {
                    Ok(Control::Continue) => {}
                    Ok(Control::Return(v)) => {
                        return Ok(Control::Return(v));
                    }
                    Err(e) => {
                        return Err(e);
                    }
                }
                if steps == 0 {
                    return Err(
                        ErrorWithContext::new(ErrorKind::RecursionLimit, statement.duplicate()),
                    );
                }
                steps = steps - 1;
            }
        }
        StatementKind::Catch(try_block, catch) => {
            match run_block(state, try_block.as_slice(), host, fuel) {
                Err(_) => run_block(state, catch.as_slice(), host, fuel),
                Ok(c) => Ok(c),
            }
        }
        StatementKind::FunctionCall(name, args) => {
            match call_function_with(state, host, fuel, name.as_str(), args.as_slice()) {
                Ok(_) => Ok(Control::Continue),
                Err(e) => Err(attach(e, statement)),
            }
        }
        StatementKind::DylibLoad(lib_path, functions) => {
            match state.dylib_load(host, lib_path, functions) {
                Ok(()) => Ok(Control::Continue),
                Err(e) => Err(attach(e, statement)),
            }
        }
    }
}

proof fn lemma_assign_partial(
    stmt: AbsStmt,
    o: Map<Seq<char>, AbsValue>,
    nn: Map<Seq<char>, AbsValue>,
    n: Seq<char>,
    e: AbsExpr,
    gv: AbsValue,
)
    requires
        stmt.kind == AbsKind::Assignment(n, e),
        nn == o.insert(n, gv),
        e matches AbsExpr::Value(av) ==> gv == av,
    ensures
        exec_partial(stmt, o, nn, Ok(AbsControl::Continue)),
{
    let r: Result<AbsControl, AbsCtxErr> = Ok(AbsControl::Continue);
    assert(r matches Ok(c) ==> c is Continue && exists|av: AbsValue|
        nn == #[trigger] o.insert(n, av));
    assert(e matches AbsExpr::Value(av) ==> r == Ok::<AbsControl, AbsCtxErr>(
        AbsControl::Continue,
    ) && nn == o.insert(n, av));
    assert(stmt.kind->Assignment_0 == n && stmt.kind->Assignment_1 == e);
    assert(exec_partial(stmt, o, nn, r));
}

/// Gives an error the statement it arose in, unless it already carries one.
fn attach(e: EitherError, statement: &Statement) -> (r: ErrorWithContext)
    ensures
        r@ == wrap_err(e@, statement@),
{
    match e {
        EitherError::NoContext(k) => ErrorWithContext::new(k, statement.duplicate()),
        EitherError::WithContext(c) => c,
    }
}

impl Expression {
    /// Evaluates this expression against `state` with no native modules
    /// available.
    pub fn evaluate(&self, state: &State) -> (r: SwResult<Value>)
        requires
            state.wf(),
        ensures
            eval_partial(self@, state@, res_view(r)),
            eval_agrees(spec_eval(self@, state@, DEFAULT_FUEL as nat), r),
    {
        let mut host = NoHost;
        eval_expr(self, state, &mut host, DEFAULT_FUEL)
    }

    /// Evaluates this expression and insists on a boolean.
    pub fn try_bool(&self, state: &State) -> (r: SwResult<bool>)
        requires
            state.wf(),
        ensures
            self@ matches AbsExpr::Value(av) ==> match av {
                AbsValue::Bool(b) => r matches Ok(x) && x == b,
                _ => r is Err,
            },
            spec_eval(self@, state@, DEFAULT_FUEL as nat) matches Some(out) ==> (match out {
                Ok(AbsValue::Bool(b)) => r matches Ok(x) && x == b,
                Ok(_) => r is Err,
                Err(e) => r matches Err(er) && er@ == e,
            }),
    {
        let value = match self.evaluate(state) {
            Ok(v) => v,
            Err(e) => {
                return Err(e);
            }
        };
        match value {
            Value::Bool(x) => Ok(x),
            other => Err(
                EitherError::NoContext(
                    ErrorKind::UnexpectedType { expected: Type::Bool, actual: other.get_type() },
                ),
            ),
        }
    }

    /// Evaluates this expression and insists on an integer.
    pub fn try_int(&self, state: &State) -> (r: SwResult<IntT>)
        requires
            state.wf(),
        ensures
            self@ matches AbsExpr::Value(av) ==> match av {
                AbsValue::Int(i) => r matches Ok(x) && x == i,
                _ => r is Err,
            },
            spec_eval(self@, state@, DEFAULT_FUEL as nat) matches Some(out) ==> (match out {
                Ok(AbsValue::Int(i)) => r matches Ok(x) && x == i,
                Ok(_) => r is Err,
                Err(e) => r matches Err(er) && er@ == e,
            }),
    {
        let value = match self.evaluate(state) {
            Ok(v) => v,
            Err(e) => {
                return Err(e);
            }
        };
        match value {
            Value::Int(x) => Ok(x),
            other => Err(
                EitherError::NoContext(
                    ErrorKind::UnexpectedType { expected: Type::Int, actual: other.get_type() },
                ),
            ),
        }
    }
}

} // verus!

verus! {

/// Assigning a value to a variable and immediately reading it back yields
/// that value: after an environment takes the binding `name := v`, looking
/// `name` up finds exactly `v`. Together with the contracts of `assign` and
/// `get`, this is the round trip a program sees.
pub proof fn lemma_assign_get_round_trip(
    st: Map<Seq<char>, AbsValue>,
    name: Seq<char>,
    v: AbsValue,
)
    ensures
        st.insert(name, v).contains_key(name),
        st.insert(name, v)[name] == v,
{
}

/// Indexing a list of length `n`: every index below `n` yields that element
/// of the list, and every index at `n` or beyond yields the out-of-bounds
/// error carrying the list's length and the index.
pub proof fn lemma_list_index_bounds(
    st: Map<Seq<char>, AbsValue>,
    name: Seq<char>,
    l: Seq<AbsValue>,
    i: IntT,
)
    requires
        st.contains_key(name),
        st[name] == AbsValue::List(l),
        i >= 0,
        i as int == (i as usize) as int,
    ensures
        (i as usize) < l.len() ==> spec_index(st, name, AbsValue::Int(i)) == Ok::<
            AbsValue,
            AbsErr,
        >(l[i as int]),
        (i as usize) >= l.len() ==> spec_index(st, name, AbsValue::Int(i)) == Err::<
            AbsValue,
            AbsErr,
        >(AbsErr::IndexOutOfBounds { len: l.len() as usize, index: i as usize }),
{
}

} // verus!
