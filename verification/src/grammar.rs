use vstd::prelude::*;
use vstd::string::StrSliceExecFns;
use crate::expression::Expression;
use crate::statement::{Statement, StatementKind};
use crate::value::{string_parse, IntT, Value};
use crate::Operator;

verus! {

broadcast use vstd::std_specs::vec::group_vec_axioms;

/// Position of a parse failure inside the source text. `line` and `column`
/// are 1-based; `offset` is the 0-based character index the parser stopped
/// at.
#[derive(Debug, Clone, Copy, PartialEq, Eq, Structural)]
pub struct ParseError {
    pub line: usize,
    pub column: usize,
    pub offset: usize,
}

/// The characters of a piece of source text.
pub fn chars_of(s: &str) -> (r: Vec<char>)
    ensures
        r@ == s@,
{
    let n = s.unicode_len();
    let mut r: Vec<char> = Vec::new();
    for i in 0..n
        invariant
            n == s@.len(),
            r@ =~= s@.subrange(0, i as int),
    {
        r.push(s.get_char(i));
    }
    proof {
        assert(s@.subrange(0, n as int) =~= s@);
    }
    r
}

/// The 1-based line and column of a character offset: lines are counted by
/// the line breaks before the offset, the column from the last of them.
fn line_col(src: &Vec<char>, offset: usize) -> (r: (usize, usize))
    requires
        offset <= src@.len(),
    ensures
        r.0 >= 1,
        r.1 >= 1,
{
    let mut line: usize = 1;
    let mut col: usize = 1;
    for i in 0..offset
        invariant
            offset <= src@.len(),
            line >= 1,
            col >= 1,
            line <= i + 1,
            col <= i + 1,
    {
        if src[i] == '\n' {
            if line < usize::MAX {
                line = line + 1;
            }
            col = 1;
        } else {
            if col < usize::MAX {
                col = col + 1;
            }
        }
    }
    (line, col)
}

fn fail_at(src: &Vec<char>, offset: usize) -> (r: ParseError)
    requires
        offset <= src@.len(),
{
    let lc = line_col(src, offset);
    ParseError { line: lc.0, column: lc.1, offset }
}

/// Matches the literal `lit` at `pos`, giving the position after it.
fn match_lit(src: &Vec<char>, pos: usize, lit: &str) -> (r: Option<usize>)
    ensures
        r matches Some(np) ==> pos <= np <= src@.len() && np == pos + lit@.len(),
{
    let k = lit.unicode_len();
    let n = src.len();
    if k > n || pos > n - k {
        return None;
    }
    for i in 0..k
        invariant
            k == lit@.len(),
            n == src@.len(),
            pos + k <= n,
            i <= k,
    {
        if src[pos + i] != lit.get_char(i) {
            return None;
        }
    }
    Some(pos + k)
}

fn is_space(c: char) -> (r: bool) {
    c == ' ' || c == '\t'
}

fn is_digit(c: char) -> (r: bool)
    ensures
        r == ('0' <= c <= '9'),
{
    '0' <= c && c <= '9'
}

fn is_ident_start(c: char) -> (r: bool) {
    ('a' <= c && c <= 'z') || ('A' <= c && c <= 'Z') || c == '_'
}

fn is_ident_char(c: char) -> (r: bool) {
    is_ident_start(c) || is_digit(c)
}

/// Skips spaces and tabs.
fn skip_ws(src: &Vec<char>, pos: usize) -> (np: usize)
    requires
        pos <= src@.len(),
    ensures
        pos <= np <= src@.len(),
{
    let mut p = pos;
    while p < src.len() && is_space(src[p])
        invariant
            pos <= p <= src@.len(),
        decreases src@.len() - p,
    {
        p = p + 1;
    }
    p
}

/// At least one space or tab, then any more.
fn need_ws(src: &Vec<char>, pos: usize) -> (r: Option<usize>)
    requires
        pos <= src@.len(),
    ensures
        r matches Some(np) ==> pos < np <= src@.len(),
{
    if pos < src.len() && is_space(src[pos]) {
        Some(skip_ws(src, pos + 1))
    } else {
        None
    }
}

/// One line break, optionally preceded by spaces.
fn p_newline(src: &Vec<char>, pos: usize) -> (r: Option<usize>)
    requires
        pos <= src@.len(),
    ensures
        r matches Some(np) ==> pos < np <= src@.len(),
{
    let p = skip_ws(src, pos);
    if p < src.len() && src[p] == '\n' {
        Some(p + 1)
    } else if p < src.len() && src[p] == '\r' && p + 1 < src.len() && src[p + 1] == '\n' {
        Some(p + 2)
    } else {
        None
    }
}

fn skip_newlines(src: &Vec<char>, pos: usize) -> (np: usize)
    requires
        pos <= src@.len(),
    ensures
        pos <= np <= src@.len(),
{
    let mut p = pos;
    loop
        invariant
            pos <= p <= src@.len(),
        ensures
            pos <= p <= src@.len(),
        decreases src@.len() - p,
    {
        match p_newline(src, p) {
            Some(np) => {
                p = np;
            }
            None => {
                break;
            }
        }
    }
    p
}

/// A name: a letter or underscore, then letters, digits and underscores.
fn p_identifier(src: &Vec<char>, pos: usize) -> (r: Option<(String, usize)>)
    requires
        pos <= src@.len(),
    ensures
        r matches Some(t) ==> pos < t.1 <= src@.len(),
{
    if pos >= src.len() || !is_ident_start(src[pos]) {
        return None;
    }
    let mut name = String::new();
    crate::value::push_char(&mut name, src[pos]);
    let mut p = pos + 1;
    while p < src.len() && is_ident_char(src[p])
        invariant
            pos < p <= src@.len(),
        decreases src@.len() - p,
    {
        crate::value::push_char(&mut name, src[p]);
        p = p + 1;
    }
    Some((name, p))
}

/// The numeric value of a digit sequence.
pub open spec fn digits_val(s: Seq<char>) -> int
    decreases s.len(),
{
    if s.len() == 0 {
        0
    } else {
        digits_val(s.drop_last()) * 10 + (s.last() as int - 48)
    }
}

/// An integer literal at `pos`: an optional minus sign, then digits. The
/// parse fails when the digits name a number outside the integer range.
fn p_int(src: &Vec<char>, pos: usize) -> (r: Option<(IntT, usize)>)
    requires
        pos <= src@.len(),
    ensures
        r matches Some(t) ==> pos < t.1 <= src@.len() && {
            let digits = src@.subrange(
                if src@[pos as int] == '-' {
                    pos + 1
                } else {
                    pos as int
                },
                t.1 as int,
            );
            t.0 as int == if src@[pos as int] == '-' {
                -digits_val(digits)
            } else {
                digits_val(digits)
            }
        },
{
    let mut p = pos;
    let mut neg = false;
    if p < src.len() && src[p] == '-' {
        neg = true;
        p = p + 1;
    }
    let ghost dstart = p as int;
    if p >= src.len() || !is_digit(src[p]) {
        return None;
    }
    // Accumulate negated, so that the least integer is reachable.
    let mut acc: IntT = 0;
    proof {
        assert(src@.subrange(dstart, dstart) =~= Seq::<char>::empty());
    }
    while p < src.len() && is_digit(src[p])
        invariant
            0 <= dstart <= p <= src@.len(),
            acc <= 0,
            acc as int == -digits_val(src@.subrange(dstart, p as int)),
        decreases src@.len() - p,
    {
        let d = (src[p] as u32) as IntT - 48;
        let step = match acc.checked_mul(10) {
            Some(x) => x,
            None => {
                return None;
            }
        };
        let next = match step.checked_sub(d) {
            Some(x) => x,
            None => {
                return None;
            }
        };
        proof {
            let full = src@.subrange(dstart, p as int + 1);
            assert(full.drop_last() =~= src@.subrange(dstart, p as int));
            assert(full.last() == src@[p as int]);
            assert(digits_val(full) == digits_val(full.drop_last()) * 10 + (src@[p as int] as int
                - 48));
        }
        acc = next;
        p = p + 1;
    }
    if neg {
        Some((acc, p))
    } else {
        if acc == IntT::MIN {
            return None;
        }
        Some((-acc, p))
    }
}

/// A string literal at `pos`: text in double quotes, escapes applied.
fn p_string(src: &Vec<char>, pos: usize) -> (r: Option<(String, usize)>)
    requires
        pos <= src@.len(),
    ensures
        r matches Some(t) ==> pos < t.1 <= src@.len(),
{
    if pos >= src.len() || src[pos] != '"' {
        return None;
    }
    let mut p = pos + 1;
    let mut raw = String::new();
    while p < src.len() && src[p] != '"'
        invariant
            pos < p <= src@.len(),
        decreases src@.len() - p,
    {
        crate::value::push_char(&mut raw, src[p]);
        p = p + 1;
    }
    if p >= src.len() {
        return None;
    }
    Some((string_parse(raw.as_str()), p + 1))
}

/// A literal value at `pos`: an integer, a string, or one of the two
/// boolean keywords.
fn p_value(src: &Vec<char>, pos: usize) -> (r: Option<(Value, usize)>)
    requires
        pos <= src@.len(),
    ensures
        r matches Some(t) ==> pos < t.1 <= src@.len() && (t.0 is Int || t.0 is Str
            || t.0 is Bool),
{
    match p_int(src, pos) {
        Some((i, np)) => {
            return Some((Value::Int(i), np));
        }
        None => {}
    }
    match p_string(src, pos) {
        Some((s, np)) => {
            return Some((Value::Str(s), np));
        }
        None => {}
    }
    match match_lit(src, pos, "rick") {
        Some(np) => {
            proof {
                reveal_strlit("rick");
            }
            return Some((Value::Bool(true), np));
        }
        None => {}
    }
    match match_lit(src, pos, "morty") {
        Some(np) => {
            proof {
                reveal_strlit("morty");
            }
            return Some((Value::Bool(false), np));
        }
        None => {}
    }
    None
}

/// An operator name at `pos`.
fn p_operator(src: &Vec<char>, pos: usize) -> (r: Option<(Operator, usize)>)
    requires
        pos <= src@.len(),
    ensures
        r matches Some(t) ==> pos < t.1 <= src@.len(),
{
    proof {
        reveal_strlit("+");
        reveal_strlit("-");
        reveal_strlit("*");
        reveal_strlit("/");
        reveal_strlit("==");
        reveal_strlit("%");
        reveal_strlit("moresquanch");
        reveal_strlit("lesssquanch");
        reveal_strlit("more");
        reveal_strlit("less");
        reveal_strlit("schwift>");
        reveal_strlit("<schwift");
        reveal_strlit("or");
        reveal_strlit("and");
    }
    match match_lit(src, pos, "+") {
        Some(np) => {
            return Some((Operator::Add, np));
        }
        None => {}
    }
    match match_lit(src, pos, "-") {
        Some(np) => {
            return Some((Operator::Subtract, np));
        }
        None => {}
    }
    match match_lit(src, pos, "*") {
        Some(np) => {
            return Some((Operator::Multiply, np));
        }
        None => {}
    }
    match match_lit(src, pos, "/") {
        Some(np) => {
            return Some((Operator::Divide, np));
        }
        None => {}
    }
    match match_lit(src, pos, "==") {
        Some(np) => {
            return Some((Operator::Equality, np));
        }
        None => {}
    }
    match match_lit(src, pos, "%") {
        Some(np) => {
            return Some((Operator::Modulus, np));
        }
        None => {}
    }
    match match_lit(src, pos, "moresquanch") {
        Some(np) => {
            return Some((Operator::GreaterThanEqual, np));
        }
        None => {}
    }
    match match_lit(src, pos, "lesssquanch") {
        Some(np) => {
            return Some((Operator::LessThanEqual, np));
        }
        None => {}
    }
    match match_lit(src, pos, "more") {
        Some(np) => {
            return Some((Operator::GreaterThan, np));
        }
        None => {}
    }
    match match_lit(src, pos, "less") {
        Some(np) => {
            return Some((Operator::LessThan, np));
        }
        None => {}
    }
    match match_lit(src, pos, "schwift>") {
        Some(np) => {
            return Some((Operator::ShiftRight, np));
        }
        None => {}
    }
    match match_lit(src, pos, "<schwift") {
        Some(np) => {
            return Some((Operator::ShiftLeft, np));
        }
        None => {}
    }
    match match_lit(src, pos, "or") {
        Some(np) => {
            return Some((Operator::Or, np));
        }
        None => {}
    }
    match match_lit(src, pos, "and") {
        Some(np) => {
            return Some((Operator::And, np));
        }
        None => {}
    }
    None
}

/// An expression at `pos`: a braced dynamic evaluation, a parenthesised
/// operator expression or subexpression, or a simple expression.
fn p_expression(src: &Vec<char>, pos: usize) -> (r: Option<(Expression, usize)>)
    requires
        pos <= src@.len(),
    ensures
        r matches Some(t) ==> pos < t.1 <= src@.len(),
    decreases src@.len() - pos, 2int,
{
    proof {
        reveal_strlit("{");
        reveal_strlit("}");
        reveal_strlit("(");
        reveal_strlit(")");
    }
    match match_lit(src, pos, "{") {
        Some(p1) => {
            let p2 = skip_ws(src, p1);
            match p_expression(src, p2) {
                Some((e, p3)) => {
                    let p4 = skip_ws(src, p3);
                    match match_lit(src, p4, "}") {
                        Some(p5) => {
                            return Some((Expression::Eval(Box::new(e)), p5));
                        }
                        None => {}
                    }
                }
                None => {}
            }
        }
        None => {}
    }
    match match_lit(src, pos, "(") {
        Some(p1) => {
            let p2 = skip_ws(src, p1);
            match p_expression(src, p2) {
                Some((e1, p3)) => {
                    let p4 = skip_ws(src, p3);
                    match p_operator(src, p4) {
                        Some((op, p5)) => {
                            let p6 = skip_ws(src, p5);
                            match p_expression(src, p6) {
                                Some((e2, p7)) => {
                                    let p8 = skip_ws(src, p7);
                                    match match_lit(src, p8, ")") {
                                        Some(p9) => {
                                            return Some(
                                                (
                                                    Expression::OpExp(
                                                        Box::new(e1),
                                                        op,
                                                        Box::new(e2),
                                                    ),
                                                    p9,
                                                ),
                                            );
                                        }
                                        None => {}
                                    }
                                }
                                None => {}
                            }
                        }
                        None => {}
                    }
                }
                None => {}
            }
            let q2 = skip_ws(src, p1);
            match p_expression1(src, q2) {
                Some((e, q3)) => {
                    let q4 = skip_ws(src, q3);
                    match match_lit(src, q4, ")") {
                        Some(q5) => {
                            return Some((e, q5));
                        }
                        None => {}
                    }
                }
                None => {}
            }
        }
        None => {}
    }
    p_expression1(src, pos)
}

/// A simple expression: indexing, a call, a literal, a length query, a
/// variable, or a negation.
fn p_expression1(src: &Vec<char>, pos: usize) -> (r: Option<(Expression, usize)>)
    requires
        pos <= src@.len(),
    ensures
        r matches Some(t) ==> pos < t.1 <= src@.len(),
    decreases src@.len() - pos, 1int,
{
    proof {
        reveal_strlit("[");
        reveal_strlit("]");
        reveal_strlit("!");
        reveal_strlit("squanch");
    }
    match p_identifier(src, pos) {
        Some((name, p1)) => {
            let p2 = skip_ws(src, p1);
            match match_lit(src, p2, "[") {
                Some(p3) => {
                    let p4 = skip_ws(src, p3);
                    match p_expression(src, p4) {
                        Some((e, p5)) => {
                            let p6 = skip_ws(src, p5);
                            match match_lit(src, p6, "]") {
                                Some(p7) => {
                                    return Some(
                                        (Expression::ListIndex(name, Box::new(e)), p7),
                                    );
                                }
                                None => {}
                            }
                        }
                        None => {}
                    }
                }
                None => {}
            }
        }
        None => {}
    }
    match p_identifier(src, pos) {
        Some((name, p1)) => {
            match p_args(src, p1) {
                Some((args, p2)) => {
                    return Some((Expression::FunctionCall(name, args), p2));
                }
                None => {}
            }
        }
        None => {}
    }
    match p_value(src, pos) {
        Some((v, p1)) => {
            return Some((Expression::Value(v), p1));
        }
        None => {}
    }
    match p_identifier(src, pos) {
        Some((name, p1)) => {
            match need_ws(src, p1) {
                Some(p2) => {
                    match match_lit(src, p2, "squanch") {
                        Some(p3) => {
                            return Some((Expression::ListLength(name), p3));
                        }
                        None => {}
                    }
                }
                None => {}
            }
        }
        None => {}
    }
    match p_identifier(src, pos) {
        Some((name, p1)) => {
            return Some((Expression::Variable(name), p1));
        }
        None => {}
    }
    match match_lit(src, pos, "!") {
        Some(p1) => {
            let p2 = skip_ws(src, p1);
            match p_expression(src, p2) {
                Some((e, p3)) => {
                    return Some((Expression::Not(Box::new(e)), p3));
                }
                None => {}
            }
        }
        None => {}
    }
    None
}

/// A parenthesised, comma-separated argument list, possibly empty.
fn p_args(src: &Vec<char>, pos: usize) -> (r: Option<(Vec<Expression>, usize)>)
    requires
        pos <= src@.len(),
    ensures
        r matches Some(t) ==> pos < t.1 <= src@.len(),
    decreases src@.len() - pos, 3int,
{
    proof {
        reveal_strlit("(");
        reveal_strlit(")");
        reveal_strlit(",");
    }
    let p1 = match match_lit(src, pos, "(") {
        Some(p) => p,
        None => {
            return None;
        }
    };
    let mut items: Vec<Expression> = Vec::new();
    let mut p = p1;
    match p_expression(src, p1) {
        Some((e0, p2)) => {
            items.push(e0);
            p = p2;
            loop
                invariant
                    pos < p <= src@.len(),
                ensures
                    pos < p <= src@.len(),
                decreases src@.len() - p,
            {
                let q1 = skip_ws(src, p);
                match match_lit(src, q1, ",") {
                    Some(q2) => {
                        let q3 = skip_ws(src, q2);
                        match p_expression(src, q3) {
                            Some((e, q4)) => {
                                items.push(e);
                                p = q4;
                            }
                            None => {
                                break;
                            }
                        }
                    }
                    None => {
                        break;
                    }
                }
            }
        }
        None => {}
    }
    match match_lit(src, p, ")") {
        Some(p9) => Some((items, p9)),
        None => None,
    }
}

/// A parenthesised, comma-separated parameter-name list, possibly empty.
fn p_params(src: &Vec<char>, pos: usize) -> (r: Option<(Vec<String>, usize)>)
    requires
        pos <= src@.len(),
    ensures
        r matches Some(t) ==> pos < t.1 <= src@.len(),
{
    proof {
        reveal_strlit("(");
        reveal_strlit(")");
        reveal_strlit(",");
    }
    let p1 = match match_lit(src, pos, "(") {
        Some(p) => p,
        None => {
            return None;
        }
    };
    let mut items: Vec<String> = Vec::new();
    let mut p = p1;
    match p_identifier(src, p1) {
        Some((n0, p2)) => {
            items.push(n0);
            p = p2;
            loop
                invariant
                    pos < p <= src@.len(),
                ensures
                    pos < p <= src@.len(),
                decreases src@.len() - p,
            {
                let q1 = skip_ws(src, p);
                match match_lit(src, q1, ",") {
                    Some(q2) => {
                        let q3 = skip_ws(src, q2);
                        match p_identifier(src, q3) {
                            Some((n, q4)) => {
                                items.push(n);
                                p = q4;
                            }
                            None => {
                                break;
                            }
                        }
                    }
                    None => {
                        break;
                    }
                }
            }
        }
        None => {}
    }
    match match_lit(src, p, ")") {
        Some(p9) => Some((items, p9)),
        None => None,
    }
}

/// A block: statements between the block-open and block-close marks.
fn p_block(src: &Vec<char>, pos: usize) -> (r: Option<(Vec<Statement>, usize)>)
    requires
        pos <= src@.len(),
    ensures
        r matches Some(t) ==> pos < t.1 <= src@.len(),
    decreases src@.len() - pos, 4int,
{
    proof {
        reveal_strlit(":<");
        reveal_strlit(">:");
    }
    let p1 = match match_lit(src, pos, ":<") {
        Some(p) => p,
        None => {
            return None;
        }
    };
    let p2 = skip_newlines(src, skip_ws(src, p1));
    let mut items: Vec<Statement> = Vec::new();
    let mut p = p2;
    loop
        invariant
            pos < p <= src@.len(),
        ensures
            pos < p <= src@.len(),
        decreases src@.len() - p,
    {
        match p_line(src, p) {
            Some((st, np)) => {
                items.push(st);
                p = np;
            }
            None => {
                break;
            }
        }
    }
    let p3 = skip_ws(src, p);
    match match_lit(src, p3, ">:") {
        Some(p9) => Some((items, p9)),
        None => None,
    }
}

/// One line: a statement amid optional blank lines and spacing.
fn p_line(src: &Vec<char>, pos: usize) -> (r: Option<(Statement, usize)>)
    requires
        pos <= src@.len(),
    ensures
        r matches Some(t) ==> pos < t.1 <= src@.len(),
    decreases src@.len() - pos, 7int,
{
    let p1 = skip_newlines(src, pos);
    let p2 = skip_ws(src, p1);
    match p_statement(src, p2) {
        Some((st, p3)) => {
            let p4 = skip_ws(src, p3);
            let p5 = skip_newlines(src, p4);
            Some((st, p5))
        }
        None => None,
    }
}

/// One statement, carrying the character range it was parsed from.
fn p_statement(src: &Vec<char>, pos: usize) -> (r: Option<(Statement, usize)>)
    requires
        pos <= src@.len(),
    ensures
        r matches Some(t) ==> pos < t.1 <= src@.len(),
    decreases src@.len() - pos, 6int,
{
    match p_statement_kind(src, pos) {
        Some((kind, np)) => Some((Statement::new(kind, pos, np), np)),
        None => None,
    }
}

/// One statement form, tried in the grammar's order.
#[verifier::rlimit(30)]
fn p_statement_kind(src: &Vec<char>, pos: usize) -> (r: Option<(StatementKind, usize)>)
    requires
        pos <= src@.len(),
    ensures
        r matches Some(t) ==> pos < t.1 <= src@.len(),
    decreases src@.len() - pos, 5int,
{
    proof {
        reveal_strlit("squanch");
        reveal_strlit("[");
        reveal_strlit("]");
        reveal_strlit("on a cob");
        reveal_strlit("assimilate");
        reveal_strlit("show me what you got!");
        reveal_strlit("show me what you got");
        reveal_strlit("if");
        reveal_strlit("else");
        reveal_strlit("while");
        reveal_strlit("portal gun");
        reveal_strlit("normal plan");
        reveal_strlit("plan for failure");
        reveal_strlit("return");
        reveal_strlit("microverse");
    }
    // squanch name[index]
    match match_lit(src, pos, "squanch") {
        Some(p1) => {
            match need_ws(src, p1) {
                Some(p2) => {
                    match p_identifier(src, p2) {
                        Some((name, p3)) => {
                            let p4 = skip_ws(src, p3);
                            match match_lit(src, p4, "[") {
                                Some(p5) => {
                                    let p6 = skip_ws(src, p5);
                                    match p_expression(src, p6) {
                                        Some((e, p7)) => {
                                            let p8 = skip_ws(src, p7);
                                            match match_lit(src, p8, "]") {
                                                Some(p9) => {
                                                    return Some(
                                                        (StatementKind::ListDelete(name, e), p9),
                                                    );
                                                }
                                                None => {}
                                            }
                                        }
                                        None => {}
                                    }
                                }
                                None => {}
                            }
                        }
                        None => {}
                    }
                }
                None => {}
            }
        }
        None => {}
    }
    // name on a cob
    match p_identifier(src, pos) {
        Some((name, p1)) => {
            match need_ws(src, p1) {
                Some(p2) => {
                    match match_lit(src, p2, "on a cob") {
                        Some(p3) => {
                            return Some((StatementKind::ListNew(name), p3));
                        }
                        None => {}
                    }
                }
                None => {}
            }
        }
        None => {}
    }
    // name assimilate expr
    match p_identifier(src, pos) {
        Some((name, p1)) => {
            match need_ws(src, p1) {
                Some(p2) => {
                    match match_lit(src, p2, "assimilate") {
                        Some(p3) => {
                            match need_ws(src, p3) {
                                Some(p4) => {
                                    match p_expression(src, p4) {
                                        Some((e, p5)) => {
                                            return Some(
                                                (StatementKind::ListAppend(name, e), p5),
                                            );
                                        }
                                        None => {}
                                    }
                                }
                                None => {}
                            }
                        }
                        None => {}
                    }
                }
                None => {}
            }
        }
        None => {}
    }
    // name[index] squanch expr
    match p_identifier(src, pos) {
        Some((name, p1)) => {
            let p2 = skip_ws(src, p1);
            match match_lit(src, p2, "[") {
                Some(p3) => {
                    let p4 = skip_ws(src, p3);
                    match p_expression(src, p4) {
                        Some((idx, p5)) => {
                            let p6 = skip_ws(src, p5);
                            match match_lit(src, p6, "]") {
                                Some(p7) => {
                                    match need_ws(src, p7) {
                                        Some(p8) => {
                                            match match_lit(src, p8, "squanch") {
                                                Some(p9) => {
                                                    match need_ws(src, p9) {
                                                        Some(p10) => {
                                                            match p_expression(src, p10) {
                                                                Some((e, p11)) => {
                                                                    return Some(
                                                                        (
                                                                            StatementKind::ListAssign(
                                                                                name,
                                                                                idx,
                                                                                e,
                                                                            ),
                                                                            p11,
                                                                        ),
                                                                    );
                                                                }
                                                                None => {}
                                                            }
                                                        }
                                                        None => {}
                                                    }
                                                }
                                                None => {}
                                            }
                                        }
                                        None => {}
                                    }
                                }
                                None => {}
                            }
                        }
                        None => {}
                    }
                }
                None => {}
            }
        }
        None => {}
    }
    // name(params) block
    match p_identifier(src, pos) {
        Some((name, p1)) => {
            let p2 = skip_ws(src, p1);
            match p_params(src, p2) {
                Some((params, p3)) => {
                    let p4 = skip_ws(src, p3);
                    match p_block(src, p4) {
                        Some((body, p5)) => {
                            return Some((StatementKind::Function(name, params, body), p5));
                        }
                        None => {}
                    }
                }
                None => {}
            }
        }
        None => {}
    }
    // squanch name
    match match_lit(src, pos, "squanch") {
        Some(p1) => {
            match need_ws(src, p1) {
                Some(p2) => {
                    match p_identifier(src, p2) {
                        Some((name, p3)) => {
                            return Some((StatementKind::Delete(name), p3));
                        }
                        None => {}
                    }
                }
                None => {}
            }
        }
        None => {}
    }
    // name squanch expr
    match p_identifier(src, pos) {
        Some((name, p1)) => {
            match need_ws(src, p1) {
                Some(p2) => {
                    match match_lit(src, p2, "squanch") {
                        Some(p3) => {
                            match need_ws(src, p3) {
                                Some(p4) => {
                                    match p_expression(src, p4) {
                                        Some((e, p5)) => {
                                            return Some(
                                                (StatementKind::Assignment(name, e), p5),
                                            );
                                        }
                                        None => {}
                                    }
                                }
                                None => {}
                            }
                        }
                        None => {}
                    }
                }
                None => {}
            }
        }
        None => {}
    }
    // print without a line break
    match match_lit(src, pos, "show me what you got!") {
        Some(p1) => {
            match need_ws(src, p1) {
                Some(p2) => {
                    match p_expression(src, p2) {
                        Some((e, p3)) => {
                            return Some((StatementKind::PrintNoNl(e), p3));
                        }
                        None => {}
                    }
                }
                None => {}
            }
        }
        None => {}
    }
    // print
    match match_lit(src, pos, "show me what you got") {
        Some(p1) => {
            match need_ws(src, p1) {
                Some(p2) => {
                    match p_expression(src, p2) {
                        Some((e, p3)) => {
                            return Some((StatementKind::Print(e), p3));
                        }
                        None => {}
                    }
                }
                None => {}
            }
        }
        None => {}
    }
    // if with else
    match match_lit(src, pos, "if") {
        Some(p1) => {
            match need_ws(src, p1) {
                Some(p2) => {
                    match p_expression(src, p2) {
                        Some((cond, p3)) => {
                            match need_ws(src, p3) {
                                Some(p4) => {
                                    match p_block(src, p4) {
                                        Some((tb, p5)) => {
                                            let p6 = skip_ws(src, p5);
                                            match match_lit(src, p6, "else") {
                                                Some(p7) => {
                                                    match need_ws(src, p7) {
                                                        Some(p8) => {
                                                            match p_block(src, p8) {
                                                                Some((eb, p9)) => {
                                                                    return Some(
                                                                        (
                                                                            StatementKind::If(
                                                                                cond,
                                                                                tb,
                                                                                Some(eb),
                                                                            ),
                                                                            p9,
                                                                        ),
                                                                    );
                                                                }
                                                                None => {}
                                                            }
                                                        }
                                                        None => {}
                                                    }
                                                }
                                                None => {}
                                            }
                                        }
                                        None => {}
                                    }
                                }
                                None => {}
                            }
                        }
                        None => {}
                    }
                }
                None => {}
            }
        }
        None => {}
    }
    // if without else
    match match_lit(src, pos, "if") {
        Some(p1) => {
            match need_ws(src, p1) {
                Some(p2) => {
                    match p_expression(src, p2) {
                        Some((cond, p3)) => {
                            match need_ws(src, p3) {
                                Some(p4) => {
                                    match p_block(src, p4) {
                                        Some((tb, p5)) => {
                                            return Some(
                                                (StatementKind::If(cond, tb, None), p5),
                                            );
                                        }
                                        None => {}
                                    }
                                }
                                None => {}
                            }
                        }
                        None => {}
                    }
                }
                None => {}
            }
        }
        None => {}
    }
    // while
    match match_lit(src, pos, "while") {
        Some(p1) => {
            match need_ws(src, p1) {
                Some(p2) => {
                    match p_expression(src, p2) {
                        Some((cond, p3)) => {
                            match need_ws(src, p3) {
                                Some(p4) => {
                                    match p_block(src, p4) {
                                        Some((body, p5)) => {
                                            return Some(
                                                (StatementKind::While(cond, body), p5),
                                            );
                                        }
                                        None => {}
                                    }
                                }
                                None => {}
                            }
                        }
                        None => {}
                    }
                }
                None => {}
            }
        }
        None => {}
    }
    // input
    match match_lit(src, pos, "portal gun") {
        Some(p1) => {
            match need_ws(src, p1) {
                Some(p2) => {
                    match p_identifier(src, p2) {
                        Some((name, p3)) => {
                            return Some((StatementKind::Input(name), p3));
                        }
                        None => {}
                    }
                }
                None => {}
            }
        }
        None => {}
    }
    // try/catch
    match match_lit(src, pos, "normal plan") {
        Some(p1) => {
            let p2 = skip_ws(src, p1);
            match p_block(src, p2) {
                Some((tb, p3)) => {
                    let p4 = skip_ws(src, p3);
                    match match_lit(src, p4, "plan for failure") {
                        Some(p5) => {
                            let p6 = skip_ws(src, p5);
                            match p_block(src, p6) {
                                Some((cb, p7)) => {
                                    return Some((StatementKind::Catch(tb, cb), p7));
                                }
                                None => {}
                            }
                        }
                        None => {}
                    }
                }
                None => {}
            }
        }
        None => {}
    }
    // bare call
    match p_identifier(src, pos) {
        Some((name, p1)) => {
            match p_args(src, p1) {
                Some((args, p2)) => {
                    return Some((StatementKind::FunctionCall(name, args), p2));
                }
                None => {}
            }
        }
        None => {}
    }
    // return
    match match_lit(src, pos, "return") {
        Some(p1) => {
            match need_ws(src, p1) {
                Some(p2) => {
                    match p_expression(src, p2) {
                        Some((e, p3)) => {
                            return Some((StatementKind::Return(e), p3));
                        }
                        None => {}
                    }
                }
                None => {}
            }
        }
        None => {}
    }
    // native-module load
    match match_lit(src, pos, "microverse") {
        Some(p1) => {
            match need_ws(src, p1) {
                Some(p2) => {
                    match p_string(src, p2) {
                        Some((path, p3)) => {
                            match need_ws(src, p3) {
                                Some(p4) => {
                                    match p_block(src, p4) {
                                        Some((funcs, p5)) => {
                                            return Some(
                                                (StatementKind::DylibLoad(path, funcs), p5),
                                            );
                                        }
                                        None => {}
                                    }
                                }
                                None => {}
                            }
                        }
                        None => {}
                    }
                }
                None => {}
            }
        }
        None => {}
    }
    None
}

/// A whole program: one or more lines, then trailing spacing.
fn p_file(src: &Vec<char>, pos: usize) -> (r: Option<(Vec<Statement>, usize)>)
    requires
        pos <= src@.len(),
    ensures
        r matches Some(t) ==> pos <= t.1 <= src@.len() && t.0@.len() >= 1,
    decreases src@.len() - pos, 8int,
{
    let first = match p_line(src, pos) {
        Some(x) => x,
        None => {
            return None;
        }
    };
    let mut items: Vec<Statement> = Vec::new();
    items.push(first.0);
    let mut p = first.1;
    loop
        invariant
            pos < p <= src@.len(),
            items@.len() >= 1,
        ensures
            pos < p <= src@.len(),
            items@.len() >= 1,
        decreases src@.len() - p,
    {
        match p_line(src, p) {
            Some((st, np)) => {
                items.push(st);
                p = np;
            }
            None => {
                break;
            }
        }
    }
    let p2 = skip_ws(src, p);
    Some((items, p2))
}

/// Parses a whole program: one or more statements.
pub fn file(s: &str) -> (r: Result<Vec<Statement>, ParseError>)
    ensures
        r matches Ok(v) ==> v@.len() >= 1,
{
    let src = chars_of(s);
    match p_file(&src, 0) {
        Some((items, np)) => {
            if np == src.len() {
                Ok(items)
            } else {
                Err(fail_at(&src, np))
            }
        }
        None => Err(fail_at(&src, 0)),
    }
}

/// Parses one statement spanning the whole text.
pub fn statement(s: &str) -> (r: Result<Statement, ParseError>) {
    let src = chars_of(s);
    match p_statement(&src, 0) {
        Some((st, np)) => {
            if np == src.len() {
                Ok(st)
            } else {
                Err(fail_at(&src, np))
            }
        }
        None => Err(fail_at(&src, 0)),
    }
}

/// Parses one statement form spanning the whole text.
pub fn statement_kind(s: &str) -> (r: Result<StatementKind, ParseError>) {
    let src = chars_of(s);
    match p_statement_kind(&src, 0) {
        Some((kind, np)) => {
            if np == src.len() {
                Ok(kind)
            } else {
                Err(fail_at(&src, np))
            }
        }
        None => Err(fail_at(&src, 0)),
    }
}

/// Parses one block spanning the whole text.
pub fn block(s: &str) -> (r: Result<Vec<Statement>, ParseError>) {
    let src = chars_of(s);
    match p_block(&src, 0) {
        Some((items, np)) => {
            if np == src.len() {
                Ok(items)
            } else {
                Err(fail_at(&src, np))
            }
        }
        None => Err(fail_at(&src, 0)),
    }
}

/// Parses one expression spanning the whole text.
pub fn expression(s: &str) -> (r: Result<Expression, ParseError>) {
    let src = chars_of(s);
    match p_expression(&src, 0) {
        Some((e, np)) => {
            if np == src.len() {
                Ok(e)
            } else {
                Err(fail_at(&src, np))
            }
        }
        None => Err(fail_at(&src, 0)),
    }
}

/// Parses an argument list spanning the whole text.
pub fn args(s: &str) -> (r: Result<Vec<Expression>, ParseError>) {
    let src = chars_of(s);
    match p_args(&src, 0) {
        Some((items, np)) => {
            if np == src.len() {
                Ok(items)
            } else {
                Err(fail_at(&src, np))
            }
        }
        None => Err(fail_at(&src, 0)),
    }
}

/// Parses a parameter-name list spanning the whole text.
pub fn params(s: &str) -> (r: Result<Vec<String>, ParseError>) {
    let src = chars_of(s);
    match p_params(&src, 0) {
        Some((items, np)) => {
            if np == src.len() {
                Ok(items)
            } else {
                Err(fail_at(&src, np))
            }
        }
        None => Err(fail_at(&src, 0)),
    }
}

/// Parses a literal value spanning the whole text: an integer, a string,
/// or a boolean keyword.
pub fn value(s: &str) -> (r: Result<Value, ParseError>)
    ensures
        r matches Ok(v) ==> (v@ is Int || v@ is Str || v@ is Bool),
{
    let src = chars_of(s);
    match p_value(&src, 0) {
        Some((v, np)) => {
            if np == src.len() {
                Ok(v)
            } else {
                Err(fail_at(&src, np))
            }
        }
        None => Err(fail_at(&src, 0)),
    }
}

/// Parses an operator name spanning the whole text.
pub fn operator(s: &str) -> (r: Result<Operator, ParseError>) {
    let src = chars_of(s);
    match p_operator(&src, 0) {
        Some((op, np)) => {
            if np == src.len() {
                Ok(op)
            } else {
                Err(fail_at(&src, np))
            }
        }
        None => Err(fail_at(&src, 0)),
    }
}

/// Parses an integer literal spanning the whole text; the result is the
/// number the digits denote.
pub fn integer(s: &str) -> (r: Result<IntT, ParseError>)
    ensures
        r matches Ok(v) ==> s@.len() > 0 && v as int == (if s@[0] == '-' {
            -digits_val(s@.subrange(1, s@.len() as int))
        } else {
            digits_val(s@)
        }),
{
    let src = chars_of(s);
    match p_int(&src, 0) {
        Some((v, np)) => {
            if np == src.len() {
                proof {
                    if s@[0] == '-' {
                        assert(src@.subrange(1, np as int) =~= s@.subrange(1, s@.len() as int));
                    } else {
                        assert(src@.subrange(0, np as int) =~= s@);
                    }
                }
                Ok(v)
            } else {
                Err(fail_at(&src, np))
            }
        }
        None => Err(fail_at(&src, 0)),
    }
}

/// Parses a string literal spanning the whole text, escapes applied.
pub fn string(s: &str) -> (r: Result<String, ParseError>) {
    let src = chars_of(s);
    match p_string(&src, 0) {
        Some((v, np)) => {
            if np == src.len() {
                Ok(v)
            } else {
                Err(fail_at(&src, np))
            }
        }
        None => Err(fail_at(&src, 0)),
    }
}

} // verus!
