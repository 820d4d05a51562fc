use vstd::prelude::*;

pub mod error;
pub mod expression;
pub mod grammar;
pub mod io;
pub mod native;
pub mod state;
pub mod statement;
pub mod util;
pub mod value;
pub mod vec_map;

verus! {

/// The operators of the language's binary expressions.
#[derive(Debug, Clone, Copy, PartialEq, Eq, Structural)]
pub enum Operator {
    Add,
    Subtract,
    Multiply,
    Divide,
    Equality,
    GreaterThan,
    LessThan,
    GreaterThanEqual,
    LessThanEqual,
    ShiftLeft,
    ShiftRight,
    And,
    Or,
    Modulus,
}

/// Version constant of the native-module interface: a loadable module must
/// export the same value for the interpreter to accept it.
pub const LIBSCHWIFT_ABI_COMPAT: u32 = 1;

/// How many line breaks a text holds.
pub open spec fn nl_count(s: Seq<char>) -> nat
    decreases s.len(),
{
    if s.len() == 0 {
        0
    } else {
        nl_count(s.drop_last()) + if s.last() == '\n' {
            1nat
        } else {
            0nat
        }
    }
}

/// The source line a parse failure points at: the text between the line
/// break that ends line `err.line` and the one before it.
pub fn get_line<'a>(file: &'a str, err: &grammar::ParseError) -> (r: &'a str)
    requires
        err.line >= 1,
        nl_count(file@) >= err.line,
    ensures
        forall|j: int| 0 <= j < r@.len() ==> r@[j] != '\n',
        exists|a: int, b: int|
            {
                &&& 0 <= a <= b <= file@.len()
                &&& r@ == #[trigger] file@.subrange(a, b)
                &&& b < file@.len() && file@[b] == '\n'
                &&& a == 0 || file@[a - 1] == '\n'
            },
{
    let n = file.unicode_len();
    let src = grammar::chars_of(file);
    let mut count: usize = 0;
    let mut last_newline: usize = 0;
    let mut i: usize = 0;
    loop
        invariant
            n == file@.len(),
            src@ == file@,
            i <= n,
            count == nl_count(file@.subrange(0, i as int)),
            count < err.line,
            nl_count(file@) >= err.line,
            last_newline <= i,
            last_newline == 0 || file@[last_newline - 1] == '\n',
            forall|j: int| last_newline <= j < i ==> file@[j] != '\n',
        decreases n - i,
    {
        if i == n {
            proof {
                assert(file@.subrange(0, n as int) =~= file@);
                assert(false);
            }
            return file.substring_char(0, 0);
        }
        let c = src[i];
        proof {
            assert(file@.subrange(0, i as int + 1).drop_last() =~= file@.subrange(0, i as int));
        }
        if c == '\n' {
            if count + 1 == err.line {
                let r = file.substring_char(last_newline, i);
                proof {
                    assert(forall|j: int| 0 <= j < r@.len() ==> r@[j] != '\n');
                }
                return r;
            }
            count = count + 1;
            last_newline = i + 1;
        }
        i = i + 1;
    }
}

/// A caret line for diagnostics: spaces up to the failing column, then a
/// caret under it.
pub fn place_carat(err: &grammar::ParseError) -> (r: String)
    requires
        err.column >= 1,
    ensures
        r@.len() == err.column,
        r@[err.column - 1] == '^',
        forall|j: int| 0 <= j < err.column - 1 ==> r@[j] == ' ',
{
    let mut s = String::new();
    let k = err.column - 1;
    for i in 0..k
        invariant
            s@.len() == i,
            forall|j: int| 0 <= j < i ==> s@[j] == ' ',
    {
        crate::value::push_char(&mut s, ' ');
    }
    crate::value::push_char(&mut s, '^');
    s
}

} // verus!
