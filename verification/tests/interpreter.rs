use schwift::error::{EitherError, ErrorKind};
use schwift::expression::Expression as Exp;
use schwift::grammar;
use schwift::state::State;
use schwift::statement::Statement;
use schwift::statement::StatementKind as Kind;
use schwift::value::Value;

#[test]
fn test_assignment_adds_to_symbol_table() {
    let mut state = State::new();

    let statement = Statement::tnew(Kind::assignment("x", 10));
    state.execute(&statement).unwrap();
    assert_eq!(*state.get("x").unwrap(), Value::new(10));
}

#[test]
fn test_remove_from_symbol_table() {
    let mut state = State::new();

    let statement = Statement::tnew(Kind::assignment("x", 10));
    state.execute(&statement).unwrap();
    assert_eq!(*state.get("x").unwrap(), Value::new(10));

    let delete = Statement::tnew(Kind::delete("x"));
    state.execute(&delete).unwrap();
    assert!(state.get("x").is_err());
}

#[test]
fn test_get_returns_value_if_present() {
    let mut state = State::new();

    state.assign("x".to_string(), &Exp::new(10)).unwrap();
    assert_eq!(*state.get("x").unwrap(), Value::new(10));
}

#[test]
fn test_get_returns_error_if_not_present() {
    let state = State::new();

    assert_eq!(
        state.get("x").unwrap_err(),
        EitherError::NoContext(ErrorKind::UnknownVariable("x".to_string()))
    );
}

#[test]
fn test_is_prime() {
    let mut state = State::new();

    let code = grammar::file(
        r#"
    isPrime(x) :<
        i squanch 2

        while (i less x) :<
            if ((x % i) == 0) :<
                return morty
            >:
            i squanch (i + 1)
        >:

        return rick
    >:

    ten squanch isPrime(10)
    two squanch isPrime(2)
    eighteen squanch isPrime(18)
    fourHundredFourty squanch isPrime(440)
    big squanch isPrime(524287)
    "#,
    )
    .unwrap();

    state.run(&code).unwrap();
    assert_eq!(*state.get("ten").unwrap(), Value::new(false));
    assert_eq!(*state.get("two").unwrap(), Value::new(true));
    assert_eq!(*state.get("eighteen").unwrap(), Value::new(false));
    assert_eq!(*state.get("fourHundredFourty").unwrap(), Value::new(false));
    assert_eq!(*state.get("big").unwrap(), Value::new(true));
}

#[test]
fn test_test_modulus() {
    let mut state = State::new();

    let code = grammar::file(
        "
    x squanch (50 % 4)
    ",
    )
    .unwrap();

    state.run(&code).unwrap();
    assert_eq!(*state.get("x").unwrap(), Value::new(2));
}

#[test]
fn test_early_return_if() {
    let mut state = State::new();

    let code = grammar::file(
        r#"
    small(x) :<
        if (x less 100) :<
            return rick
        >:
        return morty
    >:

    y squanch small(10)
    z squanch small(10000)
    a squanch small(140)
    b squanch small(0)
    "#,
    )
    .unwrap();

    state.run(&code).unwrap();
    assert_eq!(*state.get("y").unwrap(), Value::new(true));
    assert_eq!(*state.get("z").unwrap(), Value::new(false));
    assert_eq!(*state.get("a").unwrap(), Value::new(false));
    assert_eq!(*state.get("b").unwrap(), Value::new(true));
}

#[test]
fn test_early_return_while() {
    let mut state = State::new();

    let code = grammar::file(
        r#"
    small(x) :<
        i squanch 0
        while (i less 100) :<
            if (x less 100) :<
                return rick
            >:
            i squanch (i + 1)
        >:
        return morty
    >:

    y squanch small(10)
    z squanch small(10000)
    a squanch small(140)
    b squanch small(0)
    "#,
    )
    .unwrap();

    state.run(&code).unwrap();
    assert_eq!(*state.get("y").unwrap(), Value::new(true));
    assert_eq!(*state.get("z").unwrap(), Value::new(false));
    assert_eq!(*state.get("a").unwrap(), Value::new(false));
    assert_eq!(*state.get("b").unwrap(), Value::new(true));
}

#[test]
fn test_catch_suppresses_error() {
    let mut state = State::new();

    let code = grammar::file(
        r#"
    normal plan :<
        x squanch missing
    >: plan for failure :<
        y squanch 7
    >:
    z squanch 9
    "#,
    )
    .unwrap();

    state.run(&code).unwrap();
    assert!(state.get("x").is_err());
    assert_eq!(*state.get("y").unwrap(), Value::new(7));
    assert_eq!(*state.get("z").unwrap(), Value::new(9));
}

#[test]
fn test_eval_adds() {
    let mut state = State::new();

    let code = grammar::file("x squanch {\"(1 + 3)\"}\n").unwrap();

    state.run(&code).unwrap();
    assert_eq!(*state.get("x").unwrap(), Value::new(4));
}

#[test]
fn test_eval_of_garbage_is_syntax_error() {
    let mut state = State::new();

    let code = grammar::file("x squanch {\"(((\"}\n").unwrap();

    let err = state.run(&code).unwrap_err();
    assert!(matches!(err.kind, ErrorKind::SyntaxError(_)));
}

#[test]
fn test_call_arity_mismatch() {
    let mut state = State::new();

    let code = grammar::file(
        "two(a, b) :<\n    return (a + b)\n>:\nx squanch two(1, 2, 3)\n",
    )
    .unwrap();

    let err = state.run(&code).unwrap_err();
    match err.kind {
        ErrorKind::InvalidArguments(name, got, want) => {
            assert_eq!(name, "two".to_string());
            assert_eq!(got, 3);
            assert_eq!(want, 2);
        }
        _ => panic!("an arity mismatch must be reported as one"),
    }
}

#[test]
fn test_list_indexing_bounds() {
    let mut state = State::new();

    let code = grammar::file(
        "l on a cob\nl assimilate 10\nl assimilate 20\nl assimilate 30\na squanch l[0]\nb squanch l[2]\n",
    )
    .unwrap();
    state.run(&code).unwrap();
    assert_eq!(*state.get("a").unwrap(), Value::new(10));
    assert_eq!(*state.get("b").unwrap(), Value::new(30));

    let over = grammar::file("c squanch l[3]\n").unwrap();
    let err = state.run(&over).unwrap_err();
    match err.kind {
        ErrorKind::IndexOutOfBounds { len, index } => {
            assert_eq!(len, 3);
            assert_eq!(index, 3);
        }
        _ => panic!("an out-of-bounds index must be reported as one"),
    }
}

#[test]
fn test_list_mutation() {
    let mut state = State::new();

    let code = grammar::file(
        "l on a cob\nl assimilate 1\nl assimilate 2\nl[0] squanch 5\nsquanch l[1]\nn squanch l squanch\nhead squanch l[0]\n",
    )
    .unwrap();
    state.run(&code).unwrap();
    assert_eq!(*state.get("n").unwrap(), Value::new(1));
    assert_eq!(*state.get("head").unwrap(), Value::new(5));
}

#[test]
fn test_string_indexing_and_length() {
    let mut state = State::new();

    let code = grammar::file(
        "s squanch \"rick\"\nc squanch s[1]\nn squanch s squanch\n",
    )
    .unwrap();
    state.run(&code).unwrap();
    assert_eq!(*state.get("c").unwrap(), Value::new("i"));
    assert_eq!(*state.get("n").unwrap(), Value::new(4));
}

#[test]
fn test_no_return_is_an_error() {
    let mut state = State::new();

    let code = grammar::file("f() :<\n    x squanch 1\n>:\ny squanch f()\n").unwrap();
    let err = state.run(&code).unwrap_err();
    match err.kind {
        ErrorKind::NoReturn(name) => assert_eq!(name, "f".to_string()),
        _ => panic!("a function ending without a return must be reported"),
    }
}

#[test]
fn test_functions_are_dynamically_scoped() {
    let mut state = State::new();

    // The callee must not see the caller's variables.
    let code = grammar::file(
        "g() :<\n    return hidden\n>:\nhidden squanch 3\nnormal plan :<\n    y squanch g()\n>: plan for failure :<\n    caught squanch rick\n>:\n",
    )
    .unwrap();
    state.run(&code).unwrap();
    assert_eq!(*state.get("caught").unwrap(), Value::new(true));
    assert!(state.get("y").is_err());
}

#[test]
fn test_parse_args_binds_argv() {
    let mut state = State::new();

    let args = vec!["12".to_string(), "morty".to_string(), "plumbus".to_string()];
    state.parse_args(&args);
    let argv = state.get("argv").unwrap();
    assert_eq!(
        *argv,
        Value::List(vec![Value::Int(12), Value::Bool(false), Value::Str("plumbus".to_string())])
    );
}
