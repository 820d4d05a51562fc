use schwift::error::{EitherError, ErrorKind};
use schwift::value::{Type, Value};
use schwift::Operator;

fn no_context_kind(e: EitherError) -> ErrorKind {
    match e {
        EitherError::NoContext(k) => k,
        EitherError::WithContext(_) => panic!("a value operation carries no statement"),
    }
}

#[test]
fn should_store_1_and_4() {
    let mut map: schwift::vec_map::VecMap<i32, i32> = schwift::vec_map::VecMap::new();
    map.insert(1, 4);

    assert_eq!(map.get(&1), Some(&4));
}

#[test]
fn should_remove_1_and_4() {
    let mut map: schwift::vec_map::VecMap<i32, i32> = schwift::vec_map::VecMap::new();
    map.insert(1, 4);
    map.remove(&1);

    assert_eq!(map.get(&1), None);
}

#[test]
fn should_mut_borrow_1_and_4() {
    let mut map: schwift::vec_map::VecMap<i32, i32> = schwift::vec_map::VecMap::new();
    map.insert(1, 4);

    match map.get_mut(&1) {
        Some(value) => *value = 10,
        None => panic!(),
    }

    assert_eq!(map.get(&1), Some(&10));
}

#[test]
fn test_integer_arithmetic() {
    assert_eq!(Value::Int(7).add(&Value::Int(35)).unwrap(), Value::Int(42));
    assert_eq!(Value::Int(7).subtract(&Value::Int(35)).unwrap(), Value::Int(-28));
    assert_eq!(Value::Int(7).multiply(&Value::Int(-6)).unwrap(), Value::Int(-42));
    assert_eq!(Value::Int(7).divide(&Value::Int(2)).unwrap(), Value::Int(3));
    assert_eq!(Value::Int(-7).divide(&Value::Int(2)).unwrap(), Value::Int(-3));
    assert_eq!(Value::Int(7).divide(&Value::Int(-2)).unwrap(), Value::Int(-3));
    assert_eq!(Value::Int(-7).divide(&Value::Int(-2)).unwrap(), Value::Int(3));
    assert_eq!(Value::Int(50).modulus(&Value::Int(4)).unwrap(), Value::Int(2));
    assert_eq!(Value::Int(-50).modulus(&Value::Int(4)).unwrap(), Value::Int(-2));
}

#[test]
fn test_division_by_zero_is_an_error() {
    let r = Value::Int(1).divide(&Value::Int(0));
    assert!(matches!(no_context_kind(r.unwrap_err()), ErrorKind::DivisionByZero));
    let r = Value::Int(1).modulus(&Value::Int(0));
    assert!(matches!(no_context_kind(r.unwrap_err()), ErrorKind::DivisionByZero));
}

#[test]
fn test_mismatched_operands_are_errors() {
    let r = Value::Bool(true).add(&Value::Int(1));
    match no_context_kind(r.unwrap_err()) {
        ErrorKind::InvalidBinaryExpression(a, b, op) => {
            assert_eq!(a, Type::Bool);
            assert_eq!(b, Type::Int);
            assert_eq!(op, Operator::Add);
        }
        _ => panic!("mismatched operands must give the invalid-expression error"),
    }

    assert!(Value::Str("a".to_string()).subtract(&Value::Int(1)).is_err());
    assert!(Value::Int(1).multiply(&Value::Bool(false)).is_err());
    assert!(Value::Bool(false).divide(&Value::Str("x".to_string())).is_err());
}

#[test]
fn test_string_concat_and_repeat() {
    let hello = Value::Str("hel".to_string());
    let world = Value::Str("lo!".to_string());
    assert_eq!(hello.add(&world).unwrap(), Value::Str("hello!".to_string()));

    let ab = Value::Str("ab".to_string());
    assert_eq!(ab.multiply(&Value::Int(3)).unwrap(), Value::Str("ababab".to_string()));
    assert_eq!(ab.multiply(&Value::Int(1)).unwrap(), Value::Str("ab".to_string()));
    assert_eq!(ab.multiply(&Value::Int(0)).unwrap(), Value::Str(String::new()));
    assert_eq!(ab.multiply(&Value::Int(-2)).unwrap(), Value::Str(String::new()));
}

#[test]
fn test_comparisons() {
    assert_eq!(Value::Int(1).less_than(&Value::Int(2)).unwrap(), Value::Bool(true));
    assert_eq!(Value::Int(2).greater_than(&Value::Int(2)).unwrap(), Value::Bool(false));
    assert_eq!(Value::Int(2).greater_than_equal(&Value::Int(2)).unwrap(), Value::Bool(true));
    assert_eq!(Value::Int(3).less_than_equal(&Value::Int(2)).unwrap(), Value::Bool(false));
    assert!(Value::Bool(true).less_than(&Value::Int(2)).is_err());
}

#[test]
fn test_logic() {
    assert_eq!(Value::Bool(true).and(&Value::Bool(false)).unwrap(), Value::Bool(false));
    assert_eq!(Value::Bool(true).or(&Value::Bool(false)).unwrap(), Value::Bool(true));
    assert_eq!(Value::Bool(true).not().unwrap(), Value::Bool(false));
    assert!(Value::Int(1).and(&Value::Bool(true)).is_err());
    assert!(Value::Int(1).not().is_err());
}

#[test]
fn test_shifts() {
    assert_eq!(Value::Int(1).shift_left(&Value::Int(4)).unwrap(), Value::Int(16));
    assert_eq!(Value::Int(16).shift_right(&Value::Int(3)).unwrap(), Value::Int(2));
    assert!(Value::Int(1).shift_left(&Value::Bool(true)).is_err());
}

#[test]
fn test_equality_is_total() {
    assert_eq!(Value::Int(3).equals(&Value::Int(3)), Value::Bool(true));
    assert_eq!(Value::Int(3).equals(&Value::Str("3".to_string())), Value::Bool(false));
    assert_eq!(
        Value::List(vec![Value::Int(1), Value::Int(2)])
            .equals(&Value::List(vec![Value::Int(1), Value::Int(2)])),
        Value::Bool(true)
    );
    assert_eq!(
        Value::List(vec![Value::Int(1)]).equals(&Value::List(vec![Value::Int(2)])),
        Value::Bool(false)
    );
}

#[test]
fn test_len_and_is_empty() {
    assert_eq!(Value::Str("rick".to_string()).len().unwrap(), 4);
    assert_eq!(Value::List(vec![Value::Int(1)]).len().unwrap(), 1);
    assert!(Value::Int(3).len().is_err());
    assert_eq!(Value::Str(String::new()).is_empty().unwrap(), true);
    assert_eq!(Value::List(vec![Value::Int(1)]).is_empty().unwrap(), false);
}

#[test]
fn test_display_forms() {
    assert_eq!(Value::Int(-42).to_display_string(), "-42".to_string());
    assert_eq!(Value::Int(0).to_display_string(), "0".to_string());
    assert_eq!(Value::Bool(true).to_display_string(), "rick".to_string());
    assert_eq!(Value::Bool(false).to_display_string(), "morty".to_string());
    assert_eq!(Value::Str("hi".to_string()).to_display_string(), "hi".to_string());
    assert_eq!(
        Value::List(vec![
            Value::Int(1),
            Value::Str("two".to_string()),
            Value::Bool(true),
        ])
        .to_display_string(),
        "[1, \"two\", rick]".to_string()
    );
    assert_eq!(
        Value::Function(vec!["a".to_string(), "b".to_string()], vec![]).to_display_string(),
        "[Function [a, b]]".to_string()
    );
}

#[test]
fn test_slice_format() {
    assert_eq!(schwift::util::slice_format(&vec![]), "[]".to_string());
    assert_eq!(schwift::util::slice_format(&vec!["x".to_string()]), "[x]".to_string());
    assert_eq!(
        schwift::util::slice_format(&vec!["x".to_string(), "y".to_string()]),
        "[x, y]".to_string()
    );
}

#[test]
fn test_string_parse_escapes() {
    assert_eq!(schwift::value::string_parse("hello"), "hello".to_string());
    assert_eq!(schwift::value::string_parse("a\\nb"), "\nb".to_string());
    assert_eq!(schwift::value::string_parse("\\nb"), "\nb".to_string());
}

#[test]
fn test_native_multiply() {
    let args = vec![Value::Str("ab".to_string()), Value::Int(2)];
    assert_eq!(
        schwift::native::multiply(&args).unwrap(),
        Value::Str("abab".to_string())
    );

    let bad = vec![Value::Int(2), Value::Int(2)];
    match no_context_kind(schwift::native::multiply(&bad).unwrap_err()) {
        ErrorKind::UnexpectedType { expected, actual } => {
            assert_eq!(expected, Type::Str);
            assert_eq!(actual, Type::Int);
        }
        _ => panic!("a non-string first argument must be reported"),
    }
}

#[test]
fn test_error_kind_equality() {
    assert_eq!(
        ErrorKind::IndexOutOfBounds { len: 3, index: 7 },
        ErrorKind::IndexOutOfBounds { len: 3, index: 7 }
    );
    assert_ne!(
        ErrorKind::IndexOutOfBounds { len: 3, index: 7 },
        ErrorKind::IndexOutOfBounds { len: 3, index: 8 }
    );
    assert_eq!(ErrorKind::IOError, ErrorKind::IOError);
    assert_ne!(ErrorKind::IOError, ErrorKind::DylibReturnedNil);
    assert_eq!(
        ErrorKind::UnexpectedType { expected: Type::Int, actual: Type::Bool },
        ErrorKind::UnexpectedType { expected: Type::Int, actual: Type::Bool }
    );
    assert_ne!(
        ErrorKind::UnknownVariable("x".to_string()),
        ErrorKind::UnknownVariable("y".to_string())
    );
    assert_eq!(
        ErrorKind::InvalidBinaryExpression(Type::Bool, Type::Int, Operator::Add),
        ErrorKind::InvalidBinaryExpression(Type::Bool, Type::Int, Operator::Add)
    );
}

#[test]
fn test_diagnostics_helpers() {
    let err = schwift::grammar::ParseError { line: 2, column: 3, offset: 9 };
    assert_eq!(schwift::get_line("first\nsecond\nthird\n", &err), "second");
    assert_eq!(schwift::place_carat(&err), "  ^".to_string());
}
