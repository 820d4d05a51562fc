use schwift::error::{EitherError, ErrorKind};
use schwift::grammar;
use schwift::native::NativeHost;
use schwift::state::State;
use schwift::value::Value;

/// A host with one pretend module offering one function that reverses the
/// sign of its first argument.
struct TestHost {
    abi: Option<u32>,
    openable: bool,
    resolvable: bool,
    calls: usize,
}

impl NativeHost for TestHost {
    fn open_module(&mut self, _path: &String) -> Result<u64, ()> {
        if self.openable {
            Ok(7)
        } else {
            Err(())
        }
    }

    fn module_abi(&mut self, _module: u64) -> Result<u32, ()> {
        self.abi.ok_or(())
    }

    fn resolve(&mut self, _module: u64, _name: &String) -> Result<u64, ()> {
        if self.resolvable {
            Ok(99)
        } else {
            Err(())
        }
    }

    fn call_native(&mut self, func: u64, args: Vec<Value>) -> Result<Value, EitherError> {
        self.calls += 1;
        assert_eq!(func, 99);
        match args.first() {
            Some(Value::Int(i)) => Ok(Value::Int(-i)),
            _ => Err(EitherError::NoContext(ErrorKind::DylibReturnedNil)),
        }
    }
}

fn host() -> TestHost {
    TestHost { abi: Some(schwift::LIBSCHWIFT_ABI_COMPAT), openable: true, resolvable: true, calls: 0 }
}

#[test]
fn test_load_and_call_native_function() {
    let mut state = State::new();
    let mut h = host();
    let code = grammar::file(
        "microverse \"mod.so\" :<\n    negate()\n>:\nx squanch negate(41)\n",
    )
    .unwrap();
    state.run_with(&mut h, &code).unwrap();
    assert_eq!(*state.get("x").unwrap(), Value::Int(-41));
    assert_eq!(h.calls, 1);
}

#[test]
fn test_unopenable_module_is_load_error() {
    let mut state = State::new();
    let mut h = host();
    h.openable = false;
    let code = grammar::file("microverse \"mod.so\" :<\n    negate()\n>:\n").unwrap();
    let err = state.run_with(&mut h, &code).unwrap_err();
    assert!(matches!(err.kind, ErrorKind::LoadError(_)));
}

#[test]
fn test_missing_abi_constant() {
    let mut state = State::new();
    let mut h = host();
    h.abi = None;
    let code = grammar::file("microverse \"mod.so\" :<\n    negate()\n>:\n").unwrap();
    let err = state.run_with(&mut h, &code).unwrap_err();
    match err.kind {
        ErrorKind::MissingAbiCompat { library } => assert_eq!(library, "mod.so".to_string()),
        _ => panic!("a module without the version constant must be reported"),
    }
}

#[test]
fn test_incompatible_abi_version() {
    let mut state = State::new();
    let mut h = host();
    h.abi = Some(schwift::LIBSCHWIFT_ABI_COMPAT + 1);
    let code = grammar::file("microverse \"mod.so\" :<\n    negate()\n>:\n").unwrap();
    let err = state.run_with(&mut h, &code).unwrap_err();
    match err.kind {
        ErrorKind::IncompatibleAbi(v) => assert_eq!(v, schwift::LIBSCHWIFT_ABI_COMPAT + 1),
        _ => panic!("a version mismatch must be reported"),
    }
}

#[test]
fn test_non_call_declaration_is_rejected() {
    let mut state = State::new();
    let mut h = host();
    let code = grammar::file("microverse \"mod.so\" :<\n    x squanch 1\n>:\n").unwrap();
    let err = state.run_with(&mut h, &code).unwrap_err();
    assert!(matches!(err.kind, ErrorKind::NonFunctionCallInDylib(_)));
}

#[test]
fn test_unresolvable_name_is_load_error() {
    let mut state = State::new();
    let mut h = host();
    h.resolvable = false;
    let code = grammar::file("microverse \"mod.so\" :<\n    negate()\n>:\n").unwrap();
    let err = state.run_with(&mut h, &code).unwrap_err();
    match err.kind {
        ErrorKind::LoadError(which) => assert_eq!(which, "negate".to_string()),
        _ => panic!("an unresolvable declaration must be reported"),
    }
}

#[test]
fn test_native_failure_propagates() {
    let mut state = State::new();
    let mut h = host();
    let code = grammar::file(
        "microverse \"mod.so\" :<\n    negate()\n>:\nx squanch negate(rick)\n",
    )
    .unwrap();
    let err = state.run_with(&mut h, &code).unwrap_err();
    assert!(matches!(err.kind, ErrorKind::DylibReturnedNil));
}

#[test]
fn test_append_to_non_list_is_unindexable() {
    let mut state = State::new();
    let code = grammar::file("x squanch 3\nx assimilate 4\n").unwrap();
    let err = state.run(&code).unwrap_err();
    assert!(matches!(err.kind, ErrorKind::IndexUnindexable(_)));
}
