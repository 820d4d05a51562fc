use vstd::prelude::*;
use crate::error::{AbsEither, AbsErr, EitherError, ErrorKind, SwResult};
use crate::value::{str_repeat, type_of, AbsValue, Type, Value};

verus! {

/// The interpreter's window onto natively loaded modules. A host opens a
/// module, reports the interface version the module declares, resolves the
/// named functions in it to handles, and later invokes those handles.
/// Nothing is promised of any of these calls: the interpreter is verified
/// for every behaviour a host can show.
pub trait NativeHost {
    /// Opens the module at `path`; `Err` when it cannot be loaded.
    fn open_module(&mut self, path: &String) -> Result<u64, ()>;

    /// The interface version the module declares; `Err` when it declares
    /// none.
    fn module_abi(&mut self, module: u64) -> Result<u32, ()>;

    /// Resolves the function `name` in `module` to a callable handle.
    fn resolve(&mut self, module: u64, name: &String) -> Result<u64, ()>;

    /// Invokes a resolved handle on evaluated arguments; `Err(())` stands
    /// for a call that yielded nothing.
    fn call_native(&mut self, func: u64, args: Vec<Value>) -> Result<Value, EitherError>;
}

/// The host used when no native modules are available: every load fails and
/// no handle can be invoked.
pub struct NoHost;

impl NativeHost for NoHost {
    fn open_module(&mut self, path: &String) -> Result<u64, ()> {
        Err(())
    }

    fn module_abi(&mut self, module: u64) -> Result<u32, ()> {
        Err(())
    }

    fn resolve(&mut self, module: u64, name: &String) -> Result<u64, ()> {
        Err(())
    }

    fn call_native(&mut self, func: u64, args: Vec<Value>) -> Result<Value, EitherError> {
        Err(EitherError::NoContext(ErrorKind::DylibReturnedNil))
    }
}

/// What the `multiply` extension returns: the first argument's text repeated
/// as many times as the second argument says, or the error it raises.
pub open spec fn spec_native_multiply(args: Seq<AbsValue>) -> Result<AbsValue, AbsErr> {
    match args[0] {
        AbsValue::Str(s) => match args[1] {
            AbsValue::Int(n) => Ok(AbsValue::Str(str_repeat(s, n))),
            _ => Err(AbsErr::UnexpectedType { expected: Type::Str, actual: type_of(args[0]) }),
        },
        _ => Err(AbsErr::UnexpectedType { expected: Type::Str, actual: type_of(args[0]) }),
    }
}

/// A string-repeat function of the shape a native module exports: the
/// body native modules are expected to follow.
pub fn multiply(args: &[Value]) -> (r: SwResult<Value>)
    requires
        args@.len() >= 2,
    ensures
        match spec_native_multiply(crate::value::vviews(args@)) {
            Ok(av) => r matches Ok(v) && v@ == av,
            Err(k) => r matches Err(e) && e@ == AbsEither::NoContext(k),
        },
{
    if let Value::Str(s) = &args[0] {
        if let Value::Int(n) = &args[1] {
            return Value::Str(s.clone()).multiply(&Value::Int(*n));
        }
    }
    Err(
        EitherError::NoContext(
            ErrorKind::UnexpectedType { expected: Type::Str, actual: args[0].get_type() },
        ),
    )
}

} // verus!
