use vstd::prelude::*;
use vstd::string::StrSliceExecFns;
use std::io::Write;

verus! {

/// Relies on io::Write::write_all via the write! macro: sends the text to
/// standard output. Nothing about the text is changed, and nothing of the
/// outcome is promised.
#[verifier::external_body]
pub fn emit(s: &str) {
    let _ = write!(std::io::stdout(), "{}", s);
}

/// Relies on io::Stdin::read_line: hands back one raw line of standard
/// input (newline included), or `Err` when reading fails. What comes back
/// depends on the process's input, so nothing is promised of it.
#[verifier::external_body]
fn read_raw_line() -> (r: Result<String, ()>) {
    let mut line = String::new();
    match std::io::stdin().read_line(&mut line) {
        Ok(_) => Ok(line),
        Err(_) => Err(()),
    }
}

/// One line of standard input with its trailing line break removed, or
/// `Err` when reading fails.
pub fn read_input_line() -> (r: Result<String, ()>)
    ensures
        r matches Ok(s) ==> s@.len() == 0 || (s@.last() != '\n' && s@.last() != '\r'),
{
    let raw = match read_raw_line() {
        Ok(s) => s,
        Err(()) => {
            return Err(());
        }
    };
    let mut end = raw.as_str().unicode_len();
    loop
        invariant
            end <= raw@.len(),
        ensures
            end <= raw@.len(),
            end == 0 || (raw@[end - 1] != '\n' && raw@[end - 1] != '\r'),
        decreases end,
    {
        if end == 0 {
            break;
        }
        let c = raw.as_str().get_char(end - 1);
        if c == '\n' || c == '\r' {
            end = end - 1;
        } else {
            break;
        }
    }
    let trimmed = raw.as_str().substring_char(0, end).to_owned();
    Ok(trimmed)
}

} // verus!
