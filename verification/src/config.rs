use crate::decimal::{decimal_u16, parse_u16};
use crate::text::{eq_ignore_ascii_case, same_ignoring_ascii_case, trim, trimmed};
use vstd::prelude::*;
use vstd::string::StringExecFns;

verus! {

/// The port the server listens on when the command line names none.
pub const DEFAULT_PORT: u16 = 11211;

/// A port argument that is no port number.
#[derive(Debug, PartialEq, Eq)]
pub struct BadPort {
    /// The argument as given, without surrounding white space.
    pub text: String,
}

/// The texts of a list of strings.
pub open spec fn argument_texts(args: Seq<String>) -> Seq<Seq<char>> {
    Seq::new(args.len(), |i: int| args[i]@)
}

/// The first index from `from` on that holds the port flag `-p`, in any case,
/// and has an argument after it.
pub open spec fn port_flag_from(args: Seq<Seq<char>>, from: int) -> Option<int>
    decreases args.len() - from,
{
    if from < 0 || from + 1 >= args.len() {
        None
    } else if same_ignoring_ascii_case(args[from], "-p"@) {
        Some(from)
    } else {
        port_flag_from(args, from + 1)
    }
}

/// The port that a command line asks for: the argument after the first port
/// flag, read as a `u16` without its surrounding white space, or the default
/// where there is no such flag. An argument that is no `u16` is an error and
/// comes back as it was read.
pub open spec fn port_of(args: Seq<Seq<char>>) -> Result<u16, Seq<char>> {
    match port_flag_from(args, 0) {
        None => Ok(DEFAULT_PORT),
        Some(i) => match decimal_u16(trimmed(args[i + 1])) {
            Some(port) => Ok(port),
            None => Err(trimmed(args[i + 1])),
        },
    }
}

/// The content of an optional port.
pub open spec fn port_view(choice: Result<u16, BadPort>) -> Result<u16, Seq<char>> {
    match choice {
        Ok(port) => Ok(port),
        Err(bad) => Err(bad.text@),
    }
}

/// Picks the listen port from the arguments of the process.
pub fn listen_port(args: &Vec<String>) -> (choice: Result<u16, BadPort>)
    ensures
        port_view(choice) == port_of(argument_texts(args@)),
{
    let ghost texts = argument_texts(args@);
    let n: usize = args.len();
    let mut i: usize = 0;
    while n - i > 1
        invariant
            i <= n,
            n == args.len(),
            texts == argument_texts(args@),
            port_flag_from(texts, 0) == port_flag_from(texts, i as int),
        decreases n - i,
    {
        if eq_ignore_ascii_case(args[i].as_str(), "-p") {
            let text = trim(args[i + 1].as_str());
            return match parse_u16(text) {
                Some(port) => Ok(port),
                None => Err(BadPort { text: String::from_str(text) }),
            };
        }
        i += 1;
    }
    Ok(DEFAULT_PORT)
}

} // verus!
