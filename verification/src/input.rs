use vstd::prelude::*;

use crate::hex::{code_body, decode_code, decoded_bytes, is_hex_digit, valid_hex, HexError};

verus! {

/// Why the process input could not be understood. Malformed input is fatal:
/// the harness terminates before any backend runs.
#[derive(Clone, Copy, Debug, PartialEq, Eq, Structural)]
pub enum InputError {
    /// The input carries no iteration count.
    MissingIterations,
    /// The input carries no bytecode text.
    MissingCode,
}

/// One benchmark request: an iteration count and hexadecimal-encoded
/// bytecode, optionally prefixed with `0x`.
pub struct Run {
    pub iterations: u64,
    pub code: String,
}

impl Run {
    /// Assemble a request from the two input fields; each must be present.
    pub fn from_parts(iterations: Option<u64>, code: Option<String>) -> (r: Result<
        Run,
        InputError,
    >)
        ensures
            iterations is None ==> r == Err::<Run, InputError>(InputError::MissingIterations),
            iterations is Some && code is None ==> r == Err::<Run, InputError>(
                InputError::MissingCode,
            ),
            iterations is Some && code is Some ==> r is Ok,
            r matches Ok(run) ==> run.iterations == iterations->Some_0 && run.code@
                == code->Some_0@,
    {
        let n = match iterations {
            Some(n) => n,
            None => {
                return Err(InputError::MissingIterations);
            },
        };
        let code = match code {
            Some(c) => c,
            None => {
                return Err(InputError::MissingCode);
            },
        };
        Ok(Run { iterations: n, code })
    }

    /// Decode the request's bytecode, stripping an optional `0x` prefix;
    /// text that is not valid hexadecimal is rejected.
    pub fn code_bytes(&self) -> (r: Result<Vec<u8>, HexError>)
        ensures
            r matches Ok(v) ==> valid_hex(code_body(self.code@)) && v@ == decoded_bytes(
                code_body(self.code@),
            ),
            valid_hex(code_body(self.code@)) ==> r matches Ok(_),
            !valid_hex(code_body(self.code@)) ==> r matches Err(_),
            (exists|i: int|
                0 <= i < code_body(self.code@).len() && !is_hex_digit(code_body(self.code@)[i]))
                ==> r == Err::<Vec<u8>, HexError>(HexError::InvalidDigit),
            (forall|i: int|
                0 <= i < code_body(self.code@).len() ==> is_hex_digit(
                    #[trigger] code_body(self.code@)[i],
                )) && code_body(self.code@).len() % 2 != 0 ==> r == Err::<Vec<u8>, HexError>(
                HexError::OddLength,
            ),
    {
        decode_code(self.code.as_str())
    }
}

} // verus!
