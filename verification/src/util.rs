//! Reading what the files of the system hold.

use crate::error::Error;
use crate::number::{int_error_text, parse_i32, parsed_i32};
use crate::text::{trim, trimmed};
use vstd::prelude::*;
use vstd::string::StringExecFns;

verus! {

/// The number that the content of a file holds once the white space
/// around it is taken off. The error says why the content is no number.
pub fn parse_content(content: &str) -> (r: Result<i32, Error>)
    ensures
        match r {
            Ok(v) => parsed_i32(trimmed(content@)) == Ok::<int, crate::number::IntError>(v as int),
            Err(e) => parsed_i32(trimmed(content@)) is Err && e@ == int_error_text(
                parsed_i32(trimmed(content@))->Err_0,
            ),
        },
{
    let text = trim(content);
    match parse_i32(text.as_str()) {
        Ok(v) => Ok(v),
        Err(e) => Err(Error::new(String::from_str(e.message()))),
    }
}

} // verus!
