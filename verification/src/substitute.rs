//! Applying a substitution command to a text.

use vstd::prelude::*;
use crate::error::Error;

verus! {

/// The error of `sedregex`: the command has too few parts, does not start
/// with `s`, has an unknown flag, or its pattern is no regular expression.
#[verifier::external_type_specification]
#[verifier::external_body]
pub struct ExErrorKind(sedregex::ErrorKind);

/// The text that the command turns `text` into, or nothing where the
/// command is no valid substitution.
pub uninterp spec fn substituted(text: Seq<char>, command: Seq<char>) -> Option<Seq<char>>;

/// Applies one command to a text with `sedregex::find_and_replace`, which
/// parses the command, compiles its pattern and replaces the first match,
/// or every match under the flag `g`. The contract only gives the outcome
/// its name: it depends on the text and the command and on nothing else,
/// and it is an error exactly where the name has no text.
#[verifier::external_body]
fn find_and_replace(text: &str, command: &str) -> (r: Result<String, sedregex::ErrorKind>)
    ensures
        match r {
            Ok(replaced) => substituted(text@, command@) == Some(replaced@),
            Err(_) => substituted(text@, command@) is None,
        },
{
    sedregex::find_and_replace(text, [command]).map(|replaced| replaced.into_owned())
}

/// What `execute` returns for each outcome of the substitution.
pub open spec fn execute_spec(command: Seq<char>, text: Seq<char>) -> Result<Seq<char>, Error> {
    match substituted(text, command) {
        Some(replaced) => Ok(replaced),
        None => Err(Error::MalformedCommand),
    }
}

/// Applies the command to the text. A command that is no valid
/// substitution is refused as malformed.
pub fn execute(command: &str, text: &str) -> (r: Result<String, Error>)
    ensures
        match r {
            Ok(replaced) => execute_spec(command@, text@) == Ok::<Seq<char>, Error>(replaced@),
            Err(error) => execute_spec(command@, text@) == Err::<Seq<char>, Error>(error),
        },
{
    match find_and_replace(text, command) {
        Ok(replaced) => Ok(replaced),
        Err(_) => Err(Error::MalformedCommand),
    }
}

} // verus!
