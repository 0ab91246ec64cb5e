//! The errors of reading and editing schematic files.

use crate::text::{decimal, decimal_text, decimal_value, law_decimal_stands_for_the_number};
use vstd::prelude::*;

verus! {

/// The error of an I/O operation of the standard library.
#[verifier::external_type_specification]
#[verifier::external_body]
pub struct ExIoError(std::io::Error);

/// Why a schematic could not be read or edited.
#[derive(Debug)]
pub enum SexpError {
    /// The text is not an s-expression; `offset` says where reading it failed.
    Parse { offset: usize, message: String },
    /// The file could not be read or written.
    Io(std::io::Error),
    /// A node that has to be there is not.
    MissingNode(String),
    /// A value has a form that cannot be used.
    InvalidValue(String),
}

impl SexpError {
    /// `text` is how the error is shown to a user.
    pub open spec fn shown_as(self, text: Seq<char>) -> bool {
        match self {
            SexpError::Parse { offset, message } => text == "Parse error at offset "@ + decimal(
                offset as nat,
            ) + ": "@ + message@,
            SexpError::Io(e) => exists|cause: String|
                {
                    &&& #[trigger] vstd::string::to_string_from_display_ensures::<std::io::Error>(
                        &e,
                        cause,
                    )
                    &&& text == "IO error: "@ + cause@
                },
            SexpError::MissingNode(name) => text == "Missing node: "@ + name@,
            SexpError::InvalidValue(value) => text == "Invalid value: "@ + value@,
        }
    }

    /// The text that is shown to a user.
    pub fn to_string(&self) -> (text: String)
        ensures
            self.shown_as(text@),
    {
        match self {
            SexpError::Parse { offset, message } => {
                let mut text = "Parse error at offset ".to_string();
                text.append(decimal_text(*offset).as_str());
                text.append(": ");
                text.append(message.as_str());
                text
            },
            SexpError::Io(e) => "IO error: ".to_string().concat(e.to_string().as_str()),
            SexpError::MissingNode(name) => "Missing node: ".to_string().concat(name.as_str()),
            SexpError::InvalidValue(value) => "Invalid value: ".to_string().concat(
                value.as_str(),
            ),
        }
    }
}

impl From<std::io::Error> for SexpError {
    fn from(e: std::io::Error) -> (r: SexpError) {
        SexpError::Io(e)
    }
}

impl vstd::std_specs::convert::FromSpecImpl<std::io::Error> for SexpError {
    open spec fn obeys_from_spec() -> bool {
        true
    }

    open spec fn from_spec(e: std::io::Error) -> SexpError {
        SexpError::Io(e)
    }
}

/// An error of the system is kept as it is.
pub proof fn law_errors_of_the_system_are_kept(e: std::io::Error)
    ensures
        <SexpError as vstd::std_specs::convert::FromSpec<std::io::Error>>::obeys_from_spec(),
        <SexpError as vstd::std_specs::convert::FromSpec<std::io::Error>>::from_spec(e)
            == SexpError::Io(e),
{
}

/// An error is shown by what is wrong: where reading failed, in decimal, and why; what the system
/// says of its own error; which node is missing; or which value cannot be used.
pub proof fn law_errors_are_shown_with_their_cause(error: SexpError, text: Seq<char>)
    requires
        error.shown_as(text),
    ensures
        error matches SexpError::Parse { offset, message } ==> exists|digits: Seq<char>|
            {
                &&& text == #[trigger] ("Parse error at offset "@ + digits + ": "@ + message@)
                &&& decimal_value(digits) == offset
                &&& digits.len() > 0
                &&& forall|i: int| 0 <= i < digits.len() ==> '0' <= #[trigger] digits[i] <= '9'
                &&& digits[0] == '0' ==> digits.len() == 1
            },
        error matches SexpError::Io(e) ==> exists|cause: String|
            {
                &&& #[trigger] vstd::string::to_string_from_display_ensures::<std::io::Error>(
                    &e,
                    cause,
                )
                &&& text == "IO error: "@ + cause@
            },
        error matches SexpError::MissingNode(name) ==> text == "Missing node: "@ + name@,
        error matches SexpError::InvalidValue(value) ==> text == "Invalid value: "@ + value@,
{
    if let SexpError::Parse { offset, message } = error {
        let digits = decimal(offset as nat);
        law_decimal_stands_for_the_number(offset as nat);
        assert(text == "Parse error at offset "@ + digits + ": "@ + message@);
    }
}

} // verus!
