//! Human-readable accounts of what went wrong while reading a status packet.

use vstd::prelude::*;

use crate::proto::packet::recv::{
    software_error_text, Error, InvalidSoftwareError, Mismatch16, Mismatch8, ParseError,
    PersistentError,
};
use crate::proto::{MAX_ID, MIN_ID};
use crate::text::{append_decimal, append_hex, decimal_text, hex_text};

verus! {

/// The account of a value that was expected and the value that came.
pub open spec fn mismatch_text(expected: nat, actual: nat) -> Seq<char> {
    "Expected `x"@ + hex_text(expected) + "` but received `x"@ + hex_text(actual) + "`"@
}

fn append_mismatch(s: &mut String, expected: u32, actual: u32)
    ensures
        final(s)@ == old(s)@ + mismatch_text(expected as nat, actual as nat),
{
    let ghost s0 = s@;
    s.append("Expected `x");
    append_hex(s, expected);
    s.append("` but received `x");
    append_hex(s, actual);
    s.append("`");
    assert(s@ =~= s0 + mismatch_text(expected as nat, actual as nat));
}

impl Mismatch8 {
    /// What was expected and what came, in hexadecimal.
    pub fn message(&self) -> (r: String)
        ensures
            r@ == mismatch_text(self.spec_expected() as nat, self.spec_actual() as nat),
    {
        let mut s = String::new();
        append_mismatch(&mut s, self.expected() as u32, self.actual() as u32);
        s
    }
}

impl Mismatch16 {
    /// What was expected and what came, in hexadecimal.
    pub fn message(&self) -> (r: String)
        ensures
            r@ == mismatch_text(self.spec_expected() as nat, self.spec_actual() as nat),
    {
        let mut s = String::new();
        append_mismatch(&mut s, self.expected() as u32, self.actual() as u32);
        s
    }
}

/// The account of an invalid software-error code.
pub open spec fn invalid_software_error_text(e: InvalidSoftwareError) -> Seq<char> {
    "InvalidSoftwareError { byte_without_msb: "@ + decimal_text(e.spec_byte_without_msb() as nat)
        + " }"@
}

impl InvalidSoftwareError {
    /// The code that names no software error.
    pub fn message(&self) -> (r: String)
        ensures
            r@ == invalid_software_error_text(*self),
    {
        let mut s = String::new();
        s.append("InvalidSoftwareError { byte_without_msb: ");
        append_decimal(&mut s, self.byte_without_msb() as u32);
        s.append(" }");
        assert(s@ =~= invalid_software_error_text(*self));
        s
    }
}

/// The account of each way a status packet can be malformed.
pub open spec fn parse_error_text(e: ParseError) -> Seq<char> {
    match e {
        ParseError::WrongFirstHeaderByte(m) => "Wrong first header byte: "@ + mismatch_text(
            m.spec_expected() as nat,
            m.spec_actual() as nat,
        ),
        ParseError::WrongSecondHeaderByte(m) => "Wrong second header byte: "@ + mismatch_text(
            m.spec_expected() as nat,
            m.spec_actual() as nat,
        ),
        ParseError::WrongThirdHeaderByte(m) => "Wrong third header byte: "@ + mismatch_text(
            m.spec_expected() as nat,
            m.spec_actual() as nat,
        ),
        ParseError::WrongReservedByte(m) => "Wrong reserved byte: "@ + mismatch_text(
            m.spec_expected() as nat,
            m.spec_actual() as nat,
        ),
        ParseError::InvalidId { id } => "Invalid ID: "@ + decimal_text(id as nat)
            + " (must be between "@ + decimal_text(MIN_ID as nat) + " and "@ + decimal_text(
            MAX_ID as nat,
        ) + ", inclusive)"@,
        ParseError::WrongLength(m) => "Wrong length: "@ + mismatch_text(
            m.spec_expected() as nat,
            m.spec_actual() as nat,
        ),
        ParseError::WrongInstruction(m) => "Wrong instruction: "@ + mismatch_text(
            m.spec_expected() as nat,
            m.spec_actual() as nat,
        ),
        ParseError::InvalidSoftwareError(e) => "Invalid software error: "@
            + invalid_software_error_text(e),
    }
}

fn append_parse_error(s: &mut String, e: &ParseError)
    ensures
        final(s)@ == old(s)@ + parse_error_text(*e),
{
    let ghost s0 = s@;
    match e {
        ParseError::WrongFirstHeaderByte(m) => {
            s.append("Wrong first header byte: ");
            append_mismatch(s, m.expected() as u32, m.actual() as u32);
        },
        ParseError::WrongSecondHeaderByte(m) => {
            s.append("Wrong second header byte: ");
            append_mismatch(s, m.expected() as u32, m.actual() as u32);
        },
        ParseError::WrongThirdHeaderByte(m) => {
            s.append("Wrong third header byte: ");
            append_mismatch(s, m.expected() as u32, m.actual() as u32);
        },
        ParseError::WrongReservedByte(m) => {
            s.append("Wrong reserved byte: ");
            append_mismatch(s, m.expected() as u32, m.actual() as u32);
        },
        ParseError::InvalidId { id } => {
            s.append("Invalid ID: ");
            append_decimal(s, *id as u32);
            s.append(" (must be between ");
            append_decimal(s, MIN_ID as u32);
            s.append(" and ");
            append_decimal(s, MAX_ID as u32);
            s.append(", inclusive)");
        },
        ParseError::WrongLength(m) => {
            s.append("Wrong length: ");
            append_mismatch(s, m.expected() as u32, m.actual() as u32);
        },
        ParseError::WrongInstruction(m) => {
            s.append("Wrong instruction: ");
            append_mismatch(s, m.expected() as u32, m.actual() as u32);
        },
        ParseError::InvalidSoftwareError(e) => {
            s.append("Invalid software error: ");
            let t = e.message();
            s.append(t.as_str());
        },
    }
    assert(s@ =~= s0 + parse_error_text(*e));
}

impl ParseError {
    /// What is wrong with the packet.
    pub fn message(&self) -> (r: String)
        ensures
            r@ == parse_error_text(*self),
    {
        let mut s = String::new();
        append_parse_error(&mut s, self);
        s
    }
}

/// The account of each reason why a complete status packet does not carry
/// the answer.
pub open spec fn error_text<Output>(e: Error<Output>) -> Seq<char> {
    match e {
        Error::Parsing(p) => "Parsing error: "@ + parse_error_text(p),
        Error::Crc(m) => "CRC error: "@ + mismatch_text(m.spec_expected() as nat, m.spec_actual() as nat),
        Error::Software(e) => "Software error: "@ + software_error_text(e),
        Error::Hardware(_) => "Hardware error (details require a separate request)"@,
    }
}

impl<Output> Error<Output> {
    /// Why the packet does not carry the answer.
    pub fn message(&self) -> (r: String)
        ensures
            r@ == error_text(*self),
    {
        let mut s = String::new();
        match self {
            Error::Parsing(p) => {
                s.append("Parsing error: ");
                append_parse_error(&mut s, p);
            },
            Error::Crc(m) => {
                s.append("CRC error: ");
                append_mismatch(&mut s, m.expected() as u32, m.actual() as u32);
            },
            Error::Software(e) => {
                s.append("Software error: ");
                s.append(e.description());
            },
            Error::Hardware(_) => {
                s.append("Hardware error (details require a separate request)");
            },
        }
        assert(s@ =~= error_text(*self));
        s
    }
}

/// The account of a real error reported by the awaited actuator.
pub open spec fn persistent_error_text<Output>(e: PersistentError<Output>) -> Seq<char> {
    match e {
        PersistentError::Software(e) => "Software("@ + software_error_text(e) + ")"@,
        PersistentError::Hardware(_) => "Hardware(..)"@,
    }
}

impl<Output> PersistentError<Output> {
    /// The error reported.
    pub fn message(&self) -> (r: String)
        ensures
            r@ == persistent_error_text(*self),
    {
        let mut s = String::new();
        match self {
            PersistentError::Software(e) => {
                s.append("Software(");
                s.append(e.description());
                s.append(")");
            },
            PersistentError::Hardware(_) => {
                s.append("Hardware(..)");
            },
        }
        assert(s@ =~= persistent_error_text(*self));
        s
    }
}

} // verus!
