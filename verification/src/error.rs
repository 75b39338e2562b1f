use vstd::prelude::*;

verus! {

/// Every way a command or a frame can be rejected. Each kind has a stable
/// seven-character code that hosts match on.
#[derive(Debug, Clone, Copy, PartialEq, Eq, Structural)]
pub enum Error {
    InvalidCommand,
    DdsBusy,
    InvalidUtf8,
    InvalidSysEx,
    InvalidDataLenght,
    ParamCount,
    ParamValue,
    NotAQuery,
    UnknownCommand,
}

impl Error {
    /// The wire code of this error kind, as a sequence of characters.
    pub open spec fn code_text(self) -> Seq<char> {
        match self {
            Error::InvalidCommand => "E001001"@,
            Error::DdsBusy => "E001002"@,
            Error::InvalidUtf8 => "E001003"@,
            Error::InvalidSysEx => "E001004"@,
            Error::InvalidDataLenght => "E001005"@,
            Error::ParamCount => "E001006"@,
            Error::ParamValue => "E001007"@,
            Error::NotAQuery => "E001008"@,
            Error::UnknownCommand => "E001009"@,
        }
    }

    /// The stable code string sent to the host for this error.
    pub fn code(&self) -> (code: &'static str)
        ensures
            code@ == self.code_text(),
            code@.len() == 7,
            code.is_ascii(),
    {
        proof {
            reveal_strlit("E001001");
            reveal_strlit("E001002");
            reveal_strlit("E001003");
            reveal_strlit("E001004");
            reveal_strlit("E001005");
            reveal_strlit("E001006");
            reveal_strlit("E001007");
            reveal_strlit("E001008");
            reveal_strlit("E001009");
        }
        match self {
            Error::InvalidCommand => "E001001",
            Error::DdsBusy => "E001002",
            Error::InvalidUtf8 => "E001003",
            Error::InvalidSysEx => "E001004",
            Error::InvalidDataLenght => "E001005",
            Error::ParamCount => "E001006",
            Error::ParamValue => "E001007",
            Error::NotAQuery => "E001008",
            Error::UnknownCommand => "E001009",
        }
    }
}

} // verus!
