use vstd::prelude::*;
use vstd::string::StringExecFns;

verus! {

/// The kinds of failure of a toplevel request.
#[derive(Debug, Clone, Copy, PartialEq, Eq, Structural)]
pub enum ToplevelHandlerErrorCodes {
    UnknownError,
    ToplevelNotFound,
}

impl Default for ToplevelHandlerErrorCodes {
    fn default() -> (res: Self)
        ensures
            res == ToplevelHandlerErrorCodes::UnknownError,
    {
        ToplevelHandlerErrorCodes::UnknownError
    }
}

impl ToplevelHandlerErrorCodes {
    /// The variant's name, as its `Debug` output writes it.
    pub open spec fn spec_name(self) -> Seq<char> {
        match self {
            ToplevelHandlerErrorCodes::UnknownError => "UnknownError"@,
            ToplevelHandlerErrorCodes::ToplevelNotFound => "ToplevelNotFound"@,
        }
    }

    /// The user-facing text of the code.
    pub open spec fn spec_display(self) -> Seq<char> {
        match self {
            ToplevelHandlerErrorCodes::UnknownError => "ToplevelHandlerErrorCodes: UnknownError"@,
            ToplevelHandlerErrorCodes::ToplevelNotFound => "ToplevelHandlerErrorCodes: ToplevelNotFound"@,
        }
    }

    /// The variant's name.
    pub fn name(&self) -> (res: String)
        ensures
            res@ == self.spec_name(),
    {
        match self {
            ToplevelHandlerErrorCodes::UnknownError => String::from_str("UnknownError"),
            ToplevelHandlerErrorCodes::ToplevelNotFound => String::from_str("ToplevelNotFound"),
        }
    }

    /// The user-facing text of the code.
    pub fn display(&self) -> (res: String)
        ensures
            res@ == self.spec_display(),
    {
        match self {
            ToplevelHandlerErrorCodes::UnknownError => String::from_str("ToplevelHandlerErrorCodes: UnknownError"),
            ToplevelHandlerErrorCodes::ToplevelNotFound => String::from_str("ToplevelHandlerErrorCodes: ToplevelNotFound"),
        }
    }
}

/// A failed toplevel request: what failed, and a sentence for people.
#[derive(Debug)]
pub struct ToplevelHandlerError {
    pub code: ToplevelHandlerErrorCodes,
    pub message: String,
}

impl ToplevelHandlerError {
    pub fn new(code: ToplevelHandlerErrorCodes, message: String) -> (res: Self)
        ensures
            res.code == code,
            res.message == message,
    {
        Self { code, message }
    }

    pub open spec fn spec_display(&self) -> Seq<char> {
        "ToplevelHandlerErrorCodes:(code: "@ + self.code.spec_name() + ", message: "@
            + self.message@ + ")"@
    }

    /// The user-facing text of the error, naming its code and its message.
    pub fn display(&self) -> (res: String)
        ensures
            res@ == self.spec_display(),
    {
        let code = self.code.name();
        let mut res = String::from_str("ToplevelHandlerErrorCodes:(code: ");
        res.append(code.as_str());
        res.append(", message: ");
        res.append(self.message.as_str());
        res.append(")");
        res
    }
}

} // verus!
