use vstd::prelude::*;
use vstd::string::StringExecFns;

verus! {

/// The kinds of failure of a output management request.
#[derive(Debug, Clone, Copy, PartialEq, Eq, Structural)]
pub enum OutputManagementHandlerErrorCodes {
    UnknownError,
    RemoveModeError,
    HeadNotFoundError,
    ModeNotFoundError,
    NoSerialManagerNotReady,
}

impl Default for OutputManagementHandlerErrorCodes {
    fn default() -> (res: Self)
        ensures
            res == OutputManagementHandlerErrorCodes::UnknownError,
    {
        OutputManagementHandlerErrorCodes::UnknownError
    }
}

impl OutputManagementHandlerErrorCodes {
    /// The variant's name, as its `Debug` output writes it.
    pub open spec fn spec_name(self) -> Seq<char> {
        match self {
            OutputManagementHandlerErrorCodes::UnknownError => "UnknownError"@,
            OutputManagementHandlerErrorCodes::RemoveModeError => "RemoveModeError"@,
            OutputManagementHandlerErrorCodes::HeadNotFoundError => "HeadNotFoundError"@,
            OutputManagementHandlerErrorCodes::ModeNotFoundError => "ModeNotFoundError"@,
            OutputManagementHandlerErrorCodes::NoSerialManagerNotReady => "NoSerialManagerNotReady"@,
        }
    }

    /// The user-facing text of the code.
    pub open spec fn spec_display(self) -> Seq<char> {
        match self {
            OutputManagementHandlerErrorCodes::UnknownError => "OutputManagementHandlerErrorCodes: UnknownError"@,
            OutputManagementHandlerErrorCodes::RemoveModeError => "OutputManagementHandlerErrorCodes: RemoveModeError"@,
            OutputManagementHandlerErrorCodes::HeadNotFoundError => "OutputManagementHandlerErrorCodes: HeadNotFoundError"@,
            OutputManagementHandlerErrorCodes::ModeNotFoundError => "OutputManagementHandlerErrorCodes: ModeNotFoundError"@,
            OutputManagementHandlerErrorCodes::NoSerialManagerNotReady => "OutputManagementHandlerErrorCodes: NoSerialManagerNotReady"@,
        }
    }

    /// The variant's name.
    pub fn name(&self) -> (res: String)
        ensures
            res@ == self.spec_name(),
    {
        match self {
            OutputManagementHandlerErrorCodes::UnknownError => String::from_str("UnknownError"),
            OutputManagementHandlerErrorCodes::RemoveModeError => String::from_str("RemoveModeError"),
            OutputManagementHandlerErrorCodes::HeadNotFoundError => String::from_str("HeadNotFoundError"),
            OutputManagementHandlerErrorCodes::ModeNotFoundError => String::from_str("ModeNotFoundError"),
            OutputManagementHandlerErrorCodes::NoSerialManagerNotReady => String::from_str("NoSerialManagerNotReady"),
        }
    }

    /// The user-facing text of the code.
    pub fn display(&self) -> (res: String)
        ensures
            res@ == self.spec_display(),
    {
        match self {
            OutputManagementHandlerErrorCodes::UnknownError => String::from_str("OutputManagementHandlerErrorCodes: UnknownError"),
            OutputManagementHandlerErrorCodes::RemoveModeError => String::from_str("OutputManagementHandlerErrorCodes: RemoveModeError"),
            OutputManagementHandlerErrorCodes::HeadNotFoundError => String::from_str("OutputManagementHandlerErrorCodes: HeadNotFoundError"),
            OutputManagementHandlerErrorCodes::ModeNotFoundError => String::from_str("OutputManagementHandlerErrorCodes: ModeNotFoundError"),
            OutputManagementHandlerErrorCodes::NoSerialManagerNotReady => String::from_str("OutputManagementHandlerErrorCodes: NoSerialManagerNotReady"),
        }
    }
}

/// A failed output management request: what failed, and a sentence for people.
#[derive(Debug)]
pub struct OutputManagementHandlerError {
    pub code: OutputManagementHandlerErrorCodes,
    pub message: String,
}

impl OutputManagementHandlerError {
    pub fn new(code: OutputManagementHandlerErrorCodes, message: String) -> (res: Self)
        ensures
            res.code == code,
            res.message == message,
    {
        Self { code, message }
    }

    pub open spec fn spec_display(&self) -> Seq<char> {
        "OutputManagementHandlerErrorCodes:(code: "@ + self.code.spec_name() + ", message: "@
            + self.message@ + ")"@
    }

    /// The user-facing text of the error, naming its code and its message.
    pub fn display(&self) -> (res: String)
        ensures
            res@ == self.spec_display(),
    {
        let code = self.code.name();
        let mut res = String::from_str("OutputManagementHandlerErrorCodes:(code: ");
        res.append(code.as_str());
        res.append(", message: ");
        res.append(self.message.as_str());
        res.append(")");
        res
    }
}

} // verus!
