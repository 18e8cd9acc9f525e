use vstd::prelude::*;
use vstd::string::StringExecFns;

verus! {

/// The kinds of failure of a session lock request.
#[derive(Debug, Clone, Copy, PartialEq, Eq, Structural)]
pub enum SessionLockhandlerErrorCodes {
    UnknownError,
    ManagerIsNotSet,
    WLOutputIsNotSet,
    WLSurfaceIsNotSet,
    SessionLockIsNotSet,
    SessionLockSurfaceIsNotSet,
    SessionLockSurfaceSerialIsNotSet,
}

impl Default for SessionLockhandlerErrorCodes {
    fn default() -> (res: Self)
        ensures
            res == SessionLockhandlerErrorCodes::UnknownError,
    {
        SessionLockhandlerErrorCodes::UnknownError
    }
}

impl SessionLockhandlerErrorCodes {
    /// The variant's name, as its `Debug` output writes it.
    pub open spec fn spec_name(self) -> Seq<char> {
        match self {
            SessionLockhandlerErrorCodes::UnknownError => "UnknownError"@,
            SessionLockhandlerErrorCodes::ManagerIsNotSet => "ManagerIsNotSet"@,
            SessionLockhandlerErrorCodes::WLOutputIsNotSet => "WLOutputIsNotSet"@,
            SessionLockhandlerErrorCodes::WLSurfaceIsNotSet => "WLSurfaceIsNotSet"@,
            SessionLockhandlerErrorCodes::SessionLockIsNotSet => "SessionLockIsNotSet"@,
            SessionLockhandlerErrorCodes::SessionLockSurfaceIsNotSet => "SessionLockSurfaceIsNotSet"@,
            SessionLockhandlerErrorCodes::SessionLockSurfaceSerialIsNotSet => "SessionLockSurfaceSerialIsNotSet"@,
        }
    }

    /// The user-facing text of the code.
    pub open spec fn spec_display(self) -> Seq<char> {
        match self {
            SessionLockhandlerErrorCodes::UnknownError => "SessionLockhandlerErrorCodes: UnknownError"@,
            SessionLockhandlerErrorCodes::ManagerIsNotSet => "SessionLockhandlerErrorCodes: ManagerIsNotSet"@,
            SessionLockhandlerErrorCodes::WLOutputIsNotSet => "SessionLockhandlerErrorCodes: NoWLOutputFound"@,
            SessionLockhandlerErrorCodes::WLSurfaceIsNotSet => "SessionLockhandlerErrorCodes: WLSurfaceIsNotSet"@,
            SessionLockhandlerErrorCodes::SessionLockIsNotSet => "SessionLockhandlerErrorCodes: SessionLockIsNotSet"@,
            SessionLockhandlerErrorCodes::SessionLockSurfaceIsNotSet => "SessionLockhandlerErrorCodes: SessionLockSurfaceIsNotSet"@,
            SessionLockhandlerErrorCodes::SessionLockSurfaceSerialIsNotSet => "SessionLockhandlerErrorCodes: SessionLockSurfaceSerialIsNotSet"@,
        }
    }

    /// The variant's name.
    pub fn name(&self) -> (res: String)
        ensures
            res@ == self.spec_name(),
    {
        match self {
            SessionLockhandlerErrorCodes::UnknownError => String::from_str("UnknownError"),
            SessionLockhandlerErrorCodes::ManagerIsNotSet => String::from_str("ManagerIsNotSet"),
            SessionLockhandlerErrorCodes::WLOutputIsNotSet => String::from_str("WLOutputIsNotSet"),
            SessionLockhandlerErrorCodes::WLSurfaceIsNotSet => String::from_str("WLSurfaceIsNotSet"),
            SessionLockhandlerErrorCodes::SessionLockIsNotSet => String::from_str("SessionLockIsNotSet"),
            SessionLockhandlerErrorCodes::SessionLockSurfaceIsNotSet => String::from_str("SessionLockSurfaceIsNotSet"),
            SessionLockhandlerErrorCodes::SessionLockSurfaceSerialIsNotSet => String::from_str("SessionLockSurfaceSerialIsNotSet"),
        }
    }

    /// The user-facing text of the code.
    pub fn display(&self) -> (res: String)
        ensures
            res@ == self.spec_display(),
    {
        match self {
            SessionLockhandlerErrorCodes::UnknownError => String::from_str("SessionLockhandlerErrorCodes: UnknownError"),
            SessionLockhandlerErrorCodes::ManagerIsNotSet => String::from_str("SessionLockhandlerErrorCodes: ManagerIsNotSet"),
            SessionLockhandlerErrorCodes::WLOutputIsNotSet => String::from_str("SessionLockhandlerErrorCodes: NoWLOutputFound"),
            SessionLockhandlerErrorCodes::WLSurfaceIsNotSet => String::from_str("SessionLockhandlerErrorCodes: WLSurfaceIsNotSet"),
            SessionLockhandlerErrorCodes::SessionLockIsNotSet => String::from_str("SessionLockhandlerErrorCodes: SessionLockIsNotSet"),
            SessionLockhandlerErrorCodes::SessionLockSurfaceIsNotSet => String::from_str("SessionLockhandlerErrorCodes: SessionLockSurfaceIsNotSet"),
            SessionLockhandlerErrorCodes::SessionLockSurfaceSerialIsNotSet => String::from_str("SessionLockhandlerErrorCodes: SessionLockSurfaceSerialIsNotSet"),
        }
    }
}

/// A failed session lock request: what failed, and a sentence for people.
#[derive(Debug)]
pub struct SessionLockhandlerError {
    pub code: SessionLockhandlerErrorCodes,
    pub message: String,
}

impl SessionLockhandlerError {
    pub fn new(code: SessionLockhandlerErrorCodes, message: String) -> (res: Self)
        ensures
            res.code == code,
            res.message == message,
    {
        Self { code, message }
    }

    pub open spec fn spec_display(&self) -> Seq<char> {
        "SessionLockhandlerErrorCodes:(code: "@ + self.code.spec_name() + ", message: "@
            + self.message@ + ")"@
    }

    /// The user-facing text of the error, naming its code and its message.
    pub fn display(&self) -> (res: String)
        ensures
            res@ == self.spec_display(),
    {
        let code = self.code.name();
        let mut res = String::from_str("SessionLockhandlerErrorCodes:(code: ");
        res.append(code.as_str());
        res.append(", message: ");
        res.append(self.message.as_str());
        res.append(")");
        res
    }
}

} // verus!
