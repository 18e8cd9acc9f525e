use vstd::prelude::*;
use vstd::string::StringExecFns;

verus! {

/// The kinds of failure of a screen capture request.
#[derive(Debug, Clone, Copy, PartialEq, Eq, Structural)]
pub enum ScreencopyHandlerErrorCodes {
    UnknownError,
    WLOutputIsNotSet,
    WlShmIsNotSet,
    ScreencopyFrameIsNotSet,
    ScreencopyBufferIsNotSet,
    ScreencopyFrameBufferFormatError,
    ScreencopyFrameBufferFormatUnsupported,
    SharedMemFdCreateFailed,
}

impl Default for ScreencopyHandlerErrorCodes {
    fn default() -> (res: Self)
        ensures
            res == ScreencopyHandlerErrorCodes::UnknownError,
    {
        ScreencopyHandlerErrorCodes::UnknownError
    }
}

impl ScreencopyHandlerErrorCodes {
    /// The variant's name, as its `Debug` output writes it.
    pub open spec fn spec_name(self) -> Seq<char> {
        match self {
            ScreencopyHandlerErrorCodes::UnknownError => "UnknownError"@,
            ScreencopyHandlerErrorCodes::WLOutputIsNotSet => "WLOutputIsNotSet"@,
            ScreencopyHandlerErrorCodes::WlShmIsNotSet => "WlShmIsNotSet"@,
            ScreencopyHandlerErrorCodes::ScreencopyFrameIsNotSet => "ScreencopyFrameIsNotSet"@,
            ScreencopyHandlerErrorCodes::ScreencopyBufferIsNotSet => "ScreencopyBufferIsNotSet"@,
            ScreencopyHandlerErrorCodes::ScreencopyFrameBufferFormatError => "ScreencopyFrameBufferFormatError"@,
            ScreencopyHandlerErrorCodes::ScreencopyFrameBufferFormatUnsupported => "ScreencopyFrameBufferFormatUnsupported"@,
            ScreencopyHandlerErrorCodes::SharedMemFdCreateFailed => "SharedMemFdCreateFailed"@,
        }
    }

    /// The user-facing text of the code.
    pub open spec fn spec_display(self) -> Seq<char> {
        match self {
            ScreencopyHandlerErrorCodes::UnknownError => "ScreencopyHandlerErrorCodes: UnknownError"@,
            ScreencopyHandlerErrorCodes::WLOutputIsNotSet => "ScreencopyHandlerErrorCodes: WLOutputIsNotSet"@,
            ScreencopyHandlerErrorCodes::WlShmIsNotSet => "ScreencopyHandlerErrorCodes: WlShmIsNotSet"@,
            ScreencopyHandlerErrorCodes::ScreencopyFrameIsNotSet => "ScreencopyHandlerErrorCodes: ScreencopyFrameIsNotSet"@,
            ScreencopyHandlerErrorCodes::ScreencopyBufferIsNotSet => "ScreencopyHandlerErrorCodes: ScreencopyBufferIsNotSet"@,
            ScreencopyHandlerErrorCodes::ScreencopyFrameBufferFormatError => "ScreencopyHandlerErrorCodes: ScreencopyFrameBufferFormatError"@,
            ScreencopyHandlerErrorCodes::ScreencopyFrameBufferFormatUnsupported => "ScreencopyHandlerErrorCodes: ScreencopyFrameBufferFormatUnsupported"@,
            ScreencopyHandlerErrorCodes::SharedMemFdCreateFailed => "ScreencopyHandlerErrorCodes: SharedMemFdCreateFailed"@,
        }
    }

    /// The variant's name.
    pub fn name(&self) -> (res: String)
        ensures
            res@ == self.spec_name(),
    {
        match self {
            ScreencopyHandlerErrorCodes::UnknownError => String::from_str("UnknownError"),
            ScreencopyHandlerErrorCodes::WLOutputIsNotSet => String::from_str("WLOutputIsNotSet"),
            ScreencopyHandlerErrorCodes::WlShmIsNotSet => String::from_str("WlShmIsNotSet"),
            ScreencopyHandlerErrorCodes::ScreencopyFrameIsNotSet => String::from_str("ScreencopyFrameIsNotSet"),
            ScreencopyHandlerErrorCodes::ScreencopyBufferIsNotSet => String::from_str("ScreencopyBufferIsNotSet"),
            ScreencopyHandlerErrorCodes::ScreencopyFrameBufferFormatError => String::from_str("ScreencopyFrameBufferFormatError"),
            ScreencopyHandlerErrorCodes::ScreencopyFrameBufferFormatUnsupported => String::from_str("ScreencopyFrameBufferFormatUnsupported"),
            ScreencopyHandlerErrorCodes::SharedMemFdCreateFailed => String::from_str("SharedMemFdCreateFailed"),
        }
    }

    /// The user-facing text of the code.
    pub fn display(&self) -> (res: String)
        ensures
            res@ == self.spec_display(),
    {
        match self {
            ScreencopyHandlerErrorCodes::UnknownError => String::from_str("ScreencopyHandlerErrorCodes: UnknownError"),
            ScreencopyHandlerErrorCodes::WLOutputIsNotSet => String::from_str("ScreencopyHandlerErrorCodes: WLOutputIsNotSet"),
            ScreencopyHandlerErrorCodes::WlShmIsNotSet => String::from_str("ScreencopyHandlerErrorCodes: WlShmIsNotSet"),
            ScreencopyHandlerErrorCodes::ScreencopyFrameIsNotSet => String::from_str("ScreencopyHandlerErrorCodes: ScreencopyFrameIsNotSet"),
            ScreencopyHandlerErrorCodes::ScreencopyBufferIsNotSet => String::from_str("ScreencopyHandlerErrorCodes: ScreencopyBufferIsNotSet"),
            ScreencopyHandlerErrorCodes::ScreencopyFrameBufferFormatError => String::from_str("ScreencopyHandlerErrorCodes: ScreencopyFrameBufferFormatError"),
            ScreencopyHandlerErrorCodes::ScreencopyFrameBufferFormatUnsupported => String::from_str("ScreencopyHandlerErrorCodes: ScreencopyFrameBufferFormatUnsupported"),
            ScreencopyHandlerErrorCodes::SharedMemFdCreateFailed => String::from_str("ScreencopyHandlerErrorCodes: SharedMemFdCreateFailed"),
        }
    }
}

/// A failed screen capture request: what failed, and a sentence for people.
#[derive(Debug)]
pub struct ScreencopyHandlerError {
    pub code: ScreencopyHandlerErrorCodes,
    pub message: String,
}

impl ScreencopyHandlerError {
    pub fn new(code: ScreencopyHandlerErrorCodes, message: String) -> (res: Self)
        ensures
            res.code == code,
            res.message == message,
    {
        Self { code, message }
    }

    pub open spec fn spec_display(&self) -> Seq<char> {
        "ScreencopyHandlerErrorCodes:(code: "@ + self.code.spec_name() + ", message: "@
            + self.message@ + ")"@
    }

    /// The user-facing text of the error, naming its code and its message.
    pub fn display(&self) -> (res: String)
        ensures
            res@ == self.spec_display(),
    {
        let code = self.code.name();
        let mut res = String::from_str("ScreencopyHandlerErrorCodes:(code: ");
        res.append(code.as_str());
        res.append(", message: ");
        res.append(self.message.as_str());
        res.append(")");
        res
    }
}

} // verus!
