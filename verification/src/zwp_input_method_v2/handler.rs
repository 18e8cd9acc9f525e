use vstd::prelude::*;

verus! {

/// What a client asks of the input method.
#[derive(Debug)]
pub enum InputMethodMessage {
    CommitString { text: String },
    SetPreeditString { text: String, cursor_begin: i32, cursor_end: i32 },
    DeleteSurroundingText { before_length: u32, after_length: u32 },
    Commit,
}

/// What the input method handler tells its subscribers. The change cause,
/// content hint and content purpose come as the known protocol value, or as
/// the unknown one the compositor sent.
#[derive(Debug)]
pub enum InputMethodEvent {
    Activate,
    Deactivate,
    Done,
    SurroundingText { text: String, cursor: u32, anchor: u32 },
    TextChangeCause { cause: Result<u32, u32> },
    ContentType { hint: Result<u32, u32>, purpose: Result<u32, u32> },
    Unavailable,
}

/// The request that a message sends on the input method.
#[derive(Debug)]
pub enum InputMethodRequest {
    CommitString { text: String },
    SetPreeditString { text: String, cursor_begin: i32, cursor_end: i32 },
    DeleteSurroundingText { before_length: u32, after_length: u32 },
    Commit { serial: u32 },
}

/// How many `done` events the compositor has sent, modulo 2^32: the serial
/// that a commit carries.
pub struct InputMethodState {
    pub serial: u32,
}

/// The serial after one more `done` event.
pub open spec fn next_serial(serial: u32) -> u32 {
    ((serial + 1) % 0x1_0000_0000) as u32
}

impl InputMethodState {
    pub fn new() -> (res: Self)
        ensures
            res.serial == 0,
    {
        InputMethodState { serial: 0 }
    }

    /// An event on the input method: each `done` advances the serial, and
    /// every event is passed on unchanged.
    pub fn on_event(&mut self, event: InputMethodEvent) -> (res: InputMethodEvent)
        ensures
            res == event,
            final(self).serial == if event is Done {
                next_serial(old(self).serial)
            } else {
                old(self).serial
            },
    {
        if let InputMethodEvent::Done = event {
            self.serial = if self.serial == u32::MAX {
                0
            } else {
                self.serial + 1
            };
        }
        event
    }

    /// The request that a message sends; a commit carries the current serial.
    pub fn request(&self, message: InputMethodMessage) -> (res: InputMethodRequest)
        ensures
            match message {
                InputMethodMessage::CommitString { text } => res == (InputMethodRequest::CommitString { text }),
                InputMethodMessage::SetPreeditString { text, cursor_begin, cursor_end } => res
                    == (InputMethodRequest::SetPreeditString { text, cursor_begin, cursor_end }),
                InputMethodMessage::DeleteSurroundingText { before_length, after_length } => res
                    == (InputMethodRequest::DeleteSurroundingText { before_length, after_length }),
                InputMethodMessage::Commit => res == (InputMethodRequest::Commit { serial: self.serial }),
            },
    {
        match message {
            InputMethodMessage::CommitString { text } => InputMethodRequest::CommitString { text },
            InputMethodMessage::SetPreeditString { text, cursor_begin, cursor_end } => InputMethodRequest::SetPreeditString {
                text,
                cursor_begin,
                cursor_end,
            },
            InputMethodMessage::DeleteSurroundingText { before_length, after_length } => InputMethodRequest::DeleteSurroundingText {
                before_length,
                after_length,
            },
            InputMethodMessage::Commit => InputMethodRequest::Commit { serial: self.serial },
        }
    }
}

} // verus!
