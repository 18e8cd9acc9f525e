use vstd::prelude::*;
use vstd::string::StringExecFns;
use wayland_client::protocol::{wl_output::WlOutput, wl_seat::WlSeat, wl_surface::WlSurface};
use wayland_protocols::ext::session_lock::v1::client::{
    ext_session_lock_manager_v1::ExtSessionLockManagerV1,
    ext_session_lock_surface_v1::ExtSessionLockSurfaceV1, ext_session_lock_v1::ExtSessionLockV1,
};

use super::errors::{SessionLockhandlerError, SessionLockhandlerErrorCodes};

verus! {

/// What the session lock handler tells its subscribers.
#[derive(Debug, Clone, Copy, PartialEq, Eq, Structural)]
pub enum SessionLockEvent {
    Locked,
    Finished,
    Configure { serial: u32, width: u32, height: u32 },
}

/// The events that the compositor sends on a session lock.
#[derive(Debug, Clone, Copy, PartialEq, Eq, Structural)]
pub enum SessionLockNotice {
    Locked,
    Finished,
}

/// The protocol objects and the configure serial that a session lock client keeps.
pub struct SessionLockState {
    pub seat: Option<WlSeat>,
    pub output: Option<WlOutput>,
    pub surface: Option<WlSurface>,
    pub session_lock_manager: Option<ExtSessionLockManagerV1>,
    pub session_lock: Option<ExtSessionLockV1>,
    pub session_lock_surface: Option<ExtSessionLockSurfaceV1>,
    pub session_lock_configure_serial: Option<u32>,
}

/// The sentence that comes with each failure of a session lock request.
pub open spec fn failure_message(code: SessionLockhandlerErrorCodes) -> Seq<char> {
    match code {
        SessionLockhandlerErrorCodes::ManagerIsNotSet => "session lock manager uninitialized or is not set"@,
        SessionLockhandlerErrorCodes::WLOutputIsNotSet => "wl_output uninitialized or is not set"@,
        SessionLockhandlerErrorCodes::WLSurfaceIsNotSet => "wl_surface uninitialized or is not set"@,
        SessionLockhandlerErrorCodes::SessionLockIsNotSet => "session_lock uninitialized or is not set, did you lock the session?"@,
        SessionLockhandlerErrorCodes::SessionLockSurfaceIsNotSet => "session_lock_surface uninitialized or is not set, did you lock the session?"@,
        SessionLockhandlerErrorCodes::SessionLockSurfaceSerialIsNotSet => "session_lock_configure_serial uninitialized or is not set"@,
        SessionLockhandlerErrorCodes::UnknownError => Seq::empty(),
    }
}

/// The error of the given code, with its sentence.
pub fn failure(code: SessionLockhandlerErrorCodes) -> (e: SessionLockhandlerError)
    ensures
        e.code == code,
        e.message@ == failure_message(code),
{
    let message = match code {
        SessionLockhandlerErrorCodes::ManagerIsNotSet => String::from_str("session lock manager uninitialized or is not set"),
        SessionLockhandlerErrorCodes::WLOutputIsNotSet => String::from_str("wl_output uninitialized or is not set"),
        SessionLockhandlerErrorCodes::WLSurfaceIsNotSet => String::from_str("wl_surface uninitialized or is not set"),
        SessionLockhandlerErrorCodes::SessionLockIsNotSet => String::from_str("session_lock uninitialized or is not set, did you lock the session?"),
        SessionLockhandlerErrorCodes::SessionLockSurfaceIsNotSet => String::from_str("session_lock_surface uninitialized or is not set, did you lock the session?"),
        SessionLockhandlerErrorCodes::SessionLockSurfaceSerialIsNotSet => String::from_str("session_lock_configure_serial uninitialized or is not set"),
        SessionLockhandlerErrorCodes::UnknownError => String::new(),
    };
    SessionLockhandlerError::new(code, message)
}

/// A failure with the given code and its sentence.
pub open spec fn is_failure(e: SessionLockhandlerError, code: SessionLockhandlerErrorCodes) -> bool {
    e.code == code && e.message@ == failure_message(code)
}

impl SessionLockState {
    /// The state with the given lock recorded.
    pub open spec fn with_lock(self, lock: ExtSessionLockV1) -> SessionLockState {
        SessionLockState { session_lock: Some(lock), ..self }
    }

    /// The state with the lock, its surface and its serial forgotten.
    pub open spec fn unlocked(self) -> SessionLockState {
        SessionLockState {
            session_lock: None,
            session_lock_surface: None,
            session_lock_configure_serial: None,
            ..self
        }
    }

    /// The state with the lock surface and the serial of its last configure.
    pub open spec fn configured(self, surface: ExtSessionLockSurfaceV1, serial: u32) -> SessionLockState {
        SessionLockState {
            session_lock_surface: Some(surface),
            session_lock_configure_serial: Some(serial),
            ..self
        }
    }

    /// A state with the globals bound at start-up and no lock.
    pub fn new(
        seat: WlSeat,
        output: WlOutput,
        surface: WlSurface,
        session_lock_manager: ExtSessionLockManagerV1,
    ) -> (res: Self)
        ensures
            res.seat == Some(seat),
            res.output == Some(output),
            res.surface == Some(surface),
            res.session_lock_manager == Some(session_lock_manager),
            res.session_lock is None,
            res.session_lock_surface is None,
            res.session_lock_configure_serial is None,
    {
        SessionLockState {
            seat: Some(seat),
            output: Some(output),
            surface: Some(surface),
            session_lock_manager: Some(session_lock_manager),
            session_lock: None,
            session_lock_surface: None,
            session_lock_configure_serial: None,
        }
    }

    /// The first object that a lock request needs and that is missing.
    pub open spec fn lock_failure(&self) -> Option<SessionLockhandlerErrorCodes> {
        if self.session_lock_manager is None {
            Some(SessionLockhandlerErrorCodes::ManagerIsNotSet)
        } else if self.output is None {
            Some(SessionLockhandlerErrorCodes::WLOutputIsNotSet)
        } else if self.surface is None {
            Some(SessionLockhandlerErrorCodes::WLSurfaceIsNotSet)
        } else {
            None
        }
    }

    /// What a lock request comes to: the manager, surface and output to lock
    /// with, or the code of the first missing object.
    pub open spec fn lock_outcome(&self, wl_surface: Option<WlSurface>) -> Result<
        (ExtSessionLockManagerV1, WlSurface, WlOutput),
        SessionLockhandlerErrorCodes,
    > {
        match self.lock_failure() {
            Some(code) => Err(code),
            None => Ok(
                (
                    self.session_lock_manager->0,
                    match wl_surface {
                        Some(given) => given,
                        None => self.surface->0,
                    },
                    self.output->0,
                ),
            ),
        }
    }

    /// Decides a lock request: the manager to lock with, the surface that
    /// becomes the lock surface (the given one, else the handler's own) and the
    /// output it is shown on. The caller makes the lock and hands it to
    /// `set_session_lock`.
    pub fn lock<'a>(&'a self, wl_surface: Option<&'a WlSurface>) -> (res: Result<
        (&'a ExtSessionLockManagerV1, &'a WlSurface, &'a WlOutput),
        SessionLockhandlerError,
    >)
        ensures
            res is Err <==> self.lock_failure() is Some,
            res matches Err(e) ==> is_failure(e, self.lock_failure()->0),
            res matches Ok((m, s, o)) ==> {
                &&& *m == self.session_lock_manager->0
                &&& *o == self.output->0
                &&& *s == (match wl_surface {
                    Some(given) => *given,
                    None => self.surface->0,
                })
            },
            match res {
                Ok((m, s, o)) => self.lock_outcome(
                    match wl_surface {
                        Some(given) => Some(*given),
                        None => None,
                    },
                ) == Ok::<(ExtSessionLockManagerV1, WlSurface, WlOutput), SessionLockhandlerErrorCodes>((*m, *s, *o)),
                Err(e) => self.lock_outcome(
                    match wl_surface {
                        Some(given) => Some(*given),
                        None => None,
                    },
                ) == Err::<(ExtSessionLockManagerV1, WlSurface, WlOutput), SessionLockhandlerErrorCodes>(e.code),
            },
    {
        let session_lock_manager = match &self.session_lock_manager {
            Some(m) => m,
            None => {
                return Err(failure(SessionLockhandlerErrorCodes::ManagerIsNotSet));
            },
        };
        let output = match &self.output {
            Some(o) => o,
            None => {
                return Err(failure(SessionLockhandlerErrorCodes::WLOutputIsNotSet));
            },
        };
        let own_surface = match &self.surface {
            Some(s) => s,
            None => {
                return Err(failure(SessionLockhandlerErrorCodes::WLSurfaceIsNotSet));
            },
        };
        let surface = match wl_surface {
            Some(given) => given,
            None => own_surface,
        };
        Ok((session_lock_manager, surface, output))
    }

    /// Records the lock that a successful lock request made.
    pub fn set_session_lock(&mut self, session_lock: ExtSessionLockV1)
        ensures
            *final(self) == old(self).with_lock(session_lock),
    {
        self.session_lock = Some(session_lock);
    }

    /// What an unlock request comes to: the recorded lock, or
    /// `SessionLockIsNotSet`.
    pub open spec fn unlock_outcome(&self) -> Result<ExtSessionLockV1, SessionLockhandlerErrorCodes> {
        match self.session_lock {
            Some(lock) => Ok(lock),
            None => Err(SessionLockhandlerErrorCodes::SessionLockIsNotSet),
        }
    }

    /// The state that an unlock request leaves: without the lock, its surface
    /// and its serial when there was a lock, unchanged otherwise.
    pub open spec fn after_unlock(self) -> SessionLockState {
        if self.session_lock is Some {
            self.unlocked()
        } else {
            self
        }
    }

    /// Decides an unlock request. With a lock, it is taken out of the state
    /// together with its surface and serial and handed to the caller, who
    /// unlocks and destroys it; without one the request fails and nothing changes.
    pub fn unlock(&mut self) -> (res: Result<ExtSessionLockV1, SessionLockhandlerError>)
        ensures
            res is Err <==> old(self).session_lock is None,
            res matches Err(e) ==> is_failure(e, SessionLockhandlerErrorCodes::SessionLockIsNotSet),
            res matches Err(_) ==> *final(self) == *old(self),
            res matches Ok(lock) ==> Some(lock) == old(self).session_lock && *final(self) == old(
                self,
            ).unlocked(),
            *final(self) == old(self).after_unlock(),
            match res {
                Ok(lock) => old(self).unlock_outcome() == Ok::<ExtSessionLockV1, SessionLockhandlerErrorCodes>(lock),
                Err(e) => old(self).unlock_outcome() == Err::<ExtSessionLockV1, SessionLockhandlerErrorCodes>(e.code),
            },
    {
        match self.session_lock.take() {
            None => Err(failure(SessionLockhandlerErrorCodes::SessionLockIsNotSet)),
            Some(lock) => {
                self.session_lock_surface = None;
                self.session_lock_configure_serial = None;
                Ok(lock)
            },
        }
    }

    /// The first piece that a configure acknowledgement needs and that is missing.
    pub open spec fn ack_failure(&self) -> Option<SessionLockhandlerErrorCodes> {
        if self.session_lock_surface is None {
            Some(SessionLockhandlerErrorCodes::SessionLockSurfaceIsNotSet)
        } else if self.session_lock_configure_serial is None {
            Some(SessionLockhandlerErrorCodes::SessionLockSurfaceSerialIsNotSet)
        } else {
            None
        }
    }

    /// What a configure acknowledgement comes to: the lock surface and its
    /// last configure's serial, or the code of the first missing piece.
    pub open spec fn ack_outcome(&self) -> Result<(ExtSessionLockSurfaceV1, u32), SessionLockhandlerErrorCodes> {
        match self.ack_failure() {
            Some(code) => Err(code),
            None => Ok((self.session_lock_surface->0, self.session_lock_configure_serial->0)),
        }
    }

    /// Decides a configure acknowledgement: the lock surface to acknowledge on
    /// and the serial of its last configure.
    pub fn ack_configure<'a>(&'a self) -> (res: Result<(&'a ExtSessionLockSurfaceV1, u32), SessionLockhandlerError>)
        ensures
            res is Err <==> self.ack_failure() is Some,
            res matches Err(e) ==> is_failure(e, self.ack_failure()->0),
            res matches Ok((s, serial)) ==> {
                &&& *s == self.session_lock_surface->0
                &&& serial == self.session_lock_configure_serial->0
            },
            match res {
                Ok((s, serial)) => self.ack_outcome() == Ok::<(ExtSessionLockSurfaceV1, u32), SessionLockhandlerErrorCodes>((*s, serial)),
                Err(e) => self.ack_outcome() == Err::<(ExtSessionLockSurfaceV1, u32), SessionLockhandlerErrorCodes>(e.code),
            },
    {
        let session_lock_surface = match &self.session_lock_surface {
            Some(l) => l,
            None => {
                return Err(failure(SessionLockhandlerErrorCodes::SessionLockSurfaceIsNotSet));
            },
        };
        let serial = match self.session_lock_configure_serial {
            Some(l) => l,
            None => {
                return Err(failure(SessionLockhandlerErrorCodes::SessionLockSurfaceSerialIsNotSet));
            },
        };
        Ok((session_lock_surface, serial))
    }

    /// An event on the session lock. `Finished` means the lock is gone: the
    /// lock, its surface and its serial are forgotten.
    pub fn on_session_lock_event(&mut self, event: SessionLockNotice) -> (res: SessionLockEvent)
        ensures
            event == SessionLockNotice::Locked ==> res == SessionLockEvent::Locked && *final(self) == *old(self),
            event == SessionLockNotice::Finished ==> res == SessionLockEvent::Finished && *final(self)
                == old(self).unlocked(),
    {
        match event {
            SessionLockNotice::Locked => SessionLockEvent::Locked,
            SessionLockNotice::Finished => {
                self.session_lock = None;
                self.session_lock_surface = None;
                self.session_lock_configure_serial = None;
                SessionLockEvent::Finished
            },
        }
    }

    /// A configure event on a lock surface: the surface and the serial to
    /// acknowledge are remembered, and the event is passed on.
    pub fn on_lock_surface_configure(
        &mut self,
        surface: ExtSessionLockSurfaceV1,
        serial: u32,
        width: u32,
        height: u32,
    ) -> (res: SessionLockEvent)
        ensures
            res == (SessionLockEvent::Configure { serial, width, height }),
            *final(self) == old(self).configured(surface, serial),
    {
        self.session_lock_surface = Some(surface);
        self.session_lock_configure_serial = Some(serial);
        SessionLockEvent::Configure { serial, width, height }
    }

    /// A seat announced its name: it becomes the seat in use.
    pub fn set_seat(&mut self, seat: WlSeat)
        ensures
            *final(self) == (SessionLockState { seat: Some(seat), ..*old(self) }),
    {
        self.seat = Some(seat);
    }

    /// An output announced its name: it becomes the output in use.
    pub fn set_output(&mut self, output: WlOutput)
        ensures
            *final(self) == (SessionLockState { output: Some(output), ..*old(self) }),
    {
        self.output = Some(output);
    }

    /// An event on a surface: that surface becomes the handler's own.
    pub fn set_surface(&mut self, surface: WlSurface)
        ensures
            *final(self) == (SessionLockState { surface: Some(surface), ..*old(self) }),
    {
        self.surface = Some(surface);
    }
}

} // verus!
