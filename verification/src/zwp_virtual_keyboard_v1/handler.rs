use vstd::prelude::*;

verus! {

/// What a client asks of the virtual keyboard.
#[derive(Debug)]
pub enum VirtualKeyboardMessage {
    Key { keycode: u32, keymotion: KeyMotion },
    SetKeymap { keymap_raw_fd: i32, keymap_size: u32 },
    SetModifiers { depressed: u32, latched: u32, locked: u32 },
}

/// A key press or a key release.
#[derive(Debug, PartialEq, Eq, Clone, Copy, Structural)]
pub enum KeyMotion {
    Press,
    Release,
}

impl KeyMotion {
    pub open spec fn spec_code(self) -> u32 {
        match self {
            KeyMotion::Press => 1,
            KeyMotion::Release => 0,
        }
    }

    /// The protocol's code of the key state: 1 pressed, 0 released.
    pub fn code(&self) -> (res: u32)
        ensures
            res == self.spec_code(),
    {
        match self {
            KeyMotion::Press => 1,
            KeyMotion::Release => 0,
        }
    }
}

/// The modifier state that keys are sent with.
#[derive(Debug, PartialEq, Eq, Clone, Copy, Structural)]
pub struct Modifiers {
    pub depressed: u32,
    pub latched: u32,
    pub locked: u32,
}

impl Default for Modifiers {
    fn default() -> (res: Self)
        ensures
            res == (Modifiers { depressed: 0, latched: 0, locked: 0 }),
    {
        Modifiers { depressed: 0, latched: 0, locked: 0 }
    }
}

/// The keymap format of the protocol for XKB keymaps.
pub const KEYMAP_FORMAT_XKB_V1: u32 = 1;

/// A request to send on the virtual keyboard.
#[derive(Debug, PartialEq, Eq, Clone, Copy, Structural)]
pub enum VirtualKeyboardRequest {
    Keymap { format: u32, fd: i32, size: u32 },
    Modifiers { depressed: u32, latched: u32, locked: u32, group: u32 },
    Key { time: u32, key: u32, state: u32 },
}

/// The modifier state that the virtual keyboard last set.
pub struct VirtualKeyboardState {
    pub modifiers: Modifiers,
}

/// The request that sets a modifier state, in group 0.
pub open spec fn modifiers_request(modifiers: Modifiers) -> VirtualKeyboardRequest {
    VirtualKeyboardRequest::Modifiers {
        depressed: modifiers.depressed,
        latched: modifiers.latched,
        locked: modifiers.locked,
        group: 0,
    }
}

/// The time stamp of a key event sent the given number of milliseconds after
/// the keyboard was made.
pub open spec fn time_stamp(elapsed_millis: u128) -> int {
    elapsed_millis as int
}

/// A key event's time stamp from the milliseconds since the keyboard was
/// made; the time stamp is 32 bits wide.
pub fn get_time(elapsed_millis: u128) -> (res: u32)
    requires
        elapsed_millis <= u32::MAX,
    ensures
        res == time_stamp(elapsed_millis),
{
    elapsed_millis as u32
}

impl VirtualKeyboardState {
    /// The requests that send a key from this state: the current modifiers
    /// first, then the key.
    pub open spec fn key_requests(self, time: u32, keycode: u32, keymotion: KeyMotion) -> Seq<VirtualKeyboardRequest> {
        seq![
            modifiers_request(self.modifiers),
            VirtualKeyboardRequest::Key { time, key: keycode, state: keymotion.spec_code() },
        ]
    }

    /// The state after the modifiers are updated.
    pub open spec fn with_modifiers(self, depressed: u32, latched: u32, locked: u32) -> VirtualKeyboardState {
        VirtualKeyboardState { modifiers: Modifiers { depressed, latched, locked } }
    }

    /// A keyboard with no modifier set.
    pub fn new() -> (res: Self)
        ensures
            res.modifiers == (Modifiers { depressed: 0, latched: 0, locked: 0 }),
    {
        VirtualKeyboardState { modifiers: Modifiers::default() }
    }

    /// The requests that send a key: the current modifiers first, then the key.
    pub fn send_key(&self, time: u32, keycode: u32, keymotion: KeyMotion) -> (res: Vec<VirtualKeyboardRequest>)
        ensures
            res@ == self.key_requests(time, keycode, keymotion),
    {
        let mut res: Vec<VirtualKeyboardRequest> = Vec::new();
        res.push(self.set_modifiers(self.modifiers));
        res.push(VirtualKeyboardRequest::Key { time, key: keycode, state: keymotion.code() });
        assert(res@ =~= seq![
            modifiers_request(self.modifiers),
            VirtualKeyboardRequest::Key { time, key: keycode, state: keymotion.spec_code() },
        ]);
        res
    }

    /// The request that sets an XKB keymap from a file descriptor.
    pub fn set_keymap(&self, keymap_raw_fd: i32, keymap_size: u32) -> (res: VirtualKeyboardRequest)
        ensures
            res == (VirtualKeyboardRequest::Keymap {
                format: KEYMAP_FORMAT_XKB_V1,
                fd: keymap_raw_fd,
                size: keymap_size,
            }),
    {
        VirtualKeyboardRequest::Keymap { format: KEYMAP_FORMAT_XKB_V1, fd: keymap_raw_fd, size: keymap_size }
    }

    /// The request that sets a modifier state.
    pub fn set_modifiers(&self, modifiers: Modifiers) -> (res: VirtualKeyboardRequest)
        ensures
            res == modifiers_request(modifiers),
    {
        VirtualKeyboardRequest::Modifiers {
            depressed: modifiers.depressed,
            latched: modifiers.latched,
            locked: modifiers.locked,
            group: 0,
        }
    }

    /// A new modifier state: it is kept for the keys that follow, and set.
    pub fn update_modifiers(&mut self, depressed: u32, latched: u32, locked: u32) -> (res: VirtualKeyboardRequest)
        ensures
            *final(self) == old(self).with_modifiers(depressed, latched, locked),
            res == modifiers_request(final(self).modifiers),
    {
        let modifiers = Modifiers { depressed, latched, locked };
        self.modifiers = modifiers;
        self.set_modifiers(modifiers)
    }
}

} // verus!
