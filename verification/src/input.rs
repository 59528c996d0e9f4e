use vstd::prelude::*;

verus! {

/// The state of the eight named buttons on a standard controller.
#[derive(Clone, Copy, PartialEq, Eq, Structural)]
pub struct ControllerState {
    pub up: bool,
    pub down: bool,
    pub right: bool,
    pub left: bool,
    pub start: bool,
    pub select: bool,
    pub a: bool,
    pub b: bool,
}

/// The byte a controller latches when strobed: one bit per button,
/// A in bit 0 through Right in bit 7.
pub open spec fn buttons_byte(s: ControllerState) -> u8 {
    (if s.a { 0x01u8 } else { 0u8 }) | (if s.b { 0x02u8 } else { 0u8 })
        | (if s.select { 0x04u8 } else { 0u8 }) | (if s.start { 0x08u8 } else { 0u8 })
        | (if s.up { 0x10u8 } else { 0u8 }) | (if s.down { 0x20u8 } else { 0u8 })
        | (if s.left { 0x40u8 } else { 0u8 }) | (if s.right { 0x80u8 } else { 0u8 })
}

/// A device on the input bus: strobe writes, single-bit shift reads,
/// and button-state updates from the presentation layer.
pub trait InputDevice: Sized {
    /// The current contents of the device's shift register.
    spec fn shift_reg(&self) -> u8;

    /// Whether the strobe line is held high (continuous re-latching).
    spec fn strobe(&self) -> bool;

    /// The button state most recently handed to the device.
    spec fn buttons(&self) -> ControllerState;

    fn write(&mut self, val: u8)
        ensures
            final(self).strobe() == (val & 0x01 != 0),
            final(self).buttons() == old(self).buttons(),
            final(self).shift_reg() == if val & 0x01 != 0 {
                buttons_byte(old(self).buttons())
            } else {
                old(self).shift_reg()
            },
    ;

    fn read(&mut self) -> (r: u8)
        ensures
            final(self).strobe() == old(self).strobe(),
            final(self).buttons() == old(self).buttons(),
            // With the strobe high the register is re-latched before the read.
            ({
                let latched = if old(self).strobe() {
                    buttons_byte(old(self).buttons())
                } else {
                    old(self).shift_reg()
                };
                r == latched & 0x01
                // A real controller returns 1 for every read past its 8 buttons,
                // so a 1 is shifted in at the top.
                && final(self).shift_reg() == (latched >> 1) | 0x80u8
            }),
    ;

    fn set_state(&mut self, state: ControllerState)
        ensures
            final(self).buttons() == state,
            final(self).shift_reg() == old(self).shift_reg(),
            final(self).strobe() == old(self).strobe(),
    ;
}

impl Default for ControllerState {
    /// All eight buttons released.
    fn default() -> (r: Self)
        ensures
            r == (ControllerState {
                up: false,
                down: false,
                right: false,
                left: false,
                start: false,
                select: false,
                a: false,
                b: false,
            }),
    {
        ControllerState {
            up: false,
            down: false,
            right: false,
            left: false,
            start: false,
            select: false,
            a: false,
            b: false,
        }
    }
}

/// A standard controller: eight buttons latched into a shift register.
pub struct Controller {
    pub button_state: ControllerState,
    pub shift_register: u8,
    pub should_poll: bool,
}

impl Default for Controller {
    /// A controller with no buttons held, an empty shift register,
    /// and the strobe line low.
    fn default() -> (r: Self)
        ensures
            r == (Controller {
                button_state: ControllerState {
                    up: false,
                    down: false,
                    right: false,
                    left: false,
                    start: false,
                    select: false,
                    a: false,
                    b: false,
                },
                shift_register: 0u8,
                should_poll: false,
            }),
    {
        Controller {
            button_state: ControllerState::default(),
            shift_register: 0,
            should_poll: false,
        }
    }
}

impl Controller {
    /// Latches the current button state into the shift register.
    pub fn poll(&mut self)
        ensures
            final(self).shift_register == buttons_byte(old(self).button_state),
            final(self).button_state == old(self).button_state,
            final(self).should_poll == old(self).should_poll,
    {
        let val: u8 = (if self.button_state.a { 0x01u8 } else { 0u8 })
            | (if self.button_state.b { 0x02u8 } else { 0u8 })
            | (if self.button_state.select { 0x04u8 } else { 0u8 })
            | (if self.button_state.start { 0x08u8 } else { 0u8 })
            | (if self.button_state.up { 0x10u8 } else { 0u8 })
            | (if self.button_state.down { 0x20u8 } else { 0u8 })
            | (if self.button_state.left { 0x40u8 } else { 0u8 })
            | (if self.button_state.right { 0x80u8 } else { 0u8 });
        self.shift_register = val;
    }
}

impl InputDevice for Controller {
    open spec fn shift_reg(&self) -> u8 {
        self.shift_register
    }

    open spec fn strobe(&self) -> bool {
        self.should_poll
    }

    open spec fn buttons(&self) -> ControllerState {
        self.button_state
    }

    fn write(&mut self, val: u8) {
        self.should_poll = val & 0x01 != 0;
        if self.should_poll {
            self.poll()
        }
    }

    fn read(&mut self) -> (r: u8) {
        if self.should_poll {
            self.poll();
        }
        let ret = self.shift_register & 0x01;
        self.shift_register = self.shift_register >> 1;
        self.shift_register = self.shift_register | 0x80;
        ret
    }

    fn set_state(&mut self, state: ControllerState) {
        self.button_state = state
    }
}


/// How a strobe write transforms one controller port.
pub open spec fn strobe_port(c: Option<Controller>, val: u8) -> Option<Controller> {
    match c {
        Some(c) => Some(
            Controller {
                button_state: c.button_state,
                shift_register: if val & 0x01 != 0 {
                    buttons_byte(c.button_state)
                } else {
                    c.shift_register
                },
                should_poll: val & 0x01 != 0,
            },
        ),
        None => None,
    }
}

/// The bit a shift-read of one controller port returns.
pub open spec fn port_read_val(c: Option<Controller>) -> u8 {
    match c {
        Some(c) => {
            let latched = if c.should_poll {
                buttons_byte(c.button_state)
            } else {
                c.shift_register
            };
            latched & 0x01
        },
        None => 0,
    }
}

/// How a shift-read transforms one controller port.
pub open spec fn port_read_post(c: Option<Controller>) -> Option<Controller> {
    match c {
        Some(c) => {
            let latched = if c.should_poll {
                buttons_byte(c.button_state)
            } else {
                c.shift_register
            };
            Some(
                Controller {
                    button_state: c.button_state,
                    shift_register: (latched >> 1) | 0x80u8,
                    should_poll: c.should_poll,
                },
            )
        },
        None => None,
    }
}

/// The two controller ports as seen from bus addresses 0x4016/0x4017.
pub struct InputBus {
    pub controller1: Option<Controller>,
    pub controller2: Option<Controller>,
}

impl InputBus {
    /// A bus with a standard controller in port 1 and nothing in port 2.
    pub fn new() -> (r: Self)
        ensures
            r.controller1 matches Some(c) && c.shift_register == 0 && !c.should_poll
                && c.button_state == (ControllerState {
                up: false,
                down: false,
                right: false,
                left: false,
                start: false,
                select: false,
                a: false,
                b: false,
            }),
            r.controller2 is None,
    {
        Self { controller1: Some(Controller::default()), controller2: None }
    }

    /// A strobe write to 0x4016 reaches every connected controller.
    pub fn write(&mut self, val: u8)
        ensures
            final(self).controller1 == strobe_port(old(self).controller1, val),
            final(self).controller2 == strobe_port(old(self).controller2, val),
    {
        if let Some(c) = &mut self.controller1 {
            c.write(val)
        }
        if let Some(c) = &mut self.controller2 {
            c.write(val)
        }
    }

    /// One shift-read from the port-1 controller; an empty port reads 0.
    pub fn read_4016(&mut self) -> (r: u8)
        ensures
            final(self).controller2 == old(self).controller2,
            r == port_read_val(old(self).controller1),
            final(self).controller1 == port_read_post(old(self).controller1),
    {
        match &mut self.controller1 {
            Some(c) => c.read(),
            None => 0,
        }
    }

    /// One shift-read from the port-2 controller; an empty port reads 0.
    pub fn read_4017(&mut self) -> (r: u8)
        ensures
            final(self).controller1 == old(self).controller1,
            r == port_read_val(old(self).controller2),
            final(self).controller2 == port_read_post(old(self).controller2),
    {
        match &mut self.controller2 {
            Some(c) => c.read(),
            None => 0,
        }
    }

    /// The presentation layer pushes fresh button state before each frame.
    pub fn set_controller1_state(&mut self, state: ControllerState)
        ensures
            final(self).controller2 == old(self).controller2,
            old(self).controller1 is None ==> *final(self) == *old(self),
            old(self).controller1 matches Some(c) ==> final(self).controller1 == Some(Controller {
                button_state: state,
                shift_register: c.shift_register,
                should_poll: c.should_poll,
            }),
    {
        if let Some(c) = &mut self.controller1 {
            c.set_state(state)
        }
    }
}

} // verus!
