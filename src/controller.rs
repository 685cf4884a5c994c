use vstd::prelude::*;

verus! {

/// The eight buttons of the joypad.
#[derive(Clone, Copy, Debug, PartialEq, Eq, Structural)]
pub enum Button {
    Up,
    Down,
    Left,
    Right,
    A,
    B,
    Start,
    Select,
}

/// The joypad latch: which buttons are held, which half of the matrix is selected, and whether
/// a press asked for the joypad interrupt since it was last taken.
#[derive(Clone, Copy, Debug, PartialEq, Eq, Structural, Default)]
pub struct Controller {
    pub up: bool,
    pub down: bool,
    pub left: bool,
    pub right: bool,
    pub a: bool,
    pub b: bool,
    pub start: bool,
    pub select: bool,
    pub direction_keys_selected: bool,
    pub button_keys_selected: bool,
    pub interrrupted: bool,
}

pub open spec fn nibble(b3: bool, b2: bool, b1: bool, b0: bool) -> int {
    (if b3 { 8int } else { 0 }) + (if b2 { 4int } else { 0 }) + (if b1 { 2int } else { 0 }) + (if b0 {
        1int
    } else {
        0
    })
}

fn nibble_of(b3: bool, b2: bool, b1: bool, b0: bool) -> (r: u8)
    ensures
        r == nibble(b3, b2, b1, b0),
{
    let mut r: u8 = 0;
    if b3 {
        r = r + 8;
    }
    if b2 {
        r = r + 4;
    }
    if b1 {
        r = r + 2;
    }
    if b0 {
        r = r + 1;
    }
    r
}

impl Controller {
    /// The held buttons of the selected halves, one bit per button (1 = held).
    pub open spec fn pressed_nibble(self) -> u8 {
        (if self.button_keys_selected {
            nibble(self.start, self.select, self.b, self.a) as u8
        } else {
            0u8
        }) | (if self.direction_keys_selected {
            nibble(self.down, self.up, self.left, self.right) as u8
        } else {
            0u8
        })
    }

    pub open spec fn is_pressed(self, button: Button) -> bool {
        match button {
            Button::Up => self.up,
            Button::Down => self.down,
            Button::Left => self.left,
            Button::Right => self.right,
            Button::A => self.a,
            Button::B => self.b,
            Button::Start => self.start,
            Button::Select => self.select,
        }
    }

    pub open spec fn with_button(self, button: Button, held: bool) -> Controller {
        match button {
            Button::Up => Controller { up: held, ..self },
            Button::Down => Controller { down: held, ..self },
            Button::Left => Controller { left: held, ..self },
            Button::Right => Controller { right: held, ..self },
            Button::A => Controller { a: held, ..self },
            Button::B => Controller { b: held, ..self },
            Button::Start => Controller { start: held, ..self },
            Button::Select => Controller { select: held, ..self },
        }
    }

    /// The half of the matrix that the button belongs to is selected.
    pub open spec fn is_selected(self, button: Button) -> bool {
        match button {
            Button::Up | Button::Down | Button::Left | Button::Right => self.direction_keys_selected,
            _ => self.button_keys_selected,
        }
    }

    /// What FF00 reads as: the select bits, and the held buttons of the selected halves as 0 bits.
    pub open spec fn status(self) -> u8 {
        ((if self.button_keys_selected { 0x20u8 } else { 0u8 }) | (if self.direction_keys_selected {
            0x10u8
        } else {
            0u8
        }) | (!self.pressed_nibble() & 0x0f)) as u8
    }

    /// No button held, both halves selected.
    pub open spec fn new_spec() -> Controller {
        Controller {
            up: false,
            down: false,
            left: false,
            right: false,
            a: false,
            b: false,
            start: false,
            select: false,
            direction_keys_selected: true,
            button_keys_selected: true,
            interrrupted: false,
        }
    }

    pub fn new() -> (r: Controller)
        ensures
            r == Controller::new_spec(),
            r == (Controller {
                up: false,
                down: false,
                left: false,
                right: false,
                a: false,
                b: false,
                start: false,
                select: false,
                direction_keys_selected: true,
                button_keys_selected: true,
                interrrupted: false,
            }),
    {
        Controller {
            up: false,
            down: false,
            left: false,
            right: false,
            a: false,
            b: false,
            start: false,
            select: false,
            direction_keys_selected: true,
            button_keys_selected: true,
            interrrupted: false,
        }
    }

    pub fn get_controller_status(&self) -> (r: u8)
        ensures
            r == self.status(),
    {
        let buttons = if self.button_keys_selected {
            nibble_of(self.start, self.select, self.b, self.a)
        } else {
            0
        };
        let directions = if self.direction_keys_selected {
            nibble_of(self.down, self.up, self.left, self.right)
        } else {
            0
        };
        let sel_b: u8 = if self.button_keys_selected {
            0x20
        } else {
            0
        };
        let sel_d: u8 = if self.direction_keys_selected {
            0x10
        } else {
            0
        };
        sel_b | sel_d | (!(buttons | directions) & 0x0f)
    }

    /// Latches the two select bits of a write to FF00 (bit 5 buttons, bit 4 directions).
    pub fn set_controller_status(&mut self, value: u8)
        ensures
            *final(self) == (Controller {
                button_keys_selected: (value / 32) % 2 == 1,
                direction_keys_selected: (value / 16) % 2 == 1,
                ..*old(self)
            }),
    {
        self.button_keys_selected = (value / 32) % 2 == 1;
        self.direction_keys_selected = (value / 16) % 2 == 1;
    }

    /// Holds a button; a press of a released button whose half is selected asks for the joypad
    /// interrupt.
    pub fn press(&mut self, button: Button)
        ensures
            *final(self) == (Controller {
                interrrupted: old(self).interrrupted || (!old(self).is_pressed(button) && old(
                    self,
                ).is_selected(button)),
                ..old(self).with_button(button, true)
            }),
    {
        let was = self.button_held(button);
        let selected = match button {
            Button::Up | Button::Down | Button::Left | Button::Right => self.direction_keys_selected,
            _ => self.button_keys_selected,
        };
        self.set_button(button, true);
        if !was && selected {
            self.interrrupted = true;
        }
    }

    fn button_held(&self, button: Button) -> (r: bool)
        ensures
            r == self.is_pressed(button),
    {
        match button {
            Button::Up => self.up,
            Button::Down => self.down,
            Button::Left => self.left,
            Button::Right => self.right,
            Button::A => self.a,
            Button::B => self.b,
            Button::Start => self.start,
            Button::Select => self.select,
        }
    }

    fn set_button(&mut self, button: Button, held: bool)
        ensures
            *final(self) == old(self).with_button(button, held),
    {
        match button {
            Button::Up => self.up = held,
            Button::Down => self.down = held,
            Button::Left => self.left = held,
            Button::Right => self.right = held,
            Button::A => self.a = held,
            Button::B => self.b = held,
            Button::Start => self.start = held,
            Button::Select => self.select = held,
        }
    }

    /// Releases a button.
    pub fn release(&mut self, button: Button)
        ensures
            *final(self) == old(self).with_button(button, false),
    {
        self.set_button(button, false);
    }

    pub fn press_a(&mut self)
        ensures
            *final(self) == (Controller {
                interrrupted: old(self).interrrupted || (!old(self).is_pressed(Button::A) && old(
                    self,
                ).is_selected(Button::A)),
                ..old(self).with_button(Button::A, true)
            }),
    {
        self.press(Button::A);
    }

    pub fn unpress_a(&mut self)
        ensures
            *final(self) == old(self).with_button(Button::A, false),
    {
        self.release(Button::A);
    }

    pub fn press_b(&mut self)
        ensures
            *final(self) == (Controller {
                interrrupted: old(self).interrrupted || (!old(self).is_pressed(Button::B) && old(
                    self,
                ).is_selected(Button::B)),
                ..old(self).with_button(Button::B, true)
            }),
    {
        self.press(Button::B);
    }

    pub fn unpress_b(&mut self)
        ensures
            *final(self) == old(self).with_button(Button::B, false),
    {
        self.release(Button::B);
    }

    pub fn press_start(&mut self)
        ensures
            *final(self) == (Controller {
                interrrupted: old(self).interrrupted || (!old(self).is_pressed(Button::Start) && old(
                    self,
                ).is_selected(Button::Start)),
                ..old(self).with_button(Button::Start, true)
            }),
    {
        self.press(Button::Start);
    }

    pub fn unpress_start(&mut self)
        ensures
            *final(self) == old(self).with_button(Button::Start, false),
    {
        self.release(Button::Start);
    }

    pub fn press_select(&mut self)
        ensures
            *final(self) == (Controller {
                interrrupted: old(self).interrrupted || (!old(self).is_pressed(Button::Select) && old(
                    self,
                ).is_selected(Button::Select)),
                ..old(self).with_button(Button::Select, true)
            }),
    {
        self.press(Button::Select);
    }

    pub fn unpress_select(&mut self)
        ensures
            *final(self) == old(self).with_button(Button::Select, false),
    {
        self.release(Button::Select);
    }

    pub fn press_up(&mut self)
        ensures
            *final(self) == (Controller {
                interrrupted: old(self).interrrupted || (!old(self).is_pressed(Button::Up) && old(
                    self,
                ).is_selected(Button::Up)),
                ..old(self).with_button(Button::Up, true)
            }),
    {
        self.press(Button::Up);
    }

    pub fn unpress_up(&mut self)
        ensures
            *final(self) == old(self).with_button(Button::Up, false),
    {
        self.release(Button::Up);
    }

    pub fn press_down(&mut self)
        ensures
            *final(self) == (Controller {
                interrrupted: old(self).interrrupted || (!old(self).is_pressed(Button::Down) && old(
                    self,
                ).is_selected(Button::Down)),
                ..old(self).with_button(Button::Down, true)
            }),
    {
        self.press(Button::Down);
    }

    pub fn unpress_down(&mut self)
        ensures
            *final(self) == old(self).with_button(Button::Down, false),
    {
        self.release(Button::Down);
    }

    pub fn press_left(&mut self)
        ensures
            *final(self) == (Controller {
                interrrupted: old(self).interrrupted || (!old(self).is_pressed(Button::Left) && old(
                    self,
                ).is_selected(Button::Left)),
                ..old(self).with_button(Button::Left, true)
            }),
    {
        self.press(Button::Left);
    }

    pub fn unpress_left(&mut self)
        ensures
            *final(self) == old(self).with_button(Button::Left, false),
    {
        self.release(Button::Left);
    }

    pub fn press_right(&mut self)
        ensures
            *final(self) == (Controller {
                interrrupted: old(self).interrrupted || (!old(self).is_pressed(Button::Right) && old(
                    self,
                ).is_selected(Button::Right)),
                ..old(self).with_button(Button::Right, true)
            }),
    {
        self.press(Button::Right);
    }

    pub fn unpress_right(&mut self)
        ensures
            *final(self) == old(self).with_button(Button::Right, false),
    {
        self.release(Button::Right);
    }

    /// Whether a press asked for the joypad interrupt since the last call; clears the request.
    pub fn is_interrupted(&mut self) -> (r: bool)
        ensures
            r == old(self).interrrupted,
            *final(self) == (Controller { interrrupted: false, ..*old(self) }),
    {
        let value = self.interrrupted;
        self.interrrupted = false;
        value
    }
}

} // verus!
