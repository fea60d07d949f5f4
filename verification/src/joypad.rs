//! Joypad register ($FF00): two selectable button groups and the
//! press/release state of the eight buttons.

use vstd::prelude::*;

verus! {

/// One of the eight console buttons.
#[derive(Debug, Clone, Copy, PartialEq, Eq, Structural)]
pub enum GameboyKey {
    Right,
    Left,
    Up,
    Down,
    A,
    B,
    Select,
    Start,
}

/// State behind the joypad register.
///
/// `p1_register_select` mirrors the writable part of $FF00: only bits 5 and 4
/// (group selects, 0 = selected) ever change; all other bits stay 1.
pub struct Joypad {
    pub p1_register_select: u8,
    pub button_a: bool,
    pub button_b: bool,
    pub select: bool,
    pub start: bool,
    pub right: bool,
    pub left: bool,
    pub up: bool,
    pub down: bool,
}

impl Joypad {
    /// All bits of `p1_register_select` other than the two group selects are 1.
    pub open spec fn wf(self) -> bool {
        self.p1_register_select & 0xCF == 0xCF
    }

    /// True when the action group (A/B/Select/Start) is selected.
    pub open spec fn spec_action_selected(self) -> bool {
        self.p1_register_select & 0x20 == 0
    }

    /// True when the direction group is selected.
    pub open spec fn spec_direction_selected(self) -> bool {
        self.p1_register_select & 0x10 == 0
    }

    /// Whether `key` is currently reported as pressed.
    pub open spec fn spec_pressed(self, key: GameboyKey) -> bool {
        match key {
            GameboyKey::Right => self.right,
            GameboyKey::Left => self.left,
            GameboyKey::Up => self.up,
            GameboyKey::Down => self.down,
            GameboyKey::A => self.button_a,
            GameboyKey::B => self.button_b,
            GameboyKey::Select => self.select,
            GameboyKey::Start => self.start,
        }
    }

    /// Whether the group that `key` belongs to is selected.
    pub open spec fn spec_group_selected(self, key: GameboyKey) -> bool {
        match key {
            GameboyKey::A | GameboyKey::B | GameboyKey::Select | GameboyKey::Start
                => self.spec_action_selected(),
            GameboyKey::Right | GameboyKey::Left | GameboyKey::Up | GameboyKey::Down
                => self.spec_direction_selected(),
        }
    }

    /// The value a read of $FF00 returns: unused bits 1, selected groups pull
    /// pressed buttons low, nothing selected reads as all released.
    pub open spec fn spec_read_p1(self) -> u8 {
        let base = self.p1_register_select | 0xC0;
        let after_action = if self.spec_action_selected() {
            let b0 = if self.start { base & !0x08u8 } else { base };
            let b1 = if self.select { b0 & !0x04u8 } else { b0 };
            let b2 = if self.button_b { b1 & !0x02u8 } else { b1 };
            if self.button_a { b2 & !0x01u8 } else { b2 }
        } else {
            base
        };
        let after_dir = if self.spec_direction_selected() {
            let b0 = if self.down { after_action & !0x08u8 } else { after_action };
            let b1 = if self.up { b0 & !0x04u8 } else { b0 };
            let b2 = if self.left { b1 & !0x02u8 } else { b1 };
            if self.right { b2 & !0x01u8 } else { b2 }
        } else {
            after_action
        };
        if self.p1_register_select & 0x30 == 0x30 {
            after_dir | 0x0F
        } else {
            after_dir
        }
    }

    pub fn new() -> (r: Joypad)
        ensures
            r.wf(),
            r.p1_register_select == 0xCF,
            !r.button_a && !r.button_b && !r.select && !r.start,
            !r.right && !r.left && !r.up && !r.down,
    {
        proof {
            crate::bits::lemma_u8_and_idempotent(0xCF);
        }
        Joypad {
            p1_register_select: 0xCF,
            button_a: false,
            button_b: false,
            select: false,
            start: false,
            right: false,
            left: false,
            up: false,
            down: false,
        }
    }

    /// Write to $FF00: only bits 5 and 4 of `value` take effect.
    pub fn write_p1(&mut self, value: u8)
        requires
            old(self).wf(),
        ensures
            final(self).wf(),
            final(self).p1_register_select == (old(self).p1_register_select & 0xCF) | (value
                & 0x30),
            *final(self) == (Joypad {
                p1_register_select: final(self).p1_register_select,
                ..*old(self)
            }),
    {
        proof {
            lemma_p1_select_write(self.p1_register_select, value);
        }
        self.p1_register_select = (self.p1_register_select & 0xCF) | (value & 0x30);
    }

    /// Read of $FF00.
    pub fn read_p1(&self) -> (r: u8)
        ensures
            r == self.spec_read_p1(),
    {
        let mut result: u8 = self.p1_register_select | 0xC0;
        if (self.p1_register_select & 0x20) == 0 {
            if self.start {
                result &= !0x08u8;
            }
            if self.select {
                result &= !0x04u8;
            }
            if self.button_b {
                result &= !0x02u8;
            }
            if self.button_a {
                result &= !0x01u8;
            }
        }
        if (self.p1_register_select & 0x10) == 0 {
            if self.down {
                result &= !0x08u8;
            }
            if self.up {
                result &= !0x04u8;
            }
            if self.left {
                result &= !0x02u8;
            }
            if self.right {
                result &= !0x01u8;
            }
        }
        if (self.p1_register_select & 0x30) == 0x30 {
            result |= 0x0F;
        }
        result
    }

    /// Record a press.  Returns true exactly when the button was newly pressed
    /// and its group is selected: the condition under which the Joypad
    /// interrupt must be requested.
    pub fn button_down(&mut self, key: GameboyKey) -> (interrupt: bool)
        ensures
            final(self).spec_pressed(key),
            forall|k: GameboyKey|
                k != key ==> final(self).spec_pressed(k) == old(self).spec_pressed(k),
            final(self).p1_register_select == old(self).p1_register_select,
            interrupt == (!old(self).spec_pressed(key) && old(self).spec_group_selected(key)),
    {
        let mut changed = false;
        match key {
            GameboyKey::Right => {
                if !self.right {
                    self.right = true;
                    changed = true;
                }
            },
            GameboyKey::Left => {
                if !self.left {
                    self.left = true;
                    changed = true;
                }
            },
            GameboyKey::Up => {
                if !self.up {
                    self.up = true;
                    changed = true;
                }
            },
            GameboyKey::Down => {
                if !self.down {
                    self.down = true;
                    changed = true;
                }
            },
            GameboyKey::A => {
                if !self.button_a {
                    self.button_a = true;
                    changed = true;
                }
            },
            GameboyKey::B => {
                if !self.button_b {
                    self.button_b = true;
                    changed = true;
                }
            },
            GameboyKey::Select => {
                if !self.select {
                    self.select = true;
                    changed = true;
                }
            },
            GameboyKey::Start => {
                if !self.start {
                    self.start = true;
                    changed = true;
                }
            },
        }
        changed && self.is_selected_line_active(key)
    }

    /// Record a release.
    pub fn button_up(&mut self, key: GameboyKey)
        ensures
            !final(self).spec_pressed(key),
            forall|k: GameboyKey|
                k != key ==> final(self).spec_pressed(k) == old(self).spec_pressed(k),
            final(self).p1_register_select == old(self).p1_register_select,
    {
        match key {
            GameboyKey::Right => self.right = false,
            GameboyKey::Left => self.left = false,
            GameboyKey::Up => self.up = false,
            GameboyKey::Down => self.down = false,
            GameboyKey::A => self.button_a = false,
            GameboyKey::B => self.button_b = false,
            GameboyKey::Select => self.select = false,
            GameboyKey::Start => self.start = false,
        }
    }

    /// Whether `key` belongs to the currently selected group.
    pub fn is_selected_line_active(&self, key: GameboyKey) -> (r: bool)
        ensures
            r == self.spec_group_selected(key),
    {
        let action_keys_selected = (self.p1_register_select & 0x20) == 0;
        let direction_keys_selected = (self.p1_register_select & 0x10) == 0;
        match key {
            GameboyKey::A | GameboyKey::B | GameboyKey::Select | GameboyKey::Start
                => action_keys_selected,
            GameboyKey::Right | GameboyKey::Left | GameboyKey::Up | GameboyKey::Down
                => direction_keys_selected,
        }
    }

    /// One-line rendering of the input state, for a debug overlay.
    pub fn get_input_state_debug(&self) -> (r: String)
        ensures
            r@.len() > 0,
    {
        let mut s = String::from_str("A:");
        s.append(flag_str(self.button_a));
        s.append(" B:");
        s.append(flag_str(self.button_b));
        s.append(" Sel:");
        s.append(flag_str(self.select));
        s.append(" St:");
        s.append(flag_str(self.start));
        s.append(" R:");
        s.append(flag_str(self.right));
        s.append(" L:");
        s.append(flag_str(self.left));
        s.append(" U:");
        s.append(flag_str(self.up));
        s.append(" D:");
        s.append(flag_str(self.down));
        proof {
            reveal_strlit("A:");
        }
        s
    }
}

/// "1" when the flag is set, else "0".
fn flag_str(b: bool) -> (r: &'static str)
    ensures
        b ==> r@ == "1"@,
        !b ==> r@ == "0"@,
{
    if b {
        "1"
    } else {
        "0"
    }
}

/// Writing the group-select bits keeps every other bit of P1 set.
proof fn lemma_p1_select_write(p1: u8, value: u8)
    by (bit_vector)
    requires
        p1 & 0xCF == 0xCF,
    ensures
        ((p1 & 0xCF) | (value & 0x30)) & 0xCF == 0xCF,
{
}

} // verus!
