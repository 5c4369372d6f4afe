use vstd::prelude::*;

verus! {

/// The 2x4 button matrix behind the JOYP register.
#[derive(Default)]
pub struct Joypad {
    /// direction keys selected
    pub directions: bool,
    /// action keys selected
    pub actions: bool,
    pub right: bool,
    pub left: bool,
    pub up: bool,
    pub down: bool,
    pub a: bool,
    pub b: bool,
    pub select: bool,
    pub start: bool,
    /// pending joypad interrupt
    pub interrupt: bool,
}

/// Active-low bit of one key: clear when pressed.
pub open spec fn key_bit(pressed: bool, mask: u8) -> u8 {
    if pressed { 0 } else { mask }
}

/// A key that goes from released to pressed.
pub open spec fn newly_pressed(before: bool, after: bool) -> bool {
    !before && after
}

impl Joypad {
    /// Low nibble for the direction keys; opposite directions held together read released.
    pub open spec fn spec_directions(&self) -> u8 {
        let lr = self.left && self.right;
        let ud = self.up && self.down;
        key_bit(self.right && !lr, 1) | key_bit(self.left && !lr, 2) | key_bit(self.up && !ud, 4)
            | key_bit(self.down && !ud, 8)
    }

    /// Low nibble for the action keys.
    pub open spec fn spec_actions(&self) -> u8 {
        key_bit(self.a, 1) | key_bit(self.b, 2) | key_bit(self.select, 4) | key_bit(self.start, 8)
    }

    /// The JOYP byte: bits 6-7 set, bits 4-5 the selection, low nibble the selected group.
    pub open spec fn spec_matrix(&self) -> u8 {
        0xc0u8 | (if self.actions { 0x20u8 } else { 0 }) | (if self.directions { 0x10u8 } else { 0 })
            | (if self.directions {
            self.spec_directions()
        } else if self.actions {
            self.spec_actions()
        } else {
            0xfu8
        })
    }

    pub open spec fn same_keys(&self, o: &Joypad) -> bool {
        self.right == o.right && self.left == o.left && self.up == o.up && self.down == o.down
            && self.a == o.a && self.b == o.b && self.select == o.select && self.start == o.start
    }

    pub fn set_matrix(&mut self, directions: bool, actions: bool)
        ensures
            final(self).directions == directions,
            final(self).actions == actions,
            final(self).same_keys(old(self)),
            final(self).interrupt == old(self).interrupt,
    {
        self.directions = directions;
        self.actions = actions;
    }

    /// Sets the direction keys; a key newly pressed while directions are selected
    /// raises the joypad interrupt.
    pub fn set_directions(&mut self, right: bool, left: bool, up: bool, down: bool)
        ensures
            final(self).right == right && final(self).left == left,
            final(self).up == up && final(self).down == down,
            final(self).a == old(self).a && final(self).b == old(self).b,
            final(self).select == old(self).select && final(self).start == old(self).start,
            final(self).directions == old(self).directions,
            final(self).actions == old(self).actions,
            final(self).interrupt == (old(self).interrupt || (old(self).directions && (
            newly_pressed(old(self).right, right) || newly_pressed(old(self).left, left)
                || newly_pressed(old(self).up, up) || newly_pressed(old(self).down, down)))),
    {
        let pressed = (!self.right && right) || (!self.left && left) || (!self.up && up) || (
        !self.down && down);
        if self.directions && pressed {
            self.interrupt = true;
        }
        self.right = right;
        self.left = left;
        self.up = up;
        self.down = down;
    }

    /// Sets the action keys; a key newly pressed while actions are selected
    /// raises the joypad interrupt.
    pub fn set_actions(&mut self, a: bool, b: bool, select: bool, start: bool)
        ensures
            final(self).a == a && final(self).b == b,
            final(self).select == select && final(self).start == start,
            final(self).right == old(self).right && final(self).left == old(self).left,
            final(self).up == old(self).up && final(self).down == old(self).down,
            final(self).directions == old(self).directions,
            final(self).actions == old(self).actions,
            final(self).interrupt == (old(self).interrupt || (old(self).actions && (newly_pressed(
                old(self).a,
                a,
            ) || newly_pressed(old(self).b, b) || newly_pressed(old(self).select, select)
                || newly_pressed(old(self).start, start)))),
    {
        let pressed = (!self.a && a) || (!self.b && b) || (!self.select && select) || (!self.start
            && start);
        if self.actions && pressed {
            self.interrupt = true;
        }
        self.a = a;
        self.b = b;
        self.select = select;
        self.start = start;
    }

    /// The JOYP register as read; with no group selected it reads 0xcf.
    pub fn select_matrix(&self) -> (r: u8)
        ensures
            r == self.spec_matrix(),
            !self.directions && !self.actions ==> r == 0xcf,
    {
        let act: u8 = if self.actions { 0x20 } else { 0 };
        let dir: u8 = if self.directions { 0x10 } else { 0 };
        let low: u8 = if self.directions {
            self.select_directions()
        } else if self.actions {
            self.select_actions()
        } else {
            0xf
        };
        assert((0xc0u8 | 0u8 | 0u8 | 0xfu8) == 0xcfu8) by (bit_vector);
        0xc0u8 | act | dir | low
    }

    pub fn select_directions(&self) -> (r: u8)
        ensures
            r == self.spec_directions(),
    {
        let lr = self.left && self.right;
        let ud = self.up && self.down;
        let r: u8 = if self.right && !lr { 0 } else { 1 };
        let l: u8 = if self.left && !lr { 0 } else { 2 };
        let u: u8 = if self.up && !ud { 0 } else { 4 };
        let d: u8 = if self.down && !ud { 0 } else { 8 };
        r | l | u | d
    }

    pub fn select_actions(&self) -> (r: u8)
        ensures
            r == self.spec_actions(),
    {
        let a: u8 = if self.a { 0 } else { 1 };
        let b: u8 = if self.b { 0 } else { 2 };
        let se: u8 = if self.select { 0 } else { 4 };
        let st: u8 = if self.start { 0 } else { 8 };
        a | b | se | st
    }
}

} // verus!
