use vstd::prelude::*;

verus! {

/// The eight keys of the console.
#[derive(PartialEq, Eq, Structural, Copy, Clone, Debug)]
pub enum KeypadKey {
    Right,
    Left,
    Up,
    Down,
    A,
    B,
    Select,
    Start,
}

/// Whether the key sits in the direction row (else the button row).
pub open spec fn is_direction(k: KeypadKey) -> bool {
    k == KeypadKey::Right || k == KeypadKey::Left || k == KeypadKey::Up || k == KeypadKey::Down
}

/// The bit of the key within its row.
pub open spec fn key_bit(k: KeypadKey) -> u8 {
    match k {
        KeypadKey::Right | KeypadKey::A => 0x01,
        KeypadKey::Left | KeypadKey::B => 0x02,
        KeypadKey::Up | KeypadKey::Select => 0x04,
        KeypadKey::Down | KeypadKey::Start => 0x08,
    }
}

/// Low nibble seen at 0xFF00: the selected rows ANDed together, pressed keys as 0.
pub open spec fn selected_rows(data: u8, row0: u8, row1: u8) -> u8 {
    0x0Fu8 & (if data & 0x10 == 0 { row0 } else { 0x0Fu8 }) & (if data & 0x20 == 0 { row1 } else { 0x0Fu8 })
}

/// Whether a bit of the visible nibble went from 1 to 0 between `k0` and `k1`.
pub open spec fn key_dropped(k0: Keypad, k1: Keypad) -> bool {
    (k0.data & 0x0F) & !selected_rows(k0.data, k1.row0, k1.row1) != 0
}

/// Key rows behind the selection register at 0xFF00.
pub struct Keypad {
    pub row0: u8,
    pub row1: u8,
    pub data: u8,
    pub interrupt: u8,
}

impl Keypad {
    /// The key's bit goes to 0 in its row, the visible nibble is recomputed, and a
    /// 1-to-0 change of a visible bit raises the joypad interrupt.
    pub open spec fn keydown_post(self, k1: Keypad, key: KeypadKey) -> bool {
        &&& is_direction(key) ==> k1.row0 == self.row0 & !key_bit(key) && k1.row1 == self.row1
        &&& !is_direction(key) ==> k1.row1 == self.row1 & !key_bit(key) && k1.row0 == self.row0
        &&& k1.data == (self.data & 0xF0) | selected_rows(self.data, k1.row0, k1.row1)
        &&& k1.interrupt == (if (self.data & 0x0F) & !selected_rows(self.data, k1.row0, k1.row1) != 0 {
            self.interrupt | 0x10
        } else {
            self.interrupt
        })
    }

    /// The key's bit goes back to 1 and the visible nibble is recomputed.
    pub open spec fn keyup_post(self, k1: Keypad, key: KeypadKey) -> bool {
        &&& is_direction(key) ==> k1.row0 == self.row0 | key_bit(key) && k1.row1 == self.row1
        &&& !is_direction(key) ==> k1.row1 == self.row1 | key_bit(key) && k1.row0 == self.row0
        &&& k1.data == (self.data & 0xF0) | selected_rows(self.data, k1.row0, k1.row1)
        &&& k1.interrupt == (if (self.data & 0x0F) & !selected_rows(self.data, k1.row0, k1.row1) != 0 {
            self.interrupt | 0x10
        } else {
            self.interrupt
        })
    }

    pub fn new() -> (r: Keypad)
        ensures
            r.row0 == 0x0F && r.row1 == 0x0F && r.data == 0xFF && r.interrupt == 0,
    {
        Keypad { row0: 0x0F, row1: 0x0F, data: 0xFF, interrupt: 0 }
    }

    pub fn rb(&self) -> (r: u8)
        ensures
            r == self.data,
    {
        self.data
    }

    /// Recomputes the visible nibble; a key bit going from 1 to 0 raises bit 4.
    fn update(&mut self) -> (edge: bool)
        ensures
            edge == ((old(self).data & 0x0F) & !selected_rows(old(self).data, old(self).row0, old(self).row1) != 0),
            final(self).row0 == old(self).row0,
            final(self).row1 == old(self).row1,
            final(self).data == (old(self).data & 0xF0) | selected_rows(old(self).data, old(self).row0, old(self).row1),
            final(self).interrupt == (if (old(self).data & 0x0F) & !selected_rows(old(self).data, old(self).row0, old(self).row1)
                != 0 { old(self).interrupt | 0x10 } else { old(self).interrupt }),
    {
        let old_values = self.data & 0x0F;
        let new_values: u8 = 0x0Fu8 & (if self.data & 0x10 == 0 { self.row0 } else { 0x0Fu8 }) & (if self.data
            & 0x20 == 0 { self.row1 } else { 0x0Fu8 });
        let edge = old_values & !new_values != 0;
        if edge {
            self.interrupt = self.interrupt | 0x10;
        }
        self.data = (self.data & 0xF0) | new_values;
        edge
    }

    /// Writes the row selection bits 4 and 5.
    pub fn wb(&mut self, value: u8)
        ensures
            final(self).row0 == old(self).row0,
            final(self).row1 == old(self).row1,
            final(self).data == (((old(self).data & 0xCF) | (value & 0x30)) & 0xF0) | selected_rows(
                (old(self).data & 0xCF) | (value & 0x30),
                old(self).row0,
                old(self).row1,
            ),
    {
        self.data = (self.data & 0xCF) | (value & 0x30);
        let _ = self.update();
    }

    pub fn keydown(&mut self, key: KeypadKey) -> (edge: bool)
        ensures
            edge == key_dropped(*old(self), *final(self)),
            is_direction(key) ==> final(self).row0 == old(self).row0 & !key_bit(key) && final(self).row1 == old(self).row1,
            !is_direction(key) ==> final(self).row1 == old(self).row1 & !key_bit(key) && final(self).row0 == old(self).row0,
            final(self).data == (old(self).data & 0xF0) | selected_rows(old(self).data, final(self).row0, final(self).row1),
            final(self).interrupt == (if (old(self).data & 0x0F) & !selected_rows(old(self).data, final(self).row0, final(self).row1)
                != 0 { old(self).interrupt | 0x10 } else { old(self).interrupt }),
    {
        match key {
            KeypadKey::Right => self.row0 = self.row0 & !0x01u8,
            KeypadKey::Left => self.row0 = self.row0 & !0x02u8,
            KeypadKey::Up => self.row0 = self.row0 & !0x04u8,
            KeypadKey::Down => self.row0 = self.row0 & !0x08u8,
            KeypadKey::A => self.row1 = self.row1 & !0x01u8,
            KeypadKey::B => self.row1 = self.row1 & !0x02u8,
            KeypadKey::Select => self.row1 = self.row1 & !0x04u8,
            KeypadKey::Start => self.row1 = self.row1 & !0x08u8,
        }
        self.update()
    }

    pub fn keyup(&mut self, key: KeypadKey) -> (edge: bool)
        ensures
            edge == key_dropped(*old(self), *final(self)),
            is_direction(key) ==> final(self).row0 == old(self).row0 | key_bit(key) && final(self).row1 == old(self).row1,
            !is_direction(key) ==> final(self).row1 == old(self).row1 | key_bit(key) && final(self).row0 == old(self).row0,
            final(self).data == (old(self).data & 0xF0) | selected_rows(old(self).data, final(self).row0, final(self).row1),
            final(self).interrupt == (if (old(self).data & 0x0F) & !selected_rows(old(self).data, final(self).row0, final(self).row1)
                != 0 { old(self).interrupt | 0x10 } else { old(self).interrupt }),
    {
        match key {
            KeypadKey::Right => self.row0 = self.row0 | 0x01,
            KeypadKey::Left => self.row0 = self.row0 | 0x02,
            KeypadKey::Up => self.row0 = self.row0 | 0x04,
            KeypadKey::Down => self.row0 = self.row0 | 0x08,
            KeypadKey::A => self.row1 = self.row1 | 0x01,
            KeypadKey::B => self.row1 = self.row1 | 0x02,
            KeypadKey::Select => self.row1 = self.row1 | 0x04,
            KeypadKey::Start => self.row1 = self.row1 | 0x08,
        }
        self.update()
    }
}

} // verus!
