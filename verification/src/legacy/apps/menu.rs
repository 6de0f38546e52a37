//! Shared menu state and rendering.
use vstd::prelude::*;
use vstd::string::StringSliceAdditionalSpecFns;

use crate::legacy::hw::Hardware;
use crate::legacy::lcd::{text_image, Lcd};

verus! {

/// Navigation state of a menu.
#[derive(Clone, Copy, Debug, PartialEq, Eq, Structural)]
pub struct MenuState {
    pub item_current: u8,
    pub adj_mode: bool,
    pub adj_digit: u8,
}

impl MenuState {
    pub fn new() -> (s: Self)
        ensures
            s == (MenuState { item_current: 0, adj_mode: false, adj_digit: 0 }),
    {
        MenuState { item_current: 0, adj_mode: false, adj_digit: 0 }
    }

    pub fn reset(&mut self)
        ensures
            *final(self) == (MenuState { item_current: 0, adj_mode: false, adj_digit: 0 }),
    {
        self.item_current = 0;
        self.adj_mode = false;
        self.adj_digit = 0;
    }

    /// Move to the next of `n` items, wrapping around.
    pub fn down(&mut self, n: u8)
        requires
            old(self).item_current < 255,
        ensures
            *final(self) == (if n > 0 {
                MenuState { item_current: ((old(self).item_current + 1) % n as int) as u8, ..*old(self) }
            } else {
                *old(self)
            }),
    {
        if n > 0 {
            self.item_current = (self.item_current + 1) % n;
        }
    }

    /// Move to the previous of `n` items, wrapping around.
    pub fn up(&mut self, n: u8)
        ensures
            *final(self) == (if n > 0 {
                MenuState {
                    item_current: if old(self).item_current == 0 {
                        (n - 1) as u8
                    } else {
                        (old(self).item_current - 1) as u8
                    },
                    ..*old(self)
                }
            } else {
                *old(self)
            }),
    {
        if n > 0 {
            self.item_current = if self.item_current == 0 {
                n - 1
            } else {
                self.item_current - 1
            };
        }
    }
}

/// A menu item: a label, or a label with a list of choices.
#[derive(Clone, Copy)]
pub enum Item {
    /// A plain text item; pressing Enter runs the app's handler.
    Text(&'static str),
    /// A choice: the label at position 0, the current choice string at `pos`.
    Choice { text: &'static str, pos: u8, choices: [&'static str; 3] },
}

impl Item {
    /// The item's label, drawn at digit position 0.
    pub open spec fn spec_text(self) -> &'static str {
        match self {
            Item::Text(t) => t,
            Item::Choice { text, .. } => text,
        }
    }

    /// The item's label, drawn at digit position 0.
    pub fn text(&self) -> (t: &'static str)
        ensures
            t == self.spec_text(),
    {
        match self {
            Item::Text(t) => t,
            Item::Choice { text, .. } => text,
        }
    }
}

/// One menu frame on a cleared glass: the header at `header_pos`, the item's
/// label at position 0 and, for a choice, the choice `value` (modulo the
/// number of choices) at the item's position.
pub open spec fn menu_image(item: Item, value: u8, header: &str, header_pos: u8) -> Set<(u8, u8)> {
    let framed = text_image(
        text_image(Set::<(u8, u8)>::empty(), header_pos as int, header.spec_bytes()),
        0,
        item.spec_text().spec_bytes(),
    );
    match item {
        Item::Text(_) => framed,
        Item::Choice { pos, choices, .. } => text_image(framed, pos as int, choices[(value % 3) as int].spec_bytes()),
    }
}

/// Draw one menu frame: the header on top, the current item (and its choice
/// value) at the bottom. `value` is the current value of a choice item.
pub fn render<H: Hardware>(lcd: &mut Lcd<H>, item: &Item, value: u8, header: &'static str, header_pos: u8)
    ensures
        final(lcd).d.segments() == menu_image(*item, value, header, header_pos),
        final(lcd).d.effects() == old(lcd).d.effects(),
        *final(final(lcd).d) == *final(old(lcd).d),
{
    lcd.clear();
    let header_bytes = header.as_bytes();
    if header_bytes.len() > 0 {
        lcd.puts(header_pos, header_bytes);
    } else {
        assert(text_image(Set::<(u8, u8)>::empty(), header_pos as int, header_bytes@) == Set::<(u8, u8)>::empty());
    }
    match item {
        Item::Text(text) => lcd.puts(0, text.as_bytes()),
        Item::Choice { text, pos, choices } => {
            lcd.puts(0, text.as_bytes());
            let idx = (value as usize) % 3;
            lcd.puts(*pos, choices[idx].as_bytes());
        },
    }
}

} // verus!
