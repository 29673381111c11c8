//! A key of the keyboard.

use vstd::prelude::*;

verus! {

/// A key of the keyboard: the name the automation object knows it by, and its virtual key
/// code.
#[derive(Debug)]
pub struct KeyMap<'a> {
    key_str: &'a str,
    id: i32,
}

impl<'a> View for KeyMap<'a> {
    type V = (Seq<char>, i32);

    /// The name of the key and its virtual key code.
    closed spec fn view(&self) -> (Seq<char>, i32) {
        (self.key_str@, self.id)
    }
}

impl<'a> KeyMap<'a> {
    /// A key with the given name and virtual key code.
    pub fn new(key_str: &'a str, id: i32) -> (key: Self)
        ensures
            key@ == (key_str@, id),
    {
        Self { key_str, id }
    }

    /// The name of the key.
    pub fn get_key_str(&self) -> (key_str: &'a str)
        ensures
            key_str@ == self@.0,
    {
        self.key_str
    }

    /// The virtual key code of the key.
    pub fn get_id(&self) -> (id: i32)
        ensures
            id == self@.1,
    {
        self.id
    }
}

} // verus!
