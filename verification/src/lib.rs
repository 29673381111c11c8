//! Late-bound bindings for the `dm.dmsoft` automation object, written without I/O.
//!
//! The automation object is reached through late-bound dispatch: a method is named by a
//! string, the name is resolved to a dispatch id once, and the call passes its arguments as
//! tagged values in reverse order. This crate holds everything of that protocol that can be
//! decided without touching the object: the tagged values, the cache of resolved ids, the
//! argument list of every operation, the steps of an invocation and the reading of replies.
//! The embedding program performs the two requests that a [`Step`] may ask for, the lookup of
//! a name and the call itself, and hands back what the object answered.

pub mod cache;
pub mod dmsoft;
pub mod general;
pub mod key;
pub mod keyboard_mouse;
pub mod keymap;
pub mod pic_color;
pub mod text_ocr;
pub mod variant;
pub mod window;

pub use crate::cache::{DispIdCache, Resolution, DISPID_UNKNOWN};
pub use crate::dmsoft::{
    Call, Dmsoft, Error, Reply, ReturnsLong, ReturnsLongAt, ReturnsText, Step, DISPATCH_METHOD,
    LOCALE_USER_DEFAULT,
};
pub use crate::key::KeyMap;
pub use crate::variant::{Value, VarType, Variant};
