//! Key specifications and handler status codes.
//!
//! A key binding names a character together with a modifier set.  The
//! native editor keeps two dispatch tables: control and plain keys go to
//! the primary table under their byte code, meta-modified keys go to a
//! separate meta map.  A bound handler reports back to the editor with a
//! `Status` value whose ordinal is fixed by the editor's own header.

use vstd::prelude::*;

verus! {

/// Which key a handler binds to, and with which modifier set.
#[derive(Clone, Copy)]
pub enum Key {
    Plain(char),
    Ctrl(char),
    Meta(char),
    MetaCtrl(char),
}

/// The outcome a key-binding handler reports to the native editor.
/// The ordinal of each variant, given by [`status_code`], is part of the
/// editor's ABI and must not be renumbered.
#[derive(Clone, Copy)]
pub enum Status {
    Done,
    EOF,
    Move,
    Dispatch,
    Stay,
    Signal,
}

/// The byte code a key registers under: control modifiers keep only the
/// low five bits of the character (the standard control-code transform),
/// plain and meta keys use the character code unchanged.
pub open spec fn spec_key_byte(key: Key) -> u8 {
    match key {
        Key::Plain(k) => k as u8,
        Key::Ctrl(k) => (k as u8) & 0x1f,
        Key::Meta(k) => k as u8,
        Key::MetaCtrl(k) => (k as u8) & 0x1f,
    }
}

/// Whether the key registers in the editor's meta map rather than in the
/// primary key table.
pub open spec fn spec_uses_meta_map(key: Key) -> bool {
    match key {
        Key::Plain(_) => false,
        Key::Ctrl(_) => false,
        Key::Meta(_) => true,
        Key::MetaCtrl(_) => true,
    }
}

/// The fixed ordinal a status variant crosses the ABI as.
pub open spec fn spec_status_code(s: Status) -> int {
    match s {
        Status::Done => 0,
        Status::EOF => 1,
        Status::Move => 2,
        Status::Dispatch => 3,
        Status::Stay => 4,
        Status::Signal => 5,
    }
}

/// Computes the byte code the key registers under.
pub fn key_byte(key: Key) -> (b: u8)
    ensures
        b == spec_key_byte(key),
{
    match key {
        Key::Plain(k) => k as u8,
        Key::Ctrl(k) => (k as u8) & 0x1f,
        Key::Meta(k) => k as u8,
        Key::MetaCtrl(k) => (k as u8) & 0x1f,
    }
}

/// Reports whether registration routes to the meta map instead of the
/// primary key table.
pub fn uses_meta_map(key: Key) -> (m: bool)
    ensures
        m == spec_uses_meta_map(key),
{
    match key {
        Key::Plain(_) => false,
        Key::Ctrl(_) => false,
        Key::Meta(_) => true,
        Key::MetaCtrl(_) => true,
    }
}

/// The ordinal a handler's status is reported as across the ABI.
pub fn status_code(s: Status) -> (c: i32)
    ensures
        c == spec_status_code(s),
{
    match s {
        Status::Done => 0,
        Status::EOF => 1,
        Status::Move => 2,
        Status::Dispatch => 3,
        Status::Stay => 4,
        Status::Signal => 5,
    }
}

} // verus!
