//! Types shared with the web frontend of the desktop app, and their
//! conversion to and from the core types.

use vstd::prelude::*;

use std::path::PathBuf;

use crate::commands;
use crate::host;
use crate::result_list;

verus! {

/// A key as the frontend names it.
#[derive(Debug, Clone, Copy, PartialEq, Eq, Structural)]
pub enum Key {
    Digit0,
    Digit1,
    Digit2,
    Digit3,
    Digit4,
    Digit5,
    Digit6,
    Digit7,
    Digit8,
    Digit9,
    A,
    B,
    C,
    D,
    E,
    F,
    G,
    H,
    I,
    J,
    K,
    L,
    M,
    N,
    O,
    P,
    Q,
    R,
    S,
    T,
    U,
    V,
    W,
    X,
    Y,
    Z,
    F1,
    F2,
    F3,
    F4,
    F5,
    F6,
    F7,
    F8,
    F9,
    F10,
    F11,
    F12,
    F13,
    F14,
    F15,
    F16,
    F17,
    F18,
    F19,
    F20,
    F21,
    F22,
    F23,
    F24,
    Backtick,
    Hyphen,
    Equal,
    Tab,
    LeftBracket,
    RightBracket,
    Backslash,
    Semicolon,
    Apostrophe,
    Enter,
    Comma,
    Period,
    Slash,
}

/// The core key that a frontend key stands for.
pub open spec fn key_to_core(key: Key) -> commands::Key {
    match key {
        Key::Digit0 => commands::Key::Digit0,
        Key::Digit1 => commands::Key::Digit1,
        Key::Digit2 => commands::Key::Digit2,
        Key::Digit3 => commands::Key::Digit3,
        Key::Digit4 => commands::Key::Digit4,
        Key::Digit5 => commands::Key::Digit5,
        Key::Digit6 => commands::Key::Digit6,
        Key::Digit7 => commands::Key::Digit7,
        Key::Digit8 => commands::Key::Digit8,
        Key::Digit9 => commands::Key::Digit9,
        Key::A => commands::Key::A,
        Key::B => commands::Key::B,
        Key::C => commands::Key::C,
        Key::D => commands::Key::D,
        Key::E => commands::Key::E,
        Key::F => commands::Key::F,
        Key::G => commands::Key::G,
        Key::H => commands::Key::H,
        Key::I => commands::Key::I,
        Key::J => commands::Key::J,
        Key::K => commands::Key::K,
        Key::L => commands::Key::L,
        Key::M => commands::Key::M,
        Key::N => commands::Key::N,
        Key::O => commands::Key::O,
        Key::P => commands::Key::P,
        Key::Q => commands::Key::Q,
        Key::R => commands::Key::R,
        Key::S => commands::Key::S,
        Key::T => commands::Key::T,
        Key::U => commands::Key::U,
        Key::V => commands::Key::V,
        Key::W => commands::Key::W,
        Key::X => commands::Key::X,
        Key::Y => commands::Key::Y,
        Key::Z => commands::Key::Z,
        Key::F1 => commands::Key::F1,
        Key::F2 => commands::Key::F2,
        Key::F3 => commands::Key::F3,
        Key::F4 => commands::Key::F4,
        Key::F5 => commands::Key::F5,
        Key::F6 => commands::Key::F6,
        Key::F7 => commands::Key::F7,
        Key::F8 => commands::Key::F8,
        Key::F9 => commands::Key::F9,
        Key::F10 => commands::Key::F10,
        Key::F11 => commands::Key::F11,
        Key::F12 => commands::Key::F12,
        Key::F13 => commands::Key::F13,
        Key::F14 => commands::Key::F14,
        Key::F15 => commands::Key::F15,
        Key::F16 => commands::Key::F16,
        Key::F17 => commands::Key::F17,
        Key::F18 => commands::Key::F18,
        Key::F19 => commands::Key::F19,
        Key::F20 => commands::Key::F20,
        Key::F21 => commands::Key::F21,
        Key::F22 => commands::Key::F22,
        Key::F23 => commands::Key::F23,
        Key::F24 => commands::Key::F24,
        Key::Backtick => commands::Key::Backtick,
        Key::Hyphen => commands::Key::Hyphen,
        Key::Equal => commands::Key::Equal,
        Key::Tab => commands::Key::Tab,
        Key::LeftBracket => commands::Key::LeftBracket,
        Key::RightBracket => commands::Key::RightBracket,
        Key::Backslash => commands::Key::Backslash,
        Key::Semicolon => commands::Key::Semicolon,
        Key::Apostrophe => commands::Key::Apostrophe,
        Key::Enter => commands::Key::Enter,
        Key::Comma => commands::Key::Comma,
        Key::Period => commands::Key::Period,
        Key::Slash => commands::Key::Slash,
    }
}

/// The frontend key that stands for a core key.
pub open spec fn key_from_core(key: commands::Key) -> Key {
    match key {
        commands::Key::Digit0 => Key::Digit0,
        commands::Key::Digit1 => Key::Digit1,
        commands::Key::Digit2 => Key::Digit2,
        commands::Key::Digit3 => Key::Digit3,
        commands::Key::Digit4 => Key::Digit4,
        commands::Key::Digit5 => Key::Digit5,
        commands::Key::Digit6 => Key::Digit6,
        commands::Key::Digit7 => Key::Digit7,
        commands::Key::Digit8 => Key::Digit8,
        commands::Key::Digit9 => Key::Digit9,
        commands::Key::A => Key::A,
        commands::Key::B => Key::B,
        commands::Key::C => Key::C,
        commands::Key::D => Key::D,
        commands::Key::E => Key::E,
        commands::Key::F => Key::F,
        commands::Key::G => Key::G,
        commands::Key::H => Key::H,
        commands::Key::I => Key::I,
        commands::Key::J => Key::J,
        commands::Key::K => Key::K,
        commands::Key::L => Key::L,
        commands::Key::M => Key::M,
        commands::Key::N => Key::N,
        commands::Key::O => Key::O,
        commands::Key::P => Key::P,
        commands::Key::Q => Key::Q,
        commands::Key::R => Key::R,
        commands::Key::S => Key::S,
        commands::Key::T => Key::T,
        commands::Key::U => Key::U,
        commands::Key::V => Key::V,
        commands::Key::W => Key::W,
        commands::Key::X => Key::X,
        commands::Key::Y => Key::Y,
        commands::Key::Z => Key::Z,
        commands::Key::F1 => Key::F1,
        commands::Key::F2 => Key::F2,
        commands::Key::F3 => Key::F3,
        commands::Key::F4 => Key::F4,
        commands::Key::F5 => Key::F5,
        commands::Key::F6 => Key::F6,
        commands::Key::F7 => Key::F7,
        commands::Key::F8 => Key::F8,
        commands::Key::F9 => Key::F9,
        commands::Key::F10 => Key::F10,
        commands::Key::F11 => Key::F11,
        commands::Key::F12 => Key::F12,
        commands::Key::F13 => Key::F13,
        commands::Key::F14 => Key::F14,
        commands::Key::F15 => Key::F15,
        commands::Key::F16 => Key::F16,
        commands::Key::F17 => Key::F17,
        commands::Key::F18 => Key::F18,
        commands::Key::F19 => Key::F19,
        commands::Key::F20 => Key::F20,
        commands::Key::F21 => Key::F21,
        commands::Key::F22 => Key::F22,
        commands::Key::F23 => Key::F23,
        commands::Key::F24 => Key::F24,
        commands::Key::Backtick => Key::Backtick,
        commands::Key::Hyphen => Key::Hyphen,
        commands::Key::Equal => Key::Equal,
        commands::Key::Tab => Key::Tab,
        commands::Key::LeftBracket => Key::LeftBracket,
        commands::Key::RightBracket => Key::RightBracket,
        commands::Key::Backslash => Key::Backslash,
        commands::Key::Semicolon => Key::Semicolon,
        commands::Key::Apostrophe => Key::Apostrophe,
        commands::Key::Enter => Key::Enter,
        commands::Key::Comma => Key::Comma,
        commands::Key::Period => Key::Period,
        commands::Key::Slash => Key::Slash,
    }
}

/// Converts a key from the frontend to the core key of the same name.
pub fn key_to_comette(key: Key) -> (r: commands::Key)
    ensures
        r == key_to_core(key),
{
    match key {
        Key::Digit0 => commands::Key::Digit0,
        Key::Digit1 => commands::Key::Digit1,
        Key::Digit2 => commands::Key::Digit2,
        Key::Digit3 => commands::Key::Digit3,
        Key::Digit4 => commands::Key::Digit4,
        Key::Digit5 => commands::Key::Digit5,
        Key::Digit6 => commands::Key::Digit6,
        Key::Digit7 => commands::Key::Digit7,
        Key::Digit8 => commands::Key::Digit8,
        Key::Digit9 => commands::Key::Digit9,
        Key::A => commands::Key::A,
        Key::B => commands::Key::B,
        Key::C => commands::Key::C,
        Key::D => commands::Key::D,
        Key::E => commands::Key::E,
        Key::F => commands::Key::F,
        Key::G => commands::Key::G,
        Key::H => commands::Key::H,
        Key::I => commands::Key::I,
        Key::J => commands::Key::J,
        Key::K => commands::Key::K,
        Key::L => commands::Key::L,
        Key::M => commands::Key::M,
        Key::N => commands::Key::N,
        Key::O => commands::Key::O,
        Key::P => commands::Key::P,
        Key::Q => commands::Key::Q,
        Key::R => commands::Key::R,
        Key::S => commands::Key::S,
        Key::T => commands::Key::T,
        Key::U => commands::Key::U,
        Key::V => commands::Key::V,
        Key::W => commands::Key::W,
        Key::X => commands::Key::X,
        Key::Y => commands::Key::Y,
        Key::Z => commands::Key::Z,
        Key::F1 => commands::Key::F1,
        Key::F2 => commands::Key::F2,
        Key::F3 => commands::Key::F3,
        Key::F4 => commands::Key::F4,
        Key::F5 => commands::Key::F5,
        Key::F6 => commands::Key::F6,
        Key::F7 => commands::Key::F7,
        Key::F8 => commands::Key::F8,
        Key::F9 => commands::Key::F9,
        Key::F10 => commands::Key::F10,
        Key::F11 => commands::Key::F11,
        Key::F12 => commands::Key::F12,
        Key::F13 => commands::Key::F13,
        Key::F14 => commands::Key::F14,
        Key::F15 => commands::Key::F15,
        Key::F16 => commands::Key::F16,
        Key::F17 => commands::Key::F17,
        Key::F18 => commands::Key::F18,
        Key::F19 => commands::Key::F19,
        Key::F20 => commands::Key::F20,
        Key::F21 => commands::Key::F21,
        Key::F22 => commands::Key::F22,
        Key::F23 => commands::Key::F23,
        Key::F24 => commands::Key::F24,
        Key::Backtick => commands::Key::Backtick,
        Key::Hyphen => commands::Key::Hyphen,
        Key::Equal => commands::Key::Equal,
        Key::Tab => commands::Key::Tab,
        Key::LeftBracket => commands::Key::LeftBracket,
        Key::RightBracket => commands::Key::RightBracket,
        Key::Backslash => commands::Key::Backslash,
        Key::Semicolon => commands::Key::Semicolon,
        Key::Apostrophe => commands::Key::Apostrophe,
        Key::Enter => commands::Key::Enter,
        Key::Comma => commands::Key::Comma,
        Key::Period => commands::Key::Period,
        Key::Slash => commands::Key::Slash,
    }
}

/// Converts a core key to the frontend key of the same name.
pub fn key_from_comette(key: commands::Key) -> (r: Key)
    ensures
        r == key_from_core(key),
{
    match key {
        commands::Key::Digit0 => Key::Digit0,
        commands::Key::Digit1 => Key::Digit1,
        commands::Key::Digit2 => Key::Digit2,
        commands::Key::Digit3 => Key::Digit3,
        commands::Key::Digit4 => Key::Digit4,
        commands::Key::Digit5 => Key::Digit5,
        commands::Key::Digit6 => Key::Digit6,
        commands::Key::Digit7 => Key::Digit7,
        commands::Key::Digit8 => Key::Digit8,
        commands::Key::Digit9 => Key::Digit9,
        commands::Key::A => Key::A,
        commands::Key::B => Key::B,
        commands::Key::C => Key::C,
        commands::Key::D => Key::D,
        commands::Key::E => Key::E,
        commands::Key::F => Key::F,
        commands::Key::G => Key::G,
        commands::Key::H => Key::H,
        commands::Key::I => Key::I,
        commands::Key::J => Key::J,
        commands::Key::K => Key::K,
        commands::Key::L => Key::L,
        commands::Key::M => Key::M,
        commands::Key::N => Key::N,
        commands::Key::O => Key::O,
        commands::Key::P => Key::P,
        commands::Key::Q => Key::Q,
        commands::Key::R => Key::R,
        commands::Key::S => Key::S,
        commands::Key::T => Key::T,
        commands::Key::U => Key::U,
        commands::Key::V => Key::V,
        commands::Key::W => Key::W,
        commands::Key::X => Key::X,
        commands::Key::Y => Key::Y,
        commands::Key::Z => Key::Z,
        commands::Key::F1 => Key::F1,
        commands::Key::F2 => Key::F2,
        commands::Key::F3 => Key::F3,
        commands::Key::F4 => Key::F4,
        commands::Key::F5 => Key::F5,
        commands::Key::F6 => Key::F6,
        commands::Key::F7 => Key::F7,
        commands::Key::F8 => Key::F8,
        commands::Key::F9 => Key::F9,
        commands::Key::F10 => Key::F10,
        commands::Key::F11 => Key::F11,
        commands::Key::F12 => Key::F12,
        commands::Key::F13 => Key::F13,
        commands::Key::F14 => Key::F14,
        commands::Key::F15 => Key::F15,
        commands::Key::F16 => Key::F16,
        commands::Key::F17 => Key::F17,
        commands::Key::F18 => Key::F18,
        commands::Key::F19 => Key::F19,
        commands::Key::F20 => Key::F20,
        commands::Key::F21 => Key::F21,
        commands::Key::F22 => Key::F22,
        commands::Key::F23 => Key::F23,
        commands::Key::F24 => Key::F24,
        commands::Key::Backtick => Key::Backtick,
        commands::Key::Hyphen => Key::Hyphen,
        commands::Key::Equal => Key::Equal,
        commands::Key::Tab => Key::Tab,
        commands::Key::LeftBracket => Key::LeftBracket,
        commands::Key::RightBracket => Key::RightBracket,
        commands::Key::Backslash => Key::Backslash,
        commands::Key::Semicolon => Key::Semicolon,
        commands::Key::Apostrophe => Key::Apostrophe,
        commands::Key::Enter => Key::Enter,
        commands::Key::Comma => Key::Comma,
        commands::Key::Period => Key::Period,
        commands::Key::Slash => Key::Slash,
    }
}

/// The name of a key's variant, as the frontend names it.
pub open spec fn frontend_key_variant(k: Key) -> Seq<char> {
    match k {
        Key::Digit0 => seq!['D', 'i', 'g', 'i', 't', '0'],
        Key::Digit1 => seq!['D', 'i', 'g', 'i', 't', '1'],
        Key::Digit2 => seq!['D', 'i', 'g', 'i', 't', '2'],
        Key::Digit3 => seq!['D', 'i', 'g', 'i', 't', '3'],
        Key::Digit4 => seq!['D', 'i', 'g', 'i', 't', '4'],
        Key::Digit5 => seq!['D', 'i', 'g', 'i', 't', '5'],
        Key::Digit6 => seq!['D', 'i', 'g', 'i', 't', '6'],
        Key::Digit7 => seq!['D', 'i', 'g', 'i', 't', '7'],
        Key::Digit8 => seq!['D', 'i', 'g', 'i', 't', '8'],
        Key::Digit9 => seq!['D', 'i', 'g', 'i', 't', '9'],
        Key::A => seq!['A'],
        Key::B => seq!['B'],
        Key::C => seq!['C'],
        Key::D => seq!['D'],
        Key::E => seq!['E'],
        Key::F => seq!['F'],
        Key::G => seq!['G'],
        Key::H => seq!['H'],
        Key::I => seq!['I'],
        Key::J => seq!['J'],
        Key::K => seq!['K'],
        Key::L => seq!['L'],
        Key::M => seq!['M'],
        Key::N => seq!['N'],
        Key::O => seq!['O'],
        Key::P => seq!['P'],
        Key::Q => seq!['Q'],
        Key::R => seq!['R'],
        Key::S => seq!['S'],
        Key::T => seq!['T'],
        Key::U => seq!['U'],
        Key::V => seq!['V'],
        Key::W => seq!['W'],
        Key::X => seq!['X'],
        Key::Y => seq!['Y'],
        Key::Z => seq!['Z'],
        Key::F1 => seq!['F', '1'],
        Key::F2 => seq!['F', '2'],
        Key::F3 => seq!['F', '3'],
        Key::F4 => seq!['F', '4'],
        Key::F5 => seq!['F', '5'],
        Key::F6 => seq!['F', '6'],
        Key::F7 => seq!['F', '7'],
        Key::F8 => seq!['F', '8'],
        Key::F9 => seq!['F', '9'],
        Key::F10 => seq!['F', '1', '0'],
        Key::F11 => seq!['F', '1', '1'],
        Key::F12 => seq!['F', '1', '2'],
        Key::F13 => seq!['F', '1', '3'],
        Key::F14 => seq!['F', '1', '4'],
        Key::F15 => seq!['F', '1', '5'],
        Key::F16 => seq!['F', '1', '6'],
        Key::F17 => seq!['F', '1', '7'],
        Key::F18 => seq!['F', '1', '8'],
        Key::F19 => seq!['F', '1', '9'],
        Key::F20 => seq!['F', '2', '0'],
        Key::F21 => seq!['F', '2', '1'],
        Key::F22 => seq!['F', '2', '2'],
        Key::F23 => seq!['F', '2', '3'],
        Key::F24 => seq!['F', '2', '4'],
        Key::Backtick => seq!['B', 'a', 'c', 'k', 't', 'i', 'c', 'k'],
        Key::Hyphen => seq!['H', 'y', 'p', 'h', 'e', 'n'],
        Key::Equal => seq!['E', 'q', 'u', 'a', 'l'],
        Key::Tab => seq!['T', 'a', 'b'],
        Key::LeftBracket => seq!['L', 'e', 'f', 't', 'B', 'r', 'a', 'c', 'k', 'e', 't'],
        Key::RightBracket => seq!['R', 'i', 'g', 'h', 't', 'B', 'r', 'a', 'c', 'k', 'e', 't'],
        Key::Backslash => seq!['B', 'a', 'c', 'k', 's', 'l', 'a', 's', 'h'],
        Key::Semicolon => seq!['S', 'e', 'm', 'i', 'c', 'o', 'l', 'o', 'n'],
        Key::Apostrophe => seq!['A', 'p', 'o', 's', 't', 'r', 'o', 'p', 'h', 'e'],
        Key::Enter => seq!['E', 'n', 't', 'e', 'r'],
        Key::Comma => seq!['C', 'o', 'm', 'm', 'a'],
        Key::Period => seq!['P', 'e', 'r', 'i', 'o', 'd'],
        Key::Slash => seq!['S', 'l', 'a', 's', 'h'],
    }
}

/// The name of a key's variant, as the core names it.
pub open spec fn core_key_variant(k: commands::Key) -> Seq<char> {
    match k {
        commands::Key::Digit0 => seq!['D', 'i', 'g', 'i', 't', '0'],
        commands::Key::Digit1 => seq!['D', 'i', 'g', 'i', 't', '1'],
        commands::Key::Digit2 => seq!['D', 'i', 'g', 'i', 't', '2'],
        commands::Key::Digit3 => seq!['D', 'i', 'g', 'i', 't', '3'],
        commands::Key::Digit4 => seq!['D', 'i', 'g', 'i', 't', '4'],
        commands::Key::Digit5 => seq!['D', 'i', 'g', 'i', 't', '5'],
        commands::Key::Digit6 => seq!['D', 'i', 'g', 'i', 't', '6'],
        commands::Key::Digit7 => seq!['D', 'i', 'g', 'i', 't', '7'],
        commands::Key::Digit8 => seq!['D', 'i', 'g', 'i', 't', '8'],
        commands::Key::Digit9 => seq!['D', 'i', 'g', 'i', 't', '9'],
        commands::Key::A => seq!['A'],
        commands::Key::B => seq!['B'],
        commands::Key::C => seq!['C'],
        commands::Key::D => seq!['D'],
        commands::Key::E => seq!['E'],
        commands::Key::F => seq!['F'],
        commands::Key::G => seq!['G'],
        commands::Key::H => seq!['H'],
        commands::Key::I => seq!['I'],
        commands::Key::J => seq!['J'],
        commands::Key::K => seq!['K'],
        commands::Key::L => seq!['L'],
        commands::Key::M => seq!['M'],
        commands::Key::N => seq!['N'],
        commands::Key::O => seq!['O'],
        commands::Key::P => seq!['P'],
        commands::Key::Q => seq!['Q'],
        commands::Key::R => seq!['R'],
        commands::Key::S => seq!['S'],
        commands::Key::T => seq!['T'],
        commands::Key::U => seq!['U'],
        commands::Key::V => seq!['V'],
        commands::Key::W => seq!['W'],
        commands::Key::X => seq!['X'],
        commands::Key::Y => seq!['Y'],
        commands::Key::Z => seq!['Z'],
        commands::Key::F1 => seq!['F', '1'],
        commands::Key::F2 => seq!['F', '2'],
        commands::Key::F3 => seq!['F', '3'],
        commands::Key::F4 => seq!['F', '4'],
        commands::Key::F5 => seq!['F', '5'],
        commands::Key::F6 => seq!['F', '6'],
        commands::Key::F7 => seq!['F', '7'],
        commands::Key::F8 => seq!['F', '8'],
        commands::Key::F9 => seq!['F', '9'],
        commands::Key::F10 => seq!['F', '1', '0'],
        commands::Key::F11 => seq!['F', '1', '1'],
        commands::Key::F12 => seq!['F', '1', '2'],
        commands::Key::F13 => seq!['F', '1', '3'],
        commands::Key::F14 => seq!['F', '1', '4'],
        commands::Key::F15 => seq!['F', '1', '5'],
        commands::Key::F16 => seq!['F', '1', '6'],
        commands::Key::F17 => seq!['F', '1', '7'],
        commands::Key::F18 => seq!['F', '1', '8'],
        commands::Key::F19 => seq!['F', '1', '9'],
        commands::Key::F20 => seq!['F', '2', '0'],
        commands::Key::F21 => seq!['F', '2', '1'],
        commands::Key::F22 => seq!['F', '2', '2'],
        commands::Key::F23 => seq!['F', '2', '3'],
        commands::Key::F24 => seq!['F', '2', '4'],
        commands::Key::Backtick => seq!['B', 'a', 'c', 'k', 't', 'i', 'c', 'k'],
        commands::Key::Hyphen => seq!['H', 'y', 'p', 'h', 'e', 'n'],
        commands::Key::Equal => seq!['E', 'q', 'u', 'a', 'l'],
        commands::Key::Tab => seq!['T', 'a', 'b'],
        commands::Key::LeftBracket => seq!['L', 'e', 'f', 't', 'B', 'r', 'a', 'c', 'k', 'e', 't'],
        commands::Key::RightBracket => seq!['R', 'i', 'g', 'h', 't', 'B', 'r', 'a', 'c', 'k', 'e', 't'],
        commands::Key::Backslash => seq!['B', 'a', 'c', 'k', 's', 'l', 'a', 's', 'h'],
        commands::Key::Semicolon => seq!['S', 'e', 'm', 'i', 'c', 'o', 'l', 'o', 'n'],
        commands::Key::Apostrophe => seq!['A', 'p', 'o', 's', 't', 'r', 'o', 'p', 'h', 'e'],
        commands::Key::Enter => seq!['E', 'n', 't', 'e', 'r'],
        commands::Key::Comma => seq!['C', 'o', 'm', 'm', 'a'],
        commands::Key::Period => seq!['P', 'e', 'r', 'i', 'o', 'd'],
        commands::Key::Slash => seq!['S', 'l', 'a', 's', 'h'],
    }
}

/// Each key converts to the key of the same name, in both directions.
pub proof fn lemma_keys_keep_their_names(k: Key, c: commands::Key)
    ensures
        core_key_variant(key_to_core(k)) == frontend_key_variant(k),
        frontend_key_variant(key_from_core(c)) == core_key_variant(c),
{
}

/// Every core key has exactly one frontend key: the conversions are
/// inverse to each other.
pub proof fn lemma_keys_one_to_one(k: Key, c: commands::Key)
    ensures
        key_from_core(key_to_core(k)) == k,
        key_to_core(key_from_core(c)) == c,
{
}

/// A hotkey as the frontend sends it.
#[derive(Debug, Clone, Copy, PartialEq, Eq, Structural)]
pub struct Hotkey {
    pub key: Key,
    pub ctrl: bool,
    pub alt: bool,
    pub shift: bool,
    pub meta: bool,
}

/// Converts a hotkey from the frontend to the core hotkey.
pub fn hotkey_to_comette(hotkey: Hotkey) -> (r: commands::Hotkey)
    ensures
        r == (commands::Hotkey {
            key: key_to_core(hotkey.key),
            ctrl: hotkey.ctrl,
            alt: hotkey.alt,
            shift: hotkey.shift,
            meta: hotkey.meta,
        }),
{
    let Hotkey { key, ctrl, alt, shift, meta } = hotkey;
    commands::Hotkey { key: key_to_comette(key), ctrl, alt, shift, meta }
}

/// Identifies a list item: the plugin that listed it and its ID there.
#[derive(Debug, Clone, PartialEq, Eq, PartialOrd, Ord, Hash)]
pub struct ListItemId {
    pub local_id: u64,
    pub plugin_name: String,
}

/// How the frontend lays out results.
#[derive(Debug, Clone, Copy, PartialEq, Eq, Structural)]
pub enum ListStyle {
    Rows,
    Grid,
    GridWithColumns { columns: u32 },
}

/// Converts a core list style to the frontend's.
pub fn list_style_from_comette(value: result_list::ListStyle) -> (r: ListStyle)
    ensures
        r == match value {
            result_list::ListStyle::Rows => ListStyle::Rows,
            result_list::ListStyle::Grid => ListStyle::Grid,
            result_list::ListStyle::GridWithColumns(columns) => ListStyle::GridWithColumns { columns },
        },
{
    match value {
        result_list::ListStyle::Rows => ListStyle::Rows,
        result_list::ListStyle::Grid => ListStyle::Grid,
        result_list::ListStyle::GridWithColumns(columns) => ListStyle::GridWithColumns { columns },
    }
}

#[verifier::external_type_specification]
#[verifier::external_body]
pub struct ExPathBuf(PathBuf);

/// What the backend sends to the frontend.
#[derive(Debug)]
pub enum Event {
    SetInput { contents: String, selection: (u16, u16) },
    SetList { items: Vec<ListItem>, style: Option<ListStyle> },
}

/// A result as the frontend shows it.
#[derive(Debug)]
pub struct ListItem {
    pub title: String,
    pub description: String,
    pub icon: Option<Icon>,
    pub id: ListItemId,
    pub available_commands: Vec<String>,
}

/// The icon of a result: an image file, or some text.
#[derive(Debug)]
pub enum Icon {
    File { path: PathBuf },
    Text { text: String },
}

/// The event that sets the frontend's input field.
pub fn set_input_event(input: host::Input) -> (e: Event)
    ensures
        e == (Event::SetInput { contents: input.contents, selection: input.selection }),
{
    let host::Input { contents, selection } = input;
    Event::SetInput { contents, selection }
}

} // verus!
