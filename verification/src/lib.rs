pub mod basic;
pub mod bit_pattern;
pub mod emulator;
pub mod flags;
pub mod ui;
