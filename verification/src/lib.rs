//! Verified core of a push-button digit counter shown on a seven-segment display.

pub mod chip;
pub mod counter;
pub mod eeprom;
pub mod registers;
pub mod segments;
pub mod theorems;
