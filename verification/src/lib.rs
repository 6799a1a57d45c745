//! Input logic of a three-key USB HID keyboard: debounced buttons, a Morse
//! decoder, the mode selector, the per-mode key maps and the HID report
//! sequences that a keystroke is sent as.

pub mod morse;
pub mod button;
pub mod usb_hid;
pub mod keymap;
pub mod modes;
pub mod board;
