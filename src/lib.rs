pub mod array_ring;
pub mod array_str;
pub mod array_vec;
pub mod bits;
pub mod controller;
pub mod decoder;
pub mod driver;
pub mod keyboard;
pub mod log;
pub mod port;
pub mod ps2;
pub mod scancode;
pub mod spinlock;
pub mod tui;
pub mod vga;
