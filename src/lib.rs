use vstd::prelude::*;

pub mod gbmode;
pub mod register;
pub mod alu;
pub mod mbc;
pub mod rtc;
pub mod timer;
pub mod keypad;
pub mod gpu;
pub mod sound;
pub mod mmu;
pub mod cpu;
pub mod instructions;
pub mod device;

pub use crate::gbmode::{GbMode, GbSpeed};
pub use crate::gpu::{SCREEN_H, SCREEN_W};
pub use crate::keypad::KeypadKey;
pub use crate::mbc::MBC4;
pub use crate::instructions::{call, call_cb};

verus! {

} // verus!
