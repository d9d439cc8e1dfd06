//! Screen-reading and decision logic for an automated Ultimate Custom Night player.
use vstd::prelude::*;

pub mod clk;
pub mod color;
pub mod comp_vis;
pub mod dashboard;
pub mod game_state;
pub mod graph;
pub mod history;
pub mod input;
pub mod platform;
pub mod playbook;
pub mod irect;
pub mod isqrt;
pub mod ivec2;
pub mod win;

verus! {

/// Time it takes for the camera to be ready for input, in milliseconds
pub const CAM_RESP_MS: u16 = 300;

/// Real time
pub const SECS_PER_MIN: u16 = 60;

/// Game time
pub const SECS_PER_HOUR: u16 = 45;

pub const DECISECS_PER_SEC: u16 = 10;

pub const DECISECS_PER_HOUR: u16 = 450;

pub const MS_PER_DECISEC: u16 = 100;

} // verus!
