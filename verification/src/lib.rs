//! A prize wheel of application launchers: the wheel and its items, the
//! spin session that drives the wheel's animation and picks a winner, the
//! plan for starting the winning program, the progress reports of the
//! roulette tool, and the choice of run mode.

pub mod launcher;
pub mod mode;
pub mod roulette;
pub mod session;
pub mod wheel;
