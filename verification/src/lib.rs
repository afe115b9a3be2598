//! Hardware-independent core of a micro:bit firmware that scrolls a text
//! message over the 5×5 LED matrix, and the decisions of a few smaller
//! demos for the same board.
//!
//! Two interrupts drive the scrolling display. A fast one shows the current
//! frame row by row ([`display`]); a slow one pulls the next frame from the
//! scrolling text generator ([`scroll`], with its glyph table in [`font`])
//! and installs it. Both work on the guarded slots of [`shared`], which also
//! hold the model of the tick peripheral ([`tick`]). The firmware masks
//! interrupts, calls one entry point per interrupt and applies what comes
//! back to the pins; nothing in here touches hardware.
//!
//! The smaller demos: a light that runs along a path ([`roulette`]), a
//! meter for the hardest acceleration of a punch ([`punch`]) and the command
//! line of a serial console ([`command`]).

pub mod command;
pub mod display;
pub mod font;
pub mod frame;
pub mod punch;
pub mod roulette;
pub mod scroll;
pub mod shared;
pub mod tick;
