//! The IPMX slide deck: what each slide shows, in which order the slides
//! run, how the NMOS bridge block in shared memory is read and written,
//! and the small per-frame decisions (palette transitions, the button wait,
//! the envelope flight, the live NMOS labels) that the game loop carries
//! out.

pub mod style;
pub mod texts;
pub mod bridge;
pub mod slides;
pub mod deck;
