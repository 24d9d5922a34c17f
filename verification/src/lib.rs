//! A terminal "digital rain" animation engine: a grid of fading character
//! cells, updated each frame by falling droplets that seed bright symbols,
//! rendered with a green-dominant brightness gradient.

pub mod color;
pub mod column;
pub mod droplet;
pub mod rng;
pub mod screen;
pub mod symbol;
pub mod term;
