//! Themed component building blocks: theme tokens, surfaces, buttons and the
//! runtime contexts that select and configure them.

pub mod button;
pub mod component;
pub mod context;
pub mod motion;
pub mod spinner;
pub mod surface;
pub mod theme;
