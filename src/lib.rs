//! A small reactive UI toolkit core: scoped stylesheet compilation, a
//! stylesheet registry, themes, and the decision logic of joint signals.

pub mod entries;
pub mod css;
pub mod table;
pub mod colours;
pub mod theme;
pub mod ty;
pub mod joint;
pub mod components;
