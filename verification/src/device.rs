//! The entity hierarchy: cards, the chips they host, and the virtual chips
//! carved out of a chip. Each node borrows its parent, so no child can
//! outlive the card or chip it belongs to.

pub mod card;
pub mod chip;
pub mod vchip;
