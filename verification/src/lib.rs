//! Target-side engine of a two-chain message bridge relay, together with what the
//! chains on both sides are built from: the hooks of a runtime and its weights, the
//! interfaces of its tokens, the helpers of its elections and the slot guard of its
//! block authors.

pub mod aura;
pub mod elections;
pub mod fungible;
pub mod fungibles;
pub mod hooks;
pub mod item_of;
pub mod lane;
pub mod relay_laws;
pub mod supports;
pub mod target;
pub mod tokens;
pub mod upgrade;
pub mod vectors;
pub mod weights;
