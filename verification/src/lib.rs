//! A Lightning node's wallet and control surface.
//!
//! | | |
//! |---|---|
//! | [`wallet`] | twenty-three wallet methods |
//! | [`control`] | fourteen control methods |
//! | [`events`] | events of the node, as notifications |
//! | [`nwc`], [`nnc`] | the requests and answers of the two protocols |
//! | [`lightning`], [`state`] | what the node and its memory hand over |
//! | [`uri`], [`params`] | payment URIs, and the parameters in them |
//! | [`foreign`] | every outside call that is taken on trust |
//! | [`laws`] | what holds across handlers |

pub mod clock;
pub mod control;
pub mod digits;
pub mod error;
pub mod events;
pub mod foreign;
pub mod laws;
pub mod lightning;
pub mod lists;
pub mod nnc;
pub mod nwc;
pub mod params;
pub mod state;
pub mod uri;
pub mod wallet;
