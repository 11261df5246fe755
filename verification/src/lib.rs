//! A verified vending-machine component: it custodies a fixed initial supply
//! of an indivisible "gumball" token, sells one unit at a time for a posted
//! price in a designated payment token, and lets the holder of a one-of-a-kind
//! owner badge change the price and withdraw the accumulated proceeds.
//!
//! The hosting ledger (asset issuance, atomic transaction execution, global
//! ordering) is out of scope; its asset containers and possession proofs are
//! modeled by the plain types in [`assets`], so that every accounting and
//! authorization decision of the component itself is verified.

pub mod assets;
pub mod laws;
pub mod machine;
