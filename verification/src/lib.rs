//! Adapter layer for the Klarna payment gateway: translates the platform's
//! canonical payment model into the gateway's wire shapes and the gateway's
//! responses back into the canonical model.

pub mod canonical;
pub mod transformers;
