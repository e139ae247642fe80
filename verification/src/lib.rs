//! Delegated signing for a token program.
//!
//! A program that holds no private key derives a program-controlled
//! authority from a namespace label and a signer's public identity, and
//! presents that authority as the signer of instructions addressed to a
//! token program. This crate computes the derivation, builds the two
//! delegated instructions (issue and transfer) together with the
//! proof-of-control capsule that accompanies them, and maps the answer of
//! the hosting runtime to the caller's result. Submitting an invocation to
//! the runtime is left to the caller.

pub mod deriver;
pub mod dispatcher;
pub mod error;
pub mod identity;
pub mod instruction;

pub use deriver::{derive_authority, Capsule, DerivedAuthority};
pub use dispatcher::{
    conclude, mint_tokens, transfer_tokens, Confirmation, DelegatedInvocation, MintTokens, Operation,
    TransferTokens,
};
pub use error::DispatchError;
pub use identity::Identity;
pub use instruction::{AccountRef, DelegatedInstruction};
