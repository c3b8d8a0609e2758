//! Source-chain bridging logic for a cross-chain transfer protocol (CCTP).
//!
//! The crate splits an inbound token amount into a protocol fee and a bridged
//! remainder, derives the program-derived addresses (PDAs) that the external
//! burn/message programs require, and assembles — byte for byte — the ordered
//! account lists and binary instruction payloads of their `deposit_for_burn`
//! and `send_message` entry points. The host-platform work (the actual token
//! debits and credits and the cross-program invocation itself) is performed
//! by the thin program shell around this crate; everything that decides or
//! encodes lives here, with a proved contract.

pub mod accounts;
pub mod builder;
pub mod codec;
pub mod error;
pub mod fee_split;
pub mod pda;
