//! Client side of a small ledger protocol: fixed-width request framing,
//! RSA signing of mutating requests, and decoding of the server's replies.

pub mod wire;
pub mod clock;
pub mod signer;
pub mod exchange;

pub use wire::{
    RequestKind, RequestError, pad_field, balance_payload, owe_payload, send_payload,
    user_verify_nonaction, encode_u64_be, decode_i64_be, NONACTION_PAYLOAD_LEN,
    ACTION_PAYLOAD_LEN, NONACTION_MESSAGE_LEN, TAG_LEN,
};
pub use clock::timestamp;
pub use signer::{
    SigningKey, KeyError, SignError, ActionError, signed_block, action_message, sign_action,
    user_verify_action, SIGNATURE_LEN, SIGNED_BLOCK_LEN, ACTION_MESSAGE_LEN,
};
pub use exchange::{
    Outcome, Reply, Phase, Event, Action, Exchange, decode_confirmation, decode_data, CODE_LEN,
    DATA_LEN,
};
