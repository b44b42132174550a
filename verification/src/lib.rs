//! Verified core of a unified SDK for West African mobile-money APIs
//! (Wave, Orange Money, MTN MoMo, Moov Africa).

pub mod cli;
pub mod dashboard;
pub mod error;
pub mod moov;
pub mod mtn;
pub mod operator;
pub mod orange;
pub mod phone;
pub mod text;
pub mod token;
pub mod types;
pub mod wave;

pub use error::WaveError;
pub use types::{
    Currency, ListOptions, Money, PaymentRequest, PaymentResponse, PhoneNumber, Transaction,
    TransactionId, TransactionStatus,
};
