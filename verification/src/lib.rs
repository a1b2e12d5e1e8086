//! A minimal proof-of-work block chain: hashing, mining, linkage and validation.

pub mod block;
pub mod clock;
pub mod controller;
pub mod hasher;
pub mod miner;
pub mod platform;
pub mod storage;
pub mod text;
pub mod validator;
