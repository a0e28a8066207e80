//! The decisions of a shell that issues, sends and tracks unique assets on a
//! regression-test chain: a registry of users and their keys, the sync barrier between
//! the full node and its indexer, and the steps of every command. The library performs
//! no input or output. It names each request to the full node, the indexer or a wallet,
//! and is told what came of it.

pub mod address;
pub mod cli;
pub mod commands;
pub mod dispatch;
pub mod flow;
pub mod json;
pub mod laws;
pub mod model;
pub mod service;
pub mod text;
pub mod txid;
pub mod user;
pub mod wallet;
