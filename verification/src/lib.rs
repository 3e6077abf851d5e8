//! Core of a command-line client that calls smart contracts on a TON network.
//!
//! The crate holds what such a client decides and computes: how the key
//! argument is read, how a key pair is assembled from hexadecimal text, the
//! JSON document in which a prepared message is kept for later, and the
//! order of the steps of each operation. The network client itself, files
//! and the console stay with the program that drives these steps.
//!
//! - [`keys`] reads the key argument and assembles key pairs; [`words`]
//!   splits a phrase into its words.
//! - [`envelope`] writes and reads the document of a stored message.
//! - [`session`] runs the three operations step by step; [`steps`] holds
//!   what passes between a session and its driver, [`console`] the lines
//!   that are printed.
//! - [`hexcode`], [`b64`] and [`json`] bind the crates that decode
//!   hexadecimal and base64 text and that parse and write JSON. What is
//!   taken on trust about them is stated there and nowhere else.
//! - [`error`] and [`text`] hold the error type and small helpers.

pub mod text;

pub mod error;

pub mod hexcode;

pub mod words;

pub mod keys;

pub mod json;

pub mod b64;

pub mod envelope;

pub mod steps;

pub mod console;

pub mod session;
