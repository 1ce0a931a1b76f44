//! The persistence and authorization core of a small blogging service, verified
//! with Verus.
//!
//! The tables live in a [`data::store::Database`]; the functions under [`data`]
//! are the statements that read and write them, and each states in its contract
//! which rows it returns and how the tables change. The functions under [`rest`]
//! and [`web`] are the rules between a request and the tables: small decisions,
//! each with its contract, and the requests that are made of them.
//! [`guarantees`] holds what follows for every state of the tables: versions
//! that move on, usernames that are held once, tokens that count for a day,
//! writes that happen whole or not at all, and blogs that only their owner
//! changes.
//!
//! A program that keeps its tables elsewhere runs the same statements there,
//! and puts the decisions of [`rest`] and [`web`] between them.

pub mod cli;
pub mod config;
pub mod data;
pub mod guarantees;
pub mod rest;
pub mod web;
