//! A small registry of elected officials: each record carries a name, an
//! email address, and a list of mandates (roles held). The store keeps the
//! records in insertion order, assigns ids itself, and enforces that no two
//! records share an email; the mandates list is persisted as a single JSON
//! text column and decoded back with a silent-recovery rule.

pub mod db;
pub mod handlers;
pub mod mandates;
