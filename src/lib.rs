//! Escrowed peer-to-peer trade settlement: a seller opens an escrow for a
//! listing, a buyer funds its custody holding, and the holding is released by
//! buyer confirmation, by timeout, or by an arbitrator vote.
pub mod errors;
pub mod states;
pub mod ledger;
pub mod instructions;
pub mod laws;
pub mod program;
