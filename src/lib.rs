//! An escrowed job marketplace: a finder posts a job and locks its payment,
//! a registered artisan is matched, does the work and is paid from escrow,
//! and a role registry decides who may act as an artisan.
//!
//! Every operation runs as one all-or-nothing unit of work against an
//! explicit ledger context ([`env::Env`]): it either returns `Ok` and has
//! applied all of its effects, or returns `Err` and has changed nothing.
pub mod types;
pub mod events;
pub mod env;
pub mod registry;
pub mod market;
pub mod laws;
