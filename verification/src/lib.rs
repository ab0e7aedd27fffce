//! Verified core of HamlibPTT: the logic that turns the EXTFSK calls of
//! MMSSTV/MMTTY/MMVARI into Hamlib (`rigctl`/`rigctld`) commands and FSK
//! keying frames.
pub mod common;
pub mod config;
pub mod error;
pub mod extfsk;
pub mod hamlib;
pub mod rigctl;
pub mod spinfsk;
pub mod text;
