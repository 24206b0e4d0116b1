//! SEP-24 on this anchor's side: the hosted interactive form and the
//! custody steps that deposits and withdrawals go through.

pub mod interactive;
pub mod worker;
