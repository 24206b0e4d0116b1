//! The records this anchor keeps of its customers and of the SEP-24 and
//! SEP-31 transactions the platform tells it about.

pub mod customers;
pub mod sep24_transactions;
pub mod sep31_transactions;
