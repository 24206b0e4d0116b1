//! SEP-31 settlement: KYC-gated completion of receives, driven by the
//! payment observer and by SEP-12 updates of the receiver.

pub mod worker;
