//! Stored SEP-12 customers.

use vstd::prelude::*;
use crate::kyc::texts;

verus! {

/// A stored customer; `provided_fields` names the KYC fields it holds a
/// non-null value for.
pub struct Customer {
    pub id: u128,
    pub account: String,
    pub memo: Option<String>,
    pub memo_type: Option<String>,
    pub customer_type: String,
    pub owner_account: String,
    pub owner_memo: Option<String>,
    pub provided_fields: Vec<String>,
}

/// What a customer upsert writes, besides the KYC values merged in.
pub struct UpsertCustomer {
    pub id: Option<u128>,
    pub account: String,
    pub memo: Option<String>,
    pub memo_type: Option<String>,
    pub customer_type: String,
    pub owner_account: String,
    pub owner_memo: Option<String>,
}

/// The names of the KYC fields a customer has provided, from the stored
/// values given as (name, value is null): a field counts as provided when
/// its value is not null. Order is kept.
pub open spec fn provided_names_spec(values: Seq<(String, bool)>) -> Seq<Seq<char>>
    decreases values.len(),
{
    if values.len() == 0 {
        seq![]
    } else {
        let rest = provided_names_spec(values.drop_last());
        if values.last().1 { rest } else { rest.push(values.last().0@) }
    }
}

/// The provided field names of a customer's stored KYC values.
pub fn provided_field_names(values: &Vec<(String, bool)>) -> (r: Vec<String>)
    ensures
        texts(r@) == provided_names_spec(values@),
{
    let mut out: Vec<String> = Vec::new();
    let mut i: usize = 0;
    while i < values.len()
        invariant
            i <= values@.len(),
            texts(out@) == provided_names_spec(values@.subrange(0, i as int)),
        decreases values@.len() - i,
    {
        let ghost pre = values@.subrange(0, i as int);
        let ghost next = values@.subrange(0, i + 1);
        assert(next.drop_last() =~= pre);
        if !values[i].1 {
            out.push(values[i].0.clone());
            assert(texts(out@) =~= texts(out@.drop_last()).push(values@[i as int].0@));
        }
        i = i + 1;
    }
    assert(values@.subrange(0, values@.len() as int) =~= values@);
    out
}

} // verus!
