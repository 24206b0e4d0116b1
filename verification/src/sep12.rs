//! SEP-12 customer callbacks: which stored customer a request names, what
//! it still has to provide, and what a `PUT` writes.

use vstd::prelude::*;
use crate::kyc::{FieldSpec, FieldModel, field_models, required_fields, required_field_models,
    split_fields, missing_models, accepted_models, texts, lemma_split_partitions};
use crate::error::{AppError, bad_request, not_found};
use crate::text::str_eq;
use crate::db::customers::UpsertCustomer;

verus! {

/// `GET /customer`: a customer id, or the account (and memo) it is known by,
/// and the customer type (`sep24` when absent).
pub struct GetCustomerQuery {
    pub id: Option<u128>,
    pub account: Option<String>,
    pub memo: Option<String>,
    pub customer_type: Option<String>,
}

/// How the customer of a request is looked up.
pub enum CustomerLookup {
    ById(u128),
    ByIdentity { account: String, memo: Option<String>, customer_type: String },
}

/// A stored customer: its id and the names of the fields it has a
/// non-null value for.
pub struct StoredCustomer {
    pub id: String,
    pub provided_fields: Vec<String>,
}

/// A field the customer still has to provide.
pub struct FieldOut {
    pub field_type: &'static str,
    pub description: &'static str,
    pub optional: bool,
}

/// A field the customer has provided.
pub struct ProvidedFieldOut {
    pub field_type: &'static str,
    pub description: &'static str,
    pub status: &'static str,
}

/// The answer to `GET /customer`.
pub struct GetCustomerResponse {
    pub id: Option<String>,
    pub status: String,
    pub fields: Vec<(String, FieldOut)>,
    pub provided_fields: Vec<(String, ProvidedFieldOut)>,
}

/// `PUT /customer`, without its free-form KYC values.
pub struct PutCustomerRequest {
    pub id: Option<u128>,
    pub account: Option<String>,
    pub memo: Option<String>,
    pub memo_type: Option<String>,
    pub customer_type: Option<String>,
}

/// What a `PUT /customer` writes, and whether pending SEP-31 receives of
/// this receiver are re-checked afterwards.
pub struct PutCustomerPlan {
    pub upsert: UpsertCustomer,
    pub resume_receiver: bool,
}

/// The answer to `PUT /customer`.
pub struct PutCustomerResponse {
    pub id: String,
}

/// `DELETE /customer/{account}`: the memo the account is known by.
pub struct DeleteCustomerQuery {
    pub memo: Option<String>,
}

/// The customer type of a request, `sep24` when none is given.
pub open spec fn customer_type_model(t: Option<String>) -> Seq<char> {
    match t {
        Some(s) => s@,
        None => "sep24"@,
    }
}

pub open spec fn missing_account_message() -> Seq<char> {
    "missing 'account' parameter"@
}

pub open spec fn customer_not_found_message() -> Seq<char> {
    "customer not found"@
}

/// The customer type of a request, `sep24` when none is given.
pub fn customer_type_or_default(t: &Option<String>) -> (r: String)
    ensures
        r@ == customer_type_model(*t),
{
    match t {
        Some(s) => s.clone(),
        None => String::from_str("sep24"),
    }
}

/// Which customer a `GET /customer` names: by id when given, otherwise by
/// account, memo and type; without either it is a bad request.
pub fn plan_customer_lookup(query: &GetCustomerQuery) -> (r: Result<CustomerLookup, AppError>)
    ensures
        query.id matches Some(id) ==> (r matches Ok(CustomerLookup::ById(x)) && x == id),
        query.id is None && query.account is None ==> (r matches Err(e) && bad_request(e, missing_account_message())),
        query.id is None && query.account is Some ==> (r matches Ok(CustomerLookup::ByIdentity { account, memo, customer_type })
            && account@ == query.account.unwrap()@
            && memo == query.memo
            && customer_type@ == customer_type_model(query.customer_type)),
{
    match query.id {
        Some(id) => Ok(CustomerLookup::ById(id)),
        None => match &query.account {
            Some(account) => Ok(CustomerLookup::ByIdentity {
                account: account.clone(),
                memo: query.memo.clone(),
                customer_type: customer_type_or_default(&query.customer_type),
            }),
            None => Err(AppError::BadRequest(String::from_str("missing 'account' parameter"))),
        },
    }
}

/// The provided field names of an optional stored customer.
pub open spec fn provided_names(customer: Option<StoredCustomer>) -> Seq<Seq<char>> {
    match customer {
        Some(c) => texts(c.provided_fields@),
        None => seq![],
    }
}

/// The entries of the fields still to provide.
pub open spec fn field_entries_match(entries: Seq<(String, FieldOut)>, models: Seq<FieldModel>) -> bool {
    &&& entries.len() == models.len()
    &&& forall|i: int| 0 <= i < entries.len() ==> {
        &&& (#[trigger] entries[i]).0@ == models[i].name
        &&& entries[i].1.field_type@ == models[i].field_type
        &&& entries[i].1.description@ == models[i].description
        &&& !entries[i].1.optional
    }
}

/// The entries of the fields provided, each accepted.
pub open spec fn provided_entries_match(entries: Seq<(String, ProvidedFieldOut)>, models: Seq<FieldModel>) -> bool {
    &&& entries.len() == models.len()
    &&& forall|i: int| 0 <= i < entries.len() ==> {
        &&& (#[trigger] entries[i]).0@ == models[i].name
        &&& entries[i].1.field_type@ == models[i].field_type
        &&& entries[i].1.description@ == models[i].description
        &&& entries[i].1.status@ == "ACCEPTED"@
    }
}

fn missing_entries(missing: &Vec<FieldSpec>) -> (r: Vec<(String, FieldOut)>)
    ensures
        field_entries_match(r@, field_models(missing@)),
{
    let mut out: Vec<(String, FieldOut)> = Vec::new();
    let mut i: usize = 0;
    while i < missing.len()
        invariant
            i <= missing@.len(),
            field_entries_match(out@, field_models(missing@.subrange(0, i as int))),
        decreases missing@.len() - i,
    {
        let f = missing[i];
        out.push((String::from_str(f.name), FieldOut { field_type: f.field_type, description: f.description, optional: false }));
        i = i + 1;
    }
    assert(missing@.subrange(0, missing@.len() as int) =~= missing@);
    out
}

fn accepted_entries(accepted: &Vec<FieldSpec>) -> (r: Vec<(String, ProvidedFieldOut)>)
    ensures
        provided_entries_match(r@, field_models(accepted@)),
{
    let mut out: Vec<(String, ProvidedFieldOut)> = Vec::new();
    let mut i: usize = 0;
    while i < accepted.len()
        invariant
            i <= accepted@.len(),
            provided_entries_match(out@, field_models(accepted@.subrange(0, i as int))),
        decreases accepted@.len() - i,
    {
        let f = accepted[i];
        proof {
            reveal_strlit("ACCEPTED");
        }
        out.push((String::from_str(f.name), ProvidedFieldOut { field_type: f.field_type, description: f.description, status: "ACCEPTED" }));
        i = i + 1;
    }
    assert(accepted@.subrange(0, accepted@.len() as int) =~= accepted@);
    out
}

/// The answer to `GET /customer` for a customer of `customer_type` (none
/// stored yet, or the one found): each required field is listed as still
/// to provide or as provided, and the status is `NEEDS_INFO` while any is
/// still to provide, `ACCEPTED` otherwise.
pub fn customer_response(customer_type: &str, customer: &Option<StoredCustomer>) -> (r: GetCustomerResponse)
    ensures
        ({
            let req = required_field_models(customer_type@);
            let provided = provided_names(*customer);
            &&& field_entries_match(r.fields@, missing_models(req, provided))
            &&& provided_entries_match(r.provided_fields@, accepted_models(req, provided))
            &&& r.status@ == (if missing_models(req, provided).len() > 0 { "NEEDS_INFO"@ } else { "ACCEPTED"@ })
        }),
        match customer {
            Some(c) => r.id matches Some(id) && id@ == c.id@,
            None => r.id is None,
        },
{
    let required = required_fields(customer_type);
    let empty: Vec<String> = Vec::new();
    let (id, provided) = match customer {
        Some(c) => (Some(c.id.clone()), &c.provided_fields),
        None => (None, &empty),
    };
    proof {
        assert(texts(empty@) =~= Seq::<Seq<char>>::empty());
    }
    let (missing, accepted) = split_fields(&required, provided);
    let fields = missing_entries(&missing);
    let provided_fields = accepted_entries(&accepted);
    let status = if missing.len() > 0 { String::from_str("NEEDS_INFO") } else { String::from_str("ACCEPTED") };
    GetCustomerResponse { id, status, fields, provided_fields }
}

/// Law: `GET /customer` answers `ACCEPTED` exactly when the customer has
/// provided every field its type requires, and then lists nothing to
/// provide; otherwise it answers `NEEDS_INFO`.
pub proof fn lemma_accepted_iff_complete(customer_type: Seq<char>, customer: Option<StoredCustomer>, r: GetCustomerResponse)
    requires
        ({
            let req = required_field_models(customer_type);
            let provided = provided_names(customer);
            &&& field_entries_match(r.fields@, missing_models(req, provided))
            &&& provided_entries_match(r.provided_fields@, accepted_models(req, provided))
            &&& r.status@ == (if missing_models(req, provided).len() > 0 { "NEEDS_INFO"@ } else { "ACCEPTED"@ })
        }),
    ensures
        r.status@ == "ACCEPTED"@ <==> (forall|i: int| 0 <= i < required_field_models(customer_type).len()
            ==> provided_names(customer).contains(#[trigger] required_field_models(customer_type)[i].name)),
        r.status@ == "ACCEPTED"@ ==> r.fields@.len() == 0,
        r.status@ != "ACCEPTED"@ ==> r.status@ == "NEEDS_INFO"@,
{
    reveal_strlit("ACCEPTED");
    reveal_strlit("NEEDS_INFO");
    assert("NEEDS_INFO"@[0] != "ACCEPTED"@[0]);
    lemma_split_partitions(required_field_models(customer_type), provided_names(customer));
}

/// What `PUT /customer` writes. A given id must name a stored customer
/// (`id_found`), else the customer is not found; the account is required;
/// the type defaults to `sep24`; the account and memo are also recorded as
/// the owner; a `sep31-receiver` update re-checks that receiver's pending
/// receives.
pub fn plan_put_customer(request: &PutCustomerRequest, id_found: bool) -> (r: Result<PutCustomerPlan, AppError>)
    ensures
        request.id is Some && !id_found ==> (r matches Err(e) && not_found(e, customer_not_found_message())),
        (request.id is None || id_found) && request.account is None ==> (r matches Err(e) && bad_request(e, missing_account_message())),
        (request.id is None || id_found) && request.account is Some ==> (r matches Ok(p)
            && p.upsert.id == request.id
            && p.upsert.account@ == request.account.unwrap()@
            && p.upsert.owner_account@ == request.account.unwrap()@
            && p.upsert.memo == request.memo
            && p.upsert.owner_memo == request.memo
            && p.upsert.memo_type == request.memo_type
            && p.upsert.customer_type@ == customer_type_model(request.customer_type)
            && p.resume_receiver == (p.upsert.customer_type@ == "sep31-receiver"@)),
{
    if request.id.is_some() && !id_found {
        return Err(AppError::NotFound(String::from_str("customer not found")));
    }
    let customer_type = customer_type_or_default(&request.customer_type);
    let account = match &request.account {
        Some(a) => a.clone(),
        None => return Err(AppError::BadRequest(String::from_str("missing 'account' parameter"))),
    };
    let resume_receiver = str_eq(customer_type.as_str(), "sep31-receiver");
    Ok(PutCustomerPlan {
        upsert: UpsertCustomer {
            id: request.id,
            account: account.clone(),
            memo: request.memo.clone(),
            memo_type: request.memo_type.clone(),
            customer_type,
            owner_account: account,
            owner_memo: request.memo.clone(),
        },
        resume_receiver,
    })
}

/// Which stored customer an upsert updates: the given id, else the one
/// already known by the same account, memo and type; `None` inserts a new one.
pub fn upsert_target(id: Option<u128>, existing_by_identity: Option<u128>) -> (r: Option<u128>)
    ensures
        r == (if id is Some { id } else { existing_by_identity }),
{
    match id {
        Some(x) => Some(x),
        None => existing_by_identity,
    }
}

/// The answer to `DELETE /customer/{account}` after `deleted` rows went.
pub fn delete_outcome(deleted: u64) -> (r: Result<(), AppError>)
    ensures
        deleted == 0 ==> (r matches Err(e) && not_found(e, customer_not_found_message())),
        deleted > 0 ==> r is Ok,
{
    if deleted == 0 {
        Err(AppError::NotFound(String::from_str("customer not found")))
    } else {
        Ok(())
    }
}

} // verus!
