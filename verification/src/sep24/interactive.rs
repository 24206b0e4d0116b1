//! The hosted SEP-24 interactive form: whether a transaction can still be
//! submitted, what the form asks for, and what a submission records.

use vstd::prelude::*;
use crate::amount::{Amount, AmountModel, opt_model, decimal_from_str, decimal_display, decimal_checked_sub,
    exact_sub_fits, sum_is, lemma_difference_adds_up};
use crate::db::sep24_transactions::Sep24Transaction;
use crate::error::{AppError, bad_request, not_found, internal};
use crate::fee::{flat_fee, flat_fee_model};
use crate::kyc::{FieldSpec, FieldModel, field_models, required_fields, required_field_models, split_fields,
    missing_models, texts, model_names};
use crate::text::str_eq;
use crate::db::customers::UpsertCustomer;
use crate::sep12::CustomerLookup;

verus! {

/// The link the platform hands the wallet: its transaction id and token.
pub struct InteractiveQuery {
    pub transaction_id: String,
    pub token: String,
}

/// A KYC field the form still asks for.
pub struct MissingField {
    pub name: String,
    pub description: String,
}

/// The form page.
pub struct FormView {
    pub action_title: String,
    pub submit_label: String,
    pub transaction_id: String,
    pub token: String,
    pub asset_code: String,
    pub amount: String,
    pub missing_fields: Vec<MissingField>,
}

/// A message page; `post_message` tells the wallet the new status.
pub struct MessageView {
    pub heading: String,
    pub body: String,
    pub transaction_id: String,
    pub status: String,
    pub post_message: bool,
}

/// The message page with these texts.
pub open spec fn message_is(m: MessageView, heading: Seq<char>, body: Seq<char>, transaction_id: Seq<char>, status: Seq<char>, post: bool) -> bool {
    &&& m.heading@ == heading
    &&& m.body@ == body
    &&& m.transaction_id@ == transaction_id
    &&& m.status@ == status
    &&& m.post_message == post
}

pub open spec fn already_submitted_body() -> Seq<char> {
    "This deposit/withdrawal has already been submitted."@
}

fn message(heading: &str, body: &str, transaction_id: &str, status: &str, post_message: bool) -> (r: MessageView)
    ensures
        message_is(r, heading@, body@, transaction_id@, status@, post_message),
{
    MessageView {
        heading: String::from_str(heading),
        body: String::from_str(body),
        transaction_id: String::from_str(transaction_id),
        status: String::from_str(status),
        post_message,
    }
}

/// Whether the form may be shown or submitted for the looked-up record: an
/// unknown transaction is not found; one no longer `received` gets the
/// "already submitted" page with its status.
pub fn transaction_for_form(tx: Option<Sep24Transaction>, transaction_id: &str) -> (r: Result<Result<Sep24Transaction, MessageView>, AppError>)
    ensures
        match tx {
            None => r matches Err(e) && not_found(e, "transaction not found"@),
            Some(t) => if t.status@ == "received"@ {
                r matches Ok(Ok(t2)) && t2 == t
            } else {
                r matches Ok(Err(m)) && message_is(m, "Already submitted"@, already_submitted_body(), transaction_id@, t.status@, false)
            },
        },
{
    match tx {
        None => Err(AppError::NotFound(String::from_str("transaction not found"))),
        Some(t) => {
            if str_eq(t.status.as_str(), "received") {
                Ok(Ok(t))
            } else {
                let m = message("Already submitted", "This deposit/withdrawal has already been submitted.", transaction_id, t.status.as_str(), false);
                Ok(Err(m))
            }
        },
    }
}

/// The customer the form is filled for: the `sep24` customer known by the
/// transaction's account and memo.
pub fn form_customer(tx: &Sep24Transaction) -> (r: CustomerLookup)
    ensures
        r matches CustomerLookup::ByIdentity { account, memo, customer_type }
            && account@ == tx.account@ && memo == tx.memo && customer_type@ == "sep24"@,
{
    CustomerLookup::ByIdentity {
        account: tx.account.clone(),
        memo: tx.memo.clone(),
        customer_type: String::from_str("sep24"),
    }
}

/// The missing-field list of the form matches the field models.
pub open spec fn missing_fields_match(v: Seq<MissingField>, models: Seq<FieldModel>) -> bool {
    &&& v.len() == models.len()
    &&& forall|i: int| 0 <= i < v.len() ==> (#[trigger] v[i]).name@ == models[i].name
        && v[i].description@ == models[i].description
}

/// The text of an optional amount, empty when absent.
pub open spec fn amount_text(a: Option<AmountModel>) -> Seq<char> {
    match a {
        Some(x) => decimal_display(x),
        None => seq![],
    }
}

/// The form for a `received` transaction whose customer has provided the
/// fields named in `provided`: it asks for the SEP-24 fields still
/// missing, and is worded for a deposit or a withdrawal.
pub fn form_view(tx: &Sep24Transaction, provided: &Vec<String>, query: InteractiveQuery) -> (r: FormView)
    ensures
        missing_fields_match(r.missing_fields@, missing_models(required_field_models("sep24"@), texts(provided@))),
        r.action_title@ == (if tx.kind@ == "deposit"@ { "Complete your deposit"@ } else { "Complete your withdrawal"@ }),
        r.submit_label@ == (if tx.kind@ == "deposit"@ { "I have sent the funds"@ } else { "Continue"@ }),
        r.transaction_id == query.transaction_id,
        r.token == query.token,
        r.asset_code@ == tx.asset_code@,
        r.amount@ == amount_text(opt_model(tx.amount_in)),
{
    let required = required_fields("sep24");
    let (missing, _) = split_fields(&required, provided);
    let mut missing_fields: Vec<MissingField> = Vec::new();
    let mut i: usize = 0;
    while i < missing.len()
        invariant
            i <= missing@.len(),
            missing_fields_match(missing_fields@, field_models(missing@.subrange(0, i as int))),
        decreases missing@.len() - i,
    {
        let f = missing[i];
        missing_fields.push(MissingField { name: String::from_str(f.name), description: String::from_str(f.description) });
        i = i + 1;
    }
    assert(missing@.subrange(0, missing@.len() as int) =~= missing@);
    let deposit = str_eq(tx.kind.as_str(), "deposit");
    let amount = match tx.amount_in {
        Some(a) => Amount::decimal_display_call(&a),
        None => String::new(),
    };
    FormView {
        action_title: if deposit { String::from_str("Complete your deposit") } else { String::from_str("Complete your withdrawal") },
        submit_label: if deposit { String::from_str("I have sent the funds") } else { String::from_str("Continue") },
        transaction_id: query.transaction_id,
        token: query.token,
        asset_code: tx.asset_code.clone(),
        amount,
        missing_fields,
    }
}

/// The value of the last form parameter named `name` (a later value
/// replaces an earlier one, as when the form is read into a map).
pub open spec fn param_spec(params: Seq<(String, String)>, name: Seq<char>) -> Option<String>
    decreases params.len(),
{
    if params.len() == 0 {
        None
    } else if params.last().0@ == name {
        Some(params.last().1)
    } else {
        param_spec(params.drop_last(), name)
    }
}

/// The value of the form parameter `name`.
pub fn param(params: &Vec<(String, String)>, name: &str) -> (r: Option<String>)
    ensures
        r == param_spec(params@, name@),
{
    let mut i: usize = params.len();
    assert(params@.subrange(0, params@.len() as int) =~= params@);
    while i > 0
        invariant
            i <= params@.len(),
            param_spec(params@, name@) == param_spec(params@.subrange(0, i as int), name@),
        decreases i,
    {
        let ghost prefix = params@.subrange(0, i as int);
        assert(prefix.drop_last() =~= params@.subrange(0, i - 1));
        assert(prefix.last() == params@[i - 1]);
        if str_eq(params[i - 1].0.as_str(), name) {
            return Some(params[i - 1].1.clone());
        }
        i = i - 1;
    }
    None
}

/// The transaction id and token of a submission; each is required.
pub fn submission_ids(params: &Vec<(String, String)>) -> (r: Result<(String, String), AppError>)
    ensures
        match (param_spec(params@, "transaction_id"@), param_spec(params@, "token"@)) {
            (None, _) => r matches Err(e) && bad_request(e, "missing transaction_id"@),
            (Some(_), None) => r matches Err(e) && bad_request(e, "missing token"@),
            (Some(t), Some(k)) => r matches Ok(p) && p.0 == t && p.1 == k,
        },
{
    let transaction_id = match param(params, "transaction_id") {
        Some(t) => t,
        None => return Err(AppError::BadRequest(String::from_str("missing transaction_id"))),
    };
    let token = match param(params, "token") {
        Some(t) => t,
        None => return Err(AppError::BadRequest(String::from_str("missing token"))),
    };
    Ok((transaction_id, token))
}

/// What a submission records and answers: the amount, fee and amount out;
/// the SEP-24 KYC values it carries and the customer they are merged
/// into; whether a deposit payout starts; and the page shown.
pub struct Submission {
    pub amount: Amount,
    pub fee: Amount,
    pub amount_out: Amount,
    pub kyc_fields: Vec<(String, String)>,
    pub customer: UpsertCustomer,
    pub start_deposit: bool,
    pub page: MessageView,
}

/// The SEP-24 KYC values among the parameters, in the order of the fields.
pub open spec fn kyc_values_spec(fields: Seq<FieldModel>, params: Seq<(String, String)>) -> Seq<(Seq<char>, Seq<char>)>
    decreases fields.len(),
{
    if fields.len() == 0 {
        seq![]
    } else {
        let rest = kyc_values_spec(fields.drop_last(), params);
        match param_spec(params, fields.last().name) {
            Some(v) => rest.push((fields.last().name, v@)),
            None => rest,
        }
    }
}

/// The texts of a list of pairs of strings.
pub open spec fn pair_texts(v: Seq<(String, String)>) -> Seq<(Seq<char>, Seq<char>)> {
    v.map_values(|p: (String, String)| (p.0@, p.1@))
}

fn kyc_values(params: &Vec<(String, String)>) -> (r: Vec<(String, String)>)
    ensures
        pair_texts(r@) == kyc_values_spec(required_field_models("sep24"@), params@),
{
    let required = required_fields("sep24");
    let mut out: Vec<(String, String)> = Vec::new();
    let mut i: usize = 0;
    while i < required.len()
        invariant
            i <= required@.len(),
            field_models(required@) == required_field_models("sep24"@),
            pair_texts(out@) == kyc_values_spec(field_models(required@.subrange(0, i as int)), params@),
        decreases required@.len() - i,
    {
        let f = required[i];
        let ghost pre = field_models(required@.subrange(0, i as int));
        let ghost next = field_models(required@.subrange(0, i + 1));
        assert(next.drop_last() =~= pre);
        assert(next.last() == f@);
        match param(params, f.name) {
            Some(v) => {
                out.push((String::from_str(f.name), v));
                assert(pair_texts(out@) =~= pair_texts(out@.drop_last()).push((f.name@, out@.last().1@)));
            },
            None => {},
        }
        i = i + 1;
    }
    assert(required@.subrange(0, required@.len() as int) =~= required@);
    out
}

pub open spec fn deposit_submitted_body() -> Seq<char> {
    "Your deposit is being processed. You can close this window; check your wallet for the incoming payment."@
}

/// The instructions of a withdrawal: how much to send, where, with which memo.
pub open spec fn withdrawal_instructions(amount: AmountModel, asset_code: Seq<char>, account: Seq<char>, memo: Seq<char>) -> Seq<char> {
    "Send exactly "@ + decimal_display(amount) + " "@ + asset_code + " to account "@ + account
        + " with memo (id) "@ + memo + ". Once received, your withdrawal will be completed automatically."@
}

/// The withdraw memo of a record, empty when absent.
pub open spec fn memo_or_empty(m: Option<String>) -> Seq<char> {
    match m {
        Some(s) => s@,
        None => seq![],
    }
}

/// The customer a submission's KYC values go to: the `sep24` customer of
/// the transaction's account and memo, who also owns the record.
pub open spec fn submission_customer(c: UpsertCustomer, tx: Sep24Transaction) -> bool {
    &&& c.id is None
    &&& c.account@ == tx.account@
    &&& c.memo == tx.memo
    &&& c.memo_type == tx.memo_type
    &&& c.customer_type@ == "sep24"@
    &&& c.owner_account@ == tx.account@
    &&& c.owner_memo == tx.memo
}

/// What the submission of the form for a `received` transaction answers.
pub open spec fn submission_post(tx: Sep24Transaction, params: Seq<(String, String)>, transaction_id: Seq<char>, distribution_account: Seq<char>, r: Result<Submission, AppError>) -> bool {
    match param_spec(params, "amount"@) {
        None => r matches Err(e) && bad_request(e, "invalid amount"@),
        Some(text) => match decimal_from_str(text@) {
            None => r matches Err(e) && bad_request(e, "invalid amount"@),
            Some(amount) => match flat_fee_model(amount) {
                None => r matches Err(e) && internal(e, "amount out of range"@),
                Some(fee) => match decimal_checked_sub(amount, fee) {
                    None => r matches Err(e) && internal(e, "amount out of range"@),
                    Some(out) => r matches Ok(s) && {
                        &&& s.amount@ == amount
                        &&& s.fee@ == fee
                        &&& s.amount_out@ == out
                        &&& exact_sub_fits(amount, fee) ==> sum_is(out, fee, amount)
                        &&& pair_texts(s.kyc_fields@) == kyc_values_spec(required_field_models("sep24"@), params)
                        &&& submission_customer(s.customer, tx)
                        &&& s.start_deposit == (tx.kind@ == "deposit"@)
                        &&& if tx.kind@ == "deposit"@ {
                            message_is(s.page, "Deposit submitted"@, deposit_submitted_body(), transaction_id, "pending_user_transfer_start"@, true)
                        } else {
                            message_is(s.page, "Send your funds"@,
                                withdrawal_instructions(amount, tx.asset_code@, distribution_account, memo_or_empty(tx.withdraw_memo)),
                                transaction_id, "pending_user_transfer_start"@, true)
                        }
                    },
                },
            },
        },
    }
}

/// The KYC values `kyc` are those of the fields at the indices `ix`, taken
/// in field order: each is the field's name with the (last) value the
/// parameters give it.
pub open spec fn values_of_fields_at(
    kyc: Seq<(Seq<char>, Seq<char>)>,
    fields: Seq<FieldModel>,
    params: Seq<(String, String)>,
    ix: Seq<int>,
) -> bool {
    &&& ix.len() == kyc.len()
    &&& forall|k: int| 0 <= k < ix.len() ==> {
        &&& 0 <= #[trigger] ix[k] < fields.len()
        &&& param_spec(params, fields[ix[k]].name) is Some
        &&& kyc[k] == (fields[ix[k]].name, param_spec(params, fields[ix[k]].name).unwrap()@)
    }
    &&& forall|k1: int, k2: int| 0 <= k1 < k2 < ix.len() ==> ix[k1] < ix[k2]
}

/// The KYC values gathered from the parameters are, in field order, the
/// fields that the parameters give a value, each with that value.
proof fn lemma_kyc_values_in_field_order(fields: Seq<FieldModel>, params: Seq<(String, String)>) -> (ix: Seq<int>)
    ensures
        values_of_fields_at(kyc_values_spec(fields, params), fields, params, ix),
        forall|i: int| 0 <= i < fields.len() && param_spec(params, fields[i].name) is Some
            ==> exists|k: int| 0 <= k < ix.len() && #[trigger] ix[k] == i,
    decreases fields.len(),
{
    if fields.len() == 0 {
        seq![]
    } else {
        let init = fields.drop_last();
        let ix0 = lemma_kyc_values_in_field_order(init, params);
        let rest = kyc_values_spec(init, params);
        let last = fields.len() - 1;
        assert(forall|i: int| 0 <= i < init.len() ==> init[i] == fields[i]);
        match param_spec(params, fields.last().name) {
            Some(v) => {
                let ix = ix0.push(last);
                assert(kyc_values_spec(fields, params) == rest.push((fields.last().name, v@)));
                assert forall|k: int| 0 <= k < ix.len() implies {
                    &&& 0 <= #[trigger] ix[k] < fields.len()
                    &&& param_spec(params, fields[ix[k]].name) is Some
                    &&& kyc_values_spec(fields, params)[k] == (fields[ix[k]].name, param_spec(params, fields[ix[k]].name).unwrap()@)
                } by {
                    if k < ix0.len() {
                        assert(ix[k] == ix0[k]);
                    }
                }
                assert forall|i: int| 0 <= i < fields.len() && param_spec(params, fields[i].name) is Some
                    implies exists|k: int| 0 <= k < ix.len() && #[trigger] ix[k] == i by {
                    if i == last {
                        assert(ix[ix0.len() as int] == i);
                    } else {
                        let k = choose|k: int| 0 <= k < ix0.len() && #[trigger] ix0[k] == i;
                        assert(ix[k] == i);
                    }
                }
                ix
            },
            None => {
                assert(kyc_values_spec(fields, params) == rest);
                assert forall|i: int| 0 <= i < fields.len() && param_spec(params, fields[i].name) is Some
                    implies exists|k: int| 0 <= k < ix0.len() && #[trigger] ix0[k] == i by {
                    assert(i != last);
                }
                ix0
            },
        }
    }
}

/// Law: every submission of a `received` transaction, deposit or
/// withdrawal, carries the SEP-24 KYC values the user typed: each required
/// SEP-24 field that the form gives a value is there with its (last)
/// value, nothing else is, and they come in the order of the fields.
pub proof fn lemma_submission_carries_kyc_values(
    tx: Sep24Transaction,
    params: Seq<(String, String)>,
    transaction_id: Seq<char>,
    distribution_account: Seq<char>,
    r: Result<Submission, AppError>,
)
    requires
        submission_post(tx, params, transaction_id, distribution_account, r),
    ensures
        r matches Ok(s) ==> {
            &&& exists|ix: Seq<int>| values_of_fields_at(pair_texts(s.kyc_fields@), required_field_models("sep24"@), params, ix)
            &&& forall|i: int| 0 <= i < required_field_models("sep24"@).len()
                && param_spec(params, required_field_models("sep24"@)[i].name) is Some
                ==> exists|k: int| 0 <= k < s.kyc_fields@.len() && #[trigger] pair_texts(s.kyc_fields@)[k]
                    == (required_field_models("sep24"@)[i].name, param_spec(params, required_field_models("sep24"@)[i].name).unwrap()@)
        },
{
    if let Ok(s) = r {
        let fields = required_field_models("sep24"@);
        let kyc = pair_texts(s.kyc_fields@);
        let ix = lemma_kyc_values_in_field_order(fields, params);
        assert(kyc == kyc_values_spec(fields, params));
        assert(values_of_fields_at(kyc, fields, params, ix));
        assert forall|i: int| 0 <= i < fields.len() && param_spec(params, fields[i].name) is Some
            implies exists|k: int| 0 <= k < s.kyc_fields@.len() && #[trigger] kyc[k]
                == (fields[i].name, param_spec(params, fields[i].name).unwrap()@) by {
            let k = choose|k: int| 0 <= k < ix.len() && #[trigger] ix[k] == i;
            assert(kyc[k] == (fields[i].name, param_spec(params, fields[i].name).unwrap()@));
        }
    }
}

/// Plans the submission of the form: the amount must parse as a decimal;
/// the fee is the flat fee and the amount out what is left; a deposit
/// starts its payout, a withdrawal shows where to send the funds.
pub fn plan_submission(tx: &Sep24Transaction, params: &Vec<(String, String)>, transaction_id: &str, distribution_account: &str) -> (r: Result<Submission, AppError>)
    ensures
        submission_post(*tx, params@, transaction_id@, distribution_account@, r),
{
    let text = match param(params, "amount") {
        Some(t) => t,
        None => return Err(AppError::BadRequest(String::from_str("invalid amount"))),
    };
    let amount = match Amount::decimal_from_str_call(text.as_str()) {
        Some(a) => a,
        None => return Err(AppError::BadRequest(String::from_str("invalid amount"))),
    };
    let kyc_fields = kyc_values(params);
    let customer = UpsertCustomer {
        id: None,
        account: tx.account.clone(),
        memo: tx.memo.clone(),
        memo_type: tx.memo_type.clone(),
        customer_type: String::from_str("sep24"),
        owner_account: tx.account.clone(),
        owner_memo: tx.memo.clone(),
    };
    let fee = flat_fee(amount);
    let amount_out = match Amount::decimal_checked_sub_call(&amount, &fee) {
        Some(o) => o,
        None => return Err(AppError::Internal(String::from_str("amount out of range"))),
    };
    proof {
        if exact_sub_fits(amount@, fee@) {
            lemma_difference_adds_up(amount@, fee@, amount_out@);
        }
    }
    if str_eq(tx.kind.as_str(), "deposit") {
        let page = message("Deposit submitted",
            "Your deposit is being processed. You can close this window; check your wallet for the incoming payment.",
            transaction_id, "pending_user_transfer_start", true);
        Ok(Submission { amount, fee, amount_out, kyc_fields, customer, start_deposit: true, page })
    } else {
        let mut body = String::from_str("Send exactly ");
        let amount_text = Amount::decimal_display_call(&amount);
        body.append(amount_text.as_str());
        body.append(" ");
        body.append(tx.asset_code.as_str());
        body.append(" to account ");
        body.append(distribution_account);
        body.append(" with memo (id) ");
        match &tx.withdraw_memo {
            Some(m) => body.append(m.as_str()),
            None => {},
        }
        body.append(". Once received, your withdrawal will be completed automatically.");
        let page = MessageView {
            heading: String::from_str("Send your funds"),
            body,
            transaction_id: String::from_str(transaction_id),
            status: String::from_str("pending_user_transfer_start"),
            post_message: true,
        };
        Ok(Submission { amount, fee, amount_out, kyc_fields, customer, start_deposit: false, page })
    }
}

} // verus!
