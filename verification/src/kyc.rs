//! SEP-9 KYC field requirements per customer type, and the split of a
//! customer's provided fields against them.

use vstd::prelude::*;
use crate::text::str_eq;

verus! {

/// One required SEP-9 field: its name, its type and a description.
#[derive(Clone, Copy, Debug)]
pub struct FieldSpec {
    pub name: &'static str,
    pub field_type: &'static str,
    pub description: &'static str,
}

/// The text of a field specification.
pub struct FieldModel {
    pub name: Seq<char>,
    pub field_type: Seq<char>,
    pub description: Seq<char>,
}

impl View for FieldSpec {
    type V = FieldModel;

    open spec fn view(&self) -> FieldModel {
        FieldModel { name: self.name@, field_type: self.field_type@, description: self.description@ }
    }
}

/// The field models of a list of field specifications.
pub open spec fn field_models(v: Seq<FieldSpec>) -> Seq<FieldModel> {
    v.map_values(|f: FieldSpec| f@)
}

/// The names of a list of field models.
pub open spec fn model_names(v: Seq<FieldModel>) -> Seq<Seq<char>> {
    v.map_values(|f: FieldModel| f.name)
}

pub open spec fn field(name: &'static str, field_type: &'static str, description: &'static str) -> FieldModel {
    FieldModel { name: name@, field_type: field_type@, description: description@ }
}

/// Identity and document fields asked for by a SEP-6 deposit.
pub open spec fn sep6_deposit_models() -> Seq<FieldModel> {
    seq![
        field("birth_date", "date", "Date of birth"),
        field("id_type", "string", "Type of ID document"),
        field("id_country_code", "string", "Country of the ID document"),
        field("id_issue_date", "date", "ID document issue date"),
        field("id_expiration_date", "date", "ID document expiration date"),
        field("id_number", "string", "ID document number"),
        field("address", "string", "Full physical address"),
    ]
}

/// Bank account fields.
pub open spec fn bank_models() -> Seq<FieldModel> {
    seq![
        field("bank_account_number", "string", "Bank account number"),
        field("bank_account_type", "string", "Bank account type (checking/savings)"),
        field("bank_number", "string", "Bank routing number"),
        field("bank_branch_number", "string", "Bank branch number"),
    ]
}

/// Fields asked for by a SEP-24 interactive flow.
pub open spec fn sep24_models() -> Seq<FieldModel> {
    seq![
        field("first_name", "string", "Given name"),
        field("last_name", "string", "Family name"),
        field("email_address", "string", "Email address"),
    ]
}

/// Fields asked of a SEP-31 sender.
pub open spec fn sep31_sender_models() -> Seq<FieldModel> {
    seq![
        field("first_name", "string", "Given name"),
        field("last_name", "string", "Family name"),
    ]
}

/// The required fields for a customer of type `t`; any unknown type is
/// treated as a SEP-24 customer.
pub open spec fn required_field_models(t: Seq<char>) -> Seq<FieldModel> {
    if t == "sep6"@ || t == "sep6-withdrawal"@ {
        sep6_deposit_models() + bank_models()
    } else if t == "sep6-deposit"@ {
        sep6_deposit_models()
    } else if t == "sep24"@ {
        sep24_models()
    } else if t == "sep31-sender"@ {
        sep31_sender_models()
    } else if t == "sep31-receiver"@ {
        bank_models()
    } else {
        sep24_models()
    }
}

fn sep6_deposit_fields() -> (r: Vec<FieldSpec>)
    ensures
        field_models(r@) == sep6_deposit_models(),
{
    let r = vec![
        FieldSpec { name: "birth_date", field_type: "date", description: "Date of birth" },
        FieldSpec { name: "id_type", field_type: "string", description: "Type of ID document" },
        FieldSpec { name: "id_country_code", field_type: "string", description: "Country of the ID document" },
        FieldSpec { name: "id_issue_date", field_type: "date", description: "ID document issue date" },
        FieldSpec { name: "id_expiration_date", field_type: "date", description: "ID document expiration date" },
        FieldSpec { name: "id_number", field_type: "string", description: "ID document number" },
        FieldSpec { name: "address", field_type: "string", description: "Full physical address" },
    ];
    assert(field_models(r@) =~= sep6_deposit_models());
    r
}

fn bank_fields() -> (r: Vec<FieldSpec>)
    ensures
        field_models(r@) == bank_models(),
{
    let r = vec![
        FieldSpec { name: "bank_account_number", field_type: "string", description: "Bank account number" },
        FieldSpec { name: "bank_account_type", field_type: "string", description: "Bank account type (checking/savings)" },
        FieldSpec { name: "bank_number", field_type: "string", description: "Bank routing number" },
        FieldSpec { name: "bank_branch_number", field_type: "string", description: "Bank branch number" },
    ];
    assert(field_models(r@) =~= bank_models());
    r
}

fn sep24_fields() -> (r: Vec<FieldSpec>)
    ensures
        field_models(r@) == sep24_models(),
{
    let r = vec![
        FieldSpec { name: "first_name", field_type: "string", description: "Given name" },
        FieldSpec { name: "last_name", field_type: "string", description: "Family name" },
        FieldSpec { name: "email_address", field_type: "string", description: "Email address" },
    ];
    assert(field_models(r@) =~= sep24_models());
    r
}

fn sep31_sender_fields() -> (r: Vec<FieldSpec>)
    ensures
        field_models(r@) == sep31_sender_models(),
{
    let r = vec![
        FieldSpec { name: "first_name", field_type: "string", description: "Given name" },
        FieldSpec { name: "last_name", field_type: "string", description: "Family name" },
    ];
    assert(field_models(r@) =~= sep31_sender_models());
    r
}

/// Required SEP-9 fields for a customer of the given `type`: the SEP-6
/// identity fields (plus bank details for withdrawals), the SEP-24 contact
/// fields, the SEP-31 sender names or receiver bank details. Unknown types
/// get the SEP-24 list.
pub fn required_fields(customer_type: &str) -> (r: Vec<FieldSpec>)
    ensures
        field_models(r@) == required_field_models(customer_type@),
{
    if str_eq(customer_type, "sep6") || str_eq(customer_type, "sep6-withdrawal") {
        let mut a = sep6_deposit_fields();
        let mut b = bank_fields();
        let ghost a0 = a@;
        let ghost b0 = b@;
        a.append(&mut b);
        assert(field_models(a@) =~= field_models(a0) + field_models(b0));
        a
    } else if str_eq(customer_type, "sep6-deposit") {
        sep6_deposit_fields()
    } else if str_eq(customer_type, "sep24") {
        sep24_fields()
    } else if str_eq(customer_type, "sep31-sender") {
        sep31_sender_fields()
    } else if str_eq(customer_type, "sep31-receiver") {
        bank_fields()
    } else {
        sep24_fields()
    }
}

/// The known customer type names are pairwise different.
proof fn lemma_type_names_distinct()
    ensures
        "sep6"@ != "sep6-withdrawal"@,
        "sep6"@ != "sep6-deposit"@,
        "sep6"@ != "sep24"@,
        "sep6"@ != "sep31-sender"@,
        "sep6"@ != "sep31-receiver"@,
        "sep6-withdrawal"@ != "sep6-deposit"@,
        "sep6-withdrawal"@ != "sep24"@,
        "sep6-withdrawal"@ != "sep31-sender"@,
        "sep6-withdrawal"@ != "sep31-receiver"@,
        "sep6-deposit"@ != "sep24"@,
        "sep6-deposit"@ != "sep31-sender"@,
        "sep6-deposit"@ != "sep31-receiver"@,
        "sep24"@ != "sep31-sender"@,
        "sep24"@ != "sep31-receiver"@,
        "sep31-sender"@ != "sep31-receiver"@,
{
    reveal_strlit("sep6");
    reveal_strlit("sep6-withdrawal");
    reveal_strlit("sep6-deposit");
    reveal_strlit("sep24");
    reveal_strlit("sep31-sender");
    reveal_strlit("sep31-receiver");
    assert("sep24"@.len() == 5);
    assert("sep6"@.len() == 4);
    assert("sep6-withdrawal"@.len() == 15);
    assert("sep6-deposit"@.len() == 12);
    assert("sep31-sender"@.len() == 12);
    assert("sep31-receiver"@.len() == 14);
    assert("sep6-deposit"@[3] != "sep31-sender"@[3]);
}

/// Law: a customer type that is none of the known ones gets exactly the
/// SEP-24 requirements.
pub proof fn lemma_unknown_type_is_sep24(t: Seq<char>)
    requires
        t != "sep6"@,
        t != "sep6-withdrawal"@,
        t != "sep6-deposit"@,
        t != "sep31-sender"@,
        t != "sep31-receiver"@,
    ensures
        required_field_models(t) == required_field_models("sep24"@),
{
    lemma_type_names_distinct();
}

/// Law: a SEP-6 withdrawal asks for the SEP-6 deposit fields followed by
/// the bank fields, and a SEP-31 receiver for the bank fields alone.
pub proof fn lemma_requirement_composition()
    ensures
        required_field_models("sep6"@) == required_field_models("sep6-deposit"@) + required_field_models("sep31-receiver"@),
        required_field_models("sep6-withdrawal"@) == required_field_models("sep6"@),
        required_field_models("sep31-receiver"@) == bank_models(),
{
    lemma_type_names_distinct();
}

/// One field of a sound table: typed `string` or `date`, `date` exactly
/// for the three date fields, and described.
pub open spec fn field_sound(f: FieldModel) -> bool {
    &&& (f.field_type == "string"@ || f.field_type == "date"@)
    &&& (f.field_type == "date"@ <==> (f.name == "birth_date"@ || f.name == "id_issue_date"@
        || f.name == "id_expiration_date"@))
    &&& f.description.len() > 0
}

/// A requirement table is sound: at least two fields, no name twice, and
/// every field sound.
pub open spec fn table_well_formed(t: Seq<FieldModel>) -> bool {
    &&& t.len() >= 2
    &&& forall|i: int, j: int| 0 <= i < j < t.len() ==> #[trigger] t[i].name != #[trigger] t[j].name
    &&& forall|i: int| 0 <= i < t.len() ==> field_sound(#[trigger] t[i])
}

proof fn lemma_tables_sound()
    ensures
        table_well_formed(sep6_deposit_models() + bank_models()),
        table_well_formed(sep6_deposit_models()),
        table_well_formed(bank_models()),
        table_well_formed(sep24_models()),
        table_well_formed(sep31_sender_models()),
{
    reveal_strlit("birth_date");
    reveal_strlit("date");
    reveal_strlit("Date of birth");
    reveal_strlit("id_type");
    reveal_strlit("string");
    reveal_strlit("Type of ID document");
    reveal_strlit("id_country_code");
    reveal_strlit("Country of the ID document");
    reveal_strlit("id_issue_date");
    reveal_strlit("ID document issue date");
    reveal_strlit("id_expiration_date");
    reveal_strlit("ID document expiration date");
    reveal_strlit("id_number");
    reveal_strlit("ID document number");
    reveal_strlit("address");
    reveal_strlit("Full physical address");
    reveal_strlit("bank_account_number");
    reveal_strlit("Bank account number");
    reveal_strlit("bank_account_type");
    reveal_strlit("Bank account type (checking/savings)");
    reveal_strlit("bank_number");
    reveal_strlit("Bank routing number");
    reveal_strlit("bank_branch_number");
    reveal_strlit("Bank branch number");
    reveal_strlit("first_name");
    reveal_strlit("Given name");
    reveal_strlit("last_name");
    reveal_strlit("Family name");
    reveal_strlit("email_address");
    reveal_strlit("Email address");
    assert("birth_date"@.len() == 10);
    assert("id_type"@.len() == 7);
    assert("id_country_code"@.len() == 15);
    assert("id_issue_date"@.len() == 13);
    assert("id_expiration_date"@.len() == 18);
    assert("id_number"@.len() == 9);
    assert("address"@.len() == 7);
    assert("bank_account_number"@.len() == 19);
    assert("bank_account_type"@.len() == 17);
    assert("bank_number"@.len() == 11);
    assert("bank_branch_number"@.len() == 18);
    assert("first_name"@.len() == 10);
    assert("last_name"@.len() == 9);
    assert("email_address"@.len() == 13);
    assert("string"@.len() == 6 && "date"@.len() == 4);
    assert("bank_branch_number"@[0] != "id_expiration_date"@[0]);
    assert("first_name"@[0] != "birth_date"@[0]);
    assert("email_address"@[0] != "id_issue_date"@[0]);
    assert("id_type"@ != "birth_date"@ && "id_type"@ != "id_issue_date"@ && "id_type"@ != "id_expiration_date"@);
    assert("id_country_code"@ != "birth_date"@ && "id_country_code"@ != "id_issue_date"@ && "id_country_code"@ != "id_expiration_date"@);
    assert("id_number"@ != "birth_date"@ && "id_number"@ != "id_issue_date"@ && "id_number"@ != "id_expiration_date"@);
    assert("address"@ != "birth_date"@ && "address"@ != "id_issue_date"@ && "address"@ != "id_expiration_date"@);
    assert("bank_account_number"@ != "birth_date"@ && "bank_account_number"@ != "id_issue_date"@ && "bank_account_number"@ != "id_expiration_date"@);
    assert("bank_account_type"@ != "birth_date"@ && "bank_account_type"@ != "id_issue_date"@ && "bank_account_type"@ != "id_expiration_date"@);
    assert("bank_number"@ != "birth_date"@ && "bank_number"@ != "id_issue_date"@ && "bank_number"@ != "id_expiration_date"@);
    assert("bank_branch_number"@ != "birth_date"@ && "bank_branch_number"@ != "id_issue_date"@ && "bank_branch_number"@ != "id_expiration_date"@);
    assert("first_name"@ != "birth_date"@ && "first_name"@ != "id_issue_date"@ && "first_name"@ != "id_expiration_date"@);
    assert("last_name"@ != "birth_date"@ && "last_name"@ != "id_issue_date"@ && "last_name"@ != "id_expiration_date"@);
    assert("email_address"@ != "birth_date"@ && "email_address"@ != "id_issue_date"@ && "email_address"@ != "id_expiration_date"@);
    {
        let t = sep6_deposit_models() + bank_models();
        assert(t.len() == 11);
        assert(t[0] == field("birth_date", "date", "Date of birth"));
        assert(field_sound(t[0]));
        assert(t[1] == field("id_type", "string", "Type of ID document"));
        assert(field_sound(t[1]));
        assert(t[2] == field("id_country_code", "string", "Country of the ID document"));
        assert(field_sound(t[2]));
        assert(t[3] == field("id_issue_date", "date", "ID document issue date"));
        assert(field_sound(t[3]));
        assert(t[4] == field("id_expiration_date", "date", "ID document expiration date"));
        assert(field_sound(t[4]));
        assert(t[5] == field("id_number", "string", "ID document number"));
        assert(field_sound(t[5]));
        assert(t[6] == field("address", "string", "Full physical address"));
        assert(field_sound(t[6]));
        assert(t[7] == field("bank_account_number", "string", "Bank account number"));
        assert(field_sound(t[7]));
        assert(t[8] == field("bank_account_type", "string", "Bank account type (checking/savings)"));
        assert(field_sound(t[8]));
        assert(t[9] == field("bank_number", "string", "Bank routing number"));
        assert(field_sound(t[9]));
        assert(t[10] == field("bank_branch_number", "string", "Bank branch number"));
        assert(field_sound(t[10]));
        assert forall|i: int| 0 <= i < t.len() implies field_sound(#[trigger] t[i]) by {
            assert(i == 0 || i == 1 || i == 2 || i == 3 || i == 4 || i == 5 || i == 6 || i == 7 || i == 8 || i == 9 || i == 10);
        }
        assert forall|i: int, j: int| 0 <= i < j < t.len() implies #[trigger] t[i].name != #[trigger] t[j].name by {
            assert(i == 0 || i == 1 || i == 2 || i == 3 || i == 4 || i == 5 || i == 6 || i == 7 || i == 8 || i == 9 || i == 10);
            assert(j == 0 || j == 1 || j == 2 || j == 3 || j == 4 || j == 5 || j == 6 || j == 7 || j == 8 || j == 9 || j == 10);
            if t[i].name == t[j].name {
                assert(t[i].name.len() == t[j].name.len());
                assert(t[i].name[0] == t[j].name[0]);
            }
        }
    }
    {
        let t = sep6_deposit_models();
        assert(t.len() == 7);
        assert(t[0] == field("birth_date", "date", "Date of birth"));
        assert(field_sound(t[0]));
        assert(t[1] == field("id_type", "string", "Type of ID document"));
        assert(field_sound(t[1]));
        assert(t[2] == field("id_country_code", "string", "Country of the ID document"));
        assert(field_sound(t[2]));
        assert(t[3] == field("id_issue_date", "date", "ID document issue date"));
        assert(field_sound(t[3]));
        assert(t[4] == field("id_expiration_date", "date", "ID document expiration date"));
        assert(field_sound(t[4]));
        assert(t[5] == field("id_number", "string", "ID document number"));
        assert(field_sound(t[5]));
        assert(t[6] == field("address", "string", "Full physical address"));
        assert(field_sound(t[6]));
        assert forall|i: int| 0 <= i < t.len() implies field_sound(#[trigger] t[i]) by {
            assert(i == 0 || i == 1 || i == 2 || i == 3 || i == 4 || i == 5 || i == 6);
        }
        assert forall|i: int, j: int| 0 <= i < j < t.len() implies #[trigger] t[i].name != #[trigger] t[j].name by {
            assert(i == 0 || i == 1 || i == 2 || i == 3 || i == 4 || i == 5 || i == 6);
            assert(j == 0 || j == 1 || j == 2 || j == 3 || j == 4 || j == 5 || j == 6);
            if t[i].name == t[j].name {
                assert(t[i].name.len() == t[j].name.len());
                assert(t[i].name[0] == t[j].name[0]);
            }
        }
    }
    {
        let t = bank_models();
        assert(t.len() == 4);
        assert(t[0] == field("bank_account_number", "string", "Bank account number"));
        assert(field_sound(t[0]));
        assert(t[1] == field("bank_account_type", "string", "Bank account type (checking/savings)"));
        assert(field_sound(t[1]));
        assert(t[2] == field("bank_number", "string", "Bank routing number"));
        assert(field_sound(t[2]));
        assert(t[3] == field("bank_branch_number", "string", "Bank branch number"));
        assert(field_sound(t[3]));
        assert forall|i: int| 0 <= i < t.len() implies field_sound(#[trigger] t[i]) by {
            assert(i == 0 || i == 1 || i == 2 || i == 3);
        }
        assert forall|i: int, j: int| 0 <= i < j < t.len() implies #[trigger] t[i].name != #[trigger] t[j].name by {
            assert(i == 0 || i == 1 || i == 2 || i == 3);
            assert(j == 0 || j == 1 || j == 2 || j == 3);
            if t[i].name == t[j].name {
                assert(t[i].name.len() == t[j].name.len());
                assert(t[i].name[0] == t[j].name[0]);
            }
        }
    }
    {
        let t = sep24_models();
        assert(t.len() == 3);
        assert(t[0] == field("first_name", "string", "Given name"));
        assert(field_sound(t[0]));
        assert(t[1] == field("last_name", "string", "Family name"));
        assert(field_sound(t[1]));
        assert(t[2] == field("email_address", "string", "Email address"));
        assert(field_sound(t[2]));
        assert forall|i: int| 0 <= i < t.len() implies field_sound(#[trigger] t[i]) by {
            assert(i == 0 || i == 1 || i == 2);
        }
        assert forall|i: int, j: int| 0 <= i < j < t.len() implies #[trigger] t[i].name != #[trigger] t[j].name by {
            assert(i == 0 || i == 1 || i == 2);
            assert(j == 0 || j == 1 || j == 2);
            if t[i].name == t[j].name {
                assert(t[i].name.len() == t[j].name.len());
                assert(t[i].name[0] == t[j].name[0]);
            }
        }
    }
    {
        let t = sep31_sender_models();
        assert(t.len() == 2);
        assert(t[0] == field("first_name", "string", "Given name"));
        assert(field_sound(t[0]));
        assert(t[1] == field("last_name", "string", "Family name"));
        assert(field_sound(t[1]));
        assert forall|i: int| 0 <= i < t.len() implies field_sound(#[trigger] t[i]) by {
            assert(i == 0 || i == 1);
        }
        assert forall|i: int, j: int| 0 <= i < j < t.len() implies #[trigger] t[i].name != #[trigger] t[j].name by {
            assert(i == 0 || i == 1);
            assert(j == 0 || j == 1);
            if t[i].name == t[j].name {
                assert(t[i].name.len() == t[j].name.len());
                assert(t[i].name[0] == t[j].name[0]);
            }
        }
    }
}

/// Law: the requirement table of every customer type is sound: at least
/// two fields, names pairwise distinct, each typed `string` or `date`
/// (`date` exactly for the birth, issue and expiration dates), each
/// described.
pub proof fn lemma_required_fields_well_formed(customer_type: Seq<char>)
    ensures
        table_well_formed(required_field_models(customer_type)),
{
    lemma_tables_sound();
}

/// The texts of a list of strings.
pub open spec fn texts(v: Seq<String>) -> Seq<Seq<char>> {
    v.map_values(|s: String| s@)
}

/// The required fields not among the provided names, in order.
pub open spec fn missing_models(req: Seq<FieldModel>, provided: Seq<Seq<char>>) -> Seq<FieldModel>
    decreases req.len(),
{
    if req.len() == 0 {
        seq![]
    } else {
        let rest = missing_models(req.drop_last(), provided);
        if provided.contains(req.last().name) { rest } else { rest.push(req.last()) }
    }
}

/// The required fields among the provided names, in order.
pub open spec fn accepted_models(req: Seq<FieldModel>, provided: Seq<Seq<char>>) -> Seq<FieldModel>
    decreases req.len(),
{
    if req.len() == 0 {
        seq![]
    } else {
        let rest = accepted_models(req.drop_last(), provided);
        if provided.contains(req.last().name) { rest.push(req.last()) } else { rest }
    }
}

/// Whether `name` is among `provided`.
pub fn contains_text(provided: &Vec<String>, name: &str) -> (r: bool)
    ensures
        r == texts(provided@).contains(name@),
{
    let mut i: usize = 0;
    while i < provided.len()
        invariant
            i <= provided@.len(),
            forall|j: int| 0 <= j < i ==> provided@[j]@ != name@,
        decreases provided@.len() - i,
    {
        if str_eq(provided[i].as_str(), name) {
            assert(texts(provided@)[i as int] == name@);
            return true;
        }
        i = i + 1;
    }
    assert forall|j: int| 0 <= j < texts(provided@).len() implies texts(provided@)[j] != name@ by {
        assert(texts(provided@)[j] == provided@[j]@);
    }
    false
}

/// Splits the required fields into those still missing and those the
/// customer has provided (a provided field is a name with a non-null value).
pub fn split_fields(required: &Vec<FieldSpec>, provided: &Vec<String>) -> (r: (Vec<FieldSpec>, Vec<FieldSpec>))
    ensures
        field_models(r.0@) == missing_models(field_models(required@), texts(provided@)),
        field_models(r.1@) == accepted_models(field_models(required@), texts(provided@)),
{
    let mut missing: Vec<FieldSpec> = Vec::new();
    let mut accepted: Vec<FieldSpec> = Vec::new();
    let mut i: usize = 0;
    while i < required.len()
        invariant
            i <= required@.len(),
            field_models(missing@) == missing_models(field_models(required@.subrange(0, i as int)), texts(provided@)),
            field_models(accepted@) == accepted_models(field_models(required@.subrange(0, i as int)), texts(provided@)),
        decreases required@.len() - i,
    {
        let f = required[i];
        let ghost pre = field_models(required@.subrange(0, i as int));
        let ghost next = field_models(required@.subrange(0, i + 1));
        assert(next.drop_last() =~= pre);
        assert(next.last() == f@);
        if contains_text(provided, f.name) {
            accepted.push(f);
            assert(field_models(accepted@) =~= field_models(accepted@.drop_last()).push(f@));
        } else {
            missing.push(f);
            assert(field_models(missing@) =~= field_models(missing@.drop_last()).push(f@));
        }
        i = i + 1;
    }
    assert(required@.subrange(0, required@.len() as int) =~= required@);
    (missing, accepted)
}

/// Law: every required field is either missing or accepted, never both:
/// the two lists together are as long as the requirements, a field is
/// missing exactly when its name was not provided, and accepted exactly
/// when it was.
pub proof fn lemma_split_partitions(req: Seq<FieldModel>, provided: Seq<Seq<char>>)
    ensures
        missing_models(req, provided).len() + accepted_models(req, provided).len() == req.len(),
        forall|i: int| 0 <= i < missing_models(req, provided).len()
            ==> !provided.contains(#[trigger] missing_models(req, provided)[i].name),
        forall|i: int| 0 <= i < accepted_models(req, provided).len()
            ==> provided.contains(#[trigger] accepted_models(req, provided)[i].name),
        (forall|i: int| 0 <= i < req.len() ==> provided.contains(#[trigger] req[i].name))
            <==> missing_models(req, provided).len() == 0,
    decreases req.len(),
{
    if req.len() > 0 {
        let init = req.drop_last();
        lemma_split_partitions(init, provided);
        if forall|i: int| 0 <= i < req.len() ==> provided.contains(#[trigger] req[i].name) {
            assert forall|i: int| 0 <= i < init.len() implies provided.contains(#[trigger] init[i].name) by {
                assert(init[i] == req[i]);
            }
            assert(provided.contains(req[req.len() - 1].name));
        }
        if missing_models(req, provided).len() == 0 {
            assert forall|i: int| 0 <= i < req.len() implies provided.contains(#[trigger] req[i].name) by {
                if i < req.len() - 1 {
                    assert(req[i] == init[i]);
                }
            }
        }
    }
}

} // verus!
