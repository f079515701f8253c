//! The account list as the session manager hands it over: which account
//! of a response is the one asked for, and which of its properties gives
//! the balance.

use crate::coercion::{spec_variant_to_float, variant_to_float, FloatReading, FloatReadingView};
use crate::response::{is_number, is_number_text};
use crate::safe_variant::{SafeVariant, VariantValue};
use crate::text::str_eq;
use vstd::prelude::*;

verus! {

/// The lower-case form of a text, as `str::to_lowercase` gives it.
pub uninterp spec fn lowercase_of(text: Seq<char>) -> Seq<char>;

/// The lower-case form of `text`.
///
/// Calls `str::to_lowercase`. The contract gives the result its name and
/// claims nothing else of it.
#[verifier::external_body]
fn lowercase(text: &str) -> (lower: String)
    ensures
        lower@ == lowercase_of(text@),
{
    text.to_lowercase()
}

/// One property of an account that could be read.
#[derive(Debug, PartialEq, Eq)]
pub struct BalanceField {
    pub name: String,
    pub value: SafeVariant,
}

/// One account of a response, as far as it could be read.
#[derive(Debug, PartialEq, Eq)]
pub struct AccountRet {
    pub account_number: String,
    pub name: String,
    pub account_type: Option<String>,
    pub special_account_type: Option<String>,
    pub fields: Vec<BalanceField>,
}

/// The name and the value of each field, in order.
pub open spec fn fields_of(fields: Seq<BalanceField>) -> Seq<(Seq<char>, VariantValue)> {
    Seq::new(fields.len(), |i: int| (fields[i].name@, fields[i].value@))
}

/// The properties that may hold the balance of an account of a type, given
/// by its name in lower case, in the order in which they are tried.
pub open spec fn spec_balance_fields(lower_type: Seq<char>) -> Seq<Seq<char>> {
    if lower_type == "bank"@ || lower_type == "other current asset"@ || lower_type
        == "fixed asset"@ {
        seq!["Balance"@, "CurrentBalance"@, "TotalBalance"@, "EndingBalance"@]
    } else if lower_type == "accounts payable"@ || lower_type == "credit card"@ || lower_type
        == "other current liability"@ {
        seq!["Balance"@, "CurrentBalance"@, "TotalBalance"@, "Amount"@]
    } else if lower_type == "income"@ || lower_type == "other income"@ || lower_type
        == "expense"@ || lower_type == "other expense"@ || lower_type == "cost of goods sold"@ {
        seq!["Balance"@, "TotalBalance"@, "YTDBalance"@, "Amount"@]
    } else {
        spec_generic_balance_fields()
    }
}

/// The properties that may hold the balance of any account, in the order
/// in which they are tried.
pub open spec fn spec_generic_balance_fields() -> Seq<Seq<char>> {
    seq!["Balance"@, "TotalBalance"@, "CurrentBalance"@, "EndingBalance"@, "Amount"@]
}

/// The characters of each string, in order.
pub open spec fn names_of(names: Seq<String>) -> Seq<Seq<char>> {
    Seq::new(names.len(), |i: int| names[i]@)
}

/// The properties that may hold the balance of any account.
pub fn generic_balance_fields() -> (names: Vec<String>)
    ensures
        names_of(names@) == spec_generic_balance_fields(),
{
    vec![
        "Balance".to_owned(),
        "TotalBalance".to_owned(),
        "CurrentBalance".to_owned(),
        "EndingBalance".to_owned(),
        "Amount".to_owned(),
    ]
}

/// The properties that may hold the balance of an account of the type
/// whose name in lower case is `lower_type`.
pub fn balance_fields_for_lowered(lower_type: &str) -> (names: Vec<String>)
    ensures
        names_of(names@) == spec_balance_fields(lower_type@),
{
    if str_eq(lower_type, "bank") || str_eq(lower_type, "other current asset") || str_eq(
        lower_type,
        "fixed asset",
    ) {
        vec![
            "Balance".to_owned(),
            "CurrentBalance".to_owned(),
            "TotalBalance".to_owned(),
            "EndingBalance".to_owned(),
        ]
    } else if str_eq(lower_type, "accounts payable") || str_eq(lower_type, "credit card")
        || str_eq(lower_type, "other current liability") {
        vec![
            "Balance".to_owned(),
            "CurrentBalance".to_owned(),
            "TotalBalance".to_owned(),
            "Amount".to_owned(),
        ]
    } else if str_eq(lower_type, "income") || str_eq(lower_type, "other income") || str_eq(
        lower_type,
        "expense",
    ) || str_eq(lower_type, "other expense") || str_eq(lower_type, "cost of goods sold") {
        vec![
            "Balance".to_owned(),
            "TotalBalance".to_owned(),
            "YTDBalance".to_owned(),
            "Amount".to_owned(),
        ]
    } else {
        generic_balance_fields()
    }
}

/// The properties that may hold the balance of an account of a type,
/// whatever the case of the type's name.
pub fn balance_fields_for(account_type: &str) -> (names: Vec<String>)
    ensures
        names_of(names@) == spec_balance_fields(lowercase_of(account_type@)),
{
    let lower = lowercase(account_type);
    balance_fields_for_lowered(lower.as_str())
}

/// The balance that a value gives: the bits of a float, or the cleaned
/// text of an amount that is a number. None for any other value.
pub open spec fn spec_read_balance(value: VariantValue) -> Option<FloatReadingView> {
    match spec_variant_to_float(value) {
        FloatReadingView::Bits { bits } => Some(FloatReadingView::Bits { bits }),
        FloatReadingView::Text { text } => if is_number(text) {
            Some(FloatReadingView::Text { text })
        } else {
            None
        },
        FloatReadingView::Nothing => None,
    }
}

/// The value of the first field, from `from` on, of the name `name`, if
/// there is one.
pub open spec fn spec_field(
    fields: Seq<(Seq<char>, VariantValue)>,
    name: Seq<char>,
    from: int,
) -> Option<VariantValue>
    decreases fields.len() - from,
{
    if from < 0 || from >= fields.len() {
        None
    } else if fields[from].0 == name {
        Some(fields[from].1)
    } else {
        spec_field(fields, name, from + 1)
    }
}

/// The balance of the first of `names`, from `from` on, that is a field
/// and gives a balance.
pub open spec fn spec_first_balance(
    fields: Seq<(Seq<char>, VariantValue)>,
    names: Seq<Seq<char>>,
    from: int,
) -> Option<FloatReadingView>
    decreases names.len() - from,
{
    if from < 0 || from >= names.len() {
        None
    } else {
        let here = match spec_field(fields, names[from], 0) {
            Some(value) => spec_read_balance(value),
            None => None,
        };
        if here is Some {
            here
        } else {
            spec_first_balance(fields, names, from + 1)
        }
    }
}

/// The balance of an account of the type `lower_type`: that of the first
/// property of the type's list that gives one, else that of the first
/// property of the generic list that gives one.
pub open spec fn spec_account_balance(
    fields: Seq<(Seq<char>, VariantValue)>,
    lower_type: Seq<char>,
) -> Option<FloatReadingView> {
    match spec_first_balance(fields, spec_balance_fields(lower_type), 0) {
        Some(reading) => Some(reading),
        None => spec_first_balance(fields, spec_generic_balance_fields(), 0),
    }
}

fn read_balance(value: &SafeVariant) -> (r: Option<FloatReading>)
    ensures
        match spec_read_balance(value@) {
            Some(reading) => r is Some && r->0@ == reading,
            None => r is None,
        },
{
    match variant_to_float(value) {
        FloatReading::Bits { bits } => Some(FloatReading::Bits { bits }),
        FloatReading::Text { text } => {
            if is_number_text(text.as_str()) {
                Some(FloatReading::Text { text })
            } else {
                None
            }
        },
        FloatReading::Nothing => None,
    }
}

fn find_field(fields: &Vec<BalanceField>, name: &str) -> (at: Option<usize>)
    ensures
        match at {
            Some(i) => i < fields@.len() && spec_field(fields_of(fields@), name@, 0) == Some(
                fields@[i as int].value@,
            ),
            None => spec_field(fields_of(fields@), name@, 0) is None,
        },
{
    let mut i: usize = 0;
    while i < fields.len()
        invariant
            i <= fields@.len(),
            spec_field(fields_of(fields@), name@, 0) == spec_field(
                fields_of(fields@),
                name@,
                i as int,
            ),
        decreases fields@.len() - i,
    {
        if str_eq(fields[i].name.as_str(), name) {
            return Some(i);
        }
        i += 1;
    }
    None
}

fn first_balance(fields: &Vec<BalanceField>, names: &Vec<String>) -> (r: Option<FloatReading>)
    ensures
        match spec_first_balance(fields_of(fields@), names_of(names@), 0) {
            Some(reading) => r is Some && r->0@ == reading,
            None => r is None,
        },
{
    let mut k: usize = 0;
    while k < names.len()
        invariant
            k <= names@.len(),
            spec_first_balance(fields_of(fields@), names_of(names@), 0) == spec_first_balance(
                fields_of(fields@),
                names_of(names@),
                k as int,
            ),
        decreases names@.len() - k,
    {
        match find_field(fields, names[k].as_str()) {
            Some(i) => match read_balance(&fields[i].value) {
                Some(reading) => {
                    return Some(reading);
                },
                None => {},
            },
            None => {},
        }
        k += 1;
    }
    None
}

/// The balance of an account of the type whose name in lower case is
/// `lower_type`, from the properties of the account that could be read.
pub fn account_balance_for_lowered(fields: &Vec<BalanceField>, lower_type: &str) -> (r: Option<
    FloatReading,
>)
    ensures
        match spec_account_balance(fields_of(fields@), lower_type@) {
            Some(reading) => r is Some && r->0@ == reading,
            None => r is None,
        },
{
    let preferred = balance_fields_for_lowered(lower_type);
    match first_balance(fields, &preferred) {
        Some(reading) => Some(reading),
        None => {
            let generic = generic_balance_fields();
            first_balance(fields, &generic)
        },
    }
}

/// The balance of an account of a type, from the properties of the
/// account that could be read.
pub fn extract_account_balance(fields: &Vec<BalanceField>, account_type: &str) -> (r: Option<
    FloatReading,
>)
    ensures
        match spec_account_balance(fields_of(fields@), lowercase_of(account_type@)) {
            Some(reading) => r is Some && r->0@ == reading,
            None => r is None,
        },
{
    let lower = lowercase(account_type);
    account_balance_for_lowered(fields, lower.as_str())
}

/// The index of the first account of the number `number`.
pub open spec fn spec_find_account_ret(accounts: Seq<AccountRet>, number: Seq<char>, from: int) -> Option<
    int,
>
    decreases accounts.len() - from,
{
    if from < 0 || from >= accounts.len() {
        None
    } else if accounts[from].account_number@ == number {
        Some(from)
    } else {
        spec_find_account_ret(accounts, number, from + 1)
    }
}

/// The first account of a response whose number is exactly
/// `target_account_number`.
pub fn parse_account_response(accounts: &Vec<AccountRet>, target_account_number: &str) -> (at: Option<
    usize,
>)
    ensures
        match spec_find_account_ret(accounts@, target_account_number@, 0) {
            Some(i) => at == Some(i as usize) && i < accounts@.len(),
            None => at is None,
        },
{
    let mut i: usize = 0;
    while i < accounts.len()
        invariant
            i <= accounts@.len(),
            spec_find_account_ret(accounts@, target_account_number@, 0) == spec_find_account_ret(
                accounts@,
                target_account_number@,
                i as int,
            ),
        decreases accounts@.len() - i,
    {
        if str_eq(accounts[i].account_number.as_str(), target_account_number) {
            return Some(i);
        }
        i += 1;
    }
    None
}

} // verus!
