//! Account records.

use crate::numbers::{i32_to_decimal, signed_decimal};
use vstd::prelude::*;

verus! {

/// An account as the server reports it. The balance is the bit pattern of
/// a 64-bit float.
#[derive(Debug, PartialEq, Eq)]
pub struct AccountInfo {
    pub name: String,
    pub number: String,
    pub account_type: String,
    pub balance: u64,
}

/// An account as the sync hands it on. The balance is the bit pattern of a
/// 64-bit float.
#[derive(Debug, PartialEq, Eq)]
pub struct AccountData {
    pub name: String,
    pub account_number: String,
    pub account_type: String,
    pub balance: u64,
}

/// An account balance as a caller sees it. The balance is the bit pattern
/// of a 64-bit float.
#[derive(Debug, PartialEq, Eq)]
pub struct AccountBalance {
    pub account_number: String,
    pub account_name: String,
    pub balance: u64,
    pub account_type: String,
}

impl From<AccountInfo> for AccountData {
    fn from(info: AccountInfo) -> (data: Self) {
        AccountData {
            name: info.name,
            account_number: info.number,
            account_type: info.account_type,
            balance: info.balance,
        }
    }
}

impl vstd::std_specs::convert::FromSpecImpl<AccountInfo> for AccountData {
    open spec fn obeys_from_spec() -> bool {
        true
    }

    open spec fn from_spec(info: AccountInfo) -> AccountData {
        AccountData {
            name: info.name,
            account_number: info.number,
            account_type: info.account_type,
            balance: info.balance,
        }
    }
}

impl From<AccountInfo> for AccountBalance {
    fn from(info: AccountInfo) -> (balance: Self) {
        AccountBalance {
            account_number: info.number,
            account_name: info.name,
            balance: info.balance,
            account_type: info.account_type,
        }
    }
}

impl vstd::std_specs::convert::FromSpecImpl<AccountInfo> for AccountBalance {
    open spec fn obeys_from_spec() -> bool {
        true
    }

    open spec fn from_spec(info: AccountInfo) -> AccountBalance {
        AccountBalance {
            account_number: info.number,
            account_name: info.name,
            balance: info.balance,
            account_type: info.account_type,
        }
    }
}

/// What is wrong with an account record.
#[derive(Debug, Clone, Copy, PartialEq, Eq, Structural)]
pub enum AccountDataError {
    EmptyAccountNumber,
    EmptyAccountName,
    BalanceNotFinite,
}

/// Whether a 64-bit float of this bit pattern is finite: neither an
/// infinity nor a NaN, which are the patterns with every exponent bit set.
pub open spec fn is_finite_bits(bits: u64) -> bool {
    (bits >> 52) & 0x7ff != 0x7ff
}

pub open spec fn spec_validate_account_data(data: AccountData) -> Result<(), AccountDataError> {
    if data.account_number@.len() == 0 {
        Err(AccountDataError::EmptyAccountNumber)
    } else if data.name@.len() == 0 {
        Err(AccountDataError::EmptyAccountName)
    } else if !is_finite_bits(data.balance) {
        Err(AccountDataError::BalanceNotFinite)
    } else {
        Ok(())
    }
}

/// Checks a record for consistency: a number, a name, a finite balance.
pub fn validate_account_data(account_data: &AccountData) -> (r: Result<(), AccountDataError>)
    ensures
        r == spec_validate_account_data(*account_data),
{
    if account_data.account_number.as_str().is_empty() {
        return Err(AccountDataError::EmptyAccountNumber);
    }
    if account_data.name.as_str().is_empty() {
        return Err(AccountDataError::EmptyAccountName);
    }
    if (account_data.balance >> 52) & 0x7ff == 0x7ff {
        return Err(AccountDataError::BalanceNotFinite);
    }
    Ok(())
}

/// The name of an account type by its number; `Unknown(n)` for a number
/// `n` that stands for none.
pub open spec fn account_type_name(account_type: i32) -> Seq<char> {
    if account_type == 0 {
        "AccountsPayable"@
    } else if account_type == 1 {
        "AccountsReceivable"@
    } else if account_type == 2 {
        "Bank"@
    } else if account_type == 3 {
        "CostOfGoodsSold"@
    } else if account_type == 4 {
        "CreditCard"@
    } else if account_type == 5 {
        "Equity"@
    } else if account_type == 6 {
        "Expense"@
    } else if account_type == 7 {
        "FixedAsset"@
    } else if account_type == 8 {
        "Income"@
    } else if account_type == 9 {
        "LongTermLiability"@
    } else if account_type == 10 {
        "OtherAsset"@
    } else if account_type == 11 {
        "OtherCurrentAsset"@
    } else if account_type == 12 {
        "OtherCurrentLiability"@
    } else if account_type == 13 {
        "OtherExpense"@
    } else if account_type == 14 {
        "OtherIncome"@
    } else {
        "Unknown("@ + signed_decimal(account_type as int) + ")"@
    }
}

/// The name of an account type by its number.
pub fn qbfc_account_type_to_string(account_type: i32) -> (name: String)
    ensures
        name@ == account_type_name(account_type),
{
    match account_type {
        0 => "AccountsPayable".to_owned(),
        1 => "AccountsReceivable".to_owned(),
        2 => "Bank".to_owned(),
        3 => "CostOfGoodsSold".to_owned(),
        4 => "CreditCard".to_owned(),
        5 => "Equity".to_owned(),
        6 => "Expense".to_owned(),
        7 => "FixedAsset".to_owned(),
        8 => "Income".to_owned(),
        9 => "LongTermLiability".to_owned(),
        10 => "OtherAsset".to_owned(),
        11 => "OtherCurrentAsset".to_owned(),
        12 => "OtherCurrentLiability".to_owned(),
        13 => "OtherExpense".to_owned(),
        14 => "OtherIncome".to_owned(),
        _ => {
            let mut name = "Unknown(".to_owned();
            let number = i32_to_decimal(account_type);
            name.append(number.as_str());
            name.append(")");
            name
        },
    }
}

} // verus!
