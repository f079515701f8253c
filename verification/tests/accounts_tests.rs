use quickbooks_sheets_sync::accounts::{
    qbfc_account_type_to_string, validate_account_data, AccountBalance, AccountData,
    AccountDataError, AccountInfo,
};
use quickbooks_sheets_sync::coercion::{change_type, variant_to_float, variant_to_int, FloatReading};
use quickbooks_sheets_sync::numbers::{clean_currency_text, i32_to_decimal, parse_i32_text};
use quickbooks_sheets_sync::safe_variant::{SafeVariant, TypeMismatch, VariantTag};

fn info() -> AccountInfo {
    AccountInfo {
        name: "INCOME TAX".to_string(),
        number: "9445".to_string(),
        account_type: "Expense".to_string(),
        balance: (-18745.32f64).to_bits(),
    }
}

#[test]
fn account_data_from_info() {
    let data = AccountData::from(info());
    assert_eq!(
        data,
        AccountData {
            name: "INCOME TAX".to_string(),
            account_number: "9445".to_string(),
            account_type: "Expense".to_string(),
            balance: (-18745.32f64).to_bits(),
        }
    );
    let data: AccountData = info().into();
    assert_eq!(f64::from_bits(data.balance), -18745.32);
    let balance = AccountBalance::from(info());
    assert_eq!(balance.account_number, "9445");
    assert_eq!(balance.account_name, "INCOME TAX");
    assert_eq!(balance.account_type, "Expense");
    assert_eq!(f64::from_bits(balance.balance), -18745.32);
}

#[test]
fn account_data_validation() {
    let good = AccountData::from(info());
    assert_eq!(validate_account_data(&good), Ok(()));

    let mut bad = AccountData::from(info());
    bad.account_number = String::new();
    bad.name = String::new();
    assert_eq!(validate_account_data(&bad), Err(AccountDataError::EmptyAccountNumber));
    bad.account_number = "1".to_string();
    assert_eq!(validate_account_data(&bad), Err(AccountDataError::EmptyAccountName));
    bad.name = "n".to_string();
    for not_finite in [f64::NAN, f64::INFINITY, f64::NEG_INFINITY] {
        bad.balance = not_finite.to_bits();
        assert_eq!(validate_account_data(&bad), Err(AccountDataError::BalanceNotFinite));
    }
    for finite in [0.0, -0.0, f64::MAX, f64::MIN, f64::MIN_POSITIVE, 5e-324] {
        bad.balance = finite.to_bits();
        assert_eq!(validate_account_data(&bad), Ok(()));
    }
}

#[test]
fn account_type_names() {
    let names = [
        "AccountsPayable",
        "AccountsReceivable",
        "Bank",
        "CostOfGoodsSold",
        "CreditCard",
        "Equity",
        "Expense",
        "FixedAsset",
        "Income",
        "LongTermLiability",
        "OtherAsset",
        "OtherCurrentAsset",
        "OtherCurrentLiability",
        "OtherExpense",
        "OtherIncome",
    ];
    for (number, name) in names.iter().enumerate() {
        assert_eq!(qbfc_account_type_to_string(number as i32), *name);
    }
    assert_eq!(qbfc_account_type_to_string(15), "Unknown(15)");
    assert_eq!(qbfc_account_type_to_string(-1), "Unknown(-1)");
    assert_eq!(qbfc_account_type_to_string(i32::MIN), "Unknown(-2147483648)");
    assert_eq!(qbfc_account_type_to_string(i32::MAX), "Unknown(2147483647)");
}

#[test]
fn decimal_forms() {
    for v in [0, 1, 9, 10, 11, 99, 100, 101, 12345, -1, -10, -12345, i32::MAX, i32::MIN] {
        assert_eq!(i32_to_decimal(v), v.to_string());
        assert_eq!(parse_i32_text(&v.to_string()), Some(v));
    }
}

#[test]
fn integer_texts() {
    assert_eq!(parse_i32_text("42"), Some(42));
    assert_eq!(parse_i32_text("+42"), Some(42));
    assert_eq!(parse_i32_text("-42"), Some(-42));
    assert_eq!(parse_i32_text("0042"), Some(42));
    assert_eq!(parse_i32_text("-0"), Some(0));
    assert_eq!(parse_i32_text("2147483647"), Some(i32::MAX));
    assert_eq!(parse_i32_text("-2147483648"), Some(i32::MIN));
    for bad in [
        "", "+", "-", " 1", "1 ", "1.0", "1e3", "abc", "2147483648", "-2147483649",
        "99999999999999999999999", "--1", "+-1", "1,000", "٣",
    ] {
        assert_eq!(parse_i32_text(bad), None, "{bad}");
        assert!(bad.parse::<i32>().is_err(), "{bad}");
    }
}

#[test]
fn variant_integers() {
    assert_eq!(variant_to_int(&SafeVariant::from_i32(-7)), Some(-7));
    assert_eq!(variant_to_int(&SafeVariant::from_string(" 15\n")), Some(15));
    assert_eq!(variant_to_int(&SafeVariant::from_string("fifteen")), None);
    assert_eq!(variant_to_int(&SafeVariant::from_string("")), None);
    assert_eq!(variant_to_int(&SafeVariant::new()), None);
    assert_eq!(variant_to_int(&SafeVariant::from_f64(1.0f64.to_bits())), None);
}

#[test]
fn currency_texts() {
    assert_eq!(clean_currency_text("$1,234.56"), "1234.56");
    assert_eq!(clean_currency_text(" ($18,745.32) "), "-18745.32");
    assert_eq!(clean_currency_text("250.00"), "250.00");
    assert_eq!(clean_currency_text(""), "");
    assert_eq!(clean_currency_text("$ , )"), "");
    assert_eq!(clean_currency_text("(5)"), "-5");
    assert_eq!(clean_currency_text("N/A"), "N/A");
    for s in ["$1,234.56", " ($18,745.32) ", "  7 ", "((1))", ",,$"] {
        let expected =
            s.replace(",", "").replace("$", "").replace("(", "-").replace(")", "").trim().to_string();
        assert_eq!(clean_currency_text(s), expected);
    }
}

#[test]
fn variant_floats() {
    assert_eq!(
        variant_to_float(&SafeVariant::from_f64(2.5f64.to_bits())),
        FloatReading::Bits { bits: 2.5f64.to_bits() }
    );
    assert_eq!(
        variant_to_float(&SafeVariant::from_string("($1,000.50)")),
        FloatReading::Text { text: "-1000.50".to_string() }
    );
    assert_eq!(variant_to_float(&SafeVariant::from_i32(2)), FloatReading::Nothing);
    assert_eq!(variant_to_float(&SafeVariant::new()), FloatReading::Nothing);
}

#[test]
fn coercion_is_asked_for_and_can_fail() {
    let five = SafeVariant::from_i32(-5);
    assert_eq!(five.to_string(), None);
    assert_eq!(change_type(&five, VariantTag::String), Ok(SafeVariant::from_string("-5")));
    assert_eq!(change_type(&five, VariantTag::Int32), Ok(SafeVariant::from_i32(-5)));
    assert_eq!(
        change_type(&five, VariantTag::Float64),
        Err(TypeMismatch { expected: VariantTag::Float64, found: VariantTag::Int32 })
    );
    let text = SafeVariant::from_string(" 12 ");
    assert_eq!(change_type(&text, VariantTag::Int32), Ok(SafeVariant::from_i32(12)));
    assert_eq!(change_type(&text, VariantTag::String), Ok(SafeVariant::from_string(" 12 ")));
    assert_eq!(
        change_type(&SafeVariant::from_string("twelve"), VariantTag::Int32),
        Err(TypeMismatch { expected: VariantTag::Int32, found: VariantTag::String })
    );
    assert_eq!(
        change_type(&SafeVariant::new(), VariantTag::String),
        Err(TypeMismatch { expected: VariantTag::String, found: VariantTag::Empty })
    );
    assert_eq!(change_type(&SafeVariant::new(), VariantTag::Empty), Ok(SafeVariant::Empty));
    assert_eq!(
        change_type(&SafeVariant::from_dispatch(Some(3)), VariantTag::Int32),
        Err(TypeMismatch { expected: VariantTag::Int32, found: VariantTag::ObjectHandle })
    );
}
