use quickbooks_sheets_sync::coercion::FloatReading;
use quickbooks_sheets_sync::qbfc::{
    account_balance_for_lowered, balance_fields_for, balance_fields_for_lowered,
    extract_account_balance, generic_balance_fields, parse_account_response, AccountRet,
    BalanceField,
};
use quickbooks_sheets_sync::safe_variant::SafeVariant;

fn field(name: &str, value: SafeVariant) -> BalanceField {
    BalanceField { name: name.to_string(), value }
}

fn account(number: &str) -> AccountRet {
    AccountRet {
        account_number: number.to_string(),
        name: format!("Account {number}"),
        account_type: Some("Bank".to_string()),
        special_account_type: None,
        fields: Vec::new(),
    }
}

#[test]
fn balance_fields_by_account_type() {
    let bank = vec!["Balance", "CurrentBalance", "TotalBalance", "EndingBalance"];
    let liability = vec!["Balance", "CurrentBalance", "TotalBalance", "Amount"];
    let income = vec!["Balance", "TotalBalance", "YTDBalance", "Amount"];
    let generic = vec!["Balance", "TotalBalance", "CurrentBalance", "EndingBalance", "Amount"];
    for t in ["bank", "other current asset", "fixed asset"] {
        assert_eq!(balance_fields_for_lowered(t), bank);
    }
    for t in ["accounts payable", "credit card", "other current liability"] {
        assert_eq!(balance_fields_for_lowered(t), liability);
    }
    for t in ["income", "other income", "expense", "other expense", "cost of goods sold"] {
        assert_eq!(balance_fields_for_lowered(t), income);
    }
    for t in ["", "equity", "Bank", "bank "] {
        assert_eq!(balance_fields_for_lowered(t), generic);
    }
    assert_eq!(generic_balance_fields(), generic);
}

#[test]
fn account_type_case_does_not_matter() {
    let bank = vec!["Balance", "CurrentBalance", "TotalBalance", "EndingBalance"];
    assert_eq!(balance_fields_for("Bank"), bank);
    assert_eq!(balance_fields_for("BANK"), bank);
    assert_eq!(balance_fields_for("Fixed Asset"), bank);
    assert_eq!(
        balance_fields_for("Cost Of Goods Sold"),
        vec!["Balance", "TotalBalance", "YTDBalance", "Amount"]
    );
    assert_eq!(balance_fields_for("Equity"), generic_balance_fields());
}

#[test]
fn balance_comes_from_the_first_usable_property() {
    let fields = vec![
        field("Amount", SafeVariant::from_string("$9.00")),
        field("CurrentBalance", SafeVariant::from_f64(2.5f64.to_bits())),
        field("Balance", SafeVariant::from_string("N/A")),
        field("TotalBalance", SafeVariant::from_string("(1,000.50)")),
    ];
    assert_eq!(
        extract_account_balance(&fields, "Bank"),
        Some(FloatReading::Bits { bits: 2.5f64.to_bits() })
    );
    assert_eq!(
        extract_account_balance(&fields, "Income"),
        Some(FloatReading::Text { text: "-1000.50".to_string() })
    );
    assert_eq!(
        account_balance_for_lowered(&fields, "equity"),
        Some(FloatReading::Text { text: "-1000.50".to_string() })
    );
}

#[test]
fn balance_falls_back_to_the_generic_properties() {
    let fields = vec![
        field("EndingBalance", SafeVariant::from_string("12")),
        field("Balance", SafeVariant::from_i32(3)),
    ];
    assert_eq!(
        extract_account_balance(&fields, "Income"),
        Some(FloatReading::Text { text: "12".to_string() })
    );
    assert_eq!(extract_account_balance(&Vec::new(), "Bank"), None);
    let unusable = vec![field("Balance", SafeVariant::new()), field("Other", SafeVariant::from_f64(0))];
    assert_eq!(extract_account_balance(&unusable, "Bank"), None);
}

#[test]
fn the_first_property_of_a_name_counts() {
    let fields = vec![
        field("Balance", SafeVariant::from_string("n/a")),
        field("Balance", SafeVariant::from_string("5")),
        field("Amount", SafeVariant::from_string("6")),
    ];
    assert_eq!(
        extract_account_balance(&fields, "credit card"),
        Some(FloatReading::Text { text: "6".to_string() })
    );
}

#[test]
fn account_is_found_by_its_number() {
    let accounts = vec![account("1000"), account("9445"), account("9445"), account("2000")];
    assert_eq!(parse_account_response(&accounts, "9445"), Some(1));
    assert_eq!(parse_account_response(&accounts, "1000"), Some(0));
    assert_eq!(parse_account_response(&accounts, "2000"), Some(3));
    assert_eq!(parse_account_response(&accounts, "944"), None);
    assert_eq!(parse_account_response(&accounts, ""), None);
    assert_eq!(parse_account_response(&Vec::new(), "9445"), None);
}
