use quickbooks_sheets_sync::config::{AccountSyncConfig, GoogleSheetsConfig};
use quickbooks_sheets_sync::response::BalanceLookup;
use quickbooks_sheets_sync::sheets::{
    check_update_response, plan_deliveries, plan_delivery, Delivery, ExternalDeliveryError,
    GoogleSheetsClient, GoogleSheetsPayload, SheetsUpdateResponse, UpdateFailure,
};

fn client() -> GoogleSheetsClient {
    GoogleSheetsClient::new(
        "https://script.example/exec".to_string(),
        "key".to_string(),
        "sheet-id".to_string(),
        Some("Default".to_string()),
        "A1".to_string(),
    )
}

fn block(account: &str, sheet: &str, cell: &str) -> AccountSyncConfig {
    AccountSyncConfig {
        spreadsheet_id: "block-sheet".to_string(),
        account_full_name: account.to_string(),
        sheet_name: sheet.to_string(),
        cell_address: cell.to_string(),
    }
}

const PAYLOAD: &str = "<AccountRet><FullName>1000</FullName><Balance>250.00</Balance></AccountRet>\
<AccountRet><FullName>2000</FullName><Balance>N/A</Balance></AccountRet>\
<AccountRet><FullName>3000</FullName></AccountRet>\
<AccountRet><FullName>1000:Sub</FullName><Balance>-18745.32</Balance></AccountRet>";

#[test]
fn payload_uses_what_is_asked_for() {
    let payload = client().payload("1000", "250.00", Some("Sheet2"), Some("B7"));
    assert_eq!(
        payload,
        GoogleSheetsPayload {
            account_number: "1000".to_string(),
            account_value: "250.00".to_string(),
            cell_address: "B7".to_string(),
            spreadsheet_id: "sheet-id".to_string(),
            sheet_name: Some("Sheet2".to_string()),
            api_key: "key".to_string(),
        }
    );
}

#[test]
fn payload_falls_back_to_the_client() {
    let payload = client().payload("1000", "1", None, None);
    assert_eq!(payload.cell_address, "A1");
    assert_eq!(payload.sheet_name, Some("Default".to_string()));
    let mut bare = client();
    bare.sheet_name = None;
    assert_eq!(bare.payload("1000", "1", None, None).sheet_name, None);
    assert_eq!(bare.payload("1000", "1", Some("S"), None).sheet_name, Some("S".to_string()));
}

#[test]
fn client_from_config() {
    let config = GoogleSheetsConfig {
        webapp_url: "u".to_string(),
        api_key: "k".to_string(),
        spreadsheet_id: "s".to_string(),
        sheet_name: None,
        cell_address: "C3".to_string(),
    };
    assert_eq!(
        GoogleSheetsClient::from_config(&config),
        GoogleSheetsClient::new("u".to_string(), "k".to_string(), "s".to_string(), None, "C3".to_string())
    );
}

#[test]
fn non_2xx_is_a_delivery_failure() {
    for status in [200u16, 201, 204, 299] {
        assert_eq!(GoogleSheetsClient::check_response(status, "ok"), Ok(()));
    }
    for status in [0u16, 100, 199, 300, 302, 401, 404, 500, 503, 65535] {
        assert_eq!(
            GoogleSheetsClient::check_response(status, "denied"),
            Err(ExternalDeliveryError { status, body: "denied".to_string() })
        );
    }
}

#[test]
fn one_bad_account_does_not_stop_the_others() {
    let blocks = vec![
        block("1000", "S1", "A1"),
        block("2000", "S2", "A2"),
        block("3000", "S3", "A3"),
        block("9999", "S4", "A4"),
        block("1000:Sub", "S5", "A5"),
    ];
    let deliveries = plan_deliveries(&client(), PAYLOAD, &blocks);
    assert_eq!(deliveries.len(), 5);
    assert_eq!(
        deliveries[0],
        Delivery::Send { payload: client().payload("1000", "250.00", Some("S1"), Some("A1")) }
    );
    assert_eq!(
        deliveries[1],
        Delivery::Skip {
            account: "2000".to_string(),
            reason: BalanceLookup::Malformed { text: "N/A".to_string() }
        }
    );
    assert_eq!(
        deliveries[2],
        Delivery::Skip { account: "3000".to_string(), reason: BalanceLookup::Missing }
    );
    assert_eq!(
        deliveries[3],
        Delivery::Skip { account: "9999".to_string(), reason: BalanceLookup::NotFound }
    );
    assert_eq!(
        deliveries[4],
        Delivery::Send { payload: client().payload("1000:Sub", "-18745.32", Some("S5"), Some("A5")) }
    );
    for (delivery, block) in deliveries.iter().zip(blocks.iter()) {
        assert_eq!(*delivery, plan_delivery(&client(), PAYLOAD, block));
    }
}

#[test]
fn no_accounts_no_deliveries() {
    assert!(plan_deliveries(&client(), PAYLOAD, &Vec::new()).is_empty());
}

#[test]
fn update_answers() {
    let reply = |success: bool, message: Option<&str>, error: Option<&str>| SheetsUpdateResponse {
        success,
        message: message.map(str::to_string),
        error: error.map(str::to_string),
    };
    assert_eq!(
        check_update_response(200, "{}", &reply(true, Some("updated A1"), None)),
        Ok("updated A1".to_string())
    );
    assert_eq!(
        check_update_response(204, "{}", &reply(true, None, Some("ignored"))),
        Ok("No message".to_string())
    );
    assert_eq!(
        check_update_response(200, "{}", &reply(false, Some("m"), Some("bad key"))),
        Err(UpdateFailure::Rejected { error: "bad key".to_string() })
    );
    assert_eq!(
        check_update_response(200, "{}", &reply(false, None, None)),
        Err(UpdateFailure::Rejected { error: "Unknown error".to_string() })
    );
    assert_eq!(
        check_update_response(500, "boom", &reply(true, Some("m"), None)),
        Err(UpdateFailure::Http { status: 500, body: "boom".to_string() })
    );
    assert_eq!(
        check_update_response(199, "", &reply(false, None, None)),
        Err(UpdateFailure::Http { status: 199, body: String::new() })
    );
}
