//! What is sent to the spreadsheet webhook for a balance, and what its
//! answer means. The sending itself is not done here.

use crate::config::{AccountSyncConfig, GoogleSheetsConfig};
use crate::response::{lookup_balance, spec_lookup_balance, BalanceLookup, BalanceLookupView};
use vstd::prelude::*;

verus! {

/// The characters of an optional string.
pub open spec fn option_text(text: Option<String>) -> Option<Seq<char>> {
    match text {
        Some(s) => Some(s@),
        None => None,
    }
}

/// The characters of an optional string slice.
pub open spec fn option_str(text: Option<&str>) -> Option<Seq<char>> {
    match text {
        Some(s) => Some(s@),
        None => None,
    }
}

/// Where balances are delivered, and the cell they go to unless a
/// delivery says otherwise.
#[derive(Debug, PartialEq, Eq)]
pub struct GoogleSheetsClient {
    pub webapp_url: String,
    pub api_key: String,
    pub spreadsheet_id: String,
    pub sheet_name: Option<String>,
    pub cell_address: String,
}

/// A [`GoogleSheetsClient`] as a mathematical value.
pub struct GoogleSheetsClientView {
    pub webapp_url: Seq<char>,
    pub api_key: Seq<char>,
    pub spreadsheet_id: Seq<char>,
    pub sheet_name: Option<Seq<char>>,
    pub cell_address: Seq<char>,
}

impl View for GoogleSheetsClient {
    type V = GoogleSheetsClientView;

    open spec fn view(&self) -> GoogleSheetsClientView {
        GoogleSheetsClientView {
            webapp_url: self.webapp_url@,
            api_key: self.api_key@,
            spreadsheet_id: self.spreadsheet_id@,
            sheet_name: option_text(self.sheet_name),
            cell_address: self.cell_address@,
        }
    }
}

/// The body of one delivery. The value is the text of a number; the sheet
/// name is left out of the body where there is none.
#[derive(Debug, PartialEq, Eq)]
pub struct GoogleSheetsPayload {
    pub account_number: String,
    pub account_value: String,
    pub cell_address: String,
    pub spreadsheet_id: String,
    pub sheet_name: Option<String>,
    pub api_key: String,
}

/// A [`GoogleSheetsPayload`] as a mathematical value.
pub struct GoogleSheetsPayloadView {
    pub account_number: Seq<char>,
    pub account_value: Seq<char>,
    pub cell_address: Seq<char>,
    pub spreadsheet_id: Seq<char>,
    pub sheet_name: Option<Seq<char>>,
    pub api_key: Seq<char>,
}

impl View for GoogleSheetsPayload {
    type V = GoogleSheetsPayloadView;

    open spec fn view(&self) -> GoogleSheetsPayloadView {
        GoogleSheetsPayloadView {
            account_number: self.account_number@,
            account_value: self.account_value@,
            cell_address: self.cell_address@,
            spreadsheet_id: self.spreadsheet_id@,
            sheet_name: option_text(self.sheet_name),
            api_key: self.api_key@,
        }
    }
}

/// The body of the delivery of `account_value` for `account_number`: the
/// cell and the sheet asked for, or, where none is asked for, those of the
/// client; the spreadsheet and the key of the client.
pub open spec fn spec_payload(
    client: GoogleSheetsClientView,
    account_number: Seq<char>,
    account_value: Seq<char>,
    sheet_name: Option<Seq<char>>,
    cell_address: Option<Seq<char>>,
) -> GoogleSheetsPayloadView {
    GoogleSheetsPayloadView {
        account_number,
        account_value,
        cell_address: match cell_address {
            Some(cell) => cell,
            None => client.cell_address,
        },
        spreadsheet_id: client.spreadsheet_id,
        sheet_name: match sheet_name {
            Some(sheet) => Some(sheet),
            None => client.sheet_name,
        },
        api_key: client.api_key,
    }
}

/// The webhook answered with a status outside 200 to 299.
#[derive(Debug, PartialEq, Eq)]
pub struct ExternalDeliveryError {
    pub status: u16,
    pub body: String,
}

/// Whether a status means success.
pub open spec fn is_success(status: u16) -> bool {
    200 <= status <= 299
}

impl GoogleSheetsClient {
    pub fn new(
        webapp_url: String,
        api_key: String,
        spreadsheet_id: String,
        sheet_name: Option<String>,
        cell_address: String,
    ) -> (client: Self)
        ensures
            client.webapp_url == webapp_url,
            client.api_key == api_key,
            client.spreadsheet_id == spreadsheet_id,
            client.sheet_name == sheet_name,
            client.cell_address == cell_address,
    {
        GoogleSheetsClient { webapp_url, api_key, spreadsheet_id, sheet_name, cell_address }
    }

    /// A client with the settings of `config`.
    pub fn from_config(config: &GoogleSheetsConfig) -> (client: Self)
        ensures
            client@ == (GoogleSheetsClientView {
                webapp_url: config.webapp_url@,
                api_key: config.api_key@,
                spreadsheet_id: config.spreadsheet_id@,
                sheet_name: option_text(config.sheet_name),
                cell_address: config.cell_address@,
            }),
    {
        GoogleSheetsClient {
            webapp_url: config.webapp_url.clone(),
            api_key: config.api_key.clone(),
            spreadsheet_id: config.spreadsheet_id.clone(),
            sheet_name: match &config.sheet_name {
                Some(s) => Some(s.clone()),
                None => None,
            },
            cell_address: config.cell_address.clone(),
        }
    }

    /// The body of the delivery of `account_value`, the text of a number,
    /// for `account_number`.
    pub fn payload(
        &self,
        account_number: &str,
        account_value: &str,
        sheet_name: Option<&str>,
        cell_address: Option<&str>,
    ) -> (payload: GoogleSheetsPayload)
        ensures
            payload@ == spec_payload(
                self@,
                account_number@,
                account_value@,
                option_str(sheet_name),
                option_str(cell_address),
            ),
    {
        GoogleSheetsPayload {
            account_number: account_number.to_owned(),
            account_value: account_value.to_owned(),
            cell_address: match cell_address {
                Some(cell) => cell.to_owned(),
                None => self.cell_address.clone(),
            },
            spreadsheet_id: self.spreadsheet_id.clone(),
            sheet_name: match sheet_name {
                Some(sheet) => Some(sheet.to_owned()),
                None => match &self.sheet_name {
                    Some(sheet) => Some(sheet.clone()),
                    None => None,
                },
            },
            api_key: self.api_key.clone(),
        }
    }

    /// What the webhook's answer means for the delivery: success for a
    /// status from 200 to 299, else a failure that holds the status and the
    /// body.
    pub fn check_response(status: u16, body: &str) -> (r: Result<(), ExternalDeliveryError>)
        ensures
            is_success(status) ==> r is Ok,
            !is_success(status) ==> r is Err && r->Err_0.status == status && r->Err_0.body@
                == body@,
    {
        if 200 <= status && status <= 299 {
            Ok(())
        } else {
            Err(ExternalDeliveryError { status, body: body.to_owned() })
        }
    }
}

/// What is to be done for one configured account.
#[derive(Debug, PartialEq, Eq)]
pub enum Delivery {
    /// Send this body.
    Send { payload: GoogleSheetsPayload },
    /// Send nothing: the payload gives no balance for the account.
    Skip { account: String, reason: BalanceLookup },
}

/// A [`Delivery`] as a mathematical value.
pub enum DeliveryView {
    Send { payload: GoogleSheetsPayloadView },
    Skip { account: Seq<char>, reason: BalanceLookupView },
}

impl View for Delivery {
    type V = DeliveryView;

    open spec fn view(&self) -> DeliveryView {
        match self {
            Delivery::Send { payload } => DeliveryView::Send { payload: payload@ },
            Delivery::Skip { account, reason } => DeliveryView::Skip {
                account: account@,
                reason: reason@,
            },
        }
    }
}

/// What is to be done for the account of `block`, given the response
/// payload: its balance goes to the sheet and cell of the block; an
/// account without a balance in the payload is skipped.
pub open spec fn spec_plan_delivery(
    client: GoogleSheetsClientView,
    response_xml: Seq<char>,
    block: AccountSyncConfig,
) -> DeliveryView {
    match spec_lookup_balance(response_xml, block.account_full_name@) {
        BalanceLookupView::Value { text } => DeliveryView::Send {
            payload: spec_payload(
                client,
                block.account_full_name@,
                text,
                Some(block.sheet_name@),
                Some(block.cell_address@),
            ),
        },
        reason => DeliveryView::Skip { account: block.account_full_name@, reason },
    }
}

/// What is to be done for the account of `block`.
pub fn plan_delivery(
    client: &GoogleSheetsClient,
    response_xml: &str,
    block: &AccountSyncConfig,
) -> (delivery: Delivery)
    ensures
        delivery@ == spec_plan_delivery(client@, response_xml@, *block),
{
    match lookup_balance(response_xml, block.account_full_name.as_str()) {
        BalanceLookup::Value { text } => Delivery::Send {
            payload: client.payload(
                block.account_full_name.as_str(),
                text.as_str(),
                Some(block.sheet_name.as_str()),
                Some(block.cell_address.as_str()),
            ),
        },
        reason => Delivery::Skip { account: block.account_full_name.clone(), reason },
    }
}

/// What is to be done for each configured account, in the order of the
/// configuration. Each account is judged by itself: one without a usable
/// balance is skipped and the others are delivered all the same.
pub fn plan_deliveries(
    client: &GoogleSheetsClient,
    response_xml: &str,
    blocks: &Vec<AccountSyncConfig>,
) -> (deliveries: Vec<Delivery>)
    ensures
        deliveries@.len() == blocks@.len(),
        forall|i: int|
            0 <= i < blocks@.len() ==> (#[trigger] deliveries@[i])@ == spec_plan_delivery(
                client@,
                response_xml@,
                blocks@[i],
            ),
{
    let mut deliveries: Vec<Delivery> = Vec::new();
    let mut i: usize = 0;
    while i < blocks.len()
        invariant
            i <= blocks@.len(),
            deliveries@.len() == i,
            forall|j: int|
                0 <= j < i ==> (#[trigger] deliveries@[j])@ == spec_plan_delivery(
                    client@,
                    response_xml@,
                    blocks@[j],
                ),
        decreases blocks@.len() - i,
    {
        deliveries.push(plan_delivery(client, response_xml, &blocks[i]));
        i += 1;
    }
    deliveries
}

/// What the webhook says of an update in the body of its answer.
#[derive(Debug, PartialEq, Eq)]
pub struct SheetsUpdateResponse {
    pub success: bool,
    pub message: Option<String>,
    pub error: Option<String>,
}

/// Why an update did not happen.
#[derive(Debug, PartialEq, Eq)]
pub enum UpdateFailure {
    /// The webhook answered with a status outside 200 to 299.
    Http { status: u16, body: String },
    /// The webhook answered that it did not update the sheet.
    Rejected { error: String },
}

/// An [`UpdateFailure`] as a mathematical value.
pub enum UpdateFailureView {
    Http { status: u16, body: Seq<char> },
    Rejected { error: Seq<char> },
}

impl View for UpdateFailure {
    type V = UpdateFailureView;

    open spec fn view(&self) -> UpdateFailureView {
        match self {
            UpdateFailure::Http { status, body } => UpdateFailureView::Http {
                status: *status,
                body: body@,
            },
            UpdateFailure::Rejected { error } => UpdateFailureView::Rejected { error: error@ },
        }
    }
}

/// What the answer to an update means: a failure for a status outside 200
/// to 299, with the status and the body; a failure where the webhook says
/// that it did not succeed, with its error or `Unknown error`; else the
/// webhook's message, or `No message`.
pub open spec fn spec_check_update(
    status: u16,
    body: Seq<char>,
    reply: SheetsUpdateResponse,
) -> Result<Seq<char>, UpdateFailureView> {
    if !is_success(status) {
        Err(UpdateFailureView::Http { status, body })
    } else if !reply.success {
        Err(
            UpdateFailureView::Rejected {
                error: match reply.error {
                    Some(error) => error@,
                    None => "Unknown error"@,
                },
            },
        )
    } else {
        Ok(
            match reply.message {
                Some(message) => message@,
                None => "No message"@,
            },
        )
    }
}

/// What the answer to an update means.
pub fn check_update_response(status: u16, body: &str, reply: &SheetsUpdateResponse) -> (r: Result<
    String,
    UpdateFailure,
>)
    ensures
        match spec_check_update(status, body@, *reply) {
            Ok(message) => r is Ok && r->Ok_0@ == message,
            Err(failure) => r is Err && r->Err_0@ == failure,
        },
{
    if !(200 <= status && status <= 299) {
        return Err(UpdateFailure::Http { status, body: body.to_owned() });
    }
    if !reply.success {
        let error = match &reply.error {
            Some(error) => error.clone(),
            None => "Unknown error".to_owned(),
        };
        return Err(UpdateFailure::Rejected { error });
    }
    Ok(
        match &reply.message {
            Some(message) => message.clone(),
            None => "No message".to_owned(),
        },
    )
}

} // verus!
