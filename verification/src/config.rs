//! The settings of a sync: their defaults, their validation, and the
//! normalization of the company file path.

use crate::text::{chars_of, str_eq};
use vstd::prelude::*;

verus! {

/// Settings of the connection to the accounting server.
#[derive(Debug, Clone, PartialEq, Eq)]
pub struct QuickBooksConfig {
    pub enabled: Option<bool>,
    pub company_file: String,
    pub account_number: String,
    pub account_name: String,
    pub company_file_password: Option<String>,
    pub qb_username: Option<String>,
    pub qb_password: Option<String>,
    pub connection_mode: Option<String>,
    pub application_name: Option<String>,
    pub application_id: Option<String>,
    pub connection_timeout: Option<u32>,
}

/// Settings of the spreadsheet webhook.
#[derive(Debug, Clone, PartialEq, Eq)]
pub struct GoogleSheetsConfig {
    pub webapp_url: String,
    pub api_key: String,
    pub spreadsheet_id: String,
    pub sheet_name: Option<String>,
    pub cell_address: String,
}

/// When the sync runs.
#[derive(Debug, Clone, PartialEq, Eq)]
pub struct ScheduleConfig {
    pub cron_expression: String,
}

/// One account to read and the cell its balance goes to.
#[derive(Debug, Clone, PartialEq, Eq)]
pub struct AccountSyncConfig {
    pub spreadsheet_id: String,
    pub account_full_name: String,
    pub sheet_name: String,
    pub cell_address: String,
}

/// All settings.
#[derive(Debug, Clone, PartialEq, Eq)]
pub struct Config {
    pub quickbooks: QuickBooksConfig,
    pub google_sheets: GoogleSheetsConfig,
    pub schedule: ScheduleConfig,
    pub sync_blocks: Vec<AccountSyncConfig>,
}

/// A required setting is empty.
#[derive(Debug, Clone, Copy, PartialEq, Eq, Structural)]
pub enum ConfigError {
    EmptyCompanyFile,
    EmptyAccountNumber,
    EmptyWebappUrl,
    EmptyApiKey,
    EmptyCellAddress,
    EmptyCronExpression,
}

impl ConfigError {
    /// The sentence that tells a person what is wrong.
    pub fn message(&self) -> (text: String)
        ensures
            text@ == match *self {
                ConfigError::EmptyCompanyFile => "QuickBooks company file path cannot be empty"@,
                ConfigError::EmptyAccountNumber => "QuickBooks account number cannot be empty"@,
                ConfigError::EmptyWebappUrl => "Google Sheets webapp URL cannot be empty"@,
                ConfigError::EmptyApiKey => "Google Sheets API key cannot be empty"@,
                ConfigError::EmptyCellAddress => "Google Sheets cell address cannot be empty"@,
                ConfigError::EmptyCronExpression => "Schedule cron expression cannot be empty"@,
            },
    {
        match self {
            ConfigError::EmptyCompanyFile => "QuickBooks company file path cannot be empty".to_owned(),
            ConfigError::EmptyAccountNumber => "QuickBooks account number cannot be empty".to_owned(),
            ConfigError::EmptyWebappUrl => "Google Sheets webapp URL cannot be empty".to_owned(),
            ConfigError::EmptyApiKey => "Google Sheets API key cannot be empty".to_owned(),
            ConfigError::EmptyCellAddress => "Google Sheets cell address cannot be empty".to_owned(),
            ConfigError::EmptyCronExpression => "Schedule cron expression cannot be empty".to_owned(),
        }
    }
}

/// What `validate` answers: the first required setting that is empty, in
/// the order company file, account number, webapp URL, API key, cell
/// address, cron expression.
pub open spec fn spec_validate(config: Config) -> Result<(), ConfigError> {
    if config.quickbooks.company_file@.len() == 0 {
        Err(ConfigError::EmptyCompanyFile)
    } else if config.quickbooks.account_number@.len() == 0 {
        Err(ConfigError::EmptyAccountNumber)
    } else if config.google_sheets.webapp_url@.len() == 0 {
        Err(ConfigError::EmptyWebappUrl)
    } else if config.google_sheets.api_key@.len() == 0 {
        Err(ConfigError::EmptyApiKey)
    } else if config.google_sheets.cell_address@.len() == 0 {
        Err(ConfigError::EmptyCellAddress)
    } else if config.schedule.cron_expression@.len() == 0 {
        Err(ConfigError::EmptyCronExpression)
    } else {
        Ok(())
    }
}

/// Whether a path looks like a path of Windows: a colon as its second
/// character in a path of three bytes or more, or a backslash anywhere.
pub open spec fn spec_is_windows_path(path: Seq<char>) -> bool {
    ||| vstd::utf8::encode_utf8(path).len() >= 3 && path.len() >= 2 && path[1] == ':'
    ||| path.contains('\\')
}

/// Whether a company file setting names no file: `MOCK`, `AUTO`, or
/// nothing.
pub open spec fn is_special_value(path: Seq<char>) -> bool {
    path == "MOCK"@ || path == "AUTO"@ || path.len() == 0
}

/// `path` with a backslash in place of every forward slash.
pub open spec fn with_backslashes(path: Seq<char>) -> Seq<char> {
    Seq::new(
        path.len(),
        |i: int|
            if path[i] == '/' {
                '\\'
            } else {
                path[i]
            },
    )
}

/// The normalized form of `path` on a host that separates path components
/// with backslashes (`backslash_host`) or not: a path of Windows gets
/// backslashes on such a host; every other path, and every special value,
/// stays as it is.
pub open spec fn spec_normalize(path: Seq<char>, backslash_host: bool) -> Seq<char> {
    if !is_special_value(path) && backslash_host && spec_is_windows_path(path) {
        with_backslashes(path)
    } else {
        path
    }
}

/// Whether `after` is `before` with its company file path normalized for a
/// host of the given kind, and nothing else changed.
pub open spec fn paths_normalized_for(before: Config, after: Config, backslash_host: bool) -> bool {
    &&& after.quickbooks.company_file@ == spec_normalize(
        before.quickbooks.company_file@,
        backslash_host,
    )
    &&& after.quickbooks.enabled == before.quickbooks.enabled
    &&& after.quickbooks.account_number == before.quickbooks.account_number
    &&& after.quickbooks.account_name == before.quickbooks.account_name
    &&& after.quickbooks.company_file_password == before.quickbooks.company_file_password
    &&& after.quickbooks.qb_username == before.quickbooks.qb_username
    &&& after.quickbooks.qb_password == before.quickbooks.qb_password
    &&& after.quickbooks.connection_mode == before.quickbooks.connection_mode
    &&& after.quickbooks.application_name == before.quickbooks.application_name
    &&& after.quickbooks.application_id == before.quickbooks.application_id
    &&& after.quickbooks.connection_timeout == before.quickbooks.connection_timeout
    &&& after.google_sheets == before.google_sheets
    &&& after.schedule == before.schedule
    &&& after.sync_blocks == before.sync_blocks
}

/// Whether this host takes a backslash for a path separator.
///
/// Calls `std::path::is_separator` on a backslash. Nothing is claimed of
/// the answer: it depends on the machine.
#[verifier::external_body]
fn host_separates_with_backslash() -> bool {
    std::path::is_separator('\\')
}

fn replace_slashes(path: &str) -> (replaced: String)
    ensures
        replaced@ == with_backslashes(path@),
{
    let chars = chars_of(path);
    let mut replaced = String::new();
    let mut i: usize = 0;
    while i < chars.len()
        invariant
            chars@ == path@,
            i <= chars@.len(),
            replaced@ == with_backslashes(path@).take(i as int),
        decreases chars@.len() - i,
    {
        if chars[i] == '/' {
            proof {
                reveal_strlit("\\");
            }
            replaced.append("\\");
        } else {
            replaced.append(path.substring_char(i, i + 1));
        }
        i += 1;
    }
    replaced
}

/// The normalized form of `path` for a host of the given kind.
pub fn normalize_path_for(path: &str, backslash_host: bool) -> (normalized: String)
    ensures
        normalized@ == spec_normalize(path@, backslash_host),
{
    if str_eq(path, "MOCK") || str_eq(path, "AUTO") || path.is_empty() {
        return path.to_owned();
    }
    if backslash_host && Config::is_windows_path(path) {
        replace_slashes(path)
    } else {
        path.to_owned()
    }
}

impl Config {
    /// Checks that every required setting is there.
    pub fn validate(&self) -> (r: Result<(), ConfigError>)
        ensures
            r == spec_validate(*self),
    {
        if self.quickbooks.company_file.as_str().is_empty() {
            return Err(ConfigError::EmptyCompanyFile);
        }
        if self.quickbooks.account_number.as_str().is_empty() {
            return Err(ConfigError::EmptyAccountNumber);
        }
        if self.google_sheets.webapp_url.as_str().is_empty() {
            return Err(ConfigError::EmptyWebappUrl);
        }
        if self.google_sheets.api_key.as_str().is_empty() {
            return Err(ConfigError::EmptyApiKey);
        }
        if self.google_sheets.cell_address.as_str().is_empty() {
            return Err(ConfigError::EmptyCellAddress);
        }
        if self.schedule.cron_expression.as_str().is_empty() {
            return Err(ConfigError::EmptyCronExpression);
        }
        Ok(())
    }

    /// Normalizes the company file path for a host of the given kind.
    /// Nothing else changes.
    pub fn normalize_paths_for(&mut self, backslash_host: bool)
        ensures
            paths_normalized_for(*old(self), *final(self), backslash_host),
    {
        let normalized = normalize_path_for(self.quickbooks.company_file.as_str(), backslash_host);
        self.quickbooks.company_file = normalized;
    }

    /// Normalizes the company file path for this host: asks the host
    /// whether it separates with backslashes, and normalizes for a host of
    /// that kind. Nothing else changes. A special value, and a path that
    /// is no path of Windows, stays as it is on every host.
    pub fn normalize_paths(&mut self)
        ensures
            paths_normalized_for(*old(self), *final(self), true) || paths_normalized_for(
                *old(self),
                *final(self),
                false,
            ),
            is_special_value(old(self).quickbooks.company_file@) || !spec_is_windows_path(
                old(self).quickbooks.company_file@,
            ) ==> final(self).quickbooks.company_file@ == old(self).quickbooks.company_file@,
    {
        let backslash_host = host_separates_with_backslash();
        self.normalize_paths_for(backslash_host);
    }

    /// The normalized form of `path` for this host: `path` itself, or, on
    /// a host that separates with backslashes, a path of Windows with
    /// backslashes for its forward slashes.
    pub fn normalize_windows_path(&self, path: &str) -> (normalized: String)
        ensures
            normalized@ == spec_normalize(path@, true) || normalized@ == spec_normalize(
                path@,
                false,
            ),
            is_special_value(path@) || !spec_is_windows_path(path@) ==> normalized@ == path@,
    {
        let backslash_host = host_separates_with_backslash();
        normalize_path_for(path, backslash_host)
    }

    /// Whether a path looks like a path of Windows.
    pub fn is_windows_path(path: &str) -> (b: bool)
        ensures
            b == spec_is_windows_path(path@),
    {
        let chars = chars_of(path);
        let byte_count = path.as_bytes().len();
        if byte_count >= 3 && chars.len() >= 2 && chars[1] == ':' {
            return true;
        }
        let mut i: usize = 0;
        while i < chars.len()
            invariant
                chars@ == path@,
                i <= chars@.len(),
                forall|j: int| 0 <= j < i ==> chars@[j] != '\\',
            decreases chars@.len() - i,
        {
            if chars[i] == '\\' {
                return true;
            }
            i += 1;
        }
        false
    }
}

/// How the company file of a connection is chosen.
#[derive(Debug, Clone, Copy, PartialEq, Eq, Structural)]
pub enum ConnectionMethod {
    /// No file is configured: the user selects one.
    InteractiveFileSelection,
    /// `AUTO`: the file the server has open.
    CurrentlyOpenFile,
    /// The configured path.
    SpecificFile,
}

impl ConnectionMethod {
    pub open spec fn spec_description(self) -> Seq<char> {
        match self {
            ConnectionMethod::InteractiveFileSelection => "Interactive file selection"@,
            ConnectionMethod::CurrentlyOpenFile => "Currently open company file"@,
            ConnectionMethod::SpecificFile => "Specific file path"@,
        }
    }

    /// The method in words.
    pub fn description(self) -> (text: String)
        ensures
            text@ == self.spec_description(),
    {
        match self {
            ConnectionMethod::InteractiveFileSelection => "Interactive file selection".to_owned(),
            ConnectionMethod::CurrentlyOpenFile => "Currently open company file".to_owned(),
            ConnectionMethod::SpecificFile => "Specific file path".to_owned(),
        }
    }
}

/// How the company file is chosen for a company file setting.
pub open spec fn spec_connection_method(company_file: Seq<char>) -> ConnectionMethod {
    if company_file.len() == 0 {
        ConnectionMethod::InteractiveFileSelection
    } else if company_file == "AUTO"@ {
        ConnectionMethod::CurrentlyOpenFile
    } else {
        ConnectionMethod::SpecificFile
    }
}

impl QuickBooksConfig {
    /// How the company file of the connection is chosen.
    pub fn connection_method(&self) -> (method: ConnectionMethod)
        ensures
            method == spec_connection_method(self.company_file@),
    {
        if self.company_file.as_str().is_empty() {
            ConnectionMethod::InteractiveFileSelection
        } else if str_eq(self.company_file.as_str(), "AUTO") {
            ConnectionMethod::CurrentlyOpenFile
        } else {
            ConnectionMethod::SpecificFile
        }
    }
}

impl Default for QuickBooksConfig {
    fn default() -> (config: Self)
        ensures
            config.enabled is None,
            config.company_file@ == "AUTO"@,
            config.account_number@ == "9445"@,
            config.account_name@ == "INCOME TAX"@,
            config.company_file_password is None,
            config.qb_username is None,
            config.qb_password is None,
            config.connection_mode is None,
            config.application_name is None,
            config.application_id is None,
            config.connection_timeout == Some(30u32),
    {
        QuickBooksConfig {
            enabled: None,
            company_file: "AUTO".to_owned(),
            account_number: "9445".to_owned(),
            account_name: "INCOME TAX".to_owned(),
            company_file_password: None,
            qb_username: None,
            qb_password: None,
            connection_mode: None,
            application_name: None,
            application_id: None,
            connection_timeout: Some(30),
        }
    }
}

impl Default for GoogleSheetsConfig {
    fn default() -> (config: Self)
        ensures
            config.webapp_url@.len() == 0,
            config.api_key@.len() == 0,
            config.spreadsheet_id@.len() == 0,
            config.sheet_name is None,
            config.cell_address@ == "A1"@,
    {
        GoogleSheetsConfig {
            webapp_url: String::new(),
            api_key: String::new(),
            spreadsheet_id: String::new(),
            sheet_name: None,
            cell_address: "A1".to_owned(),
        }
    }
}

impl Default for ScheduleConfig {
    /// Every hour.
    fn default() -> (config: Self)
        ensures
            config.cron_expression@ == "0 0 * * * *"@,
    {
        ScheduleConfig { cron_expression: "0 0 * * * *".to_owned() }
    }
}

impl Default for Config {
    fn default() -> (config: Self)
        ensures
            config.quickbooks.company_file@ == "AUTO"@,
            config.quickbooks.account_number@ == "9445"@,
            config.quickbooks.account_name@ == "INCOME TAX"@,
            config.quickbooks.connection_timeout == Some(30u32),
            config.quickbooks.enabled is None,
            config.quickbooks.company_file_password is None,
            config.quickbooks.qb_username is None,
            config.quickbooks.qb_password is None,
            config.quickbooks.connection_mode is None,
            config.quickbooks.application_name is None,
            config.quickbooks.application_id is None,
            config.google_sheets.webapp_url@.len() == 0,
            config.google_sheets.api_key@.len() == 0,
            config.google_sheets.spreadsheet_id@.len() == 0,
            config.google_sheets.sheet_name is None,
            config.google_sheets.cell_address@ == "A1"@,
            config.schedule.cron_expression@ == "0 0 * * * *"@,
            config.sync_blocks@.len() == 0,
    {
        Config {
            quickbooks: QuickBooksConfig::default(),
            google_sheets: GoogleSheetsConfig::default(),
            schedule: ScheduleConfig::default(),
            sync_blocks: Vec::new(),
        }
    }
}

} // verus!
