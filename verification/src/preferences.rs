//! How the connection to the accounting server is made and what the
//! application asks to be allowed.

use crate::file_mode::FileMode;
use vstd::prelude::*;

verus! {

/// Where the accounting server runs.
#[derive(Debug, Clone, Copy, PartialEq, Eq, Structural)]
pub enum ConnectionType {
    Local,
    LocalWithUI,
    Remote,
    RemoteQBOE,
    Unknown,
}

impl ConnectionType {
    pub open spec fn spec_preference_name(self) -> Seq<char> {
        match self {
            ConnectionType::Local => "LocalQBD"@,
            ConnectionType::LocalWithUI => "LocalQBDLaunchUI"@,
            ConnectionType::Remote => "RemoteQBD"@,
            ConnectionType::RemoteQBOE => "RemoteQBOE"@,
            ConnectionType::Unknown => "Unknown"@,
        }
    }

    /// The name the server knows this kind of connection by.
    pub fn preference_name(self) -> (name: String)
        ensures
            name@ == self.spec_preference_name(),
    {
        match self {
            ConnectionType::Local => "LocalQBD".to_owned(),
            ConnectionType::LocalWithUI => "LocalQBDLaunchUI".to_owned(),
            ConnectionType::Remote => "RemoteQBD".to_owned(),
            ConnectionType::RemoteQBOE => "RemoteQBOE".to_owned(),
            ConnectionType::Unknown => "Unknown".to_owned(),
        }
    }
}

impl FileMode {
    pub open spec fn spec_open_mode_name(self) -> Seq<char> {
        match self {
            FileMode::SingleUser => "qbFileOpenSingleUser"@,
            FileMode::MultiUser => "qbFileOpenMultiUser"@,
            FileMode::DoNotCare => "qbFileOpenDoNotCare"@,
            FileMode::Online => "qbFileOpenOnline"@,
        }
    }

    /// The name the server knows this file-open mode by.
    pub fn open_mode_name(self) -> (name: String)
        ensures
            name@ == self.spec_open_mode_name(),
    {
        match self {
            FileMode::SingleUser => "qbFileOpenSingleUser".to_owned(),
            FileMode::MultiUser => "qbFileOpenMultiUser".to_owned(),
            FileMode::DoNotCare => "qbFileOpenDoNotCare".to_owned(),
            FileMode::Online => "qbFileOpenOnline".to_owned(),
        }
    }
}

/// Whether the application must be able to run with nobody at the screen.
#[derive(Debug, Clone, Copy, PartialEq, Eq, Structural)]
pub enum UnattendedMode {
    Required,
    Optional,
}

/// Whether the application needs access to personal data.
#[derive(Debug, Clone, Copy, PartialEq, Eq, Structural)]
pub enum PersonalDataPref {
    Required,
    Optional,
    NotNeeded,
}

/// What the application asks to be allowed when it registers.
#[derive(Debug, Clone, Copy, PartialEq, Eq, Structural)]
pub struct AuthPreferences {
    pub unattended_mode: UnattendedMode,
    pub personal_data: PersonalDataPref,
    pub is_read_only: bool,
    pub enterprise_enabled: bool,
    pub premier_enabled: bool,
    pub pro_enabled: bool,
    pub simple_enabled: bool,
    pub force_auth_dialog: bool,
}

impl AuthPreferences {
    /// The preferences of a client for the Enterprise edition alone.
    pub fn enterprise_only() -> (preferences: Self)
        ensures
            preferences == (AuthPreferences {
                unattended_mode: UnattendedMode::Optional,
                personal_data: PersonalDataPref::Optional,
                is_read_only: false,
                enterprise_enabled: true,
                premier_enabled: false,
                pro_enabled: false,
                simple_enabled: false,
                force_auth_dialog: false,
            }),
    {
        AuthPreferences {
            unattended_mode: UnattendedMode::Optional,
            personal_data: PersonalDataPref::Optional,
            is_read_only: false,
            enterprise_enabled: true,
            premier_enabled: false,
            pro_enabled: false,
            simple_enabled: false,
            force_auth_dialog: false,
        }
    }
}

impl Default for AuthPreferences {
    /// Every edition allowed, reads and writes, no forced dialog.
    fn default() -> (preferences: Self)
        ensures
            preferences == (AuthPreferences {
                unattended_mode: UnattendedMode::Optional,
                personal_data: PersonalDataPref::Optional,
                is_read_only: false,
                enterprise_enabled: true,
                premier_enabled: true,
                pro_enabled: true,
                simple_enabled: true,
                force_auth_dialog: false,
            }),
    {
        AuthPreferences {
            unattended_mode: UnattendedMode::Optional,
            personal_data: PersonalDataPref::Optional,
            is_read_only: false,
            enterprise_enabled: true,
            premier_enabled: true,
            pro_enabled: true,
            simple_enabled: true,
            force_auth_dialog: false,
        }
    }
}

} // verus!
