//! The calls of the request processor's interface: for each method its
//! name and its arguments in the order in which the server declares them.

use crate::dispatch::{DispatchKind, Invocation, InvocationView};
use crate::file_mode::FileMode;
use crate::safe_variant::{SafeVariant, VariantValue};
use crate::text::str_eq;
use vstd::prelude::*;

verus! {

/// Connection kind of a server on this machine.
pub const LOCAL_QBD: i32 = 1;

/// The company-file selector handed to the server: empty, which stands for
/// the file the server has open, where the configuration says `AUTO` or
/// nothing; else the configured path.
pub open spec fn spec_selector(company_file: Seq<char>) -> Seq<char> {
    if company_file == "AUTO"@ {
        Seq::<char>::empty()
    } else {
        company_file
    }
}

/// `OpenConnection(application-id, application-name)`.
pub open spec fn spec_open_connection(app_id: Seq<char>, app_name: Seq<char>) -> InvocationView {
    InvocationView {
        method: "OpenConnection"@,
        kind: DispatchKind::Method,
        args: seq![VariantValue::Text(app_id), VariantValue::Text(app_name)],
    }
}

/// `OpenConnection2(application-id, application-name, connection-kind)`.
pub open spec fn spec_open_connection2(
    app_id: Seq<char>,
    app_name: Seq<char>,
    kind: VariantValue,
) -> InvocationView {
    InvocationView {
        method: "OpenConnection2"@,
        kind: DispatchKind::Method,
        args: seq![VariantValue::Text(app_id), VariantValue::Text(app_name), kind],
    }
}

/// `BeginSession(company-file-selector, file-open-mode)`.
pub open spec fn spec_begin_session(company_file: Seq<char>, file_mode: FileMode) -> InvocationView {
    InvocationView {
        method: "BeginSession"@,
        kind: DispatchKind::Method,
        args: seq![
            VariantValue::Text(spec_selector(company_file)),
            VariantValue::Int32(file_mode.spec_code()),
        ],
    }
}

/// `ProcessRequest(session ticket, request payload)`.
pub open spec fn spec_process_request(ticket: Seq<char>, request: Seq<char>) -> InvocationView {
    InvocationView {
        method: "ProcessRequest"@,
        kind: DispatchKind::Method,
        args: seq![VariantValue::Text(ticket), VariantValue::Text(request)],
    }
}

/// `EndSession(session ticket)`.
pub open spec fn spec_end_session(ticket: Seq<char>) -> InvocationView {
    InvocationView {
        method: "EndSession"@,
        kind: DispatchKind::Method,
        args: seq![VariantValue::Text(ticket)],
    }
}

/// `CloseConnection()`.
pub open spec fn spec_close_connection() -> InvocationView {
    InvocationView {
        method: "CloseConnection"@,
        kind: DispatchKind::Method,
        args: Seq::<VariantValue>::empty(),
    }
}

/// `GetCurrentCompanyFileName(session ticket)`.
pub open spec fn spec_get_current_company_file_name(ticket: Seq<char>) -> InvocationView {
    InvocationView {
        method: "GetCurrentCompanyFileName"@,
        kind: DispatchKind::Method,
        args: seq![VariantValue::Text(ticket)],
    }
}

/// The company-file selector for a configured company file.
pub fn selector(company_file: &str) -> (s: String)
    ensures
        s@ == spec_selector(company_file@),
{
    if str_eq(company_file, "AUTO") {
        String::new()
    } else {
        company_file.to_owned()
    }
}

/// The request processor's interface. Each function builds one call; none
/// talks to the server.
pub struct QbxmlRequestProcessor;

impl QbxmlRequestProcessor {
    pub fn open_connection(app_id: &str, app_name: &str) -> (call: Invocation)
        ensures
            call@ == spec_open_connection(app_id@, app_name@),
    {
        let args = vec![SafeVariant::from_string(app_id), SafeVariant::from_string(app_name)];
        let call = Invocation {
            method: "OpenConnection".to_owned(),
            kind: DispatchKind::Method,
            args,
        };
        assert(call@.args =~= spec_open_connection(app_id@, app_name@).args);
        call
    }

    pub fn open_connection2(app_id: &str, app_name: &str, kind: SafeVariant) -> (call: Invocation)
        ensures
            call@ == spec_open_connection2(app_id@, app_name@, kind@),
    {
        let args = vec![SafeVariant::from_string(app_id), SafeVariant::from_string(app_name), kind];
        let call = Invocation {
            method: "OpenConnection2".to_owned(),
            kind: DispatchKind::Method,
            args,
        };
        assert(call@.args =~= spec_open_connection2(app_id@, app_name@, kind@).args);
        call
    }

    /// The selector comes first and the mode second, whatever the mode and
    /// whatever the selector.
    pub fn begin_session(company_file: &str, file_mode: FileMode) -> (call: Invocation)
        ensures
            call@ == spec_begin_session(company_file@, file_mode),
    {
        let file_var = SafeVariant::String(selector(company_file));
        let mode_var = SafeVariant::from_i32(file_mode.code());
        let args = vec![file_var, mode_var];
        let call = Invocation {
            method: "BeginSession".to_owned(),
            kind: DispatchKind::Method,
            args,
        };
        assert(call@.args =~= spec_begin_session(company_file@, file_mode).args);
        call
    }

    pub fn process_request(ticket: &str, request: &str) -> (call: Invocation)
        ensures
            call@ == spec_process_request(ticket@, request@),
    {
        let args = vec![SafeVariant::from_string(ticket), SafeVariant::from_string(request)];
        let call = Invocation {
            method: "ProcessRequest".to_owned(),
            kind: DispatchKind::Method,
            args,
        };
        assert(call@.args =~= spec_process_request(ticket@, request@).args);
        call
    }

    pub fn end_session(ticket: &str) -> (call: Invocation)
        ensures
            call@ == spec_end_session(ticket@),
    {
        let args = vec![SafeVariant::from_string(ticket)];
        let call = Invocation {
            method: "EndSession".to_owned(),
            kind: DispatchKind::Method,
            args,
        };
        assert(call@.args =~= spec_end_session(ticket@).args);
        call
    }

    pub fn close_connection() -> (call: Invocation)
        ensures
            call@ == spec_close_connection(),
    {
        let call = Invocation {
            method: "CloseConnection".to_owned(),
            kind: DispatchKind::Method,
            args: Vec::new(),
        };
        assert(call@.args =~= spec_close_connection().args);
        call
    }

    pub fn get_current_company_file_name(ticket: &str) -> (call: Invocation)
        ensures
            call@ == spec_get_current_company_file_name(ticket@),
    {
        let args = vec![SafeVariant::from_string(ticket)];
        let call = Invocation {
            method: "GetCurrentCompanyFileName".to_owned(),
            kind: DispatchKind::Method,
            args,
        };
        assert(call@.args =~= spec_get_current_company_file_name(ticket@).args);
        call
    }
}

} // verus!
