use quickbooks_sheets_sync::dispatch::{
    DispatchError, DispatchInvoker, ExcepInfo, Invocation, InvokeError, InvokeStep,
    MethodResolver, LOCALE_ENGLISH_US,
};
use quickbooks_sheets_sync::file_mode::FileMode;
use quickbooks_sheets_sync::lifecycle::{
    begin_session_attempts, CandidateFailure, ConnectionHandle, ConnectionLifecycle, Event,
    LifecycleError, LifecycleState, Outcome, Pending, RequestProcessor2, SessionAttempt,
    SessionStateError, Step,
};
use quickbooks_sheets_sync::protocol::QbxmlRequestProcessor;
use quickbooks_sheets_sync::safe_variant::{SafeVariant, TypeMismatch, VariantTag};

/// A server that is scripted: which classes exist, which methods fail, and
/// a record of everything it was asked to do.
struct FakeServer {
    classes: Vec<&'static str>,
    failing: Vec<&'static str>,
    failing_modes: Vec<i32>,
    instantiated: Vec<String>,
    invoked: Vec<Invocation>,
    lookups: u32,
    resolver: MethodResolver,
}

impl FakeServer {
    fn new(classes: &[&'static str]) -> Self {
        FakeServer {
            classes: classes.to_vec(),
            failing: Vec::new(),
            failing_modes: Vec::new(),
            instantiated: Vec::new(),
            invoked: Vec::new(),
            lookups: 0,
            resolver: MethodResolver::new(LOCALE_ENGLISH_US),
        }
    }

    fn count(&self, method: &str) -> usize {
        self.invoked.iter().filter(|c| c.method == method).count()
    }

    fn instantiate(&mut self, class: String) -> Event {
        let known = self.classes.iter().any(|c| *c == class);
        self.instantiated.push(class);
        if known {
            Event::Instantiated { object: 41 }
        } else {
            Event::InstantiateFailed { status: -2147221005 }
        }
    }

    fn perform(&mut self, call: &Invocation) -> (i32, SafeVariant) {
        self.invoked.push(call.clone());
        let mode_refused = call.method == "BeginSession"
            && call.args.get(1).and_then(|m| m.to_i32()).map_or(false, |m| self.failing_modes.contains(&m));
        if self.failing.iter().any(|m| *m == call.method) || mode_refused {
            return (-2147352567, SafeVariant::new());
        }
        match call.method.as_str() {
            "BeginSession" => (0, SafeVariant::from_string("ticket-1")),
            "ProcessRequest" => (0, SafeVariant::from_string("<QBXML/>")),
            "GetCurrentCompanyFileName" => (0, SafeVariant::from_string("C:\\Books.qbw")),
            _ => (0, SafeVariant::new()),
        }
    }

    fn invoke(&mut self, object: u64, call: &Invocation) -> Event {
        let step = match DispatchInvoker::start(&self.resolver, object, call) {
            Ok(InvokeStep::Lookup { .. }) => {
                self.lookups += 1;
                DispatchInvoker::resolved(&mut self.resolver, object, call, Ok(self.lookups as i32))
            }
            other => other,
        };
        match step {
            Ok(InvokeStep::Call { .. }) => {
                let (status, value) = self.perform(call);
                let excepinfo = ExcepInfo {
                    w_code: 0,
                    source: Some("fake".to_string()),
                    description: Some(format!("{} refused", call.method)),
                    scode: status,
                };
                match DispatchInvoker::finish(status, &value.to_winvariant(), &excepinfo) {
                    Ok(value) => Event::Returned { value },
                    Err(error) => Event::Failed { error },
                }
            }
            Ok(InvokeStep::Lookup { .. }) => unreachable!(),
            Err(error) => Event::Failed { error },
        }
    }
}

fn drive(lifecycle: &mut ConnectionLifecycle, server: &mut FakeServer, first: Step) -> Outcome {
    let mut step = first;
    loop {
        step = match step {
            Step::Instantiate { candidate } => {
                let class = lifecycle.candidate_class(candidate).unwrap();
                let event = server.instantiate(class);
                lifecycle.advance(event)
            }
            Step::Invoke { object, call } => {
                let event = server.invoke(object, &call);
                lifecycle.advance(event)
            }
            Step::Done { outcome } => return outcome,
        };
    }
}

fn abc() -> ConnectionLifecycle {
    ConnectionLifecycle::new(vec!["A".to_string(), "B".to_string(), "C".to_string()])
}

fn connected(server: &mut FakeServer) -> ConnectionLifecycle {
    let mut lifecycle = abc();
    let step = lifecycle.connect("app-id", "App Name").unwrap();
    let outcome = drive(&mut lifecycle, server, step);
    assert!(matches!(outcome, Outcome::Connected { .. }), "{outcome:?}");
    lifecycle
}

fn refused(method: &str, status: i32) -> InvokeError {
    InvokeError::Invocation(DispatchError {
        code: status,
        description: format!("{method} refused"),
        source: "fake".to_string(),
        scode: status,
    })
}

#[test]
fn candidate_fallback() {
    let mut server = FakeServer::new(&["B"]);
    let mut lifecycle = abc();
    let step = lifecycle.connect("id", "name").unwrap();
    assert_eq!(step, Step::Instantiate { candidate: 0 });
    let outcome = drive(&mut lifecycle, &mut server, step);
    assert_eq!(outcome, Outcome::Connected { candidate: 1 });
    assert_eq!(server.instantiated, vec!["A".to_string(), "B".to_string()]);
    assert_eq!(lifecycle.connection(), Some(ConnectionHandle { candidate: 1, object: 41 }));
    assert_eq!(lifecycle.state(), LifecycleState::Connected);
    assert_eq!(
        lifecycle.failures(),
        vec![CandidateFailure { candidate: 0, status: -2147221005 }]
    );
}

#[test]
fn candidate_fallback_prefers_the_first() {
    let mut server = FakeServer::new(&["A", "B", "C"]);
    let lifecycle = connected(&mut server);
    assert_eq!(server.instantiated, vec!["A".to_string()]);
    assert_eq!(lifecycle.connection().unwrap().candidate, 0);
}

#[test]
fn candidates_exhausted() {
    let mut server = FakeServer::new(&[]);
    let mut lifecycle = abc();
    let step = lifecycle.connect("id", "name").unwrap();
    let outcome = drive(&mut lifecycle, &mut server, step);
    assert_eq!(
        outcome,
        Outcome::Failed {
            error: LifecycleError::CandidateExhausted {
                causes: vec![
                    CandidateFailure { candidate: 0, status: -2147221005 },
                    CandidateFailure { candidate: 1, status: -2147221005 },
                    CandidateFailure { candidate: 2, status: -2147221005 },
                ]
            }
        }
    );
    assert_eq!(server.instantiated.len(), 3);
    assert_eq!(lifecycle.state(), LifecycleState::Disconnected);
    assert_eq!(lifecycle.connection(), None);
    assert!(server.invoked.is_empty());
}

#[test]
fn no_candidates_at_all() {
    let mut lifecycle = ConnectionLifecycle::new(Vec::new());
    assert_eq!(
        lifecycle.connect("id", "name"),
        Ok(Step::Done {
            outcome: Outcome::Failed {
                error: LifecycleError::CandidateExhausted { causes: Vec::new() }
            }
        })
    );
    assert_eq!(lifecycle.candidate_count(), 0);
    assert_eq!(lifecycle.candidate_class(0), None);
}

#[test]
fn a_null_object_counts_as_a_failure() {
    let mut lifecycle = abc();
    lifecycle.connect("id", "name").unwrap();
    let step = lifecycle.advance(Event::Instantiated { object: 0 });
    assert_eq!(step, Step::Instantiate { candidate: 1 });
    assert_eq!(lifecycle.failures(), vec![CandidateFailure { candidate: 0, status: 0 }]);
}

#[test]
fn open_connection_arguments() {
    let mut server = FakeServer::new(&["A"]);
    connected(&mut server);
    assert_eq!(server.invoked.len(), 1);
    assert_eq!(server.invoked[0], QbxmlRequestProcessor::open_connection("app-id", "App Name"));
    assert_eq!(server.invoked[0].method, "OpenConnection");
    assert_eq!(
        server.invoked[0].args,
        vec![SafeVariant::from_string("app-id"), SafeVariant::from_string("App Name")]
    );
}

#[test]
fn open_connection_falls_back_to_the_newer_call() {
    let mut server = FakeServer::new(&["A"]);
    server.failing.push("OpenConnection");
    let lifecycle = connected(&mut server);
    assert_eq!(lifecycle.state(), LifecycleState::Connected);
    assert_eq!(server.invoked.len(), 2);
    assert_eq!(server.invoked[1].method, "OpenConnection2");
    assert_eq!(
        server.invoked[1].args,
        vec![
            SafeVariant::from_string("app-id"),
            SafeVariant::from_string("App Name"),
            SafeVariant::from_string("localQBD"),
        ]
    );
}

#[test]
fn open_connection_exhausts_its_alternates() {
    let mut server = FakeServer::new(&["A"]);
    server.failing.push("OpenConnection");
    server.failing.push("OpenConnection2");
    let mut lifecycle = abc();
    let step = lifecycle.connect("id", "name").unwrap();
    let outcome = drive(&mut lifecycle, &mut server, step);
    assert_eq!(
        outcome,
        Outcome::Failed {
            error: LifecycleError::Invocation(refused("OpenConnection2", -2147352567))
        }
    );
    assert_eq!(server.invoked.len(), 8);
    let kinds: Vec<SafeVariant> =
        server.invoked[1..].iter().map(|c| c.args[2].clone()).collect();
    assert_eq!(
        kinds,
        vec![
            SafeVariant::from_string("localQBD"),
            SafeVariant::from_string("qbLocalQBD"),
            SafeVariant::from_string("LocalQBD"),
            SafeVariant::from_i32(1),
            SafeVariant::from_i32(0),
            SafeVariant::from_i32(2),
            SafeVariant::from_i32(-1),
        ]
    );
    assert_eq!(lifecycle.state(), LifecycleState::Disconnected);
    assert!(lifecycle.connection().is_some());
    let step = lifecycle.teardown();
    assert_eq!(drive(&mut lifecycle, &mut server, step), Outcome::Disconnected);
    assert_eq!(server.count("CloseConnection"), 1);
    assert_eq!(lifecycle.connection(), None);
}

#[test]
fn full_lifecycle() {
    let mut server = FakeServer::new(&["A"]);
    let mut lifecycle = connected(&mut server);

    let step = lifecycle.begin_session("AUTO", FileMode::DoNotCare, &Vec::new()).unwrap();
    assert_eq!(drive(&mut lifecycle, &mut server, step), Outcome::SessionStarted);
    assert_eq!(lifecycle.state(), LifecycleState::SessionActive);
    assert_eq!(lifecycle.ticket(), Some("ticket-1".to_string()));

    let step = lifecycle.process_request("<QBXML>query</QBXML>").unwrap();
    assert_eq!(
        drive(&mut lifecycle, &mut server, step),
        Outcome::Response { payload: SafeVariant::from_string("<QBXML/>") }
    );
    let step = lifecycle.get_current_company_file_name().unwrap();
    assert_eq!(
        drive(&mut lifecycle, &mut server, step),
        Outcome::Response { payload: SafeVariant::from_string("C:\\Books.qbw") }
    );

    let step = lifecycle.end_session().unwrap();
    assert_eq!(lifecycle.ticket(), None);
    assert_eq!(drive(&mut lifecycle, &mut server, step), Outcome::SessionEnded);
    assert_eq!(lifecycle.state(), LifecycleState::Ended);

    let step = lifecycle.close_connection().unwrap();
    assert_eq!(drive(&mut lifecycle, &mut server, step), Outcome::Disconnected);
    assert_eq!(lifecycle.state(), LifecycleState::Disconnected);
    assert_eq!(lifecycle.connection(), None);

    let methods: Vec<&str> = server.invoked.iter().map(|c| c.method.as_str()).collect();
    assert_eq!(
        methods,
        vec![
            "OpenConnection",
            "BeginSession",
            "ProcessRequest",
            "GetCurrentCompanyFileName",
            "EndSession",
            "CloseConnection"
        ]
    );
    assert_eq!(
        server.invoked[2].args,
        vec![SafeVariant::from_string("ticket-1"), SafeVariant::from_string("<QBXML>query</QBXML>")]
    );
    assert_eq!(server.invoked[4].args, vec![SafeVariant::from_string("ticket-1")]);
    assert!(server.invoked[5].args.is_empty());
    assert_eq!(server.lookups, 6);
}

#[test]
fn teardown_guarantee() {
    let mut server = FakeServer::new(&["A"]);
    server.failing.push("BeginSession");
    let mut lifecycle = connected(&mut server);
    let fallbacks = vec![
        SessionAttempt { company_file: "AUTO".to_string(), file_mode: FileMode::MultiUser },
        SessionAttempt { company_file: "AUTO".to_string(), file_mode: FileMode::SingleUser },
    ];
    let step = lifecycle.begin_session("AUTO", FileMode::DoNotCare, &fallbacks).unwrap();
    let outcome = drive(&mut lifecycle, &mut server, step);
    assert_eq!(
        outcome,
        Outcome::Failed { error: LifecycleError::Invocation(refused("BeginSession", -2147352567)) }
    );
    assert_eq!(server.count("BeginSession"), 3);
    assert_eq!(lifecycle.state(), LifecycleState::Connected);
    assert_eq!(lifecycle.ticket(), None);

    let step = lifecycle.teardown();
    assert_eq!(drive(&mut lifecycle, &mut server, step), Outcome::Disconnected);
    assert_eq!(server.count("CloseConnection"), 1);
    assert_eq!(server.count("EndSession"), 0);
    assert_eq!(lifecycle.state(), LifecycleState::Disconnected);
    assert_eq!(lifecycle.connection(), None);

    let step = lifecycle.teardown();
    assert_eq!(step, Step::Done { outcome: Outcome::Disconnected });
    assert_eq!(server.count("CloseConnection"), 1);
}

#[test]
fn teardown_ends_the_session_first() {
    let mut server = FakeServer::new(&["A"]);
    let mut lifecycle = connected(&mut server);
    let step = lifecycle.begin_session("", FileMode::DoNotCare, &Vec::new()).unwrap();
    drive(&mut lifecycle, &mut server, step);
    server.invoked.clear();

    let step = lifecycle.teardown();
    assert_eq!(drive(&mut lifecycle, &mut server, step), Outcome::Disconnected);
    assert_eq!(
        server.invoked,
        vec![
            QbxmlRequestProcessor::end_session("ticket-1"),
            QbxmlRequestProcessor::close_connection()
        ]
    );
    assert_eq!(lifecycle.swallowed_count(), 0);
}

#[test]
fn teardown_swallows_errors_and_goes_on() {
    let mut server = FakeServer::new(&["A"]);
    let mut lifecycle = connected(&mut server);
    let step = lifecycle.begin_session("", FileMode::DoNotCare, &Vec::new()).unwrap();
    drive(&mut lifecycle, &mut server, step);
    server.failing.push("EndSession");
    server.failing.push("CloseConnection");

    let step = lifecycle.teardown();
    assert_eq!(drive(&mut lifecycle, &mut server, step), Outcome::Disconnected);
    assert_eq!(server.count("EndSession"), 1);
    assert_eq!(server.count("CloseConnection"), 1);
    assert_eq!(lifecycle.state(), LifecycleState::Disconnected);
    assert_eq!(lifecycle.connection(), None);
    assert_eq!(lifecycle.ticket(), None);
    assert_eq!(lifecycle.swallowed_count(), 2);
    assert_eq!(lifecycle.swallowed_error(0), Some(refused("EndSession", -2147352567)));
    assert_eq!(lifecycle.swallowed_error(1), Some(refused("CloseConnection", -2147352567)));
    assert_eq!(lifecycle.swallowed_error(2), None);
}

#[test]
fn argument_order_fidelity() {
    for (file, selector) in [("AUTO", ""), ("", ""), ("C:\\Books.qbw", "C:\\Books.qbw")] {
        for (mode, code) in [
            (FileMode::SingleUser, 1),
            (FileMode::MultiUser, 2),
            (FileMode::DoNotCare, 2),
            (FileMode::Online, 3),
        ] {
            let call = QbxmlRequestProcessor::begin_session(file, mode);
            assert_eq!(call.method, "BeginSession");
            assert_eq!(
                call.args,
                vec![SafeVariant::from_string(selector), SafeVariant::from_i32(code)]
            );
        }
    }
}

#[test]
fn argument_order_fidelity_on_every_path() {
    let mut server = FakeServer::new(&["A"]);
    server.failing_modes = vec![2, 3];
    let mut lifecycle = connected(&mut server);
    server.invoked.clear();
    let fallbacks = vec![
        SessionAttempt { company_file: "C:\\Books.qbw".to_string(), file_mode: FileMode::Online },
        SessionAttempt { company_file: "AUTO".to_string(), file_mode: FileMode::SingleUser },
    ];
    let step = lifecycle.begin_session("C:\\Books.qbw", FileMode::DoNotCare, &fallbacks).unwrap();
    assert_eq!(drive(&mut lifecycle, &mut server, step), Outcome::SessionStarted);
    let recorded: Vec<Vec<SafeVariant>> = server.invoked.iter().map(|c| c.args.clone()).collect();
    assert_eq!(
        recorded,
        vec![
            vec![SafeVariant::from_string("C:\\Books.qbw"), SafeVariant::from_i32(2)],
            vec![SafeVariant::from_string("C:\\Books.qbw"), SafeVariant::from_i32(3)],
            vec![SafeVariant::from_string(""), SafeVariant::from_i32(1)],
        ]
    );
    assert!(server.invoked.iter().all(|c| c.method == "BeginSession"));
}

#[test]
fn single_active_session() {
    let mut server = FakeServer::new(&["A"]);
    let mut lifecycle = connected(&mut server);
    let step = lifecycle.begin_session("", FileMode::DoNotCare, &Vec::new()).unwrap();
    drive(&mut lifecycle, &mut server, step);
    let calls_before = server.invoked.len();

    assert_eq!(
        lifecycle.begin_session("", FileMode::DoNotCare, &Vec::new()),
        Err(SessionStateError::SessionActive)
    );
    assert_eq!(
        lifecycle.begin_session("C:\\Other.qbw", FileMode::SingleUser, &Vec::new()),
        Err(SessionStateError::SessionActive)
    );
    assert_eq!(server.invoked.len(), calls_before);
    assert_eq!(lifecycle.pending(), Pending::Idle);
    assert_eq!(lifecycle.ticket(), Some("ticket-1".to_string()));
    assert_eq!(lifecycle.close_connection(), Err(SessionStateError::SessionActive));
    assert_eq!(lifecycle.connect("id", "name"), Err(SessionStateError::AlreadyConnected));
}

#[test]
fn operations_out_of_order_are_refused() {
    let mut lifecycle = abc();
    assert_eq!(
        lifecycle.begin_session("", FileMode::DoNotCare, &Vec::new()),
        Err(SessionStateError::NotConnected)
    );
    assert_eq!(lifecycle.process_request("x"), Err(SessionStateError::NoSession));
    assert_eq!(lifecycle.get_current_company_file_name(), Err(SessionStateError::NoSession));
    assert_eq!(lifecycle.end_session(), Err(SessionStateError::NoSession));
    assert_eq!(lifecycle.close_connection(), Err(SessionStateError::NotConnected));
    assert_eq!(
        lifecycle.advance(Event::Returned { value: SafeVariant::new() }),
        Step::Done { outcome: Outcome::Failed { error: LifecycleError::UnexpectedEvent } }
    );

    lifecycle.connect("id", "name").unwrap();
    assert_eq!(lifecycle.connect("id", "name"), Err(SessionStateError::Busy));
    assert_eq!(lifecycle.process_request("x"), Err(SessionStateError::Busy));
    assert_eq!(lifecycle.end_session(), Err(SessionStateError::Busy));
    assert_eq!(lifecycle.close_connection(), Err(SessionStateError::Busy));
    assert_eq!(
        lifecycle.begin_session("", FileMode::DoNotCare, &Vec::new()),
        Err(SessionStateError::Busy)
    );
    assert_eq!(
        lifecycle.advance(Event::Returned { value: SafeVariant::new() }),
        Step::Done { outcome: Outcome::Failed { error: LifecycleError::UnexpectedEvent } }
    );
    assert_eq!(lifecycle.pending(), Pending::Instantiating { candidate: 0 });
}

#[test]
fn ticket_is_invalid_after_a_failed_end_session() {
    let mut server = FakeServer::new(&["A"]);
    let mut lifecycle = connected(&mut server);
    let step = lifecycle.begin_session("", FileMode::DoNotCare, &Vec::new()).unwrap();
    drive(&mut lifecycle, &mut server, step);
    server.failing.push("EndSession");

    let step = lifecycle.end_session().unwrap();
    let outcome = drive(&mut lifecycle, &mut server, step);
    assert_eq!(
        outcome,
        Outcome::Failed { error: LifecycleError::Invocation(refused("EndSession", -2147352567)) }
    );
    assert_eq!(lifecycle.ticket(), None);
    assert_eq!(lifecycle.state(), LifecycleState::Ended);
    assert_eq!(lifecycle.process_request("x"), Err(SessionStateError::NoSession));
    assert_eq!(lifecycle.end_session(), Err(SessionStateError::NoSession));

    let step = lifecycle.close_connection().unwrap();
    assert_eq!(drive(&mut lifecycle, &mut server, step), Outcome::Disconnected);
    assert_eq!(server.count("CloseConnection"), 1);
}

#[test]
fn close_failure_still_disconnects() {
    let mut server = FakeServer::new(&["A"]);
    let mut lifecycle = connected(&mut server);
    server.failing.push("CloseConnection");
    let step = lifecycle.close_connection().unwrap();
    let outcome = drive(&mut lifecycle, &mut server, step);
    assert_eq!(
        outcome,
        Outcome::Failed {
            error: LifecycleError::Invocation(refused("CloseConnection", -2147352567))
        }
    );
    assert_eq!(lifecycle.state(), LifecycleState::Disconnected);
    assert_eq!(lifecycle.connection(), None);
}

#[test]
fn begin_session_needs_a_ticket_string() {
    let mut server = FakeServer::new(&["A"]);
    let mut lifecycle = connected(&mut server);
    lifecycle.begin_session("", FileMode::DoNotCare, &Vec::new()).unwrap();
    let step = lifecycle.advance(Event::Returned { value: SafeVariant::from_i32(5) });
    assert_eq!(
        step,
        Step::Done {
            outcome: Outcome::Failed {
                error: LifecycleError::TypeMismatch(TypeMismatch {
                    expected: VariantTag::String,
                    found: VariantTag::Int32
                })
            }
        }
    );
    assert_eq!(lifecycle.state(), LifecycleState::Connected);
    assert_eq!(lifecycle.ticket(), None);
}

#[test]
fn request_failure_keeps_the_session() {
    let mut server = FakeServer::new(&["A"]);
    let mut lifecycle = connected(&mut server);
    let step = lifecycle.begin_session("", FileMode::DoNotCare, &Vec::new()).unwrap();
    drive(&mut lifecycle, &mut server, step);
    server.failing.push("ProcessRequest");
    let step = lifecycle.process_request("x").unwrap();
    let outcome = drive(&mut lifecycle, &mut server, step);
    assert!(matches!(outcome, Outcome::Failed { error: LifecycleError::Invocation(_) }));
    assert_eq!(server.count("ProcessRequest"), 1);
    assert_eq!(lifecycle.state(), LifecycleState::SessionActive);
    assert_eq!(lifecycle.ticket(), Some("ticket-1".to_string()));
}

#[test]
fn reconnect_after_teardown() {
    let mut server = FakeServer::new(&["C"]);
    let mut lifecycle = connected(&mut server);
    let step = lifecycle.teardown();
    drive(&mut lifecycle, &mut server, step);
    let step = lifecycle.connect("id", "name").unwrap();
    assert_eq!(drive(&mut lifecycle, &mut server, step), Outcome::Connected { candidate: 2 });
    assert_eq!(server.instantiated, vec!["A", "B", "C", "A", "B", "C"]);
    assert_eq!(lifecycle.failures().len(), 2);
}

#[test]
fn session_attempts_follow_the_configured_mode() {
    let pairs = |attempts: Vec<SessionAttempt>| -> Vec<(String, FileMode)> {
        attempts.into_iter().map(|a| (a.company_file, a.file_mode)).collect()
    };
    let file = "C:\\Books.qbw";
    let f = file.to_string();
    let e = String::new();
    assert_eq!(
        pairs(begin_session_attempts(file, Some("multi-user"))),
        vec![
            (e.clone(), FileMode::MultiUser),
            (e.clone(), FileMode::DoNotCare),
            (e.clone(), FileMode::SingleUser),
            (f.clone(), FileMode::MultiUser),
            (f.clone(), FileMode::DoNotCare),
            (f.clone(), FileMode::SingleUser),
        ]
    );
    let single_first = vec![
        (e.clone(), FileMode::SingleUser),
        (e.clone(), FileMode::DoNotCare),
        (e.clone(), FileMode::MultiUser),
        (f.clone(), FileMode::SingleUser),
        (f.clone(), FileMode::DoNotCare),
        (f.clone(), FileMode::MultiUser),
    ];
    assert_eq!(pairs(begin_session_attempts(file, Some("single-user"))), single_first);
    assert_eq!(pairs(begin_session_attempts(file, Some("auto"))), single_first);
    assert_eq!(pairs(begin_session_attempts(file, None)), single_first);
}

#[test]
fn server_families() {
    let lifecycle = RequestProcessor2::new();
    assert_eq!(lifecycle.candidate_count(), 4);
    assert_eq!(lifecycle.candidate_class(0), Some("QBFC16.QBSessionManager".to_string()));
    assert_eq!(lifecycle.candidate_class(3), Some("QBFC13.QBSessionManager".to_string()));
    let lifecycle = QbxmlRequestProcessor::new();
    assert_eq!(lifecycle.candidate_count(), 1);
    assert_eq!(lifecycle.candidate_class(0), Some("QBXMLRP2.RequestProcessor".to_string()));
    assert_eq!(lifecycle.state(), LifecycleState::Disconnected);
    assert_eq!(lifecycle.pending(), Pending::Idle);
}

#[test]
fn interface_calls() {
    let call = QbxmlRequestProcessor::open_connection2("id", "name", SafeVariant::from_i32(1));
    assert_eq!(call.method, "OpenConnection2");
    assert_eq!(
        call.args,
        vec![
            SafeVariant::from_string("id"),
            SafeVariant::from_string("name"),
            SafeVariant::from_i32(1)
        ]
    );
    let call = QbxmlRequestProcessor::process_request("t", "r");
    assert_eq!(call.args, vec![SafeVariant::from_string("t"), SafeVariant::from_string("r")]);
    let call = QbxmlRequestProcessor::get_current_company_file_name("t");
    assert_eq!(call.method, "GetCurrentCompanyFileName");
    assert_eq!(call.args, vec![SafeVariant::from_string("t")]);
    assert_eq!(QbxmlRequestProcessor::close_connection().method, "CloseConnection");
    assert_eq!(FileMode::DoNotCare.code(), 2);
}
