use typst_bridge::decimal::to_decimal;
use typst_bridge::invocation::{build_invocation, CompileRequest};
use typst_bridge::outcome::{CompileError, CompiledPdf};
use typst_bridge::session::{Action, Event, Session, Stage, WriteOutcome};

fn request(template: &str, variables: Option<Vec<(&str, &str)>>, jobs: Option<u32>) -> CompileRequest {
    CompileRequest {
        template: template.to_string(),
        variables: variables.map(|v| {
            v.into_iter()
                .map(|(k, val)| (k.to_string(), val.to_string()))
                .collect()
        }),
        jobs,
    }
}

fn input_flag_count(args: &[String]) -> usize {
    args.iter().filter(|a| a.as_str() == "--input").count()
}

/// Runs a session whose compiler starts, takes its input and exits as given.
fn run(request: CompileRequest, write: WriteOutcome, succeeded: bool, stdout: Vec<u8>, stderr: Vec<u8>)
    -> (Vec<String>, Vec<u8>, Result<CompiledPdf, CompileError>, Stage) {
    let (mut session, args) = Session::start(request);
    let input = match session.step(Event::Spawned) {
        Action::Exchange(bytes) => bytes,
        _ => panic!("expected the input exchange"),
    };
    match session.step(Event::InputDone(write)) {
        Action::AwaitExit => {}
        _ => panic!("expected to await the exit"),
    }
    let reply = match session.step(Event::Exited { succeeded, stdout, stderr }) {
        Action::Respond(r) => r,
        _ => panic!("expected a reply"),
    };
    (args, input, reply, session.stage())
}

#[test]
fn decimal_rendering() {
    assert_eq!(to_decimal(0), "0");
    assert_eq!(to_decimal(4), "4");
    assert_eq!(to_decimal(10), "10");
    assert_eq!(to_decimal(256), "256");
    assert_eq!(to_decimal(u32::MAX), "4294967295");
}

#[test]
fn base_invocation_without_options() {
    let args = build_invocation(&request("x", None, None));
    assert_eq!(args, vec!["compile", "-", "-"]);
}

#[test]
fn named_variable_scenario() {
    let req = request("Hello, #sys.input.name!", Some(vec![("name", "John Doe")]), None);
    let (args, input, reply, stage) = run(req, WriteOutcome::Written, true, b"%PDF-1.7 body".to_vec(), Vec::new());
    assert_eq!(args, vec!["compile", "-", "-", "--input", "name=John Doe"]);
    assert_eq!(input, b"Hello, #sys.input.name!".to_vec());
    assert_eq!(stage, Stage::Succeeded);
    match reply {
        Ok(pdf) => {
            assert_eq!(pdf.status_code(), 200);
            assert_eq!(pdf.into_bytes(), b"%PDF-1.7 body".to_vec());
        }
        Err(_) => panic!("expected a document"),
    }
}

#[test]
fn named_variable_scenario_rejected() {
    let req = request("Hello, #sys.input.name!", Some(vec![("name", "John Doe")]), None);
    let stderr = b"error: unknown variable: name".to_vec();
    let (_, _, reply, stage) = run(req, WriteOutcome::Written, false, b"partial".to_vec(), stderr);
    assert_eq!(stage, Stage::TemplateFailed);
    match reply {
        Err(e) => {
            assert_eq!(e.status_code(), 400);
            assert!(matches!(&e, CompileError::InvalidTemplate(_)));
            assert_eq!(e.into_message(), "error: unknown variable: name");
        }
        Ok(_) => panic!("expected a template error"),
    }
}

#[test]
fn jobs_flag_adjacent_to_value() {
    let args = build_invocation(&request("x", None, Some(4)));
    assert_eq!(args, vec!["compile", "-", "-", "--jobs", "4"]);
    let pos = args.iter().position(|a| a == "--jobs").unwrap();
    assert_eq!(args[pos + 1], "4");
}

#[test]
fn jobs_value_unmodified() {
    let args = build_invocation(&request("x", Some(vec![("a", "b")]), Some(1000)));
    assert_eq!(args, vec!["compile", "-", "-", "--jobs", "1000", "--input", "a=b"]);
    let args = build_invocation(&request("x", Some(vec![("a", "b")]), None));
    assert!(!args.iter().any(|a| a == "--jobs"));
}

#[test]
fn empty_variables_give_no_input_flags() {
    let args = build_invocation(&request("x", Some(vec![]), None));
    assert_eq!(input_flag_count(&args), 0);
    let args = build_invocation(&request("x", None, Some(2)));
    assert_eq!(input_flag_count(&args), 0);
}

#[test]
fn every_variable_becomes_one_input_flag() {
    let vars = vec![("title", "A=B"), ("author", "--input"), ("empty", "")];
    let args = build_invocation(&request("x", Some(vars), Some(3)));
    assert_eq!(input_flag_count(&args), 3);
    assert_eq!(
        args,
        vec!["compile", "-", "-", "--jobs", "3", "--input", "title=A=B", "--input", "author=--input", "--input", "empty="]
    );
}

#[test]
fn same_template_twice_same_invocation_and_input() {
    let first = run(request("= Title", None, None), WriteOutcome::Written, true, vec![7, 8, 9], Vec::new());
    let second = run(request("= Title", None, None), WriteOutcome::Written, true, vec![7, 8, 9], Vec::new());
    assert_eq!(first.0, second.0);
    assert_eq!(first.1, second.1);
    let a = first.2.ok().unwrap().into_bytes();
    let b = second.2.ok().unwrap().into_bytes();
    assert_eq!(a, b);
}

#[test]
fn spawn_failure_is_infrastructure_error() {
    let (mut session, _) = Session::start(request("x", None, None));
    let ev = Event::SpawnFailed("No such file or directory (os error 2)".to_string());
    assert!(session.accepts(&ev));
    match session.step(ev) {
        Action::Respond(Err(e)) => {
            assert_eq!(e.status_code(), 500);
            assert!(matches!(&e, CompileError::IoError(_)));
            assert_eq!(e.into_message(), "No such file or directory (os error 2)");
        }
        _ => panic!("expected an infrastructure error"),
    }
    assert_eq!(session.stage(), Stage::InfrastructureFailed);
    assert!(!session.accepts(&Event::Spawned));
}

#[test]
fn write_failure_is_infrastructure_error() {
    let (mut session, _) = Session::start(request("x", None, None));
    session.step(Event::Spawned);
    match session.step(Event::InputDone(WriteOutcome::Failed("out of memory".to_string()))) {
        Action::Respond(Err(CompileError::IoError(m))) => assert_eq!(m, "out of memory"),
        _ => panic!("expected an infrastructure error"),
    }
    assert_eq!(session.stage(), Stage::InfrastructureFailed);
}

#[test]
fn wait_failure_is_infrastructure_error() {
    let (mut session, _) = Session::start(request("x", None, None));
    session.step(Event::Spawned);
    session.step(Event::InputDone(WriteOutcome::Written));
    match session.step(Event::WaitFailed("interrupted".to_string())) {
        Action::Respond(Err(CompileError::IoError(m))) => assert_eq!(m, "interrupted"),
        _ => panic!("expected an infrastructure error"),
    }
}

#[test]
fn broken_pipe_is_tolerated() {
    let stderr = b"error: unexpected token".to_vec();
    let (_, _, reply, stage) = run(request("#let", None, None), WriteOutcome::ChildClosedInput, false, Vec::new(), stderr);
    assert_eq!(stage, Stage::TemplateFailed);
    match reply {
        Err(CompileError::InvalidTemplate(m)) => assert_eq!(m, "error: unexpected token"),
        _ => panic!("expected a template error"),
    }
}

#[test]
fn diagnostics_decoded_lossily() {
    let stderr = vec![b'b', b'a', b'd', b' ', 0xff, b'!'];
    let (_, _, reply, _) = run(request("x", None, None), WriteOutcome::Written, false, Vec::new(), stderr);
    match reply {
        Err(CompileError::InvalidTemplate(m)) => assert_eq!(m, "bad \u{FFFD}!"),
        _ => panic!("expected a template error"),
    }
}

#[test]
fn unicode_template_written_as_utf8() {
    let (_, input, _, _) = run(request("Grüße, 世界", None, None), WriteOutcome::Written, true, Vec::new(), Vec::new());
    assert_eq!(input, "Grüße, 世界".as_bytes().to_vec());
}

#[test]
fn large_template_and_output_pass_through() {
    let template = "= Heading\n".repeat(400_000);
    let output: Vec<u8> = (0..4_000_000u32).map(|i| (i % 251) as u8).collect();
    let (_, input, reply, _) = run(request(&template, None, None), WriteOutcome::Written, true, output.clone(), Vec::new());
    assert_eq!(input.len(), template.len());
    assert_eq!(input, template.as_bytes().to_vec());
    assert_eq!(reply.ok().unwrap().into_bytes(), output);
}

#[test]
fn events_out_of_order_are_not_accepted() {
    let (mut session, _) = Session::start(request("x", None, None));
    assert_eq!(session.stage(), Stage::InvocationBuilt);
    assert!(!session.accepts(&Event::InputDone(WriteOutcome::Written)));
    session.step(Event::Spawned);
    assert_eq!(session.stage(), Stage::ProcessSpawned);
    assert!(!session.accepts(&Event::Spawned));
    assert!(session.accepts(&Event::InputDone(WriteOutcome::Written)));
    session.step(Event::InputDone(WriteOutcome::Written));
    assert_eq!(session.stage(), Stage::InputWritten);
    assert!(session.accepts(&Event::WaitFailed(String::new())));
}
