use make_trace::messages::{classify_frame, CallFrame, Location, RemoteObject, Scope};
use make_trace::recorder::{RecAction, Recorder, Trace};
use make_trace::resolver::{VarValue, Variable};
use make_trace::wire::Session;

fn scope(name: Option<&str>, object_id: &str) -> Scope {
    Scope {
        name: name.map(|s| s.to_owned()),
        object: RemoteObject {
            kind: "object".to_owned(),
            object_id: Some(object_id.to_owned()),
            value: None,
        },
        kind: "local".to_owned(),
    }
}

fn frame(line: u64, scopes: Vec<Scope>) -> CallFrame {
    CallFrame {
        call_frame_id: "f".to_owned(),
        function_name: "".to_owned(),
        location: Location { column_number: 0, line_number: line, script_id: "s".to_owned() },
        scope_chain: scopes,
        url: "file:///tmp/test.py".to_owned(),
    }
}

fn pause_text(line: u64, scopes: &[(&str, &str)]) -> String {
    let scope_parts: Vec<String> = scopes
        .iter()
        .map(|(name, oid)| {
            format!(
                "{{\"name\": \"{}\", \"object\": {{\"type\": \"object\", \"objectId\": \"{}\"}}, \"type\": \"local\"}}",
                name, oid
            )
        })
        .collect();
    format!(
        "{{\"method\": \"Debugger.paused\", \"params\": {{\"callFrames\": [{{\"callFrameId\": \"f\", \"functionName\": \"\", \"location\": {{\"columnNumber\": 0, \"lineNumber\": {}, \"scriptId\": \"s\"}}, \"scopeChain\": [{}], \"url\": \"file:///tmp/test.py\"}}]}}}}",
        line,
        scope_parts.join(", ")
    )
}

fn response_text(props_json: &str) -> String {
    format!("{{\"id\": 0, \"result\": {{\"result\": [{}]}}}}", props_json)
}

fn scalar_prop(name: &str, text: &str) -> String {
    format!("{{\"name\": \"{}\", \"value\": {{\"type\": \"string\", \"value\": \"{}\"}}}}", name, text)
}

fn ref_prop(name: &str, oid: &str) -> String {
    format!("{{\"name\": \"{}\", \"value\": {{\"type\": \"object\", \"objectId\": \"{}\"}}}}", name, oid)
}

/// Drives the machine against a scripted message stream; returns the sent
/// request texts and the finished trace.
fn drive(src: Vec<String>, frames: Vec<CallFrame>, script: Vec<Option<String>>) -> (Vec<String>, Trace) {
    let mut s = Session::new();
    let mut rec = Recorder::new(src, frames);
    let mut sent: Vec<String> = Vec::new();
    let mut queue = script.into_iter();
    loop {
        match rec.poll(&mut s) {
            RecAction::Continue => {}
            RecAction::Send(t) => sent.push(t),
            RecAction::AwaitMessage => {
                let next = queue.next().expect("the script ran out of messages");
                let m = next.map(|text| classify_frame(&text).expect("script frames must classify"));
                rec.on_message(m);
            }
            RecAction::Done => return (sent, rec.into_trace()),
        }
    }
}

fn vars_of<'a>(t: &'a Trace, step: usize, key: &str) -> &'a Vec<Variable> {
    let entries = &t.steps[step].vars.entries;
    &entries.iter().find(|(k, _)| k == key).expect("missing scope key").1
}

#[test]
fn one_step_with_a_nested_variable_is_recorded_as_specified() {
    // source ["x = 1", "y = 2"], one frame at line 0, one scope "locals"
    // whose properties are {x: "1", y: ref R}, R resolving to {z: "2"}
    let src = vec!["x = 1".to_owned(), "y = 2".to_owned()];
    let frames = vec![frame(0, vec![scope(Some("locals"), "S")])];
    let script = vec![
        Some(response_text(&format!("{}, {}", scalar_prop("x", "1"), ref_prop("y", "R")))),
        Some(response_text(&scalar_prop("z", "2"))),
        None,
    ];
    let (sent, trace) = drive(src.clone(), frames, script);
    assert_eq!(
        sent,
        vec![
            "{\"id\": 0, \"method\":\"Runtime.getProperties\", \"params\":{\"objectId\": \"S\"}}".to_owned(),
            "{\"id\": 1, \"method\":\"Runtime.getProperties\", \"params\":{\"objectId\": \"R\"}}".to_owned(),
            "{\"id\": 2, \"method\":\"Debugger.stepOver\"}".to_owned(),
        ]
    );
    assert_eq!(trace.src, src);
    assert_eq!(trace.steps.len(), 1);
    assert_eq!(trace.steps[0].loc.line_number, 0);
    assert_eq!(trace.steps[0].vars.entries.len(), 1);
    let locals = vars_of(&trace, 0, "locals");
    assert_eq!(locals.len(), 2);
    assert_eq!(locals[0].name, "x");
    match &locals[0].value {
        VarValue::Scalar(s) => assert_eq!(s, "1"),
        _ => panic!("x must be a scalar"),
    }
    assert_eq!(locals[1].name, "y");
    match &locals[1].value {
        VarValue::Nested(children) => {
            assert_eq!(children.len(), 1);
            assert_eq!(children[0].name, "z");
            match &children[0].value {
                VarValue::Scalar(s) => assert_eq!(s, "2"),
                _ => panic!("z must be a scalar"),
            }
        }
        _ => panic!("y must be nested"),
    }
}

#[test]
fn the_first_frames_scope_wins_over_a_later_one_with_the_same_name() {
    let frames = vec![
        frame(0, vec![scope(Some("locals"), "A")]),
        frame(3, vec![scope(Some("locals"), "B")]),
    ];
    let script = vec![
        Some(response_text(&scalar_prop("a", "1"))),
        Some(response_text(&scalar_prop("b", "2"))),
        None,
    ];
    let (sent, trace) = drive(vec!["l".to_owned()], frames, script);
    // the duplicate scope is still fetched once, but its variables are
    // discarded without resolution
    assert_eq!(sent.len(), 3);
    assert!(sent[0].contains("\"objectId\": \"A\""));
    assert!(sent[1].contains("\"objectId\": \"B\""));
    assert!(sent[2].contains("Debugger.stepOver"));
    assert_eq!(trace.steps.len(), 1);
    assert_eq!(trace.steps[0].vars.entries.len(), 1);
    let locals = vars_of(&trace, 0, "locals");
    assert_eq!(locals.len(), 1);
    assert_eq!(locals[0].name, "a");
}

#[test]
fn excluded_scopes_are_neither_fetched_nor_recorded() {
    let frames = vec![frame(
        0,
        vec![
            scope(Some("builtins"), "X"),
            scope(Some("__main__"), "Y"),
            scope(Some("<module foo>"), "Z"),
            scope(Some("locals"), "S"),
        ],
    )];
    let script = vec![Some(response_text(&scalar_prop("x", "1"))), None];
    let (sent, trace) = drive(vec!["l".to_owned()], frames, script);
    assert_eq!(sent.len(), 2);
    assert!(sent[0].contains("\"objectId\": \"S\""));
    assert!(sent[1].contains("Debugger.stepOver"));
    assert_eq!(trace.steps[0].vars.entries.len(), 1);
    assert_eq!(trace.steps[0].vars.entries[0].0, "locals");
}

#[test]
fn an_unnamed_scope_is_skipped() {
    let frames = vec![frame(0, vec![scope(None, "X")])];
    let script = vec![None];
    let (sent, trace) = drive(vec!["l".to_owned()], frames, script);
    assert_eq!(sent.len(), 1);
    assert!(sent[0].contains("Debugger.stepOver"));
    assert_eq!(trace.steps.len(), 1);
    assert!(trace.steps[0].vars.entries.is_empty());
}

#[test]
fn stream_end_mid_step_keeps_exactly_the_complete_steps() {
    let src = vec!["x = 1".to_owned(), "y = 2".to_owned()];
    let frames = vec![frame(0, vec![scope(Some("locals"), "A")])];
    let script = vec![
        // step one completes
        Some(response_text(&scalar_prop("x", "1"))),
        // the next pause arrives at line 1
        Some(pause_text(1, &[("locals", "B")])),
        Some(response_text(&scalar_prop("y", "2"))),
        // a third pause begins, but the stream ends during its scope fetch
        Some(pause_text(1, &[("locals", "C")])),
        None,
    ];
    let (sent, trace) = drive(src.clone(), frames, script);
    assert_eq!(trace.steps.len(), 2);
    assert_eq!(trace.src, src);
    assert_eq!(trace.steps[0].loc.line_number, 0);
    assert_eq!(trace.steps[1].loc.line_number, 1);
    // the fetch for the abandoned third step was issued, then nothing more
    assert!(sent.last().unwrap().contains("\"objectId\": \"C\""));
}

#[test]
fn stream_end_while_awaiting_a_pause_finishes_cleanly() {
    let frames = vec![frame(0, vec![])];
    let script = vec![None];
    let (sent, trace) = drive(vec!["l".to_owned()], frames, script);
    assert_eq!(sent.len(), 1);
    assert_eq!(trace.steps.len(), 1);
}

#[test]
fn a_failed_property_fetch_ends_the_session_without_a_partial_step() {
    let frames = vec![frame(0, vec![scope(Some("locals"), "A")])];
    // the reply to the scope fetch has no result array
    let script = vec![Some("{\"id\": 0, \"result\": {}}".to_owned())];
    let (sent, trace) = drive(vec!["l".to_owned()], frames, script);
    assert_eq!(sent.len(), 1);
    assert!(trace.steps.is_empty());
}

#[test]
fn a_non_response_during_a_fetch_ends_the_session() {
    let frames = vec![frame(0, vec![scope(Some("locals"), "A")])];
    let script = vec![Some(pause_text(4, &[("locals", "B")]))];
    let (_, trace) = drive(vec!["l".to_owned()], frames, script);
    assert!(trace.steps.is_empty());
}

#[test]
fn unusable_messages_while_awaiting_a_pause_are_skipped() {
    let frames = vec![frame(0, vec![])];
    let script = vec![
        // a response, an unrelated event, and a malformed pause: none ends
        // the wait
        Some("{\"id\": 7, \"result\": {}}".to_owned()),
        Some("{\"method\": \"Debugger.scriptParsed\", \"params\": {}}".to_owned()),
        Some("{\"method\": \"Debugger.paused\", \"params\": {}}".to_owned()),
        // the real pause
        Some(pause_text(1, &[])),
        None,
    ];
    let (_, trace) = drive(vec!["l".to_owned()], frames, script);
    assert_eq!(trace.steps.len(), 2);
    assert_eq!(trace.steps[1].loc.line_number, 1);
}
