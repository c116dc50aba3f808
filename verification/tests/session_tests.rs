use make_trace::handshake::Initializer;
use make_trace::messages::{CallFrame, Location, MsgType, RemoteObject, Response, Scope};
use make_trace::seeder::Seeder;
use make_trace::skipper::Skipper;
use make_trace::wire::Session;

fn a_response() -> MsgType {
    MsgType::Response(Response { result: serde_json::from_str("{}").unwrap(), id: 0 })
}

fn an_event(method: &str) -> MsgType {
    let e = make_trace::messages::Event {
        method: method.to_owned(),
        params: serde_json::from_str("{}").unwrap(),
    };
    if method == "Debugger.paused" {
        MsgType::PauseEvent(e)
    } else {
        MsgType::OtherEvent(e)
    }
}

fn frame_with_url(url: &str) -> CallFrame {
    CallFrame {
        call_frame_id: "f".to_owned(),
        function_name: "".to_owned(),
        location: Location { column_number: 0, line_number: 0, script_id: "s".to_owned() },
        scope_chain: Vec::new(),
        url: url.to_owned(),
    }
}

#[test]
fn handshake_sends_three_commands_in_order_each_awaited() {
    let mut s = Session::new();
    let mut init = Initializer::new();
    let mut sent: Vec<String> = Vec::new();
    while !init.done() {
        match init.poll(&mut s) {
            Some(t) => sent.push(t),
            None => {
                // an event does not satisfy the wait; a response does
                init.on_message(&an_event("Debugger.scriptParsed"));
                init.on_message(&a_response());
            }
        }
    }
    assert_eq!(
        sent,
        vec![
            "{\"id\": 0, \"method\":\"Runtime.enable\"}".to_owned(),
            "{\"id\": 1, \"method\":\"Debugger.enable\"}".to_owned(),
            "{\"id\": 2, \"method\":\"Runtime.runIfWaitingForDebugger\"}".to_owned(),
        ]
    );
}

#[test]
fn handshake_does_not_pipeline() {
    let mut s = Session::new();
    let mut init = Initializer::new();
    assert!(init.poll(&mut s).is_some());
    // while the first command is unanswered, nothing further is issued
    assert!(init.poll(&mut s).is_none());
    assert!(init.poll(&mut s).is_none());
    init.on_message(&a_response());
    assert!(init.poll(&mut s).is_some());
}

#[test]
fn seeder_requests_every_line_ascending_one_awaited_at_a_time() {
    let mut s = Session::new();
    let mut sd = Seeder::new("test.py".to_owned(), 3);
    let mut sent: Vec<String> = Vec::new();
    while !sd.done() {
        match sd.poll(&mut s) {
            Some(t) => {
                // strictly serial: no second request before the response
                assert!(sd.poll(&mut s).is_none());
                sent.push(t);
            }
            None => sd.on_message(&a_response()),
        }
    }
    assert_eq!(
        sent,
        vec![
            "{\"id\": 0, \"method\":\"Debugger.setBreakpointByUrl\", \"params\":{\"lineNumber\": 0, \"urlRegex\": \".*test.py\"}}".to_owned(),
            "{\"id\": 1, \"method\":\"Debugger.setBreakpointByUrl\", \"params\":{\"lineNumber\": 1, \"urlRegex\": \".*test.py\"}}".to_owned(),
            "{\"id\": 2, \"method\":\"Debugger.setBreakpointByUrl\", \"params\":{\"lineNumber\": 2, \"urlRegex\": \".*test.py\"}}".to_owned(),
        ]
    );
}

#[test]
fn seeder_with_no_lines_sends_nothing() {
    let mut s = Session::new();
    let mut sd = Seeder::new("test.py".to_owned(), 0);
    assert!(sd.done());
    assert!(sd.poll(&mut s).is_none());
    assert_eq!(s.next_id, 0);
}

#[test]
fn seeder_ignores_events_while_waiting() {
    let mut s = Session::new();
    let mut sd = Seeder::new("test.py".to_owned(), 2);
    assert!(sd.poll(&mut s).is_some());
    sd.on_message(&an_event("Debugger.scriptParsed"));
    assert!(sd.poll(&mut s).is_none());
    sd.on_message(&a_response());
    assert!(sd.poll(&mut s).is_some());
}

#[test]
fn skipper_stops_on_the_first_pause_inside_the_target_file() {
    let mut s = Session::new();
    let mut sk = Skipper::new("test.py".to_owned());
    let urls = ["lib.js", "lib.js", "test.py"];
    let mut steps_sent = 0;
    let mut reached: Option<String> = None;
    let mut i = 0;
    while !sk.done() {
        match sk.poll(&mut s) {
            Some(_t) => steps_sent += 1,
            None => {
                let frames = vec![frame_with_url(urls[i])];
                if sk.on_paused(&frames) {
                    reached = Some(frames[0].url.clone());
                }
                i += 1;
            }
        }
    }
    assert_eq!(steps_sent, 3);
    assert_eq!(reached.as_deref(), Some("test.py"));
    // once found, no further step command is issued
    assert!(sk.poll(&mut s).is_none());
}

#[test]
fn skipper_matches_the_filename_as_a_substring_of_the_url() {
    let mut s = Session::new();
    let mut sk = Skipper::new("test.py".to_owned());
    assert!(sk.poll(&mut s).is_some());
    assert!(sk.on_paused(&vec![frame_with_url("file:///home/u/test.py")]));
    let mut sk2 = Skipper::new("test.py".to_owned());
    assert!(sk2.poll(&mut s).is_some());
    assert!(!sk2.on_paused(&vec![frame_with_url("file:///home/u/other.py")]));
}

#[test]
fn sequence_numbers_span_the_whole_session_without_gaps() {
    let mut s = Session::new();
    let mut sent: Vec<String> = Vec::new();

    let mut init = Initializer::new();
    while !init.done() {
        match init.poll(&mut s) {
            Some(t) => sent.push(t),
            None => init.on_message(&a_response()),
        }
    }

    let mut sd = Seeder::new("test.py".to_owned(), 2);
    while !sd.done() {
        match sd.poll(&mut s) {
            Some(t) => sent.push(t),
            None => sd.on_message(&a_response()),
        }
    }

    let mut sk = Skipper::new("test.py".to_owned());
    while !sk.done() {
        match sk.poll(&mut s) {
            Some(t) => sent.push(t),
            None => {
                sk.on_paused(&vec![frame_with_url("test.py")]);
            }
        }
    }

    assert_eq!(sent.len(), 6);
    for (k, t) in sent.iter().enumerate() {
        assert!(t.starts_with(&format!("{{\"id\": {}, ", k)), "frame {} was {}", k, t);
    }
}

#[test]
fn scope_shapes_carry_through() {
    // a scope built by hand mirrors what the decoder produces
    let sc = Scope {
        name: Some("locals".to_owned()),
        object: RemoteObject {
            kind: "object".to_owned(),
            object_id: Some("o1".to_owned()),
            value: None,
        },
        kind: "local".to_owned(),
    };
    assert_eq!(sc.name.as_deref(), Some("locals"));
    assert!(sc.object.value.is_none());
}
