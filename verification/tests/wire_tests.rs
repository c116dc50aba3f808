use make_trace::text::{str_contains, str_eq, str_starts_with, usize_to_dec};
use make_trace::wire::{
    breakpoint_body, get_properties_body, run_if_waiting_body, runtime_enable_body,
    step_over_body, Session,
};

#[test]
fn decimal_rendering() {
    assert_eq!(usize_to_dec(0), "0");
    assert_eq!(usize_to_dec(7), "7");
    assert_eq!(usize_to_dec(10), "10");
    assert_eq!(usize_to_dec(1234), "1234");
    assert_eq!(usize_to_dec(1000000), "1000000");
}

#[test]
fn string_utilities() {
    assert!(str_eq("abc", "abc"));
    assert!(!str_eq("abc", "abd"));
    assert!(!str_eq("abc", "abcd"));
    assert!(str_starts_with("__main__", "__"));
    assert!(!str_starts_with("_main", "__"));
    assert!(str_starts_with("anything", ""));
    assert!(str_contains("file:///home/user/test.py", "test.py"));
    assert!(!str_contains("file:///lib/runtime.js", "test.py"));
    assert!(str_contains("abc", ""));
    assert!(!str_contains("ab", "abc"));
}

#[test]
fn request_ids_start_at_zero_and_increase_by_one() {
    let mut s = Session::new();
    let a = s.next_request("\"method\":\"Runtime.enable\"");
    let b = s.next_request("\"method\":\"Debugger.stepOver\"");
    let c = s.next_request("\"method\":\"Debugger.stepOver\"");
    assert_eq!(a, "{\"id\": 0, \"method\":\"Runtime.enable\"}");
    assert_eq!(b, "{\"id\": 1, \"method\":\"Debugger.stepOver\"}");
    assert_eq!(c, "{\"id\": 2, \"method\":\"Debugger.stepOver\"}");
    assert_eq!(s.next_id, 3);
}

#[test]
fn command_bodies() {
    assert_eq!(runtime_enable_body(), "\"method\":\"Runtime.enable\"");
    assert_eq!(run_if_waiting_body(), "\"method\":\"Runtime.runIfWaitingForDebugger\"");
    assert_eq!(step_over_body(), "\"method\":\"Debugger.stepOver\"");
    assert_eq!(
        breakpoint_body(4, "test.py"),
        "\"method\":\"Debugger.setBreakpointByUrl\", \"params\":{\"lineNumber\": 4, \"urlRegex\": \".*test.py\"}"
    );
    assert_eq!(
        get_properties_body("obj-17"),
        "\"method\":\"Runtime.getProperties\", \"params\":{\"objectId\": \"obj-17\"}"
    );
}
