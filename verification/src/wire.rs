//! Outgoing request frames. A request is a JSON text frame
//! `{"id": N, <body>}` whose sequence number `N` is allocated by the
//! session's counter: numbers start at zero and increase by one per request,
//! whatever kind of request is sent. The bodies of the five commands the
//! driver uses are built here as well.

use vstd::prelude::*;

verus! {

use crate::text::{dec_seq, usize_to_dec};

/// The full text of a request frame with sequence number `id` and body
/// `body` (the body carries the method and, optionally, the params).
pub open spec fn req_text(id: nat, body: Seq<char>) -> Seq<char> {
    "{\"id\": "@ + dec_seq(id) + ", "@ + body + "}"@
}

/// Body of the command that enables runtime instrumentation.
pub open spec fn runtime_enable_cmd() -> Seq<char> {
    "\"method\":\"Runtime.enable\""@
}

/// Body of the command that enables debugger instrumentation.
pub open spec fn debugger_enable_cmd() -> Seq<char> {
    "\"method\":\"Debugger.enable\""@
}

/// Body of the command that releases a runtime paused at startup.
pub open spec fn run_if_waiting_cmd() -> Seq<char> {
    "\"method\":\"Runtime.runIfWaitingForDebugger\""@
}

/// Body of the single-step command.
pub open spec fn step_over_cmd() -> Seq<char> {
    "\"method\":\"Debugger.stepOver\""@
}

/// Body of the command that sets a breakpoint at `line` of every script
/// whose URL matches `.*<file>`.
pub open spec fn breakpoint_cmd(line: nat, file: Seq<char>) -> Seq<char> {
    "\"method\":\"Debugger.setBreakpointByUrl\", \"params\":{\"lineNumber\": "@ + dec_seq(line)
        + ", \"urlRegex\": \".*"@ + file + "\"}"@
}

/// Body of the command that asks for the properties of the remote object
/// with identifier `oid`.
pub open spec fn get_properties_cmd(oid: Seq<char>) -> Seq<char> {
    "\"method\":\"Runtime.getProperties\", \"params\":{\"objectId\": \""@ + oid + "\"}"@
}

pub fn runtime_enable_body() -> (r: String)
    ensures
        r@ == runtime_enable_cmd(),
{
    String::from_str("\"method\":\"Runtime.enable\"")
}

pub fn debugger_enable_body() -> (r: String)
    ensures
        r@ == debugger_enable_cmd(),
{
    String::from_str("\"method\":\"Debugger.enable\"")
}

pub fn run_if_waiting_body() -> (r: String)
    ensures
        r@ == run_if_waiting_cmd(),
{
    String::from_str("\"method\":\"Runtime.runIfWaitingForDebugger\"")
}

pub fn step_over_body() -> (r: String)
    ensures
        r@ == step_over_cmd(),
{
    String::from_str("\"method\":\"Debugger.stepOver\"")
}

pub fn breakpoint_body(line: usize, file: &str) -> (r: String)
    ensures
        r@ == breakpoint_cmd(line as nat, file@),
{
    let mut s = String::from_str("\"method\":\"Debugger.setBreakpointByUrl\", \"params\":{\"lineNumber\": ");
    let line_dec = usize_to_dec(line);
    s.append(line_dec.as_str());
    s.append(", \"urlRegex\": \".*");
    s.append(file);
    s.append("\"}");
    proof {
        assert(s@ =~= breakpoint_cmd(line as nat, file@));
    }
    s
}

pub fn get_properties_body(oid: &str) -> (r: String)
    ensures
        r@ == get_properties_cmd(oid@),
{
    let mut s = String::from_str("\"method\":\"Runtime.getProperties\", \"params\":{\"objectId\": \"");
    s.append(oid);
    s.append("\"}");
    proof {
        assert(s@ =~= get_properties_cmd(oid@));
    }
    s
}

/// The session's request counter, together with a ghost log of every request
/// issued so far: entry `i` is the pair of the sequence number and the body
/// that went out in the `i`-th call of [`Session::next_request`].
pub struct Session {
    pub next_id: usize,
    pub log: Ghost<Seq<(nat, Seq<char>)>>,
}

impl Session {
    /// One log entry per request issued, and entry `i` carries sequence
    /// number `i`.
    pub open spec fn wf(self) -> bool {
        &&& self.log@.len() == self.next_id
        &&& forall|i: int| 0 <= i < self.log@.len() ==> (#[trigger] self.log@[i]).0 == i
    }

    pub fn new() -> (s: Session)
        ensures
            s.wf(),
            s.next_id == 0,
            s.log@ == Seq::<(nat, Seq<char>)>::empty(),
    {
        Session { next_id: 0, log: Ghost(Seq::empty()) }
    }

    /// Allocates the next sequence number and renders the request frame for
    /// `body`. The caller writes the returned text to the socket; the
    /// counter moves exactly once per call.
    pub fn next_request(&mut self, body: &str) -> (r: String)
        requires
            old(self).wf(),
            old(self).next_id < usize::MAX,
        ensures
            final(self).wf(),
            r@ == req_text(old(self).next_id as nat, body@),
            final(self).next_id == old(self).next_id + 1,
            final(self).log@ == old(self).log@.push((old(self).next_id as nat, body@)),
    {
        let mut s = String::from_str("{\"id\": ");
        let id_dec = usize_to_dec(self.next_id);
        s.append(id_dec.as_str());
        s.append(", ");
        s.append(body);
        s.append("}");
        proof {
            assert(s@ =~= req_text(self.next_id as nat, body@));
        }
        self.log = Ghost(self.log@.push((self.next_id as nat, body@)));
        self.next_id = self.next_id + 1;
        s
    }
}

/// Law: over a whole session, the sequence numbers of the requests issued
/// are exactly `0, 1, 2, ...` in the order they were issued, with no gaps
/// and no reuse, regardless of the kind of request.
pub proof fn lemma_request_ids_sequential(s: Session)
    requires
        s.wf(),
    ensures
        forall|i: int| 0 <= i < s.log@.len() ==> (#[trigger] s.log@[i]).0 == i,
        forall|i: int, j: int|
            0 <= i < s.log@.len() && 0 <= j < s.log@.len() && i != j ==> (#[trigger] s.log@[i]).0
                != (#[trigger] s.log@[j]).0,
{
}

} // verus!
