//! The session handshake: three fixed commands — enable runtime
//! instrumentation, enable debugger instrumentation, release a runtime
//! waiting for attachment — sent strictly in that order, each one awaited to
//! a response before the next goes out. Any response satisfies the wait;
//! events arriving in between do not. The machine below decides; the
//! surrounding program moves the bytes.

use vstd::prelude::*;

verus! {

use crate::messages::MsgType;
use crate::wire::{
    debugger_enable_cmd,
    debugger_enable_body,
    req_text,
    run_if_waiting_body,
    run_if_waiting_cmd,
    runtime_enable_body,
    runtime_enable_cmd,
    Session,
};

/// The body of the `i`-th handshake command.
pub open spec fn init_cmd(i: int) -> Seq<char> {
    if i == 0 {
        runtime_enable_cmd()
    } else if i == 1 {
        debugger_enable_cmd()
    } else {
        run_if_waiting_cmd()
    }
}

/// The handshake driver: `acked` commands are done, and `awaiting` says
/// whether the next one is out and still unanswered. `issued` is the ghost
/// record of the command bodies issued so far, in issue order.
pub struct Initializer {
    pub acked: u8,
    pub awaiting: bool,
    pub issued: Ghost<Seq<Seq<char>>>,
}

impl Initializer {
    pub open spec fn wf(self) -> bool {
        &&& self.acked <= 3
        &&& (self.awaiting ==> self.acked < 3)
        &&& self.issued@.len() == self.acked + (if self.awaiting {
            1int
        } else {
            0int
        })
        &&& (forall|i: int| 0 <= i < self.issued@.len() ==> self.issued@[i] == init_cmd(i))
    }

    /// The handshake is over: all three commands were answered.
    pub open spec fn is_done(self) -> bool {
        self.acked == 3 && !self.awaiting
    }

    pub fn new() -> (r: Initializer)
        ensures
            r.wf(),
            r.acked == 0,
            !r.awaiting,
            r.issued@ == Seq::<Seq<char>>::empty(),
    {
        Initializer { acked: 0, awaiting: false, issued: Ghost(Seq::empty()) }
    }

    pub fn done(&self) -> (r: bool)
        ensures
            r == self.is_done(),
    {
        self.acked == 3 && !self.awaiting
    }

    /// Hands out the next command to send, or `None` while one is still
    /// unanswered or the handshake is over. No second command is ever issued
    /// before the previous one was answered.
    pub fn poll(&mut self, s: &mut Session) -> (r: Option<String>)
        requires
            old(self).wf(),
            old(s).wf(),
            old(s).next_id < usize::MAX,
        ensures
            final(self).wf(),
            final(s).wf(),
            (r is None) == (old(self).awaiting || old(self).acked == 3),
            match r {
                None => *final(self) == *old(self) && *final(s) == *old(s),
                Some(t) => {
                    &&& t@ == req_text(old(s).next_id as nat, init_cmd(old(self).acked as int))
                    &&& final(self).acked == old(self).acked
                    &&& final(self).awaiting
                    &&& final(self).issued@ == old(self).issued@.push(
                        init_cmd(old(self).acked as int),
                    )
                    &&& final(s).next_id == old(s).next_id + 1
                    &&& final(s).log@ == old(s).log@.push(
                        (old(s).next_id as nat, init_cmd(old(self).acked as int)),
                    )
                },
            },
    {
        if self.awaiting || self.acked == 3 {
            return None;
        }
        let body = if self.acked == 0 {
            runtime_enable_body()
        } else if self.acked == 1 {
            debugger_enable_body()
        } else {
            run_if_waiting_body()
        };
        let text = s.next_request(body.as_str());
        self.issued = Ghost(self.issued@.push(init_cmd(self.acked as int)));
        self.awaiting = true;
        Some(text)
    }

    /// Feeds one incoming message: a response answers the outstanding
    /// command; anything else leaves the machine as it was.
    pub fn on_message(&mut self, m: &MsgType)
        requires
            old(self).wf(),
        ensures
            final(self).wf(),
            final(self).issued == old(self).issued,
            final(self).acked == if old(self).awaiting && (m is Response) {
                old(self).acked + 1
            } else {
                old(self).acked as int
            },
            final(self).awaiting == if old(self).awaiting && (m is Response) {
                false
            } else {
                old(self).awaiting
            },
    {
        if self.awaiting {
            if let MsgType::Response(_) = m {
                self.awaiting = false;
                self.acked = self.acked + 1;
            }
        }
    }
}

/// Law: a finished handshake issued exactly the three fixed commands, in
/// the fixed order — runtime instrumentation on, debugger instrumentation
/// on, release the waiting runtime — and, by [`Initializer::poll`]'s
/// contract, each was answered before the next went out.
pub proof fn lemma_handshake_strict_order(ini: Initializer)
    requires
        ini.wf(),
        ini.is_done(),
    ensures
        ini.issued@.len() == 3,
        ini.issued@[0] == runtime_enable_cmd(),
        ini.issued@[1] == debugger_enable_cmd(),
        ini.issued@[2] == run_if_waiting_cmd(),
{
    assert(ini.issued@[0] == init_cmd(0));
    assert(ini.issued@[1] == init_cmd(1));
    assert(ini.issued@[2] == init_cmd(2));
}

} // verus!
