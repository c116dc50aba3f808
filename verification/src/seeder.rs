//! The breakpoint seeder: for a source file of `total` lines it issues one
//! breakpoint request per line index `0 .. total-1`, in ascending order,
//! strictly serially — each request is awaited to a response before the next
//! one goes out. This guarantees the remote debugger is willing to pause at
//! every line of the target file.

use vstd::prelude::*;

verus! {

use crate::messages::MsgType;
use crate::wire::{breakpoint_body, breakpoint_cmd, req_text, Session};

/// The seeding driver. `issued` is the ghost record of the line numbers
/// requested so far, in issue order, and `acks` how many of those requests
/// were answered.
pub struct Seeder {
    pub filename: String,
    pub total: usize,
    pub next: usize,
    pub awaiting: bool,
    pub issued: Ghost<Seq<int>>,
    pub acks: Ghost<int>,
}

impl Seeder {
    pub open spec fn wf(self) -> bool {
        &&& self.next <= self.total
        &&& self.issued@.len() == self.next
        &&& (forall|i: int| 0 <= i < self.issued@.len() ==> self.issued@[i] == i)
        &&& self.next == self.acks@ + (if self.awaiting {
            1int
        } else {
            0int
        })
    }

    /// Every line got its request and the last one was answered.
    pub open spec fn is_done(self) -> bool {
        self.next == self.total && !self.awaiting
    }

    pub fn new(filename: String, total: usize) -> (r: Seeder)
        ensures
            r.wf(),
            r.filename == filename,
            r.total == total,
            r.next == 0,
            !r.awaiting,
            r.issued@ == Seq::<int>::empty(),
            r.acks@ == 0,
    {
        Seeder {
            filename,
            total,
            next: 0,
            awaiting: false,
            issued: Ghost(Seq::empty()),
            acks: Ghost(0),
        }
    }

    pub fn done(&self) -> (r: bool)
        ensures
            r == self.is_done(),
    {
        self.next == self.total && !self.awaiting
    }

    /// Hands out the breakpoint request for the next line, or `None` while
    /// the previous one is still unanswered or every line was requested. No
    /// request is ever issued before the previous one was answered.
    pub fn poll(&mut self, s: &mut Session) -> (r: Option<String>)
        requires
            old(self).wf(),
            old(s).wf(),
            old(s).next_id < usize::MAX,
        ensures
            final(self).wf(),
            final(s).wf(),
            final(self).filename == old(self).filename,
            final(self).total == old(self).total,
            (r is None) == (old(self).awaiting || old(self).next == old(self).total),
            match r {
                None => *final(self) == *old(self) && *final(s) == *old(s),
                Some(t) => {
                    &&& t@ == req_text(
                        old(s).next_id as nat,
                        breakpoint_cmd(old(self).next as nat, old(self).filename@),
                    )
                    &&& final(self).next == old(self).next + 1
                    &&& final(self).awaiting
                    &&& final(self).issued@ == old(self).issued@.push(old(self).next as int)
                    &&& final(self).acks == old(self).acks
                    &&& final(s).next_id == old(s).next_id + 1
                    &&& final(s).log@ == old(s).log@.push(
                        (
                            old(s).next_id as nat,
                            breakpoint_cmd(old(self).next as nat, old(self).filename@),
                        ),
                    )
                },
            },
    {
        if self.awaiting || self.next == self.total {
            return None;
        }
        let body = breakpoint_body(self.next, self.filename.as_str());
        let text = s.next_request(body.as_str());
        self.issued = Ghost(self.issued@.push(self.next as int));
        self.next = self.next + 1;
        self.awaiting = true;
        Some(text)
    }

    /// Feeds one incoming message: a response answers the outstanding
    /// request; anything else leaves the machine as it was.
    pub fn on_message(&mut self, m: &MsgType)
        requires
            old(self).wf(),
        ensures
            final(self).wf(),
            final(self).filename == old(self).filename,
            final(self).total == old(self).total,
            final(self).next == old(self).next,
            final(self).issued == old(self).issued,
            final(self).awaiting == (old(self).awaiting && !(m is Response)),
            final(self).acks@ == old(self).acks@ + (if old(self).awaiting && (m is Response) {
                1int
            } else {
                0int
            }),
    {
        if self.awaiting {
            if let MsgType::Response(_) = m {
                self.acks = Ghost(self.acks@ + 1);
                self.awaiting = false;
            }
        }
    }
}

/// Law: for a source of `total` lines, a seeder that has finished issued
/// exactly `total` requests, whose line numbers are `0, 1, ..., total - 1`
/// in ascending order, and every one of them was answered; by
/// [`Seeder::poll`]'s contract each was awaited to a response before the
/// next was issued.
pub proof fn lemma_seeder_covers_all_lines(sd: Seeder)
    requires
        sd.wf(),
        sd.is_done(),
    ensures
        sd.issued@.len() == sd.total,
        forall|i: int| 0 <= i < sd.total ==> sd.issued@[i] == i,
        forall|i: int, j: int|
            0 <= i < j < sd.issued@.len() ==> sd.issued@[i] < sd.issued@[j],
        sd.acks@ == sd.total,
{
}

} // verus!
