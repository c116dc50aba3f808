//! The frame skipper: before recording starts, the driver repeatedly issues
//! a single-step command and discards pause events whose top frame does not
//! belong to the target file, until the target file is reached. It stops on
//! the first pause whose top frame's URL contains the target filename as a
//! substring; if the target file is never entered it steps forever, by
//! design.

use vstd::prelude::*;

verus! {

use crate::messages::CallFrame;
use crate::text::seq_contains;
use crate::wire::{req_text, step_over_cmd, Session};

/// The skipping driver: `awaiting` says a step command is out and its pause
/// has not arrived yet; `found` latches once the target file is reached.
/// `seen` is the ghost record of the top-frame URLs of the pauses consumed,
/// in arrival order, and `steps_sent` how many step commands went out.
pub struct Skipper {
    pub filename: String,
    pub awaiting: bool,
    pub found: bool,
    pub seen: Ghost<Seq<Seq<char>>>,
    pub steps_sent: Ghost<int>,
}

impl Skipper {
    /// One step command per pause consumed (plus the outstanding one); every
    /// pause consumed missed the target, except, once `found` latches, the
    /// last one.
    pub open spec fn wf(self) -> bool {
        &&& self.steps_sent@ == self.seen@.len() + (if self.awaiting {
            1int
        } else {
            0int
        })
        &&& (forall|k: int|
            0 <= k < self.seen@.len() - (if self.found {
                1int
            } else {
                0int
            }) ==> !seq_contains(#[trigger] self.seen@[k], self.filename@))
        &&& (self.found ==> self.seen@.len() > 0 && seq_contains(
            self.seen@.last(),
            self.filename@,
        ))
    }

    /// The target file was reached and no step command is outstanding.
    pub open spec fn is_done(self) -> bool {
        self.found && !self.awaiting
    }

    pub fn new(filename: String) -> (r: Skipper)
        ensures
            r.wf(),
            r.filename == filename,
            !r.awaiting,
            !r.found,
            r.seen@ == Seq::<Seq<char>>::empty(),
            r.steps_sent@ == 0,
    {
        Skipper {
            filename,
            awaiting: false,
            found: false,
            seen: Ghost(Seq::empty()),
            steps_sent: Ghost(0),
        }
    }

    pub fn done(&self) -> (r: bool)
        ensures
            r == self.is_done(),
    {
        self.found && !self.awaiting
    }

    /// Hands out the next step command, or `None` while a pause is awaited
    /// or the target file was already reached: once `found` latches, no
    /// further step command is ever issued.
    pub fn poll(&mut self, s: &mut Session) -> (r: Option<String>)
        requires
            old(self).wf(),
            old(s).wf(),
            old(s).next_id < usize::MAX,
        ensures
            final(self).wf(),
            final(s).wf(),
            final(self).filename == old(self).filename,
            final(self).found == old(self).found,
            final(self).seen == old(self).seen,
            (r is None) == (old(self).awaiting || old(self).found),
            match r {
                None => *final(self) == *old(self) && *final(s) == *old(s),
                Some(t) => {
                    &&& t@ == req_text(old(s).next_id as nat, step_over_cmd())
                    &&& final(self).awaiting
                    &&& final(self).steps_sent@ == old(self).steps_sent@ + 1
                    &&& final(s).next_id == old(s).next_id + 1
                    &&& final(s).log@ == old(s).log@.push(
                        (old(s).next_id as nat, step_over_cmd()),
                    )
                },
            },
    {
        if self.awaiting || self.found {
            return None;
        }
        let body = crate::wire::step_over_body();
        let text = s.next_request(body.as_str());
        self.steps_sent = Ghost(self.steps_sent@ + 1);
        self.awaiting = true;
        Some(text)
    }

    /// Feeds the call-frame stack of the pause that answers the outstanding
    /// step command. The skipper stops exactly when the top frame's URL
    /// contains the target filename; on any other pause the next
    /// [`Skipper::poll`] steps again.
    pub fn on_paused(&mut self, frames: &Vec<CallFrame>) -> (done: bool)
        requires
            old(self).wf(),
            old(self).awaiting,
            !old(self).found,
            frames@.len() > 0,
        ensures
            final(self).wf(),
            done == seq_contains(frames@[0].url@, old(self).filename@),
            final(self).filename == old(self).filename,
            !final(self).awaiting,
            final(self).found == done,
            final(self).seen@ == old(self).seen@.push(frames@[0].url@),
            final(self).steps_sent == old(self).steps_sent,
    {
        let hit = crate::text::str_contains(frames[0].url.as_str(), self.filename.as_str());
        self.seen = Ghost(self.seen@.push(frames[0].url@));
        self.awaiting = false;
        if hit {
            self.found = true;
        }
        proof {
            assert forall|k: int|
                0 <= k < self.seen@.len() - (if self.found {
                    1int
                } else {
                    0int
                }) implies !seq_contains(#[trigger] self.seen@[k], self.filename@) by {
                if k < old(self).seen@.len() {
                    assert(self.seen@[k] == old(self).seen@[k]);
                } else {
                    assert(self.seen@[k] == frames@[0].url@);
                }
            }
        }
        hit
    }
}

/// Law: the skipper stops on the first pause whose top frame's URL contains
/// the target filename. When it is done, it consumed exactly one pause per
/// step command it issued, every one of them missed the target except the
/// last, and the last hit it.
pub proof fn lemma_skipper_stops_on_first_match(sk: Skipper)
    requires
        sk.wf(),
        sk.is_done(),
    ensures
        sk.steps_sent@ == sk.seen@.len(),
        sk.seen@.len() > 0,
        seq_contains(sk.seen@.last(), sk.filename@),
        forall|k: int|
            0 <= k < sk.seen@.len() - 1 ==> !seq_contains(#[trigger] sk.seen@[k], sk.filename@),
{
}

} // verus!
