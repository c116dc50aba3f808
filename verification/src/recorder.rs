//! The trace recorder: the stepping loop proper. At each pause it captures
//! the top frame's location and, for every in-scope, non-excluded scope of
//! every frame, resolves the scope's variables; scope names are recorded
//! first-writer-wins across the frames of one step. Completed steps are
//! appended to the trace; the source lines never change after capture
//! begins. Stream end — and a property fetch failing mid-step — finishes the
//! machine with exactly the steps completed so far, never a partial one.

use vstd::prelude::*;

verus! {

use crate::json::{member, value_model, Json};
use crate::messages::{
    frames_rel,
    lemma_frames_rel_has_frames,
    parse_properties,
    pause_usable,
    props_list_rel,
    CallFrame,
    Location,
    MsgType,
    Scope,
};
use crate::resolver::{step_rel, ResolveStep, Resolver, Variable};
use crate::seq_starts_with;
use crate::text::str_eq;
use crate::wire::{get_properties_cmd, req_text, step_over_cmd, Session};

/// Scopes with these name prefixes are reserved for built-in, global or
/// module-level bindings and are never resolved nor recorded.
pub open spec fn excluded_name(n: Seq<char>) -> bool {
    ||| seq_starts_with(n, "builtins"@)
    ||| seq_starts_with(n, "__main__"@)
    ||| seq_starts_with(n, "<module"@)
}

pub fn is_excluded(name: &str) -> (r: bool)
    ensures
        r == excluded_name(name@),
{
    crate::text::str_starts_with(name, "builtins") || crate::text::str_starts_with(
        name,
        "__main__",
    ) || crate::text::str_starts_with(name, "<module")
}

/// One step's variable mapping: scope name to resolved variable list, in
/// insertion order, each name at most once.
pub struct ScopeMap {
    pub entries: Vec<(String, Vec<Variable>)>,
}

impl ScopeMap {
    /// The names are pairwise distinct.
    pub open spec fn wf(self) -> bool {
        forall|i: int, j: int|
            0 <= i < j < self.entries@.len() ==> (#[trigger] self.entries@[i]).0@ != (
            #[trigger] self.entries@[j]).0@
    }

    pub open spec fn contains_name(self, k: Seq<char>) -> bool {
        exists|i: int| 0 <= i < self.entries@.len() && (#[trigger] self.entries@[i]).0@ == k
    }

    pub fn new() -> (r: ScopeMap)
        ensures
            r.wf(),
            r.entries@ == Seq::<(String, Vec<Variable>)>::empty(),
    {
        ScopeMap { entries: Vec::new() }
    }

    pub fn contains(&self, name: &str) -> (r: bool)
        ensures
            r == self.contains_name(name@),
    {
        let mut i: usize = 0;
        while i < self.entries.len()
            invariant
                i <= self.entries@.len(),
                forall|j: int| 0 <= j < i ==> (#[trigger] self.entries@[j]).0@ != name@,
            decreases self.entries@.len() - i,
        {
            if str_eq(self.entries[i].0.as_str(), name) {
                return true;
            }
            i += 1;
        }
        false
    }

    /// First-writer-wins: when the name is already present the map is left
    /// exactly as it was and the new value is discarded; otherwise the pair
    /// is appended.
    pub fn insert_if_absent(&mut self, name: String, vars: Vec<Variable>)
        requires
            old(self).wf(),
        ensures
            final(self).wf(),
            old(self).contains_name(name@) ==> *final(self) == *old(self),
            !old(self).contains_name(name@) ==> final(self).entries@ == old(self).entries@.push(
                (name, vars),
            ),
    {
        if self.contains(name.as_str()) {
            return;
        }
        self.entries.push((name, vars));
    }
}

/// `m1` is `m0` after a first-writer-wins insertion of `(k, v)`: when the
/// name is already present the map is unchanged and the new value is
/// discarded.
pub open spec fn first_wins_insert(
    m0: ScopeMap,
    k: String,
    v: Vec<Variable>,
    m1: ScopeMap,
) -> bool {
    if m0.contains_name(k@) {
        m1 == m0
    } else {
        m1.entries@ == m0.entries@.push((k, v))
    }
}

/// A scope the recorder passes over without a fetch: unnamed, excluded by
/// name, or carrying a bindings object that has no identifier to enumerate.
pub open spec fn scope_skipped(sc: Scope) -> bool {
    ||| sc.name is None
    ||| excluded_name(sc.name.unwrap()@)
    ||| sc.object.object_id is None
}

/// One captured step: the source location of the pause's top frame, and the
/// resolved variables of its non-excluded scopes.
pub struct Step {
    pub loc: Location,
    pub vars: ScopeMap,
}

/// No scope name of the step is excluded, and the names are distinct.
pub open spec fn step_ok(s: Step) -> bool {
    &&& s.vars.wf()
    &&& forall|i: int|
        0 <= i < s.vars.entries@.len() ==> !excluded_name((#[trigger] s.vars.entries@[i]).0@)
}

/// The output artifact: the source lines, read once before capture begins
/// and immutable afterwards, and the captured steps in capture order.
pub struct Trace {
    pub src: Vec<String>,
    pub steps: Vec<Step>,
}

pub enum Phase {
    Capturing,
    AwaitingPause,
    Finished,
}

pub enum SubPhase {
    /// Walking the frames' scope chains.
    Scan,
    /// The fetch of the current scope's bindings is outstanding.
    FetchScope,
    /// The current scope's properties are being resolved.
    Resolve,
}

/// What one transition of the recorder asks of its caller.
pub enum RecAction {
    /// Internal work was done; make the next transition.
    Continue,
    /// Write this request frame to the socket, then make the next
    /// transition.
    Send(String),
    /// Read one message and feed it to [`Recorder::on_message`]; stream end
    /// is fed as `None`.
    AwaitMessage,
    /// The trace is complete: take it with [`Recorder::into_trace`].
    Done,
}

/// One resolver transition was made from recorder state `pre` (whose
/// resolver had no fetch outstanding): the resolver moved by
/// [`step_rel`], and the recorder acted on its output — kept stepping, sent
/// the fetch, or recorded the finished scope first-writer-wins and moved to
/// the next one.
pub open spec fn resolver_advanced(
    pre: Recorder,
    pres: Session,
    post: Recorder,
    r: RecAction,
) -> bool {
    let rv0 = pre.rsv.unwrap();
    exists|rv1: Resolver, out0: ResolveStep|
        #[trigger] step_rel(rv0, rv1, out0) && match out0 {
            ResolveStep::Progress => {
                &&& r == RecAction::Continue
                &&& post.rsv == Some(rv1)
                &&& post.sub is Resolve
                &&& post.vars == pre.vars
                &&& post.si == pre.si
            },
            ResolveStep::Fetch(oid) => {
                &&& (r matches RecAction::Send(t) && t@ == req_text(
                    pres.next_id as nat,
                    get_properties_cmd(oid@),
                ))
                &&& post.rsv == Some(rv1)
                &&& post.sub is Resolve
                &&& post.vars == pre.vars
                &&& post.si == pre.si
            },
            ResolveStep::Finished(vs) => {
                &&& r == RecAction::Continue
                &&& post.rsv is None
                &&& post.sub is Scan
                &&& post.si == pre.si + 1
                &&& first_wins_insert(pre.vars, pre.scope_name, vs, post.vars)
            },
        }
}

/// The recording machine. While `phase` is `Capturing`, `frames` is the
/// call-frame stack of the pause being captured, `fi`/`si` the position in
/// its scope chains, `loc` the top frame's location and `vars` the partial
/// mapping of the step; `scope_name` names the scope a fetch or resolution
/// is in flight for, and `rsv` is the resolver of that scope.
pub struct Recorder {
    pub trace: Trace,
    pub phase: Phase,
    pub sub: SubPhase,
    pub loc: Location,
    pub frames: Vec<CallFrame>,
    pub fi: usize,
    pub si: usize,
    pub vars: ScopeMap,
    pub scope_name: String,
    pub rsv: Option<Resolver>,
}

impl Recorder {
    pub open spec fn wf(self) -> bool {
        &&& self.vars.wf()
        &&& (forall|i: int|
            0 <= i < self.vars.entries@.len() ==> !excluded_name(
                (#[trigger] self.vars.entries@[i]).0@,
            ))
        &&& (forall|i: int| 0 <= i < self.trace.steps@.len() ==> step_ok(#[trigger] self.trace.steps@[i]))
        &&& (self.phase is Capturing ==> self.frames@.len() > 0 && self.loc == self.frames@[0].location)
        &&& (self.phase is Capturing ==> self.fi <= self.frames@.len())
        &&& (self.phase is Capturing && self.fi < self.frames@.len() ==> self.si
            <= self.frames@[self.fi as int].scope_chain@.len())
        &&& ((self.sub is FetchScope || self.sub is Resolve) ==> !excluded_name(self.scope_name@))
        &&& ((self.sub is FetchScope || self.sub is Resolve) ==> self.fi < self.frames@.len()
            && self.si < self.frames@[self.fi as int].scope_chain@.len())
        &&& ((self.sub is Resolve) <==> (self.rsv is Some))
        &&& (self.rsv matches Some(rv) ==> rv.inv() && rv.stack@.len() > 0)
        &&& (!(self.phase is Capturing) ==> self.sub is Scan && self.rsv is None)
    }

    /// The scope the walk currently stands on.
    pub open spec fn cur_scope(self) -> Scope
        recommends
            self.fi < self.frames@.len(),
            self.si < self.frames@[self.fi as int].scope_chain@.len(),
    {
        self.frames@[self.fi as int].scope_chain@[self.si as int]
    }

    /// Begins recording at the pause whose call-frame stack is `frames`; the
    /// step's location is the top frame's.
    pub fn new(src: Vec<String>, frames: Vec<CallFrame>) -> (r: Recorder)
        requires
            frames@.len() > 0,
        ensures
            r.wf(),
            r.phase is Capturing,
            r.trace.src == src,
            r.trace.steps@ == Seq::<Step>::empty(),
            r.frames == frames,
            r.loc == frames@[0].location,
            r.vars.entries@ == Seq::<(String, Vec<Variable>)>::empty(),
    {
        let loc = location_copy(&frames[0].location);
        Recorder {
            trace: Trace { src, steps: Vec::new() },
            phase: Phase::Capturing,
            sub: SubPhase::Scan,
            loc,
            frames,
            fi: 0,
            si: 0,
            vars: ScopeMap::new(),
            scope_name: String::new(),
            rsv: None,
        }
    }

    pub fn done(&self) -> (r: bool)
        ensures
            r == (self.phase is Finished),
    {
        match self.phase {
            Phase::Finished => true,
            _ => false,
        }
    }

    /// The accumulated trace: the source lines and every completed step.
    pub fn into_trace(self) -> (t: Trace)
        ensures
            t == self.trace,
    {
        self.trace
    }

    /// Makes one transition. A step is appended to the trace exactly when
    /// the capture of a pause is complete, and the machine then issues one
    /// step command and awaits the next pause.
    pub fn poll(&mut self, s: &mut Session) -> (r: RecAction)
        requires
            old(self).wf(),
            old(s).wf(),
            old(s).next_id < usize::MAX,
        ensures
            final(self).wf(),
            final(s).wf(),
            final(self).trace.src == old(self).trace.src,
            old(self).trace.steps@.is_prefix_of(final(self).trace.steps@),
            (r is Done) == (old(self).phase is Finished),
            old(self).phase is Finished ==> *final(self) == *old(self) && *final(s) == *old(s),
            old(self).phase is AwaitingPause ==> r == RecAction::AwaitMessage && *final(self)
                == *old(self) && *final(s) == *old(s),
            final(self).trace.steps@.len() <= old(self).trace.steps@.len() + 1,
            final(self).trace.steps@.len() == old(self).trace.steps@.len() + 1 ==> ({
                &&& old(self).phase is Capturing
                &&& final(self).phase is AwaitingPause
                &&& final(self).trace.steps@ == old(self).trace.steps@.push(
                    Step { loc: old(self).loc, vars: old(self).vars },
                )
                &&& (r matches RecAction::Send(t) && t@ == req_text(
                    old(s).next_id as nat,
                    step_over_cmd(),
                ))
            }),
            match r {
                RecAction::Send(t) => {
                    &&& final(s).next_id == old(s).next_id + 1
                    &&& final(s).log@.len() == old(s).log@.len() + 1
                    &&& t@ == req_text(old(s).next_id as nat, final(s).log@.last().1)
                },
                _ => *final(s) == *old(s),
            },
            // the walk over the scope chains, one scope at a time
            old(self).phase is Capturing && old(self).sub is Scan && old(self).fi
                < old(self).frames@.len() ==> ({
                &&& final(self).trace == old(self).trace
                &&& final(self).phase is Capturing
                &&& final(self).frames == old(self).frames
                &&& final(self).loc == old(self).loc
                &&& if old(self).si == old(self).frames@[old(self).fi as int].scope_chain@.len() {
                    // this frame is walked: on to the next one
                    &&& r == RecAction::Continue
                    &&& final(self).fi == old(self).fi + 1
                    &&& final(self).si == 0
                    &&& final(self).vars == old(self).vars
                    &&& final(self).sub is Scan
                } else if scope_skipped(old(self).cur_scope()) {
                    // passed over: no fetch, no key
                    &&& r == RecAction::Continue
                    &&& final(self).fi == old(self).fi
                    &&& final(self).si == old(self).si + 1
                    &&& final(self).vars == old(self).vars
                    &&& final(self).sub is Scan
                } else {
                    // the scope's bindings are fetched
                    &&& (r matches RecAction::Send(t) && t@ == req_text(
                        old(s).next_id as nat,
                        get_properties_cmd(old(self).cur_scope().object.object_id.unwrap()@),
                    ))
                    &&& final(self).fi == old(self).fi
                    &&& final(self).si == old(self).si
                    &&& final(self).vars == old(self).vars
                    &&& final(self).sub is FetchScope
                    &&& final(self).scope_name == old(self).cur_scope().name.unwrap()
                }
            }),
            // every frame walked: the step is complete and one step command
            // goes out
            old(self).phase is Capturing && old(self).sub is Scan && old(self).fi
                == old(self).frames@.len() ==> final(self).trace.steps@.len()
                == old(self).trace.steps@.len() + 1,
            // while the scope fetch is out, only a message moves the machine
            old(self).phase is Capturing && old(self).sub is FetchScope ==> r
                == RecAction::AwaitMessage && *final(self) == *old(self) && *final(s) == *old(s),
            // resolving: one resolver transition per call
            old(self).phase is Capturing && old(self).sub is Resolve
                && old(self).rsv.unwrap().fetching is Some ==> r == RecAction::AwaitMessage
                && *final(self) == *old(self) && *final(s) == *old(s),
            old(self).phase is Capturing && old(self).sub is Resolve
                && old(self).rsv.unwrap().fetching is None ==> resolver_advanced(
                *old(self),
                *old(s),
                *final(self),
                r,
            ),
    {
        match self.phase {
            Phase::Finished => RecAction::Done,
            Phase::AwaitingPause => RecAction::AwaitMessage,
            Phase::Capturing => {
                match self.sub {
                    SubPhase::Scan => {
                        if self.fi == self.frames.len() {
                            // every frame was walked: the step is complete
                            let mut vars = ScopeMap::new();
                            core::mem::swap(&mut vars, &mut self.vars);
                            let loc = location_copy(&self.loc);
                            let ghost steps0 = self.trace.steps@;
                            self.trace.steps.push(Step { loc, vars });
                            proof {
                                assert(steps0.is_prefix_of(self.trace.steps@)) by {
                                    assert(self.trace.steps@.subrange(0, steps0.len() as int)
                                        =~= steps0);
                                }
                            }
                            let body = crate::wire::step_over_body();
                            let text = s.next_request(body.as_str());
                            self.phase = Phase::AwaitingPause;
                            RecAction::Send(text)
                        } else if self.si == self.frames[self.fi].scope_chain.len() {
                            self.fi = self.fi + 1;
                            self.si = 0;
                            RecAction::Continue
                        } else {
                            let sc_name: Option<String> = match &self.frames[self.fi].scope_chain[self.si].name {
                                Some(n) => Some(n.clone()),
                                None => None,
                            };
                            match sc_name {
                                None => {
                                    // an unnamed scope has no key to record
                                    // under: skipped, never fetched
                                    self.si = self.si + 1;
                                    RecAction::Continue
                                },
                                Some(nm) => {
                                    if is_excluded(nm.as_str()) {
                                        // excluded scope: skipped, never
                                        // fetched
                                        self.si = self.si + 1;
                                        RecAction::Continue
                                    } else {
                                        let oid: Option<String> = match &self.frames[self.fi].scope_chain[self.si].object.object_id {
                                            Some(o) => Some(o.clone()),
                                            None => None,
                                        };
                                        match oid {
                                            None => {
                                                // a bindings object without an
                                                // identifier cannot be
                                                // enumerated: skipped
                                                self.si = self.si + 1;
                                                RecAction::Continue
                                            },
                                            Some(o) => {
                                                let body = crate::wire::get_properties_body(
                                                    o.as_str(),
                                                );
                                                let text = s.next_request(body.as_str());
                                                self.scope_name = nm;
                                                self.sub = SubPhase::FetchScope;
                                                RecAction::Send(text)
                                            },
                                        }
                                    }
                                },
                            }
                        }
                    },
                    SubPhase::FetchScope => RecAction::AwaitMessage,
                    SubPhase::Resolve => {
                        let awaiting = match &self.rsv {
                            Some(rv) => rv.fetching.is_some(),
                            None => false,
                        };
                        if awaiting {
                            return RecAction::AwaitMessage;
                        }
                        let out = match &mut self.rsv {
                            Some(rv) => Some(rv.step()),
                            None => None,
                        };
                        match out {
                            None => RecAction::Continue,
                            Some(ResolveStep::Progress) => RecAction::Continue,
                            Some(ResolveStep::Fetch(oid)) => {
                                let body = crate::wire::get_properties_body(oid.as_str());
                                let text = s.next_request(body.as_str());
                                RecAction::Send(text)
                            },
                            Some(ResolveStep::Finished(vs)) => {
                                let nm = self.scope_name.clone();
                                self.vars.insert_if_absent(nm, vs);
                                self.rsv = None;
                                self.sub = SubPhase::Scan;
                                let bound = self.frames[self.fi].scope_chain.len();
                                proof {
                                    assert(self.si < bound);
                                }
                                self.si = self.si + 1;
                                RecAction::Continue
                            },
                        }
                    },
                }
            },
        }
    }

    /// Feeds one incoming message, or `None` for stream end. The trace is
    /// never modified here: stream end mid-step — like a failed property
    /// fetch — finishes the machine with exactly the steps already
    /// completed, the source lines untouched, and no partial step.
    pub fn on_message(&mut self, m: Option<MsgType>)
        requires
            old(self).wf(),
        ensures
            final(self).wf(),
            final(self).trace == old(self).trace,
            m is None ==> final(self).phase is Finished,
            old(self).phase is Finished ==> *final(self) == *old(self),
            // while awaiting a pause, responses and other events are ignored
            old(self).phase is AwaitingPause && (m matches Some(MsgType::Response(_))
                || m matches Some(MsgType::OtherEvent(_))) ==> *final(self) == *old(self),
            // a pause begins a fresh capture at its top frame exactly when
            // its payload carries a decodable, nonempty call-frame stack;
            // any other pause is skipped and the machine keeps waiting
            old(self).phase is AwaitingPause ==> match m {
                Some(MsgType::PauseEvent(e)) => if pause_usable(value_model(e.params)) {
                    &&& final(self).phase is Capturing
                    &&& final(self).sub is Scan
                    &&& final(self).fi == 0
                    &&& final(self).si == 0
                    &&& final(self).vars.entries@.len() == 0
                    &&& frames_rel(value_model(e.params), final(self).frames@)
                    &&& final(self).frames@.len() > 0
                    &&& final(self).loc == final(self).frames@[0].location
                } else {
                    *final(self) == *old(self)
                },
                _ => true,
            },
            old(self).phase is Capturing && old(self).sub is Scan && m is Some ==> *final(self)
                == *old(self),
            // the reply to a scope fetch: the fetched descriptors either
            // seed a resolver for the scope or, when an earlier frame
            // already recorded the scope's name, are discarded unresolved;
            // anything but a response carrying a result array ends the
            // session
            old(self).phase is Capturing && old(self).sub is FetchScope ==> match m {
                Some(MsgType::Response(resp)) => match member(
                    value_model(resp.result),
                    "result"@,
                ) {
                    Some(Json::Arr(elems)) => {
                        &&& final(self).phase is Capturing
                        &&& final(self).frames == old(self).frames
                        &&& final(self).loc == old(self).loc
                        &&& final(self).fi == old(self).fi
                        &&& final(self).vars == old(self).vars
                        &&& if old(self).vars.contains_name(old(self).scope_name@) {
                            &&& final(self).sub is Scan
                            &&& final(self).si == old(self).si + 1
                            &&& final(self).rsv is None
                        } else {
                            &&& final(self).sub is Resolve
                            &&& final(self).si == old(self).si
                            &&& final(self).scope_name == old(self).scope_name
                            &&& (final(self).rsv matches Some(rv) && rv.fetching is None
                                && rv.stack@.len() == 1 && rv.stack@[0].idx == 0
                                && rv.stack@[0].done@ == Seq::<Variable>::empty()
                                && props_list_rel(elems, rv.stack@[0].props@))
                        }
                    },
                    _ => final(self).phase is Finished,
                },
                _ => final(self).phase is Finished,
            },
            // the reply to a nested property fetch: the fetched descriptors
            // open one nesting level in the resolver; with no fetch
            // outstanding a response is ignored; anything but a response
            // carrying a result array ends the session
            old(self).phase is Capturing && old(self).sub is Resolve ==> ({
                let rv0 = old(self).rsv.unwrap();
                match m {
                    Some(MsgType::Response(resp)) => match member(
                        value_model(resp.result),
                        "result"@,
                    ) {
                        Some(Json::Arr(elems)) => if rv0.fetching is Some {
                            &&& final(self).phase is Capturing
                            &&& final(self).sub is Resolve
                            &&& final(self).vars == old(self).vars
                            &&& final(self).si == old(self).si
                            &&& (final(self).rsv matches Some(rv1) && rv1.fetching is None
                                && rv1.stack@.len() == rv0.stack@.len() + 1 && (forall|i: int|
                                0 <= i < rv0.stack@.len() ==> rv1.stack@[i] == rv0.stack@[i])
                                && rv1.stack@.last().name == rv0.fetching.unwrap()
                                && rv1.stack@.last().idx == 0 && rv1.stack@.last().done@
                                == Seq::<Variable>::empty() && props_list_rel(
                                elems,
                                rv1.stack@.last().props@,
                            ))
                        } else {
                            *final(self) == *old(self)
                        },
                        _ => final(self).phase is Finished,
                    },
                    _ => final(self).phase is Finished,
                }
            }),
    {
        match self.phase {
            Phase::Finished => {},
            Phase::AwaitingPause => {
                match m {
                    None => {
                        self.phase = Phase::Finished;
                    },
                    Some(MsgType::PauseEvent(e)) => {
                        match e.try_get_callframes() {
                            Some(frames) => {
                                if frames.len() > 0 {
                                    proof {
                                        lemma_frames_rel_has_frames(
                                            value_model(e.params),
                                            frames@,
                                        );
                                    }
                                    self.loc = location_copy(&frames[0].location);
                                    self.frames = frames;
                                    self.fi = 0;
                                    self.si = 0;
                                    self.vars = ScopeMap::new();
                                    self.phase = Phase::Capturing;
                                } else {
                                    // a pause with no frames cannot be
                                    // captured: keep waiting
                                    proof {
                                        if pause_usable(value_model(e.params)) {
                                            assert(member(
                                                value_model(e.params),
                                                "callFrames"@,
                                            )->Some_0->Arr_0.len() == frames@.len());
                                            assert(false);
                                        }
                                    }
                                }
                            },
                            None => {
                                // a pause of unexpected shape: keep waiting
                            },
                        }
                    },
                    Some(_) => {
                        // responses and other events do not end the wait
                    },
                }
            },
            Phase::Capturing => {
                match self.sub {
                    SubPhase::Scan => {
                        // no message is awaited here; only stream end matters
                        match m {
                            None => {
                                self.finish_now();
                            },
                            Some(_) => {},
                        }
                    },
                    SubPhase::FetchScope => {
                        match m {
                            Some(MsgType::Response(resp)) => {
                                match parse_properties(&resp.result) {
                                    Some(props) => {
                                        if self.vars.contains(self.scope_name.as_str()) {
                                            // first-writer-wins: an earlier
                                            // frame already recorded this
                                            // name; the fetched properties
                                            // are discarded unresolved
                                            let bound = self.frames[self.fi].scope_chain.len();
                                            proof {
                                                assert(self.si < bound);
                                            }
                                            self.si = self.si + 1;
                                            self.sub = SubPhase::Scan;
                                        } else {
                                            self.rsv = Some(Resolver::new(props));
                                            self.sub = SubPhase::Resolve;
                                        }
                                    },
                                    None => {
                                        // the fetch failed: equivalent to
                                        // stream end for this step
                                        self.finish_now();
                                    },
                                }
                            },
                            _ => {
                                // anything but a response while a fetch is
                                // outstanding ends the session
                                self.finish_now();
                            },
                        }
                    },
                    SubPhase::Resolve => {
                        match m {
                            Some(MsgType::Response(resp)) => {
                                match parse_properties(&resp.result) {
                                    Some(props) => {
                                        match &mut self.rsv {
                                            Some(rv) => {
                                                if rv.fetching.is_some() {
                                                    rv.on_properties(props);
                                                }
                                                // with no fetch outstanding
                                                // nothing was asked: ignored
                                            },
                                            None => {},
                                        }
                                    },
                                    None => {
                                        self.finish_now();
                                    },
                                }
                            },
                            _ => {
                                self.finish_now();
                            },
                        }
                    },
                }
            },
        }
    }

    /// Ends the session: the machine keeps exactly the steps completed so
    /// far.
    fn finish_now(&mut self)
        requires
            old(self).wf(),
        ensures
            final(self).wf(),
            final(self).trace == old(self).trace,
            final(self).phase is Finished,
    {
        self.phase = Phase::Finished;
        self.sub = SubPhase::Scan;
        self.rsv = None;
    }
}

/// A copy of a source location.
fn location_copy(l: &Location) -> (r: Location)
    ensures
        r == *l,
{
    Location {
        column_number: l.column_number,
        line_number: l.line_number,
        script_id: l.script_id.clone(),
    }
}

/// Law: a scope whose name starts with an excluded prefix never appears as
/// a key in any recorded step's variable mapping, nor in the mapping of the
/// step being captured; and a scope-property fetch is only ever in flight
/// for a non-excluded scope name.
pub proof fn lemma_excluded_scopes_never_recorded(r: Recorder)
    requires
        r.wf(),
    ensures
        forall|i: int, j: int|
            0 <= i < r.trace.steps@.len() && 0 <= j < r.trace.steps@[i].vars.entries@.len()
                ==> !excluded_name(#[trigger] r.trace.steps@[i].vars.entries@[j].0@),
        forall|j: int|
            0 <= j < r.vars.entries@.len() ==> !excluded_name(
                (#[trigger] r.vars.entries@[j]).0@,
            ),
        (r.sub is FetchScope || r.sub is Resolve) ==> !excluded_name(r.scope_name@),
{
    assert forall|i: int, j: int|
        0 <= i < r.trace.steps@.len() && 0 <= j < r.trace.steps@[i].vars.entries@.len()
            implies !excluded_name(#[trigger] r.trace.steps@[i].vars.entries@[j].0@) by {
        assert(step_ok(r.trace.steps@[i]));
    }
}

} // verus!
