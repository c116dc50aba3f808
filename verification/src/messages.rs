//! The protocol's message shapes. An incoming text frame is classified as a
//! response, a "paused" event or any other event — the response shape is
//! tried first, then the event shape, and a frame matching neither is
//! reported as unclassifiable so the transport loop can discard it. The
//! debugger-domain payloads (call frames, scopes, remote object references,
//! property descriptors) are decoded out of the opaque JSON documents into
//! plain data that the rest of the crate reasons about.

use vstd::prelude::*;

verus! {

use crate::json::{
    clone_value,
    member,
    obj_get,
    parse_json,
    parsed_doc,
    value_as_array,
    value_as_i64,
    value_as_str,
    value_as_u64,
    value_is_null,
    value_model,
    Json,
};
use crate::text::str_eq;

/// A reply to a request: the sequence number it answers and its payload.
pub struct Response {
    pub result: serde_json::Value,
    pub id: i64,
}

/// An unsolicited notification: a method name and its payload.
pub struct Event {
    pub method: String,
    pub params: serde_json::Value,
}

/// A source location inside a script.
#[derive(Clone)]
pub struct Location {
    pub column_number: u64,
    pub line_number: u64,
    pub script_id: String,
}

/// A reference to a value in the debugged process: either an inline scalar
/// (`value`, rendered as text) or an opaque identifier (`object_id`) that a
/// further round trip can enumerate the properties of.
#[derive(Clone)]
pub struct RemoteObject {
    pub kind: String,
    pub object_id: Option<String>,
    pub value: Option<String>,
}

/// A variable scope of one call frame: an optional name, the remote object
/// holding its bindings, and a scope-kind tag.
#[derive(Clone)]
pub struct Scope {
    pub name: Option<String>,
    pub object: RemoteObject,
    pub kind: String,
}

/// One stack frame at a pause point.
#[derive(Clone)]
pub struct CallFrame {
    pub call_frame_id: String,
    pub function_name: String,
    pub location: Location,
    pub scope_chain: Vec<Scope>,
    pub url: String,
}

/// One named property of a remote object.
#[derive(Clone)]
pub struct PropertyDescriptor {
    pub name: String,
    pub value: RemoteObject,
}

/// An incoming frame, classified.
pub enum MsgType {
    Response(Response),
    PauseEvent(Event),
    OtherEvent(Event),
}

/// The method name of the pause notification.
pub open spec fn paused_method() -> Seq<char> {
    "Debugger.paused"@
}

/// The view of an optional string.
pub open spec fn opt_view(o: Option<String>) -> Option<Seq<char>> {
    match o {
        Some(s) => Some(s@),
        None => None,
    }
}

/// A required string member's content.
pub open spec fn str_member(j: Json, k: Seq<char>) -> Option<Seq<char>> {
    match member(j, k) {
        Some(Json::Text(t)) => Some(t),
        _ => None,
    }
}

/// An optional string member: absent or `null` is an absent string, a
/// string is its content, anything else fails the decode.
pub open spec fn opt_str_member(j: Json, k: Seq<char>) -> Option<Option<Seq<char>>> {
    match member(j, k) {
        None => Some(None),
        Some(Json::Null) => Some(None),
        Some(Json::Text(t)) => Some(Some(t)),
        Some(_) => None,
    }
}

/// A member read as an unsigned integer.
pub open spec fn u64_member(j: Json, k: Seq<char>) -> Option<u64> {
    match member(j, k) {
        Some(Json::Num(_, u)) => u,
        _ => None,
    }
}

/// A document of the response shape: an integer `id` member beside a
/// `result` member.
pub open spec fn response_shaped(j: Json) -> bool {
    &&& (member(j, "id"@) matches Some(Json::Num(Some(_), _)))
    &&& member(j, "result"@) is Some
}

/// A document of the event shape: a string `method` member beside a
/// `params` member.
pub open spec fn event_shaped(j: Json) -> bool {
    &&& (member(j, "method"@) matches Some(Json::Text(_)))
    &&& member(j, "params"@) is Some
}

/// `resp` is the response a document of the response shape carries.
pub open spec fn response_rel(j: Json, resp: Response) -> bool {
    &&& (member(j, "id"@) matches Some(Json::Num(Some(i), _)) && resp.id == i)
    &&& (member(j, "result"@) matches Some(jr) && value_model(resp.result) == jr)
}

/// `e` is the event a document of the event shape carries.
pub open spec fn event_rel(j: Json, e: Event) -> bool {
    &&& str_member(j, "method"@) == Some(e.method@)
    &&& (member(j, "params"@) matches Some(jp) && value_model(e.params) == jp)
}

/// `loc` is the location the document describes.
pub open spec fn location_rel(j: Json, loc: Location) -> bool {
    &&& u64_member(j, "columnNumber"@) == Some(loc.column_number)
    &&& u64_member(j, "lineNumber"@) == Some(loc.line_number)
    &&& str_member(j, "scriptId"@) == Some(loc.script_id@)
}

/// The document decodes as a location.
pub open spec fn is_location(j: Json) -> bool {
    &&& u64_member(j, "columnNumber"@) is Some
    &&& u64_member(j, "lineNumber"@) is Some
    &&& str_member(j, "scriptId"@) is Some
}

/// `ro` is the remote object reference the document describes.
pub open spec fn remote_object_rel(j: Json, ro: RemoteObject) -> bool {
    &&& str_member(j, "type"@) == Some(ro.kind@)
    &&& opt_str_member(j, "objectId"@) == Some(opt_view(ro.object_id))
    &&& opt_str_member(j, "value"@) == Some(opt_view(ro.value))
}

/// The document decodes as a remote object reference.
pub open spec fn is_remote_object(j: Json) -> bool {
    &&& str_member(j, "type"@) is Some
    &&& opt_str_member(j, "objectId"@) is Some
    &&& opt_str_member(j, "value"@) is Some
}

/// `sc` is the scope the document describes.
pub open spec fn scope_rel(j: Json, sc: Scope) -> bool {
    &&& opt_str_member(j, "name"@) == Some(opt_view(sc.name))
    &&& (member(j, "object"@) matches Some(jo) && remote_object_rel(jo, sc.object))
    &&& str_member(j, "type"@) == Some(sc.kind@)
}

/// The document decodes as a scope.
pub open spec fn is_scope(j: Json) -> bool {
    &&& opt_str_member(j, "name"@) is Some
    &&& (member(j, "object"@) matches Some(jo) && is_remote_object(jo))
    &&& str_member(j, "type"@) is Some
}

/// `f` is the call frame the document describes.
pub open spec fn call_frame_rel(j: Json, f: CallFrame) -> bool {
    &&& str_member(j, "callFrameId"@) == Some(f.call_frame_id@)
    &&& str_member(j, "functionName"@) == Some(f.function_name@)
    &&& (member(j, "location"@) matches Some(jl) && location_rel(jl, f.location))
    &&& (member(j, "scopeChain"@) matches Some(Json::Arr(elems)) && f.scope_chain@.len()
        == elems.len() && (forall|i: int|
        0 <= i < elems.len() ==> scope_rel(elems[i], #[trigger] f.scope_chain@[i])))
    &&& str_member(j, "url"@) == Some(f.url@)
}

/// The document decodes as a call frame.
pub open spec fn is_call_frame(j: Json) -> bool {
    &&& str_member(j, "callFrameId"@) is Some
    &&& str_member(j, "functionName"@) is Some
    &&& (member(j, "location"@) matches Some(jl) && is_location(jl))
    &&& (member(j, "scopeChain"@) matches Some(Json::Arr(elems)) && (forall|i: int|
        0 <= i < elems.len() ==> is_scope(#[trigger] elems[i])))
    &&& str_member(j, "url"@) is Some
}

/// `pd` is the property descriptor the document describes.
pub open spec fn property_descriptor_rel(j: Json, pd: PropertyDescriptor) -> bool {
    &&& str_member(j, "name"@) == Some(pd.name@)
    &&& (member(j, "value"@) matches Some(jv) && remote_object_rel(jv, pd.value))
}

/// The document decodes as a property descriptor.
pub open spec fn is_property_descriptor(j: Json) -> bool {
    &&& str_member(j, "name"@) is Some
    &&& (member(j, "value"@) matches Some(jv) && is_remote_object(jv))
}

/// `frames` are the call frames a pause payload carries.
pub open spec fn frames_rel(j: Json, frames: Seq<CallFrame>) -> bool {
    member(j, "callFrames"@) matches Some(Json::Arr(elems)) && frames.len() == elems.len() && (
    forall|i: int| 0 <= i < elems.len() ==> call_frame_rel(elems[i], #[trigger] frames[i]))
}

/// The payload carries a decodable call-frame stack.
pub open spec fn has_frames(j: Json) -> bool {
    member(j, "callFrames"@) matches Some(Json::Arr(elems)) && (forall|i: int|
        0 <= i < elems.len() ==> is_call_frame(#[trigger] elems[i]))
}

/// The payload carries a decodable, nonempty call-frame stack: what a pause
/// must bring to begin a capture.
pub open spec fn pause_usable(j: Json) -> bool {
    has_frames(j) && (member(j, "callFrames"@) matches Some(Json::Arr(elems)) && elems.len() > 0)
}

/// A document a property descriptor was decoded from is a decodable one.
proof fn lemma_pd_rel_is_pd(j: Json, pd: PropertyDescriptor)
    requires
        property_descriptor_rel(j, pd),
    ensures
        is_property_descriptor(j),
{
}

/// A document a scope was decoded from is a decodable one.
proof fn lemma_scope_rel_is_scope(j: Json, sc: Scope)
    requires
        scope_rel(j, sc),
    ensures
        is_scope(j),
{
}

/// A document a call frame was decoded from is a decodable one.
proof fn lemma_cf_rel_is_cf(j: Json, f: CallFrame)
    requires
        call_frame_rel(j, f),
    ensures
        is_call_frame(j),
{
    let elems = member(j, "scopeChain"@)->Some_0->Arr_0;
    assert(member(j, "scopeChain"@) == Some(Json::Arr(elems)));
    assert forall|k: int| 0 <= k < elems.len() implies is_scope(#[trigger] elems[k]) by {
        assert(scope_rel(elems[k], f.scope_chain@[k]));
        lemma_scope_rel_is_scope(elems[k], f.scope_chain@[k]);
    }
}

/// A payload a call-frame stack was decoded from carries a decodable one.
pub proof fn lemma_frames_rel_has_frames(j: Json, frames: Seq<CallFrame>)
    requires
        frames_rel(j, frames),
    ensures
        has_frames(j),
        member(j, "callFrames"@)->Some_0->Arr_0.len() == frames.len(),
{
    let elems = member(j, "callFrames"@)->Some_0->Arr_0;
    assert(member(j, "callFrames"@) == Some(Json::Arr(elems)));
    assert forall|k: int| 0 <= k < elems.len() implies is_call_frame(#[trigger] elems[k]) by {
        assert(call_frame_rel(elems[k], frames[k]));
        lemma_cf_rel_is_cf(elems[k], frames[k]);
    }
}

/// `ds` are the decodable elements of `elems`, in order, with every element
/// of an unexpected shape dropped.
pub open spec fn props_list_rel(elems: Seq<Json>, ds: Seq<PropertyDescriptor>) -> bool
    decreases elems.len(),
{
    if elems.len() == 0 {
        ds.len() == 0
    } else if is_property_descriptor(elems.last()) {
        ds.len() > 0 && property_descriptor_rel(elems.last(), ds.last()) && props_list_rel(
            elems.drop_last(),
            ds.drop_last(),
        )
    } else {
        props_list_rel(elems.drop_last(), ds)
    }
}

/// Classifies one incoming text frame. The response shape (an integer `id`
/// member beside a `result` member) is tried first, then the event shape (a
/// string `method` member beside a `params` member); an event is a pause
/// event exactly when its method is the pause notification. `None` means the
/// frame matched neither shape and is to be discarded without ending the
/// session.
pub fn classify_frame(text: &str) -> (r: Option<MsgType>)
    ensures
        match r {
            None => !(parsed_doc(text@) matches Some(j) && (response_shaped(j) || event_shaped(
                j,
            ))),
            Some(MsgType::Response(resp)) => (parsed_doc(text@) matches Some(j)
                && response_shaped(j) && response_rel(j, resp)),
            Some(MsgType::PauseEvent(e)) => (parsed_doc(text@) matches Some(j) && !response_shaped(
                j,
            ) && event_shaped(j) && event_rel(j, e) && e.method@ == paused_method()),
            Some(MsgType::OtherEvent(e)) => (parsed_doc(text@) matches Some(j) && !response_shaped(
                j,
            ) && event_shaped(j) && event_rel(j, e) && e.method@ != paused_method()),
        },
{
    let v = match parse_json(text) {
        Some(v) => v,
        None => {
            return None;
        },
    };
    let id_member = obj_get(&v, "id");
    if let Some(idv) = id_member {
        if let Some(id) = value_as_i64(idv) {
            if let Some(res) = obj_get(&v, "result") {
                return Some(MsgType::Response(Response { result: clone_value(res), id }));
            }
        }
    }
    let method = match obj_get(&v, "method") {
        Some(m) => match value_as_str(m) {
            Some(s) => s.to_owned(),
            None => {
                return None;
            },
        },
        None => {
            return None;
        },
    };
    let params = match obj_get(&v, "params") {
        Some(p) => clone_value(p),
        None => {
            return None;
        },
    };
    let ev = Event { method, params };
    if str_eq(ev.method.as_str(), "Debugger.paused") {
        Some(MsgType::PauseEvent(ev))
    } else {
        Some(MsgType::OtherEvent(ev))
    }
}

/// Decodes an optional string member: absent or `null` is `None`, a string
/// is its content, and anything else fails the decode.
fn decode_opt_string(v: &serde_json::Value, key: &str) -> (r: Option<Option<String>>)
    ensures
        match r {
            Some(o) => opt_str_member(value_model(*v), key@) == Some(opt_view(o)),
            None => opt_str_member(value_model(*v), key@) is None,
        },
{
    match obj_get(v, key) {
        None => Some(None),
        Some(m) => {
            if value_is_null(m) {
                Some(None)
            } else {
                match value_as_str(m) {
                    Some(s) => Some(Some(s.to_owned())),
                    None => None,
                }
            }
        },
    }
}

/// Decodes a required string member.
fn decode_string(v: &serde_json::Value, key: &str) -> (r: Option<String>)
    ensures
        opt_view(r) == str_member(value_model(*v), key@),
{
    match obj_get(v, key) {
        None => None,
        Some(m) => match value_as_str(m) {
            Some(s) => Some(s.to_owned()),
            None => None,
        },
    }
}

/// Decodes a source location.
pub fn decode_location(v: &serde_json::Value) -> (r: Option<Location>)
    ensures
        match r {
            Some(loc) => location_rel(value_model(*v), loc),
            None => !is_location(value_model(*v)),
        },
{
    let column_number = match obj_get(v, "columnNumber") {
        Some(m) => match value_as_u64(m) {
            Some(n) => n,
            None => {
                return None;
            },
        },
        None => {
            return None;
        },
    };
    let line_number = match obj_get(v, "lineNumber") {
        Some(m) => match value_as_u64(m) {
            Some(n) => n,
            None => {
                return None;
            },
        },
        None => {
            return None;
        },
    };
    let script_id = match decode_string(v, "scriptId") {
        Some(s) => s,
        None => {
            return None;
        },
    };
    Some(Location { column_number, line_number, script_id })
}

/// Decodes a remote object reference.
pub fn decode_remote_object(v: &serde_json::Value) -> (r: Option<RemoteObject>)
    ensures
        match r {
            Some(ro) => remote_object_rel(value_model(*v), ro),
            None => !is_remote_object(value_model(*v)),
        },
{
    let kind = match decode_string(v, "type") {
        Some(s) => s,
        None => {
            return None;
        },
    };
    let object_id = match decode_opt_string(v, "objectId") {
        Some(o) => o,
        None => {
            return None;
        },
    };
    let value = match decode_opt_string(v, "value") {
        Some(o) => o,
        None => {
            return None;
        },
    };
    Some(RemoteObject { kind, object_id, value })
}

/// Decodes one scope of a scope chain.
pub fn decode_scope(v: &serde_json::Value) -> (r: Option<Scope>)
    ensures
        match r {
            Some(sc) => scope_rel(value_model(*v), sc),
            None => !is_scope(value_model(*v)),
        },
{
    let name = match decode_opt_string(v, "name") {
        Some(o) => o,
        None => {
            return None;
        },
    };
    let object = match obj_get(v, "object") {
        Some(m) => match decode_remote_object(m) {
            Some(o) => o,
            None => {
                return None;
            },
        },
        None => {
            return None;
        },
    };
    let kind = match decode_string(v, "type") {
        Some(s) => s,
        None => {
            return None;
        },
    };
    Some(Scope { name, object, kind })
}

/// Decodes one call frame.
pub fn decode_call_frame(v: &serde_json::Value) -> (r: Option<CallFrame>)
    ensures
        match r {
            Some(f) => call_frame_rel(value_model(*v), f),
            None => !is_call_frame(value_model(*v)),
        },
{
    let call_frame_id = match decode_string(v, "callFrameId") {
        Some(s) => s,
        None => {
            return None;
        },
    };
    let function_name = match decode_string(v, "functionName") {
        Some(s) => s,
        None => {
            return None;
        },
    };
    let location = match obj_get(v, "location") {
        Some(m) => match decode_location(m) {
            Some(l) => l,
            None => {
                return None;
            },
        },
        None => {
            return None;
        },
    };
    let chain = match obj_get(v, "scopeChain") {
        Some(m) => m,
        None => {
            return None;
        },
    };
    let arr = match value_as_array(chain) {
        Some(a) => a,
        None => {
            return None;
        },
    };
    let ghost elems = value_model(*chain)->Arr_0;
    proof {
        assert(value_model(*chain) == Json::Arr(elems));
    }
    let mut scope_chain: Vec<Scope> = Vec::new();
    let mut i: usize = 0;
    while i < arr.len()
        invariant
            i <= arr.len(),
            member(value_model(*v), "scopeChain"@) == Some(Json::Arr(elems)),
            arr@.len() == elems.len(),
            forall|k: int| 0 <= k < arr@.len() ==> value_model(#[trigger] arr@[k]) == elems[k],
            scope_chain@.len() == i,
            forall|k: int| 0 <= k < i ==> scope_rel(elems[k], #[trigger] scope_chain@[k]),
        decreases arr.len() - i,
    {
        proof {
            assert(value_model(arr@[i as int]) == elems[i as int]);
        }
        match decode_scope(&arr[i]) {
            Some(s) => scope_chain.push(s),
            None => {
                proof {
                    assert(!is_scope(elems[i as int]));
                    if is_call_frame(value_model(*v)) {
                        assert(member(value_model(*v), "scopeChain"@)->Some_0->Arr_0 == elems);
                        assert(forall|k: int|
                            0 <= k < elems.len() ==> is_scope(#[trigger] elems[k]));
                        assert(false);
                    }
                }
                return None;
            },
        }
        i += 1;
    }
    let url = match decode_string(v, "url") {
        Some(s) => s,
        None => {
            return None;
        },
    };
    Some(CallFrame { call_frame_id, function_name, location, scope_chain, url })
}

/// Decodes one property descriptor; `None` marks a descriptor of an
/// unexpected shape, which the caller drops without ending the session.
pub fn decode_property_descriptor(v: &serde_json::Value) -> (r: Option<PropertyDescriptor>)
    ensures
        match r {
            Some(pd) => property_descriptor_rel(value_model(*v), pd),
            None => !is_property_descriptor(value_model(*v)),
        },
{
    let name = match decode_string(v, "name") {
        Some(s) => s,
        None => {
            return None;
        },
    };
    let value = match obj_get(v, "value") {
        Some(m) => match decode_remote_object(m) {
            Some(o) => o,
            None => {
                return None;
            },
        },
        None => {
            return None;
        },
    };
    Some(PropertyDescriptor { name, value })
}

impl Event {
    /// The call-frame stack carried by a pause event; `None` when the
    /// payload has no decodable `callFrames` member.
    pub fn try_get_callframes(&self) -> (r: Option<Vec<CallFrame>>)
        ensures
            match r {
                Some(frames) => frames_rel(value_model(self.params), frames@),
                None => !has_frames(value_model(self.params)),
            },
    {
        let cf = match obj_get(&self.params, "callFrames") {
            Some(m) => m,
            None => {
                return None;
            },
        };
        let arr = match value_as_array(cf) {
            Some(a) => a,
            None => {
                return None;
            },
        };
        let ghost elems = value_model(*cf)->Arr_0;
        proof {
            assert(value_model(*cf) == Json::Arr(elems));
        }
        let mut frames: Vec<CallFrame> = Vec::new();
        let mut i: usize = 0;
        while i < arr.len()
            invariant
                i <= arr.len(),
                member(value_model(self.params), "callFrames"@) == Some(Json::Arr(elems)),
                arr@.len() == elems.len(),
                forall|k: int| 0 <= k < arr@.len() ==> value_model(#[trigger] arr@[k]) == elems[k],
                frames@.len() == i,
                forall|k: int| 0 <= k < i ==> call_frame_rel(elems[k], #[trigger] frames@[k]),
            decreases arr.len() - i,
        {
            proof {
                assert(value_model(arr@[i as int]) == elems[i as int]);
            }
            match decode_call_frame(&arr[i]) {
                Some(f) => frames.push(f),
                None => {
                    proof {
                        assert(!is_call_frame(elems[i as int]));
                        if has_frames(value_model(self.params)) {
                            assert(member(value_model(self.params), "callFrames"@)->Some_0->Arr_0
                                == elems);
                            assert(forall|k: int|
                                0 <= k < elems.len() ==> is_call_frame(#[trigger] elems[k]));
                            assert(false);
                        }
                    }
                    return None;
                },
            }
            i += 1;
        }
        Some(frames)
    }
}

/// Decodes the payload of a reply to a property fetch: the `result` member
/// must be an array; each element that decodes as a property descriptor is
/// kept, in order, and each element of an unexpected shape is dropped.
/// `None` (no array to read) is the fetch failing as a whole.
pub fn parse_properties(result: &serde_json::Value) -> (r: Option<Vec<PropertyDescriptor>>)
    ensures
        match r {
            Some(ds) => (member(value_model(*result), "result"@) matches Some(Json::Arr(elems))
                && props_list_rel(elems, ds@)),
            None => !(member(value_model(*result), "result"@) matches Some(Json::Arr(_))),
        },
{
    let inner = match obj_get(result, "result") {
        Some(m) => m,
        None => {
            return None;
        },
    };
    let arr = match value_as_array(inner) {
        Some(a) => a,
        None => {
            return None;
        },
    };
    let ghost elems = value_model(*inner)->Arr_0;
    proof {
        assert(value_model(*inner) == Json::Arr(elems));
        assert(elems.take(0) =~= Seq::<Json>::empty());
    }
    let mut props: Vec<PropertyDescriptor> = Vec::new();
    let mut i: usize = 0;
    while i < arr.len()
        invariant
            i <= arr.len(),
            member(value_model(*result), "result"@) == Some(Json::Arr(elems)),
            arr@.len() == elems.len(),
            forall|k: int| 0 <= k < arr@.len() ==> value_model(#[trigger] arr@[k]) == elems[k],
            props_list_rel(elems.take(i as int), props@),
        decreases arr.len() - i,
    {
        let ghost props0 = props@;
        proof {
            assert(value_model(arr@[i as int]) == elems[i as int]);
        }
        match decode_property_descriptor(&arr[i]) {
            Some(p) => {
                proof {
                    lemma_pd_rel_is_pd(elems[i as int], p);
                }
                props.push(p);
                proof {
                    let t1 = elems.take(i as int + 1);
                    assert(t1.drop_last() =~= elems.take(i as int));
                    assert(t1.last() == elems[i as int]);
                    assert(props@.drop_last() =~= props0);
                    assert(props_list_rel(t1, props@));
                }
            },
            None => {
                proof {
                    let t1 = elems.take(i as int + 1);
                    assert(t1.drop_last() =~= elems.take(i as int));
                    assert(t1.last() == elems[i as int]);
                    assert(!is_property_descriptor(elems[i as int]));
                    assert(props_list_rel(t1, props@));
                }
            },
        }
        i += 1;
    }
    proof {
        assert(elems.take(elems.len() as int) =~= elems);
    }
    Some(props)
}

} // verus!
