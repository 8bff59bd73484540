//! The messenger: the window between the core and its remote (generally a UI).
//!
//! It names the two channels of a transport, tracks whether the receive loop
//! is still bound, decides what the loop does with each raw message, and gives
//! responses and events their fixed wire shape.

use vstd::prelude::*;
use crate::value::Value;
use crate::text::{join2, join3, str_eq};

verus! {

/// The reserved message that stops the receive loop. It is recognised on the
/// incoming channel only and is never dispatched as a command.
pub fn shutdown_sentinel() -> (r: &'static str)
    ensures
        r@ == sentinel(),
{
    "turtl:internal:msg:shutdown"
}

pub open spec fn sentinel() -> Seq<char> {
    "turtl:internal:msg:shutdown"@
}

/// A reply to one request. `e == 0` means success and `d` holds the result;
/// any other `e` means failure and `d` describes the error.
#[derive(Debug, PartialEq)]
pub struct Response {
    pub e: i64,
    pub d: Value,
}

/// An uncorrelated notification: `e` names the event, `d` is its payload.
#[derive(Debug, PartialEq)]
pub struct Event {
    pub e: String,
    pub d: Value,
}

/// `v` is the object `{"e": e, "d": d}`, keys in that order.
pub open spec fn is_record(v: Value, e: Value, d: Value) -> bool {
    &&& v is Object
    &&& v->Object_0@.len() == 2
    &&& v->Object_0@[0].0@ == "e"@
    &&& v->Object_0@[0].1 == e
    &&& v->Object_0@[1].0@ == "d"@
    &&& v->Object_0@[1].1 == d
}

/// `v` is the wire form of response `r`.
pub open spec fn encodes_response(v: Value, r: Response) -> bool {
    is_record(v, Value::Int(r.e), r.d)
}

/// The response that `v` is the wire form of, if any.
pub open spec fn response_of(v: Value) -> Option<Response> {
    if v is Object && v->Object_0@.len() == 2 && v->Object_0@[0].0@ == "e"@
        && v->Object_0@[1].0@ == "d"@ && v->Object_0@[0].1 is Int {
        Some(Response { e: v->Object_0@[0].1->Int_0, d: v->Object_0@[1].1 })
    } else {
        None
    }
}

/// Decoding the wire form of any response gives back that same response.
pub proof fn response_round_trip(r: Response, v: Value)
    requires
        encodes_response(v, r),
    ensures
        response_of(v) == Some(r),
{
}

fn record(e: Value, d: Value) -> (v: Value)
    ensures
        is_record(v, e, d),
{
    let mut fields: Vec<(String, Value)> = Vec::new();
    fields.push((String::from_str("e"), e));
    fields.push((String::from_str("d"), d));
    proof {
        reveal_strlit("e");
        reveal_strlit("d");
    }
    Value::Object(fields)
}

impl Response {
    /// A success response carrying `d`.
    pub fn success(d: Value) -> (r: Response)
        ensures
            r.e == 0,
            r.d == d,
    {
        Response { e: 0, d }
    }

    /// An error response describing the failure by `msg`.
    pub fn error(msg: String) -> (r: Response)
        ensures
            r.e == 1,
            r.d == Value::Str(msg),
    {
        Response { e: 1, d: Value::Str(msg) }
    }

    /// The wire form: the object `{"e": e, "d": d}`.
    pub fn to_value(self) -> (v: Value)
        ensures
            encodes_response(v, self),
    {
        record(Value::Int(self.e), self.d)
    }

    /// Reads a response back from its wire form.
    pub fn from_value(v: Value) -> (r: Option<Response>)
        ensures
            r == response_of(v),
    {
        match v {
            Value::Object(fields) => {
                let mut fields = fields;
                if fields.len() != 2 {
                    return None;
                }
                let (dk, d) = fields.pop().unwrap();
                let (ek, e) = fields.pop().unwrap();
                proof {
                    reveal_strlit("e");
                    reveal_strlit("d");
                }
                if !str_eq(ek.as_str(), "e") || !str_eq(dk.as_str(), "d") {
                    return None;
                }
                match e {
                    Value::Int(code) => Some(Response { e: code, d }),
                    _ => None,
                }
            },
            _ => None,
        }
    }
}

impl Event {
    /// An event named `name` carrying `d`.
    pub fn new(name: &str, d: Value) -> (ev: Event)
        ensures
            ev.e@ == name@,
            ev.d == d,
    {
        Event { e: String::from_str(name), d }
    }

    /// The wire form: the object `{"e": name, "d": d}`.
    pub fn to_value(self) -> (v: Value)
        ensures
            v is Object,
            v->Object_0@.len() == 2,
            v->Object_0@[0].0@ == "e"@,
            v->Object_0@[0].1 is Str,
            v->Object_0@[0].1->Str_0@ == self.e@,
            v->Object_0@[1].0@ == "d"@,
            v->Object_0@[1].1 == self.d,
    {
        record(Value::Str(self.e), self.d)
    }
}

/// What the receive loop does with one raw message.
#[derive(Debug, PartialEq, Eq, Structural)]
pub enum LoopStep {
    /// The sentinel arrived: the loop has stopped.
    Stop,
    /// An ordinary message: hand it to the serialized work queue.
    Forward,
}

/// Whether the loop is still bound after it reads `msg` in state `bound`.
pub open spec fn bound_after(bound: bool, msg: Seq<char>) -> bool {
    bound && msg != sentinel()
}

/// Reading the sentinel a second time changes nothing more than reading it once.
pub proof fn sentinel_idempotent(bound: bool)
    ensures
        bound_after(bound_after(bound, sentinel()), sentinel()) == bound_after(bound, sentinel()),
        !bound_after(bound, sentinel()),
{
}

/// The two named channels of a transport and whether its loop is bound.
pub struct Messenger {
    bound: bool,
    channel_in: String,
    channel_out: String,
}

/// The base channel used when the configuration names none.
pub open spec fn default_channel() -> Seq<char> {
    "inproc://turtl"@
}

pub open spec fn in_name(base: Seq<char>) -> Seq<char> {
    base + "-core-in"@
}

pub open spec fn out_name(base: Seq<char>) -> Seq<char> {
    base + "-core-out"@
}

impl Messenger {
    pub closed spec fn spec_in(&self) -> Seq<char> {
        self.channel_in@
    }

    pub closed spec fn spec_out(&self) -> Seq<char> {
        self.channel_out@
    }

    pub closed spec fn spec_bound(&self) -> bool {
        self.bound
    }

    /// A bound messenger listening on `<channel>-core-in` and sending on
    /// `<channel>-core-out`.
    pub fn new_with_channel(channel: String) -> (m: Messenger)
        ensures
            m.spec_bound(),
            m.spec_in() == in_name(channel@),
            m.spec_out() == out_name(channel@),
    {
        Messenger {
            bound: true,
            channel_in: join2(channel.as_str(), "-core-in"),
            channel_out: join2(channel.as_str(), "-core-out"),
        }
    }

    /// The messenger on the configured base channel, or on `inproc://turtl`
    /// when the configuration names none.
    pub fn new_configured(configured: Option<String>) -> (m: Messenger)
        ensures
            m.spec_bound(),
            configured matches Some(c) ==> m.spec_in() == in_name(c@) && m.spec_out() == out_name(
                c@,
            ),
            configured is None ==> m.spec_in() == in_name(default_channel())
                && m.spec_out() == out_name(default_channel()),
    {
        match configured {
            Some(c) => Messenger::new_with_channel(c),
            None => Messenger::new_with_channel(String::from_str("inproc://turtl")),
        }
    }

    /// The peer of `new_with_channel(channel)`: its two channels swapped.
    pub fn new_reversed(channel: String) -> (m: Messenger)
        ensures
            m.spec_bound(),
            m.spec_in() == out_name(channel@),
            m.spec_out() == in_name(channel@),
    {
        let messenger = Messenger::new_with_channel(channel);
        Messenger {
            bound: messenger.bound,
            channel_in: messenger.channel_out,
            channel_out: messenger.channel_in,
        }
    }

    /// The channel this messenger receives on.
    pub fn channel_in(&self) -> (r: &str)
        ensures
            r@ == self.spec_in(),
    {
        self.channel_in.as_str()
    }

    /// The channel this messenger sends on.
    pub fn channel_out(&self) -> (r: &str)
        ensures
            r@ == self.spec_out(),
    {
        self.channel_out.as_str()
    }

    /// The sub-channel `<out>:<suffix>` of the outgoing channel.
    pub fn suffixed_out(&self, suffix: &str) -> (r: String)
        ensures
            r@ == self.spec_out() + ":"@ + suffix@,
    {
        join3(self.channel_out.as_str(), ":", suffix)
    }

    /// Unbinds the messenger; its channels stay as they were.
    pub fn shutdown(&mut self)
        ensures
            !final(self).spec_bound(),
            final(self).spec_in() == old(self).spec_in(),
            final(self).spec_out() == old(self).spec_out(),
    {
        self.bound = false;
    }

    /// Whether the messenger is still bound.
    pub fn is_bound(&self) -> (r: bool)
        ensures
            r == self.spec_bound(),
    {
        self.bound
    }

    /// Handles one raw message of the receive loop: the sentinel unbinds the
    /// messenger and stops the loop; anything else is forwarded untouched.
    pub fn on_message(&mut self, msg: &str) -> (step: LoopStep)
        ensures
            final(self).spec_bound() == bound_after(old(self).spec_bound(), msg@),
            final(self).spec_in() == old(self).spec_in(),
            final(self).spec_out() == old(self).spec_out(),
            step == (if msg@ == sentinel() { LoopStep::Stop } else { LoopStep::Forward }),
    {
        if str_eq(msg, shutdown_sentinel()) {
            self.shutdown();
            LoopStep::Stop
        } else {
            LoopStep::Forward
        }
    }
}

/// A unit of work handed to the messaging thread, run once with the messenger.
pub trait MsgThunk {
    /// The thunk can run with any messenger.
    spec fn runnable(&self) -> bool;

    fn call_box(self: Box<Self>, messenger: &mut Messenger)
        requires
            self.runnable(),
    ;
}

impl<F: FnOnce(&mut Messenger)> MsgThunk for F {
    open spec fn runnable(&self) -> bool {
        forall|m: &mut Messenger| #[trigger] self.requires((m,))
    }

    fn call_box(self: Box<Self>, messenger: &mut Messenger) {
        (*self)(messenger);
    }
}

} // verus!
