//! The command router.
//!
//! A request is the array `[id, command, arg2, arg3, ...]`. Routing turns the
//! command string and its positional arguments into a `Command`: a typed plan
//! of what the core state must do. The caller performs it and hands back the
//! outcome, from which `complete` builds the one response of the request.

use vstd::prelude::*;
use crate::value::{Value, empty_object, str_value};
use crate::messaging::{Response, Event};
use crate::sync::{SyncConfig, SyncState, TickAction, all_paused, pause_then_resume, tick_of};
use crate::text::{str_eq, join2};

verus! {

/// The kinds of record that `profile:sync:model` can save or delete.
#[derive(Debug, PartialEq, Eq, Structural, Clone, Copy)]
pub enum ModelType {
    User,
    Space,
    Board,
    Note,
    Invite,
}

/// A routed request: what the core state must do for it.
#[derive(Debug, PartialEq)]
pub enum Command {
    Login { username: String, password: String },
    Join { username: String, password: String },
    Logout,
    DeleteAccount,
    WipeLocalData,
    StartSync,
    PauseSync,
    ResumeSync,
    /// Stop the syncers and wait until they have exited.
    ShutdownSync,
    SetEndpoint { endpoint: String },
    /// Stop the syncers without waiting, raise the shutdown event, then ack.
    Shutdown,
    LoadProfile,
    SaveModel { ty: ModelType, model: Value },
    DeleteModel { ty: ModelType, id: String },
    GetNotes { ids: Value },
    FindNotes { query: Value },
    GetTags { space_id: String, boards: Vec<String>, limit: i32 },
    Ping,
}

/// Why a request could not be routed.
#[derive(Debug, PartialEq)]
pub enum DispatchError {
    /// No command of that name; carries the name.
    MissingCommand(String),
    /// A required argument or collaborator is absent or ill-typed.
    MissingField(String),
    /// A recognised field holds a value that is not supported.
    BadValue(String),
}

pub open spec fn missing_command_message(cmd: Seq<char>) -> Seq<char> {
    "missing command: "@ + cmd
}

pub open spec fn bad_type_message(ty: Seq<char>) -> Seq<char> {
    "dispatch: profile:sync:model -- unknown sync type "@ + ty
}

pub open spec fn bad_action_message(action: Seq<char>) -> Seq<char> {
    "dispatch: profile:sync:model -- unknown sync action "@ + action
}

impl DispatchError {
    /// The description of the error carried in an error response.
    pub fn message(self) -> (s: String)
        ensures
            self matches DispatchError::MissingCommand(c) ==> s@ == missing_command_message(c@),
            self matches DispatchError::MissingField(m) ==> s@ == m@,
            self matches DispatchError::BadValue(m) ==> s@ == m@,
    {
        match self {
            DispatchError::MissingCommand(c) => join2("missing command: ", c.as_str()),
            DispatchError::MissingField(m) => m,
            DispatchError::BadValue(m) => m,
        }
    }
}

/// Every command name the router knows.
pub open spec fn registered(c: Seq<char>) -> bool {
    ||| c == "user:login"@
    ||| c == "user:join"@
    ||| c == "user:logout"@
    ||| c == "user:delete-account"@
    ||| c == "app:wipe-local-data"@
    ||| c == "app:start-sync"@
    ||| c == "app:pause-sync"@
    ||| c == "app:resume-sync"@
    ||| c == "app:shutdown-sync"@
    ||| c == "app:api:set-endpoint"@
    ||| c == "app:shutdown"@
    ||| c == "profile:load"@
    ||| c == "profile:sync:model"@
    ||| c == "profile:get-notes"@
    ||| c == "profile:find-notes"@
    ||| c == "profile:get-tags"@
    ||| c == "ping"@
}

/// Argument `i` is present and a string.
pub open spec fn str_at(d: Seq<Value>, i: int) -> bool {
    0 <= i < d.len() && d[i] is Str
}

/// The characters of string argument `i`.
pub open spec fn chars_at(d: Seq<Value>, i: int) -> Seq<char> {
    d[i]->Str_0@
}

/// Argument `i` is present and an array.
pub open spec fn array_at(d: Seq<Value>, i: int) -> bool {
    0 <= i < d.len() && d[i] is Array
}

/// Argument `i` is present and an object.
pub open spec fn object_at(d: Seq<Value>, i: int) -> bool {
    0 <= i < d.len() && d[i] is Object
}

pub open spec fn is_missing(r: Result<Command, DispatchError>) -> bool {
    r matches Err(DispatchError::MissingField(_))
}

pub open spec fn no_search_message() -> Seq<char> {
    "dispatch: turtl is missing `search` object"@
}

/// `r` refuses a request that needs the search index, which does not exist yet.
pub open spec fn no_search(r: Result<Command, DispatchError>) -> bool {
    r matches Err(DispatchError::MissingField(m)) && m@ == no_search_message()
}

/// The record type that a type tag names.
pub open spec fn model_type_of(ty: Seq<char>) -> Option<ModelType> {
    if ty == "user"@ {
        Some(ModelType::User)
    } else if ty == "space"@ {
        Some(ModelType::Space)
    } else if ty == "board"@ {
        Some(ModelType::Board)
    } else if ty == "note"@ {
        Some(ModelType::Note)
    } else if ty == "invite"@ {
        Some(ModelType::Invite)
    } else {
        None
    }
}

/// The value of key `k` among the fields `fs` (its first occurrence).
pub open spec fn field_of(fs: Seq<(String, Value)>, k: Seq<char>) -> Option<Value>
    decreases fs.len(),
{
    if fs.len() == 0 {
        None
    } else if fs[0].0@ == k {
        Some(fs[0].1)
    } else {
        field_of(fs.drop_first(), k)
    }
}

/// The `id` string of a model argument, if it has one.
pub open spec fn model_id(v: Value) -> Option<Seq<char>> {
    if v is Object {
        match field_of(v->Object_0@, "id"@) {
            Some(Value::Str(s)) => Some(s@),
            _ => None,
        }
    } else {
        None
    }
}

/// The board ids of a `profile:get-tags` request, if they are all strings.
pub open spec fn all_strings(vs: Seq<Value>) -> bool {
    forall|i: int| 0 <= i < vs.len() ==> (#[trigger] vs[i]) is Str
}

pub open spec fn same_strings(out: Seq<String>, vs: Seq<Value>) -> bool {
    &&& out.len() == vs.len()
    &&& forall|i: int| 0 <= i < vs.len() ==> (#[trigger] out[i])@ == vs[i]->Str_0@
}

/// `r` is the routing of a `profile:sync:model` request with arguments `d`.
pub open spec fn routes_sync_model(d: Seq<Value>, r: Result<Command, DispatchError>) -> bool {
    if !str_at(d, 2) || !str_at(d, 3) {
        is_missing(r)
    } else {
        let action = chars_at(d, 2);
        let ty = chars_at(d, 3);
        if action == "create"@ || action == "update"@ {
            match model_type_of(ty) {
                None => r matches Err(DispatchError::BadValue(m)) && m@ == bad_type_message(ty),
                Some(t) => if object_at(d, 4) {
                    r == Ok::<Command, DispatchError>(Command::SaveModel { ty: t, model: d[4] })
                } else {
                    is_missing(r)
                },
            }
        } else if action == "delete"@ {
            if !(0 <= 4 < d.len()) || model_id(d[4]) is None {
                is_missing(r)
            } else {
                match model_type_of(ty) {
                    None => r matches Err(DispatchError::BadValue(m)) && m@ == bad_type_message(ty),
                    Some(t) => r matches Ok(Command::DeleteModel { ty: tt, id }) && tt == t
                        && id@ == model_id(d[4])->Some_0,
                }
            }
        } else {
            r matches Err(DispatchError::BadValue(m)) && m@ == bad_action_message(action)
        }
    }
}

/// `r` is the routing of command `c` with arguments `d`, where `has_search`
/// tells whether the search index exists.
pub open spec fn routes(
    c: Seq<char>,
    d: Seq<Value>,
    has_search: bool,
    r: Result<Command, DispatchError>,
) -> bool {
    if c == "user:login"@ || c == "user:join"@ {
        if str_at(d, 2) && str_at(d, 3) {
            if c == "user:login"@ {
                r matches Ok(Command::Login { username, password })
                    && username@ == chars_at(d, 2) && password@ == chars_at(d, 3)
            } else {
                r matches Ok(Command::Join { username, password })
                    && username@ == chars_at(d, 2) && password@ == chars_at(d, 3)
            }
        } else {
            is_missing(r)
        }
    } else if c == "user:logout"@ {
        r == Ok::<Command, DispatchError>(Command::Logout)
    } else if c == "user:delete-account"@ {
        r == Ok::<Command, DispatchError>(Command::DeleteAccount)
    } else if c == "app:wipe-local-data"@ {
        r == Ok::<Command, DispatchError>(Command::WipeLocalData)
    } else if c == "app:start-sync"@ {
        r == Ok::<Command, DispatchError>(Command::StartSync)
    } else if c == "app:pause-sync"@ {
        r == Ok::<Command, DispatchError>(Command::PauseSync)
    } else if c == "app:resume-sync"@ {
        r == Ok::<Command, DispatchError>(Command::ResumeSync)
    } else if c == "app:shutdown-sync"@ {
        r == Ok::<Command, DispatchError>(Command::ShutdownSync)
    } else if c == "app:api:set-endpoint"@ {
        if str_at(d, 2) {
            r matches Ok(Command::SetEndpoint { endpoint }) && endpoint@ == chars_at(d, 2)
        } else {
            is_missing(r)
        }
    } else if c == "app:shutdown"@ {
        r == Ok::<Command, DispatchError>(Command::Shutdown)
    } else if c == "profile:load"@ {
        r == Ok::<Command, DispatchError>(Command::LoadProfile)
    } else if c == "profile:sync:model"@ {
        routes_sync_model(d, r)
    } else if c == "profile:get-notes"@ {
        if array_at(d, 2) {
            r == Ok::<Command, DispatchError>(Command::GetNotes { ids: d[2] })
        } else {
            is_missing(r)
        }
    } else if c == "profile:find-notes"@ {
        if !object_at(d, 2) {
            is_missing(r)
        } else if !has_search {
            no_search(r)
        } else {
            r == Ok::<Command, DispatchError>(Command::FindNotes { query: d[2] })
        }
    } else if c == "profile:get-tags"@ {
        if str_at(d, 2) && array_at(d, 3) && all_strings(d[3]->Array_0@) && 0 <= 4 < d.len()
            && d[4] is Int && i32::MIN <= d[4]->Int_0 <= i32::MAX {
            if has_search {
                r matches Ok(Command::GetTags { space_id, boards, limit })
                    && space_id@ == chars_at(d, 2)
                    && same_strings(boards@, d[3]->Array_0@)
                    && limit == d[4]->Int_0
            } else {
                no_search(r)
            }
        } else {
            is_missing(r)
        }
    } else if c == "ping"@ {
        r == Ok::<Command, DispatchError>(Command::Ping)
    } else {
        r matches Err(DispatchError::MissingCommand(m)) && m@ == c
    }
}

/// Every unknown command name is refused with an error that names it.
pub proof fn unknown_command_refused(
    c: Seq<char>,
    d: Seq<Value>,
    has_search: bool,
    r: Result<Command, DispatchError>,
)
    requires
        !registered(c),
        routes(c, d, has_search, r),
    ensures
        r matches Err(DispatchError::MissingCommand(m)) && m@ == c,
{
}

proof fn lemma_field_of_skip(fs: Seq<(String, Value)>, k: Seq<char>, i: int)
    requires
        0 <= i <= fs.len(),
        forall|j: int| 0 <= j < i ==> (#[trigger] fs[j]).0@ != k,
    ensures
        field_of(fs, k) == field_of(fs.subrange(i, fs.len() as int), k),
    decreases i,
{
    if i == 0 {
        assert(fs.subrange(0, fs.len() as int) == fs);
    } else {
        assert(fs[0].0@ != k);
        let rest = fs.drop_first();
        assert forall|j: int| 0 <= j < i - 1 implies (#[trigger] rest[j]).0@ != k by {
            assert(rest[j] == fs[j + 1]);
        }
        lemma_field_of_skip(rest, k, i - 1);
        assert(rest.subrange(i - 1, rest.len() as int) == fs.subrange(i, fs.len() as int));
    }
}

/// The record type that the tag `ty` names.
pub fn model_type_from(ty: &str) -> (r: Option<ModelType>)
    ensures
        r == model_type_of(ty@),
{
    if str_eq(ty, "user") {
        Some(ModelType::User)
    } else if str_eq(ty, "space") {
        Some(ModelType::Space)
    } else if str_eq(ty, "board") {
        Some(ModelType::Board)
    } else if str_eq(ty, "note") {
        Some(ModelType::Note)
    } else if str_eq(ty, "invite") {
        Some(ModelType::Invite)
    } else {
        None
    }
}

/// The `id` string of a model value, if it has one.
pub fn model_id_of(v: &Value) -> (r: Option<String>)
    ensures
        r is Some == model_id(*v) is Some,
        r is Some ==> r->Some_0@ == model_id(*v)->Some_0,
{
    match v {
        Value::Object(fs) => {
            let n: usize = fs.len();
            let mut i: usize = 0;
            while i < n
                invariant
                    *v == Value::Object(*fs),
                    n == fs@.len(),
                    i <= n,
                    forall|j: int| 0 <= j < i ==> (#[trigger] fs@[j]).0@ != "id"@,
                decreases n - i,
            {
                if str_eq(fs[i].0.as_str(), "id") {
                    proof {
                        lemma_field_of_skip(fs@, "id"@, i as int);
                        let sub = fs@.subrange(i as int, n as int);
                        assert(sub[0] == fs@[i as int]);
                        assert(field_of(sub, "id"@) == Some(fs@[i as int].1));
                    }
                    let entry = &fs[i];
                    match &entry.1 {
                        Value::Str(s) => {
                            assert(entry.1 == Value::Str(*s));
                            return Some(s.clone());
                        },
                        _ => {
                            return None;
                        },
                    }
                }
                i = i + 1;
            }
            proof {
                lemma_field_of_skip(fs@, "id"@, n as int);
            }
            None
        },
        _ => None,
    }
}

/// A copy of string argument `i`.
fn arg_str(d: &Vec<Value>, i: usize) -> (r: Option<String>)
    ensures
        r is Some == str_at(d@, i as int),
        r is Some ==> r->Some_0@ == chars_at(d@, i as int),
{
    if i < d.len() {
        match &d[i] {
            Value::Str(s) => Some(s.clone()),
            _ => None,
        }
    } else {
        None
    }
}

fn is_array_at(d: &Vec<Value>, i: usize) -> (r: bool)
    ensures
        r == array_at(d@, i as int),
{
    i < d.len() && match &d[i] {
        Value::Array(_) => true,
        _ => false,
    }
}

fn is_object_at(d: &Vec<Value>, i: usize) -> (r: bool)
    ensures
        r == object_at(d@, i as int),
{
    i < d.len() && match &d[i] {
        Value::Object(_) => true,
        _ => false,
    }
}

/// Copies of the strings of array argument `i`, if it is an array of strings.
fn arg_strings(d: &Vec<Value>, i: usize) -> (r: Option<Vec<String>>)
    ensures
        r is Some == (array_at(d@, i as int) && all_strings(d@[i as int]->Array_0@)),
        r is Some ==> same_strings(r->Some_0@, d@[i as int]->Array_0@),
{
    if i >= d.len() {
        return None;
    }
    match &d[i] {
        Value::Array(vs) => {
            let mut out: Vec<String> = Vec::new();
            let n: usize = vs.len();
            let mut k: usize = 0;
            while k < n
                invariant
                    i < d@.len(),
                    d@[i as int] == Value::Array(*vs),
                    n == vs@.len(),
                    k <= n,
                    out@.len() == k,
                    forall|j: int| 0 <= j < k ==> (#[trigger] vs@[j]) is Str,
                    forall|j: int| 0 <= j < k ==> (#[trigger] out@[j])@ == vs@[j]->Str_0@,
                decreases n - k,
            {
                match &vs[k] {
                    Value::Str(s) => out.push(s.clone()),
                    _ => {
                        assert(!(vs@[k as int] is Str));
                        return None;
                    },
                }
                k = k + 1;
            }
            Some(out)
        },
        _ => None,
    }
}

/// Integer argument `i`, if it is present and fits an `i32`.
fn arg_i32(d: &Vec<Value>, i: usize) -> (r: Option<i32>)
    ensures
        r is Some == (0 <= i < d@.len() && d@[i as int] is Int && i32::MIN <= d@[i as int]->Int_0
            <= i32::MAX),
        r is Some ==> r->Some_0 as i64 == d@[i as int]->Int_0,
{
    if i < d.len() {
        match &d[i] {
            Value::Int(n) => if i32::MIN as i64 <= *n && *n <= i32::MAX as i64 {
                Some(*n as i32)
            } else {
                None
            },
            _ => None,
        }
    } else {
        None
    }
}

/// Moves argument `i` out of the request.
fn take_arg(d: Vec<Value>, i: usize) -> (r: Value)
    requires
        i < d@.len(),
    ensures
        r == d@[i as int],
{
    let mut d = d;
    d.swap_remove(i)
}

fn missing_arg() -> (e: DispatchError)
    ensures
        e is MissingField,
{
    DispatchError::MissingField(String::from_str("dispatch: missing or ill-typed argument"))
}

fn missing_search() -> (e: DispatchError)
    ensures
        e matches DispatchError::MissingField(m) && m@ == no_search_message(),
{
    DispatchError::MissingField(String::from_str("dispatch: turtl is missing `search` object"))
}

fn route_sync_model(d: Vec<Value>) -> (r: Result<Command, DispatchError>)
    ensures
        routes_sync_model(d@, r),
{
    let action = match arg_str(&d, 2) {
        Some(a) => a,
        None => return Err(missing_arg()),
    };
    let ty = match arg_str(&d, 3) {
        Some(t) => t,
        None => return Err(missing_arg()),
    };
    if str_eq(action.as_str(), "create") || str_eq(action.as_str(), "update") {
        match model_type_from(ty.as_str()) {
            None => Err(DispatchError::BadValue(
                join2("dispatch: profile:sync:model -- unknown sync type ", ty.as_str()),
            )),
            Some(t) => if is_object_at(&d, 4) {
                Ok(Command::SaveModel { ty: t, model: take_arg(d, 4) })
            } else {
                Err(missing_arg())
            },
        }
    } else if str_eq(action.as_str(), "delete") {
        if d.len() <= 4 {
            return Err(missing_arg());
        }
        let id = match model_id_of(&d[4]) {
            Some(id) => id,
            None => return Err(missing_arg()),
        };
        match model_type_from(ty.as_str()) {
            None => Err(DispatchError::BadValue(
                join2("dispatch: profile:sync:model -- unknown sync type ", ty.as_str()),
            )),
            Some(t) => Ok(Command::DeleteModel { ty: t, id }),
        }
    } else {
        Err(DispatchError::BadValue(
            join2("dispatch: profile:sync:model -- unknown sync action ", action.as_str()),
        ))
    }
}

/// Routes command `cmd` of request `d` (the whole request array); `has_search`
/// tells whether the search index exists.
pub fn route(cmd: &str, d: Vec<Value>, has_search: bool) -> (r: Result<Command, DispatchError>)
    ensures
        routes(cmd@, d@, has_search, r),
{
    if str_eq(cmd, "user:login") || str_eq(cmd, "user:join") {
        let username = match arg_str(&d, 2) {
            Some(u) => u,
            None => return Err(missing_arg()),
        };
        let password = match arg_str(&d, 3) {
            Some(p) => p,
            None => return Err(missing_arg()),
        };
        if str_eq(cmd, "user:login") {
            Ok(Command::Login { username, password })
        } else {
            Ok(Command::Join { username, password })
        }
    } else if str_eq(cmd, "user:logout") {
        Ok(Command::Logout)
    } else if str_eq(cmd, "user:delete-account") {
        Ok(Command::DeleteAccount)
    } else if str_eq(cmd, "app:wipe-local-data") {
        Ok(Command::WipeLocalData)
    } else if str_eq(cmd, "app:start-sync") {
        Ok(Command::StartSync)
    } else if str_eq(cmd, "app:pause-sync") {
        Ok(Command::PauseSync)
    } else if str_eq(cmd, "app:resume-sync") {
        Ok(Command::ResumeSync)
    } else if str_eq(cmd, "app:shutdown-sync") {
        Ok(Command::ShutdownSync)
    } else if str_eq(cmd, "app:api:set-endpoint") {
        match arg_str(&d, 2) {
            Some(endpoint) => Ok(Command::SetEndpoint { endpoint }),
            None => Err(missing_arg()),
        }
    } else if str_eq(cmd, "app:shutdown") {
        Ok(Command::Shutdown)
    } else if str_eq(cmd, "profile:load") {
        Ok(Command::LoadProfile)
    } else if str_eq(cmd, "profile:sync:model") {
        route_sync_model(d)
    } else if str_eq(cmd, "profile:get-notes") {
        if is_array_at(&d, 2) {
            Ok(Command::GetNotes { ids: take_arg(d, 2) })
        } else {
            Err(missing_arg())
        }
    } else if str_eq(cmd, "profile:find-notes") {
        if !is_object_at(&d, 2) {
            Err(missing_arg())
        } else if !has_search {
            Err(missing_search())
        } else {
            Ok(Command::FindNotes { query: take_arg(d, 2) })
        }
    } else if str_eq(cmd, "profile:get-tags") {
        let space_id = match arg_str(&d, 2) {
            Some(s) => s,
            None => return Err(missing_arg()),
        };
        let boards = match arg_strings(&d, 3) {
            Some(b) => b,
            None => return Err(missing_arg()),
        };
        let limit = match arg_i32(&d, 4) {
            Some(l) => l,
            None => return Err(missing_arg()),
        };
        if !has_search {
            return Err(missing_search());
        }
        Ok(Command::GetTags { space_id, boards, limit })
    } else if str_eq(cmd, "ping") {
        Ok(Command::Ping)
    } else {
        Err(DispatchError::MissingCommand(String::from_str(cmd)))
    }
}

/// The description that an error response carries for `e`.
pub open spec fn error_message(e: DispatchError) -> Seq<char> {
    match e {
        DispatchError::MissingCommand(c) => missing_command_message(c@),
        DispatchError::MissingField(m) => m@,
        DispatchError::BadValue(m) => m@,
    }
}

/// What became of one decoded message.
#[derive(Debug, PartialEq)]
pub enum Incoming {
    /// Not a request: no id can be read, so nothing is answered.
    Malformed(DispatchError),
    /// Answered without touching the core state.
    Reply { mid: String, response: Response },
    /// The core state must perform `command`; `complete` then builds the reply.
    Perform { mid: String, command: Command },
}

/// `v` is a request: an array whose first two items are strings.
pub open spec fn well_formed(v: Value) -> bool {
    v is Array && v->Array_0@.len() >= 2 && str_at(v->Array_0@, 0) && str_at(v->Array_0@, 1)
}

/// `inc` answers a request with id `mid` whose routing gave `rr`.
pub open spec fn answers(mid: Seq<char>, rr: Result<Command, DispatchError>, inc: Incoming) -> bool {
    match rr {
        Ok(Command::Ping) => inc matches Incoming::Reply { mid: m, response }
            && m@ == mid && response.e == 0 && response.d is Str && response.d->Str_0@ == "pong"@,
        Ok(c) => inc matches Incoming::Perform { mid: m, command } && m@ == mid && command == c,
        Err(e) => inc matches Incoming::Reply { mid: m, response }
            && m@ == mid && response.e == 1 && response.d is Str
            && response.d->Str_0@ == error_message(e),
    }
}

/// A request naming an unknown command is answered at once with an error
/// response whose description names the command.
pub proof fn unknown_command_answered(
    mid: Seq<char>,
    c: Seq<char>,
    d: Seq<Value>,
    has_search: bool,
    rr: Result<Command, DispatchError>,
    inc: Incoming,
)
    requires
        !registered(c),
        routes(c, d, has_search, rr),
        answers(mid, rr, inc),
    ensures
        inc matches Incoming::Reply { mid: m, response } && m@ == mid && response.e != 0
            && response.d is Str && response.d->Str_0@ == missing_command_message(c),
{
    unknown_command_refused(c, d, has_search, rr);
}

/// A routed request is never dropped: it is answered at once, under its own id,
/// with `e == 0` exactly when routing succeeded, or it is handed on to be
/// performed, after which `complete` gives its one response.
pub proof fn request_answered_once(
    mid: Seq<char>,
    rr: Result<Command, DispatchError>,
    inc: Incoming,
)
    requires
        answers(mid, rr, inc),
    ensures
        !(inc is Malformed),
        inc matches Incoming::Reply { mid: m, response } ==> m@ == mid
            && (response.e == 0 <==> rr is Ok),
        inc matches Incoming::Perform { mid: m, command } ==> m@ == mid && rr == Ok::<
            Command,
            DispatchError,
        >(command),
{
}

/// Decodes a request `[id, command, args...]` and routes it. A request is
/// always answered exactly once: here, or by `complete` after `Perform`.
pub fn process(msg: Value, has_search: bool) -> (r: Incoming)
    ensures
        !well_formed(msg) <==> r is Malformed,
        r matches Incoming::Malformed(e) ==> e matches DispatchError::MissingField(m) && m@ == (
            if msg is Array && str_at(msg->Array_0@, 0) {
                "missing cmd (1)"@
            } else {
                "missing mid (0)"@
            }),
        well_formed(msg) ==> exists|rr: Result<Command, DispatchError>|
            routes(msg->Array_0@[1]->Str_0@, msg->Array_0@, has_search, rr)
                && #[trigger] answers(msg->Array_0@[0]->Str_0@, rr, r),
{
    let d = match msg {
        Value::Array(d) => d,
        _ => return Incoming::Malformed(
            DispatchError::MissingField(String::from_str("missing mid (0)")),
        ),
    };
    let mid = match arg_str(&d, 0) {
        Some(m) => m,
        None => return Incoming::Malformed(
            DispatchError::MissingField(String::from_str("missing mid (0)")),
        ),
    };
    let cmd = match arg_str(&d, 1) {
        Some(c) => c,
        None => return Incoming::Malformed(
            DispatchError::MissingField(String::from_str("missing cmd (1)")),
        ),
    };
    let ghost dv = d@;
    let rr = route(cmd.as_str(), d, has_search);
    let ghost rg = rr;
    let r = match rr {
        Ok(Command::Ping) => Incoming::Reply {
            mid,
            response: Response::success(str_value("pong")),
        },
        Ok(command) => Incoming::Perform { mid, command },
        Err(e) => Incoming::Reply { mid, response: Response::error(e.message()) },
    };
    assert(answers(dv[0]->Str_0@, rg, r));
    r
}

/// What the success payload of a command is.
#[derive(Debug, PartialEq, Eq, Structural, Clone, Copy)]
pub enum ReplyShape {
    /// The value that the core state returned.
    Data,
    /// The literal `"pong"`.
    Pong,
    /// An empty object.
    Empty,
}

/// The reply shape of command `c`.
pub open spec fn shape_of(c: Command) -> ReplyShape {
    match c {
        Command::LoadProfile => ReplyShape::Data,
        Command::SaveModel { .. } => ReplyShape::Data,
        Command::GetNotes { .. } => ReplyShape::Data,
        Command::FindNotes { .. } => ReplyShape::Data,
        Command::GetTags { .. } => ReplyShape::Data,
        Command::Ping => ReplyShape::Pong,
        _ => ReplyShape::Empty,
    }
}

impl Command {
    /// The reply shape of this command; read it before the command is performed.
    pub fn reply_shape(&self) -> (r: ReplyShape)
        ensures
            r == shape_of(*self),
    {
        match self {
            Command::LoadProfile => ReplyShape::Data,
            Command::SaveModel { .. } => ReplyShape::Data,
            Command::GetNotes { .. } => ReplyShape::Data,
            Command::FindNotes { .. } => ReplyShape::Data,
            Command::GetTags { .. } => ReplyShape::Data,
            Command::Ping => ReplyShape::Pong,
            _ => ReplyShape::Empty,
        }
    }
}

/// The one response to a performed command of reply shape `shape`, from the
/// outcome that the core state reported: on success the payload that the shape
/// says, on failure the description of the error.
pub fn complete(shape: ReplyShape, outcome: Result<Value, String>) -> (r: Response)
    ensures
        (r.e == 0) == outcome is Ok,
        outcome matches Err(m) ==> r.e == 1 && r.d == Value::Str(m),
        outcome matches Ok(v) ==> match shape {
            ReplyShape::Data => r.d == v,
            ReplyShape::Pong => r.d is Str && r.d->Str_0@ == "pong"@,
            ReplyShape::Empty => r.d is Object && r.d->Object_0@.len() == 0,
        },
{
    match outcome {
        Err(m) => Response::error(m),
        Ok(v) => match shape {
            ReplyShape::Data => Response::success(v),
            ReplyShape::Pong => Response::success(str_value("pong")),
            ReplyShape::Empty => Response::success(empty_object()),
        },
    }
}

/// The effect of command `c` on the shared sync settings.
pub open spec fn control_effect(c: Command, s: SyncState) -> SyncState {
    match c {
        Command::StartSync => SyncState { enabled: true, ..s },
        Command::PauseSync => all_paused(s, true),
        Command::ResumeSync => all_paused(s, false),
        Command::ShutdownSync => SyncState { quit: true, ..s },
        Command::Shutdown => SyncState { quit: true, ..s },
        _ => s,
    }
}

/// Between `app:pause-sync` and `app:resume-sync` no worker runs a pass; after
/// the resume every worker of an armed, not quitting system runs again.
pub proof fn pause_resume_commands(s: SyncState, w: int)
    requires
        0 <= w < s.paused.len(),
    ensures
        tick_of(control_effect(Command::PauseSync, s), w) != TickAction::Run,
        s.enabled && !s.quit ==> tick_of(
            control_effect(Command::ResumeSync, control_effect(Command::PauseSync, s)),
            w,
        ) == TickAction::Run,
{
    pause_then_resume(s, w);
}

/// Applies the sync control of command `c` to the shared settings; a command
/// that does not control the syncers leaves them as they were.
pub fn apply_sync_control(c: &Command, config: &mut SyncConfig)
    ensures
        final(config)@ == control_effect(*c, old(config)@),
{
    match c {
        Command::StartSync => config.arm(),
        Command::PauseSync => config.pause_all(),
        Command::ResumeSync => config.resume_all(),
        Command::ShutdownSync => config.shutdown(),
        Command::Shutdown => config.shutdown(),
        _ => {},
    }
}

/// One step of the orderly shutdown of the core.
#[derive(Debug, PartialEq, Eq, Structural, Clone, Copy)]
pub enum ShutdownStep {
    /// Tell the syncers to stop, without waiting for them.
    StopSyncers,
    /// Raise the shutdown event to the client.
    RaiseEvent,
    /// Acknowledge the request.
    Acknowledge,
}

/// The steps of `app:shutdown`, in the order they must happen: the event is
/// raised only after the syncers were told to stop, and the request is
/// acknowledged only after both.
pub fn shutdown_steps() -> (steps: Vec<ShutdownStep>)
    ensures
        steps@ == seq![ShutdownStep::StopSyncers, ShutdownStep::RaiseEvent, ShutdownStep::Acknowledge],
{
    let mut steps: Vec<ShutdownStep> = Vec::new();
    steps.push(ShutdownStep::StopSyncers);
    steps.push(ShutdownStep::RaiseEvent);
    steps.push(ShutdownStep::Acknowledge);
    assert(steps@ =~= seq![ShutdownStep::StopSyncers, ShutdownStep::RaiseEvent, ShutdownStep::Acknowledge]);
    steps
}

/// The event raised to the client when the core shuts down, after the
/// syncers have been told to stop and before the request is acknowledged.
pub fn shutdown_event() -> (ev: Event)
    ensures
        ev.e@ == "app:shutdown"@,
        ev.d is Object,
        ev.d->Object_0@.len() == 0,
{
    Event::new("app:shutdown", empty_object())
}

} // verus!
