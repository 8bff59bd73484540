use turtl_core::dispatch::{
    apply_sync_control, complete, model_id_of, model_type_from, process, route, shutdown_event,
    Command, DispatchError, Incoming, ModelType, ReplyShape, shutdown_steps, ShutdownStep,
};
use turtl_core::messaging::{shutdown_sentinel, Event, LoopStep, Messenger, Response};
use turtl_core::sync::{SyncConfig, SyncOutgoing, Syncer, TickAction, OUTGOING_SLOT};
use turtl_core::value::Value;

fn s(x: &str) -> Value {
    Value::Str(x.to_string())
}

fn obj(fields: Vec<(&str, Value)>) -> Value {
    Value::Object(fields.into_iter().map(|(k, v)| (k.to_string(), v)).collect())
}

fn request(items: Vec<Value>) -> Value {
    Value::Array(items)
}

fn reply(inc: Incoming) -> (String, Response) {
    match inc {
        Incoming::Reply { mid, response } => (mid, response),
        other => panic!("expected a reply, got {:?}", other),
    }
}

fn perform(inc: Incoming) -> (String, Command) {
    match inc {
        Incoming::Perform { mid, command } => (mid, command),
        other => panic!("expected a command to perform, got {:?}", other),
    }
}

#[test]
fn channel_names_follow_base() {
    let m = Messenger::new_with_channel(String::from("inproc://turtltest"));
    assert_eq!(m.channel_in(), "inproc://turtltest-core-in");
    assert_eq!(m.channel_out(), "inproc://turtltest-core-out");
    assert!(m.is_bound());
    assert_eq!(m.suffixed_out("ui"), "inproc://turtltest-core-out:ui");
}

#[test]
fn reversed_messenger_swaps_channels() {
    let m = Messenger::new_with_channel(String::from("inproc://turtltest"));
    let r = Messenger::new_reversed(String::from("inproc://turtltest"));
    assert_eq!(r.channel_in(), m.channel_out());
    assert_eq!(r.channel_out(), m.channel_in());
    assert!(r.is_bound());
}

#[test]
fn shutdown_unbinds() {
    let mut m = Messenger::new_with_channel(String::from("x"));
    m.shutdown();
    assert!(!m.is_bound());
    assert_eq!(m.channel_in(), "x-core-in");
}

#[test]
fn sentinel_stops_loop_once_and_for_all() {
    let mut m = Messenger::new_with_channel(String::from("x"));
    assert_eq!(m.on_message("[\"a\",\"ping\"]"), LoopStep::Forward);
    assert!(m.is_bound());
    assert_eq!(m.on_message(shutdown_sentinel()), LoopStep::Stop);
    assert!(!m.is_bound());
    assert_eq!(m.on_message("turtl:internal:msg:shutdown"), LoopStep::Stop);
    assert!(!m.is_bound());
    assert_eq!(m.channel_out(), "x-core-out");
}

#[test]
fn response_wire_form_round_trips() {
    let r = Response { e: 3, d: obj(vec![("a", Value::Int(-7)), ("b", Value::Null)]) };
    let v = r.to_value();
    assert_eq!(
        v,
        obj(vec![("e", Value::Int(3)), ("d", obj(vec![("a", Value::Int(-7)), ("b", Value::Null)]))])
    );
    let back = Response::from_value(v).unwrap();
    assert_eq!(back, Response { e: 3, d: obj(vec![("a", Value::Int(-7)), ("b", Value::Null)]) });
}

#[test]
fn response_from_other_shapes_is_none() {
    assert_eq!(Response::from_value(obj(vec![("d", Value::Int(0)), ("e", Value::Int(0))])), None);
    assert_eq!(Response::from_value(obj(vec![("e", s("0")), ("d", Value::Null)])), None);
    assert_eq!(Response::from_value(Value::Array(vec![])), None);
}

#[test]
fn event_wire_form() {
    let v = Event::new("sync:done", Value::Bool(true)).to_value();
    assert_eq!(v, obj(vec![("e", s("sync:done")), ("d", Value::Bool(true))]));
    assert_eq!(shutdown_event(), Event { e: "app:shutdown".to_string(), d: obj(vec![]) });
}

#[test]
fn ping_answers_pong() {
    let (mid, res) = reply(process(request(vec![s("abc123"), s("ping")]), false));
    assert_eq!(mid, "abc123");
    assert_eq!(res, Response { e: 0, d: s("pong") });
    assert_eq!(res.to_value(), obj(vec![("e", Value::Int(0)), ("d", s("pong"))]));
}

#[test]
fn login_valid_and_invalid() {
    let req = request(vec![s("x1"), s("user:login"), s("alice"), s("hunter2")]);
    let (mid, cmd) = perform(process(req, false));
    assert_eq!(mid, "x1");
    assert_eq!(
        cmd,
        Command::Login { username: "alice".to_string(), password: "hunter2".to_string() }
    );
    assert_eq!(complete(cmd.reply_shape(), Ok(Value::Null)), Response { e: 0, d: obj(vec![]) });
    let bad = complete(cmd.reply_shape(), Err("login failed".to_string()));
    assert_ne!(bad.e, 0);
    assert_eq!(bad.d, s("login failed"));
}

#[test]
fn login_without_password_is_missing_field() {
    let req = request(vec![s("x1"), s("user:login"), s("alice")]);
    let (_, res) = reply(process(req, false));
    assert_eq!(res.e, 1);
    assert!(matches!(route("user:login", vec![s("x1"), s("user:login"), s("alice")], false),
        Err(DispatchError::MissingField(_))));
}

#[test]
fn sync_model_create_note_returns_saved() {
    let note = obj(vec![("id", s("n1")), ("title", s("hello"))]);
    let req = request(vec![s("x2"), s("profile:sync:model"), s("create"), s("note"), note]);
    let (mid, cmd) = perform(process(req, true));
    assert_eq!(mid, "x2");
    assert_eq!(
        cmd,
        Command::SaveModel {
            ty: ModelType::Note,
            model: obj(vec![("id", s("n1")), ("title", s("hello"))]),
        }
    );
    let saved = obj(vec![("id", s("n1")), ("title", s("hello")), ("mod", Value::Int(5))]);
    let res = complete(cmd.reply_shape(), Ok(saved));
    assert_eq!(
        res,
        Response {
            e: 0,
            d: obj(vec![("id", s("n1")), ("title", s("hello")), ("mod", Value::Int(5))]),
        }
    );
}

#[test]
fn sync_model_bogus_type_is_bad_value() {
    let args = vec![s("x3"), s("profile:sync:model"), s("create"), s("bogus"), obj(vec![])];
    match route("profile:sync:model", args, true) {
        Err(DispatchError::BadValue(m)) => {
            assert_eq!(m, "dispatch: profile:sync:model -- unknown sync type bogus");
            assert!(m.contains("bogus"));
        },
        other => panic!("unexpected {:?}", other),
    }
    let req = request(vec![s("x3"), s("profile:sync:model"), s("create"), s("bogus"), obj(vec![])]);
    let (mid, res) = reply(process(req, true));
    assert_eq!(mid, "x3");
    assert_eq!(res.e, 1);
    assert_eq!(res.d, s("dispatch: profile:sync:model -- unknown sync type bogus"));
}

#[test]
fn sync_model_bad_action_and_delete() {
    let args = vec![s("x"), s("profile:sync:model"), s("archive"), s("note"), obj(vec![])];
    assert_eq!(
        route("profile:sync:model", args, true),
        Err(DispatchError::BadValue(
            "dispatch: profile:sync:model -- unknown sync action archive".to_string()
        ))
    );
    let args = vec![s("x"), s("profile:sync:model"), s("delete"), s("board"),
        obj(vec![("title", s("t")), ("id", s("b7"))])];
    assert_eq!(
        route("profile:sync:model", args, true),
        Ok(Command::DeleteModel { ty: ModelType::Board, id: "b7".to_string() })
    );
    let args = vec![s("x"), s("profile:sync:model"), s("delete"), s("board"), obj(vec![])];
    assert!(matches!(route("profile:sync:model", args, true),
        Err(DispatchError::MissingField(_))));
    let del = Command::DeleteModel { ty: ModelType::Board, id: "b7".to_string() };
    assert_eq!(complete(del.reply_shape(), Ok(Value::Null)), Response { e: 0, d: obj(vec![]) });
}

#[test]
fn find_notes_without_search_is_missing_field() {
    let query = obj(vec![("text", s("groceries"))]);
    let req = request(vec![s("x4"), s("profile:find-notes"), query]);
    let (mid, res) = reply(process(req, false));
    assert_eq!(mid, "x4");
    assert_ne!(res.e, 0);
    let args = vec![s("x4"), s("profile:find-notes"), obj(vec![("text", s("groceries"))])];
    assert!(matches!(route("profile:find-notes", args, false),
        Err(DispatchError::MissingField(_))));
    let args = vec![s("x4"), s("profile:find-notes"), obj(vec![("text", s("groceries"))])];
    assert_eq!(
        route("profile:find-notes", args, true),
        Ok(Command::FindNotes { query: obj(vec![("text", s("groceries"))]) })
    );
}

#[test]
fn get_tags_reads_its_arguments() {
    let args = vec![s("x5"), s("profile:get-tags"), s("sp1"),
        Value::Array(vec![s("b1"), s("b2")]), Value::Int(10)];
    assert_eq!(
        route("profile:get-tags", args, true),
        Ok(Command::GetTags {
            space_id: "sp1".to_string(),
            boards: vec!["b1".to_string(), "b2".to_string()],
            limit: 10,
        })
    );
    let args = vec![s("x5"), s("profile:get-tags"), s("sp1"),
        Value::Array(vec![s("b1"), Value::Int(2)]), Value::Int(10)];
    assert!(matches!(route("profile:get-tags", args, true), Err(DispatchError::MissingField(_))));
    let args = vec![s("x5"), s("profile:get-tags"), s("sp1"),
        Value::Array(vec![]), Value::Int(5_000_000_000)];
    assert!(matches!(route("profile:get-tags", args, true), Err(DispatchError::MissingField(_))));
}

#[test]
fn unknown_command_names_itself() {
    let (mid, res) = reply(process(request(vec![s("q"), s("no:such")]), true));
    assert_eq!(mid, "q");
    assert_ne!(res.e, 0);
    assert_eq!(res.d, s("missing command: no:such"));
    assert_eq!(
        route("no:such", vec![], true),
        Err(DispatchError::MissingCommand("no:such".to_string()))
    );
}

#[test]
fn malformed_requests_get_no_reply() {
    assert!(matches!(process(s("ping"), true), Incoming::Malformed(DispatchError::MissingField(_))));
    assert!(matches!(process(request(vec![s("id")]), true), Incoming::Malformed(_)));
    assert!(matches!(process(request(vec![Value::Int(1), s("ping")]), true),
        Incoming::Malformed(_)));
    assert!(matches!(process(request(vec![s("id"), Value::Null]), true), Incoming::Malformed(_)));
}

#[test]
fn simple_commands_route_and_ack_empty() {
    let names = [
        ("user:logout", Command::Logout),
        ("user:delete-account", Command::DeleteAccount),
        ("app:wipe-local-data", Command::WipeLocalData),
        ("app:start-sync", Command::StartSync),
        ("app:pause-sync", Command::PauseSync),
        ("app:resume-sync", Command::ResumeSync),
        ("app:shutdown-sync", Command::ShutdownSync),
        ("app:shutdown", Command::Shutdown),
        ("profile:load", Command::LoadProfile),
    ];
    for (name, expected) in names {
        let cmd = route(name, vec![s("i"), s(name)], false).unwrap();
        assert_eq!(cmd, expected);
    }
    let cmd = route("app:api:set-endpoint", vec![s("i"), s("c"), s("https://api")], false);
    assert_eq!(cmd, Ok(Command::SetEndpoint { endpoint: "https://api".to_string() }));
    assert_eq!(complete(Command::Logout.reply_shape(), Ok(s("ignored"))), Response { e: 0, d: obj(vec![]) });
    assert_eq!(complete(Command::LoadProfile.reply_shape(), Ok(s("p"))), Response { e: 0, d: s("p") });
    assert_eq!(complete(ReplyShape::Pong, Ok(Value::Null)), Response { e: 0, d: s("pong") });
}

#[test]
fn model_helpers() {
    assert_eq!(model_type_from("invite"), Some(ModelType::Invite));
    assert_eq!(model_type_from("user"), Some(ModelType::User));
    assert_eq!(model_type_from("Note"), None);
    assert_eq!(model_id_of(&obj(vec![("id", s("a")), ("id", s("b"))])), Some("a".to_string()));
    assert_eq!(model_id_of(&obj(vec![("id", Value::Int(1))])), None);
    assert_eq!(model_id_of(&s("id")), None);
}

#[test]
fn pause_then_resume_controls_ticks() {
    let mut cfg = SyncConfig::new(2);
    assert_eq!(cfg.tick(0), TickAction::Idle);
    apply_sync_control(&Command::StartSync, &mut cfg);
    assert!(cfg.is_enabled());
    assert_eq!(cfg.tick(0), TickAction::Run);
    assert_eq!(cfg.tick(1), TickAction::Run);
    apply_sync_control(&Command::PauseSync, &mut cfg);
    assert_eq!(cfg.tick(0), TickAction::Idle);
    assert_eq!(cfg.tick(1), TickAction::Idle);
    assert!(cfg.is_paused(1));
    apply_sync_control(&Command::ResumeSync, &mut cfg);
    assert_eq!(cfg.tick(0), TickAction::Run);
    assert_eq!(cfg.tick(1), TickAction::Run);
    cfg.pause(1);
    assert_eq!(cfg.tick(0), TickAction::Run);
    assert_eq!(cfg.tick(1), TickAction::Idle);
    cfg.resume(1);
    assert_eq!(cfg.tick(1), TickAction::Run);
    assert_eq!(cfg.tick(2), TickAction::Idle);
    apply_sync_control(&Command::Logout, &mut cfg);
    assert_eq!(cfg.tick(0), TickAction::Run);
    apply_sync_control(&Command::Shutdown, &mut cfg);
    assert!(cfg.is_quit());
    assert_eq!(cfg.tick(0), TickAction::Exit);
    assert_eq!(cfg.tick(7), TickAction::Exit);
}

#[test]
fn outgoing_syncer_descriptor() {
    let o = SyncOutgoing::new();
    assert_eq!(o.get_name(), "outgoing");
    assert_eq!(o.get_delay(), 1000);
    assert_eq!(o.get_slot(), OUTGOING_SLOT);
}

#[test]
fn configured_messenger_falls_back_to_default() {
    let m = Messenger::new_configured(None);
    assert_eq!(m.channel_in(), "inproc://turtl-core-in");
    assert_eq!(m.channel_out(), "inproc://turtl-core-out");
    let c = Messenger::new_configured(Some(String::from("inproc://ui")));
    assert_eq!(c.channel_in(), "inproc://ui-core-in");
    assert!(c.is_bound());
}

#[test]
fn malformed_messages_say_what_is_missing() {
    match process(request(vec![s("id")]), true) {
        Incoming::Malformed(e) => assert_eq!(e, DispatchError::MissingField("missing cmd (1)".to_string())),
        other => panic!("unexpected {:?}", other),
    }
    match process(request(vec![Value::Int(4), s("ping")]), true) {
        Incoming::Malformed(e) => assert_eq!(e, DispatchError::MissingField("missing mid (0)".to_string())),
        other => panic!("unexpected {:?}", other),
    }
    match process(s("x"), true) {
        Incoming::Malformed(e) => assert_eq!(e, DispatchError::MissingField("missing mid (0)".to_string())),
        other => panic!("unexpected {:?}", other),
    }
}

#[test]
fn missing_search_index_is_named() {
    let args = vec![s("x4"), s("profile:find-notes"), obj(vec![("text", s("a"))])];
    assert_eq!(
        route("profile:find-notes", args, false),
        Err(DispatchError::MissingField("dispatch: turtl is missing `search` object".to_string()))
    );
    let args = vec![s("x5"), s("profile:get-tags"), s("sp"), Value::Array(vec![]), Value::Int(3)];
    assert_eq!(
        route("profile:get-tags", args, false),
        Err(DispatchError::MissingField("dispatch: turtl is missing `search` object".to_string()))
    );
    let args = vec![s("x4"), s("profile:find-notes"), s("not a query")];
    assert_ne!(
        route("profile:find-notes", args, false),
        Err(DispatchError::MissingField("dispatch: turtl is missing `search` object".to_string()))
    );
}

#[test]
fn shutdown_happens_in_order() {
    assert_eq!(
        shutdown_steps(),
        vec![ShutdownStep::StopSyncers, ShutdownStep::RaiseEvent, ShutdownStep::Acknowledge]
    );
}
