use trinity::action::{Action, Message};
use trinity::builder::DirEntry;
use trinity::dispatch::{CallError, Dispatch, Outcome, Request};
use trinity::host::{dispatch, perform, RoomResolver, Sandbox};
use trinity::registry::Settings;

const ADMIN: &str = "@admin:server";
const USER: &str = "@user:server";
const ROOM: &str = "!here:server";

fn respond(text: &str, to: &str) -> Action {
    Action::Respond(Message { text: text.to_string(), html: None, to: to.to_string() })
}

fn names(list: &[&str]) -> Vec<String> {
    list.iter().map(|s| s.to_string()).collect()
}

fn failure() -> CallError {
    CallError { detail: "boom".to_string() }
}

/// A sandbox whose modules answer from tables, and which records every call.
struct Scripted {
    handle: Vec<Result<Vec<Action>, CallError>>,
    help: Vec<Result<String, CallError>>,
    admin: Vec<Result<Vec<Action>, CallError>>,
    calls: Vec<String>,
}

impl Scripted {
    fn silent(n: usize) -> Scripted {
        Scripted {
            handle: (0..n).map(|_| Ok(Vec::new())).collect(),
            help: (0..n).map(|i| Ok(format!("help of {}", i))).collect(),
            admin: (0..n).map(|_| Ok(Vec::new())).collect(),
            calls: Vec::new(),
        }
    }
}

impl Sandbox for Scripted {
    fn scan(&mut self, _dir: &str) -> Result<Vec<DirEntry>, CallError> {
        Ok(Vec::new())
    }

    fn load(&mut self, _file: &str) -> Result<String, CallError> {
        Err(failure())
    }

    fn init(&mut self, _module: usize, _settings: Option<&Settings>) -> Result<(), CallError> {
        Ok(())
    }

    fn handle(
        &mut self,
        module: usize,
        text: &str,
        sender: &str,
        room: &str,
    ) -> Result<Vec<Action>, CallError> {
        self.calls.push(format!("handle {} [{}] [{}] [{}]", module, text, sender, room));
        self.handle[module].clone()
    }

    fn help(&mut self, module: usize, topic: Option<&str>) -> Result<String, CallError> {
        self.calls.push(format!("help {} {:?}", module, topic));
        self.help[module].clone()
    }

    fn admin(
        &mut self,
        module: usize,
        command: &str,
        sender: &str,
        room: &str,
    ) -> Result<Vec<Action>, CallError> {
        self.calls.push(format!("admin {} [{}] [{}] [{}]", module, command, sender, room));
        self.admin[module].clone()
    }
}

/// A resolver that knows one room reference.
struct OneRoom {
    known: Option<(String, String)>,
    fails: bool,
    asked: Vec<String>,
}

impl OneRoom {
    fn none() -> OneRoom {
        OneRoom { known: None, fails: false, asked: Vec::new() }
    }

    fn knows(token: &str, room: &str) -> OneRoom {
        OneRoom { known: Some((token.to_string(), room.to_string())), fails: false, asked: Vec::new() }
    }
}

impl RoomResolver for OneRoom {
    fn resolve_room(&mut self, token: &str) -> Result<Option<String>, CallError> {
        self.asked.push(token.to_string());
        if self.fails {
            return Err(failure());
        }
        match &self.known {
            Some((t, room)) if t == token => Ok(Some(room.clone())),
            _ => Ok(None),
        }
    }
}

#[test]
fn admin_command_with_resolved_room_calls_admin_once() {
    let mut sandbox = Scripted::silent(2);
    sandbox.admin[0] = Ok(vec![respond("done", ADMIN)]);
    let mut resolver = OneRoom::knows("#general", "!abc:server");
    let actions = dispatch(
        names(&["echo", "weather"]),
        ADMIN,
        ADMIN,
        ROOM,
        "!admin echo #general hello",
        &mut sandbox,
        &mut resolver,
    );
    assert_eq!(actions, vec![respond("done", ADMIN)]);
    assert_eq!(resolver.asked, vec!["#general".to_string()]);
    assert_eq!(
        sandbox.calls,
        vec![format!("admin 0 [hello] [{}] [!abc:server]", ADMIN)]
    );
}

#[test]
fn admin_command_with_unresolved_room_keeps_the_token() {
    let mut sandbox = Scripted::silent(2);
    sandbox.admin[1] = Ok(vec![respond("ok", ADMIN)]);
    let mut resolver = OneRoom::none();
    let actions = dispatch(
        names(&["echo", "weather"]),
        ADMIN,
        ADMIN,
        ROOM,
        "!admin weather #nowhere   set  city",
        &mut sandbox,
        &mut resolver,
    );
    assert_eq!(actions, vec![respond("ok", ADMIN)]);
    assert_eq!(
        sandbox.calls,
        vec![format!("admin 1 [#nowhere set  city] [{}] [{}]", ADMIN, ROOM)]
    );
}

#[test]
fn admin_command_with_failing_resolver_uses_the_current_room() {
    let mut sandbox = Scripted::silent(1);
    let mut resolver = OneRoom::knows("#general", "!abc:server");
    resolver.fails = true;
    let actions =
        dispatch(names(&["echo"]), ADMIN, ADMIN, ROOM, "!admin echo #general", &mut sandbox, &mut resolver);
    assert_eq!(actions, Vec::<Action>::new());
    assert_eq!(sandbox.calls, vec![format!("admin 0 [#general] [{}] [{}]", ADMIN, ROOM)]);
}

#[test]
fn help_without_modules_lists_nothing() {
    let mut sandbox = Scripted::silent(0);
    let mut resolver = OneRoom::none();
    let actions = dispatch(names(&[]), ADMIN, USER, ROOM, "!help", &mut sandbox, &mut resolver);
    assert_eq!(
        actions,
        vec![Action::Respond(Message {
            text: "Available modules:".to_string(),
            html: Some("Available modules: <ul></ul>".to_string()),
            to: USER.to_string(),
        })]
    );
    assert!(sandbox.calls.is_empty());
}

#[test]
fn first_module_with_actions_wins() {
    let mut sandbox = Scripted::silent(2);
    sandbox.handle[0] = Ok(vec![respond("hello", USER)]);
    sandbox.handle[1] = Ok(vec![respond("sunny", USER)]);
    let mut resolver = OneRoom::none();
    let actions =
        dispatch(names(&["echo", "weather"]), ADMIN, USER, ROOM, "hello", &mut sandbox, &mut resolver);
    assert_eq!(actions, vec![respond("hello", USER)]);
    assert_eq!(sandbox.calls, vec![format!("handle 0 [hello] [{}] [{}]", USER, ROOM)]);
}

#[test]
fn machine_starts_with_the_diagnostic_for_a_bare_marker() {
    let (d, request) = Dispatch::start(names(&["echo"]), ADMIN, ADMIN, ROOM, "!admin");
    assert!(d.is_done());
    assert_eq!(
        request,
        Request::Reply { actions: vec![respond("missing module and command", ADMIN)] }
    );
}

#[test]
fn machine_drops_an_answer_it_did_not_ask_for() {
    let (mut d, request) = Dispatch::start(names(&["echo"]), ADMIN, USER, ROOM, "hi");
    assert_eq!(
        request,
        Request::Handle {
            module: 0,
            text: "hi".to_string(),
            sender: USER.to_string(),
            room: ROOM.to_string()
        }
    );
    assert_eq!(d.advance(Outcome::Help(Ok("x".to_string()))), None);
    assert!(!d.is_done());
    assert_eq!(
        d.advance(Outcome::Handled(Err(failure()))),
        Some(Request::Reply { actions: vec![] })
    );
    assert!(d.is_done());
}

fn rich(text: &str, html: &str, to: &str) -> Action {
    Action::Respond(Message {
        text: text.to_string(),
        html: Some(html.to_string()),
        to: to.to_string(),
    })
}

#[test]
fn help_lists_every_module_in_registry_order() {
    let mut sandbox = Scripted::silent(3);
    sandbox.help[0] = Ok("repeats you".to_string());
    sandbox.help[1] = Err(failure());
    sandbox.help[2] = Ok("rolls dice".to_string());
    let mut resolver = OneRoom::none();
    let actions = dispatch(
        names(&["echo", "weather", "dice"]),
        ADMIN,
        USER,
        ROOM,
        "!help  ",
        &mut sandbox,
        &mut resolver,
    );
    assert_eq!(
        actions,
        vec![rich(
            "Available modules:\n- echo: repeats you\n- weather: <missing>\n- dice: rolls dice",
            "Available modules: <ul><li><b>echo</b>: repeats you</li><li><b>weather</b>: <missing></li><li><b>dice</b>: rolls dice</li></ul>",
            USER
        )]
    );
    assert_eq!(sandbox.calls, vec!["help 0 None", "help 1 None", "help 2 None"]);
}

#[test]
fn help_listing_is_the_same_when_asked_twice() {
    let mut sandbox = Scripted::silent(2);
    let mut resolver = OneRoom::none();
    let first =
        dispatch(names(&["echo", "dice"]), ADMIN, USER, ROOM, "!help", &mut sandbox, &mut resolver);
    let second =
        dispatch(names(&["echo", "dice"]), ADMIN, USER, ROOM, "!help", &mut sandbox, &mut resolver);
    assert_eq!(first, second);
    assert_eq!(first.len(), 1);
}

#[test]
fn help_for_one_module_passes_the_topic() {
    let mut sandbox = Scripted::silent(2);
    sandbox.help[1] = Ok("use: roll 2d6".to_string());
    let mut resolver = OneRoom::none();
    let actions = dispatch(
        names(&["echo", "dice"]),
        ADMIN,
        USER,
        ROOM,
        "!help dice  how to  roll ",
        &mut sandbox,
        &mut resolver,
    );
    assert_eq!(actions, vec![rich("use: roll 2d6", "use: roll 2d6", USER)]);
    assert_eq!(sandbox.calls, vec!["help 1 Some(\"how to  roll\")"]);

    let mut sandbox = Scripted::silent(2);
    let actions =
        dispatch(names(&["echo", "dice"]), ADMIN, USER, ROOM, "!help echo", &mut sandbox, &mut resolver);
    assert_eq!(actions, vec![rich("help of 0", "help of 0", USER)]);
    assert_eq!(sandbox.calls, vec!["help 0 None"]);
}

#[test]
fn help_for_an_unknown_or_failing_module_says_not_found() {
    let mut sandbox = Scripted::silent(1);
    sandbox.help[0] = Err(failure());
    let mut resolver = OneRoom::none();
    let actions =
        dispatch(names(&["echo"]), ADMIN, USER, ROOM, "!help nothing", &mut sandbox, &mut resolver);
    assert_eq!(actions, vec![rich("module nothing not found", "module nothing not found", USER)]);
    assert!(sandbox.calls.is_empty());
    let actions =
        dispatch(names(&["echo"]), ADMIN, USER, ROOM, "!help echo", &mut sandbox, &mut resolver);
    assert_eq!(actions, vec![rich("module echo not found", "module echo not found", USER)]);
    assert_eq!(sandbox.calls, vec!["help 0 None"]);
}

#[test]
fn help_marker_glued_to_a_word_is_an_ordinary_message() {
    let mut sandbox = Scripted::silent(1);
    sandbox.handle[0] = Ok(vec![respond("pong", USER)]);
    let mut resolver = OneRoom::none();
    let actions =
        dispatch(names(&["echo"]), ADMIN, USER, ROOM, "!helpme", &mut sandbox, &mut resolver);
    assert_eq!(actions, vec![respond("pong", USER)]);
    assert_eq!(sandbox.calls, vec![format!("handle 0 [!helpme] [{}] [{}]", USER, ROOM)]);
}

#[test]
fn admin_diagnostics_are_fixed_texts() {
    let mut sandbox = Scripted::silent(1);
    let mut resolver = OneRoom::none();
    let actions =
        dispatch(names(&["echo"]), ADMIN, ADMIN, ROOM, "!admin", &mut sandbox, &mut resolver);
    assert_eq!(actions, vec![respond("missing module and command", ADMIN)]);
    let actions =
        dispatch(names(&["echo"]), ADMIN, ADMIN, ROOM, "!admin echo", &mut sandbox, &mut resolver);
    assert_eq!(actions, vec![respond("missing command", ADMIN)]);
    assert!(sandbox.calls.is_empty());
    assert!(resolver.asked.is_empty());
}

#[test]
fn admin_marker_from_someone_else_goes_to_the_modules() {
    let mut sandbox = Scripted::silent(1);
    sandbox.handle[0] = Ok(vec![respond("seen", USER)]);
    let mut resolver = OneRoom::none();
    let actions = dispatch(
        names(&["echo"]),
        ADMIN,
        USER,
        ROOM,
        "!admin echo hello",
        &mut sandbox,
        &mut resolver,
    );
    assert_eq!(actions, vec![respond("seen", USER)]);
    assert_eq!(sandbox.calls, vec![format!("handle 0 [!admin echo hello] [{}] [{}]", USER, ROOM)]);
    assert!(resolver.asked.is_empty());
}

#[test]
fn admin_command_for_an_unknown_module_falls_through() {
    let mut sandbox = Scripted::silent(1);
    sandbox.handle[0] = Ok(vec![respond("from echo", ADMIN)]);
    let mut resolver = OneRoom::none();
    let actions = dispatch(
        names(&["echo"]),
        ADMIN,
        ADMIN,
        ROOM,
        "!admin nothing do it",
        &mut sandbox,
        &mut resolver,
    );
    assert_eq!(actions, vec![respond("from echo", ADMIN)]);
    assert_eq!(resolver.asked, vec!["do".to_string()]);
    assert_eq!(
        sandbox.calls,
        vec![format!("handle 0 [!admin nothing do it] [{}] [{}]", ADMIN, ROOM)]
    );
}

#[test]
fn admin_command_that_fails_falls_through() {
    let mut sandbox = Scripted::silent(2);
    sandbox.admin[0] = Err(failure());
    sandbox.handle[1] = Ok(vec![respond("late", ADMIN)]);
    let mut resolver = OneRoom::none();
    let actions = dispatch(
        names(&["echo", "dice"]),
        ADMIN,
        ADMIN,
        ROOM,
        "!admin echo reset",
        &mut sandbox,
        &mut resolver,
    );
    assert_eq!(actions, vec![respond("late", ADMIN)]);
    assert_eq!(
        sandbox.calls,
        vec![
            format!("admin 0 [reset] [{}] [{}]", ADMIN, ROOM),
            format!("handle 0 [!admin echo reset] [{}] [{}]", ADMIN, ROOM),
            format!("handle 1 [!admin echo reset] [{}] [{}]", ADMIN, ROOM),
        ]
    );
}

#[test]
fn admin_command_that_returns_nothing_still_ends_the_dispatch() {
    let mut sandbox = Scripted::silent(1);
    sandbox.handle[0] = Ok(vec![respond("never", ADMIN)]);
    let mut resolver = OneRoom::none();
    let actions = dispatch(
        names(&["echo"]),
        ADMIN,
        ADMIN,
        ROOM,
        "!admin echo quiet",
        &mut sandbox,
        &mut resolver,
    );
    assert_eq!(actions, Vec::<Action>::new());
    assert_eq!(sandbox.calls, vec![format!("admin 0 [quiet] [{}] [{}]", ADMIN, ROOM)]);
}

#[test]
fn failing_and_silent_modules_are_skipped() {
    let mut sandbox = Scripted::silent(4);
    sandbox.handle[0] = Err(failure());
    sandbox.handle[2] = Ok(vec![Action::React("ok".to_string()), respond("third", USER)]);
    sandbox.handle[3] = Ok(vec![respond("fourth", USER)]);
    let mut resolver = OneRoom::none();
    let actions = dispatch(
        names(&["a", "b", "c", "d"]),
        ADMIN,
        USER,
        ROOM,
        "anything",
        &mut sandbox,
        &mut resolver,
    );
    assert_eq!(actions, vec![Action::React("ok".to_string()), respond("third", USER)]);
    assert_eq!(sandbox.calls.len(), 3);
}

#[test]
fn nobody_answers_means_no_actions() {
    let mut sandbox = Scripted::silent(2);
    let mut resolver = OneRoom::none();
    let actions =
        dispatch(names(&["a", "b"]), ADMIN, USER, ROOM, "anything", &mut sandbox, &mut resolver);
    assert!(actions.is_empty());
    assert_eq!(sandbox.calls.len(), 2);
    let actions = dispatch(names(&[]), ADMIN, USER, ROOM, "anything", &mut sandbox, &mut resolver);
    assert!(actions.is_empty());
}

#[test]
fn two_modules_of_one_name_are_addressed_by_the_first() {
    let mut sandbox = Scripted::silent(2);
    let mut resolver = OneRoom::none();
    let actions =
        dispatch(names(&["echo", "echo"]), ADMIN, USER, ROOM, "!help echo", &mut sandbox, &mut resolver);
    assert_eq!(actions, vec![rich("help of 0", "help of 0", USER)]);
}

#[test]
fn machine_walks_through_an_admin_command() {
    let (mut d, request) =
        Dispatch::start(names(&["echo", "weather"]), ADMIN, ADMIN, ROOM, "!admin weather #lab set x");
    assert_eq!(request, Request::Resolve { token: "#lab".to_string() });
    assert!(d.expects(&Outcome::Resolved(Ok(None))));
    assert!(!d.expects(&Outcome::Admin(Ok(vec![]))));
    let request = d.advance(Outcome::Resolved(Ok(Some("!lab:server".to_string())))).unwrap();
    assert_eq!(
        request,
        Request::Admin {
            module: 1,
            command: "set x".to_string(),
            sender: ADMIN.to_string(),
            room: "!lab:server".to_string()
        }
    );
    let request = d.advance(Outcome::Admin(Ok(vec![respond("set", ADMIN)]))).unwrap();
    assert_eq!(request, Request::Reply { actions: vec![respond("set", ADMIN)] });
    assert!(d.is_done());
    assert_eq!(d.advance(Outcome::Admin(Ok(vec![]))), None);
}

#[test]
fn machine_asks_for_help_module_by_module() {
    let (mut d, request) = Dispatch::start(names(&["a", "b"]), ADMIN, USER, ROOM, "!help");
    assert_eq!(request, Request::Help { module: 0, topic: None });
    let request = d.advance(Outcome::Help(Ok("first".to_string()))).unwrap();
    assert_eq!(request, Request::Help { module: 1, topic: None });
    let request = d.advance(Outcome::Help(Err(failure()))).unwrap();
    assert_eq!(
        request,
        Request::Reply {
            actions: vec![rich(
                "Available modules:\n- a: first\n- b: <missing>",
                "Available modules: <ul><li><b>a</b>: first</li><li><b>b</b>: <missing></li></ul>",
                USER
            )]
        }
    );
}

#[test]
fn perform_makes_the_call_that_is_asked_for() {
    let mut sandbox = Scripted::silent(2);
    let mut resolver = OneRoom::knows("#a", "!a:server");
    let outcome = perform(&mut sandbox, &mut resolver, &Request::Resolve { token: "#a".to_string() });
    assert!(matches!(outcome, Outcome::Resolved(Ok(Some(room))) if room == "!a:server"));
    let outcome = perform(
        &mut sandbox,
        &mut resolver,
        &Request::Help { module: 1, topic: Some("t".to_string()) },
    );
    assert!(matches!(outcome, Outcome::Help(Ok(text)) if text == "help of 1"));
    assert_eq!(sandbox.calls, vec!["help 1 Some(\"t\")"]);
}

#[test]
fn administrator_without_a_command_is_served_like_anyone() {
    let mut sandbox = Scripted::silent(1);
    sandbox.handle[0] = Ok(vec![respond("pong", ADMIN)]);
    let mut resolver = OneRoom::none();
    let actions = dispatch(names(&["echo"]), ADMIN, ADMIN, ROOM, "ping", &mut sandbox, &mut resolver);
    assert_eq!(actions, vec![respond("pong", ADMIN)]);
    let actions = dispatch(names(&["echo"]), ADMIN, ADMIN, ROOM, "!help", &mut sandbox, &mut resolver);
    assert_eq!(
        actions,
        vec![rich(
            "Available modules:\n- echo: help of 0",
            "Available modules: <ul><li><b>echo</b>: help of 0</li></ul>",
            ADMIN
        )]
    );
    assert!(resolver.asked.is_empty());
}

#[test]
fn help_is_answered_by_help_alone() {
    let mut sandbox = Scripted::silent(2);
    sandbox.handle[0] = Ok(vec![respond("never", USER)]);
    sandbox.admin[0] = Ok(vec![respond("never", USER)]);
    let mut resolver = OneRoom::none();
    let actions =
        dispatch(names(&["echo", "dice"]), ADMIN, USER, ROOM, "!help dice", &mut sandbox, &mut resolver);
    assert_eq!(actions, vec![rich("help of 1", "help of 1", USER)]);
    assert_eq!(sandbox.calls, vec!["help 1 None"]);
}

#[test]
fn admin_command_without_a_space_after_the_marker_reaches_its_module() {
    let mut sandbox = Scripted::silent(2);
    sandbox.admin[0] = Ok(vec![respond("done", ADMIN)]);
    sandbox.handle[0] = Ok(vec![respond("never", ADMIN)]);
    let mut resolver = OneRoom::none();
    let actions = dispatch(
        names(&["echo", "weather"]),
        ADMIN,
        ADMIN,
        ROOM,
        "!adminecho #nowhere hello",
        &mut sandbox,
        &mut resolver,
    );
    assert_eq!(actions, vec![respond("done", ADMIN)]);
    assert_eq!(resolver.asked, vec!["#nowhere".to_string()]);
    assert_eq!(sandbox.calls, vec![format!("admin 0 [#nowhere hello] [{}] [{}]", ADMIN, ROOM)]);
}

#[test]
fn praise_that_no_module_answers_gets_no_reply() {
    let mut sandbox = Scripted::silent(2);
    let mut resolver = OneRoom::none();
    let actions = dispatch(
        names(&["echo", "weather"]),
        ADMIN,
        USER,
        ROOM,
        "well, you are a good boy",
        &mut sandbox,
        &mut resolver,
    );
    assert!(actions.is_empty());
    assert_eq!(sandbox.calls.len(), 2);
}
