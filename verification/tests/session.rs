use diglett::agent::{next_step, AgentStep, Backends};
use diglett::server::auth::{Authenticate, AuthorizeAll};
use diglett::server::register::{PrintRegisterer, Registerer};
use diglett::server::{demux, Clients, Demux, Session, SessionAction};
use diglett::wire::{Control, Message, Registration, Stream};
use diglett::Error;

fn login(token: &str) -> Message {
    Message::Control(Control::Login(token.to_owned()))
}

fn register(name: &str) -> Message {
    Message::Control(Control::Register { id: Registration::from(0), name: name.to_owned() })
}

#[test]
fn session_login_then_register() {
    let mut session = Session::new();

    match session.on_login(login("")) {
        SessionAction::Authenticate { token } => assert_eq!(token, ""),
        other => panic!("expected an authenticate action, got {:?}", other),
    }

    assert!(matches!(session.on_auth(Ok(())), SessionAction::SendOk));

    match session.on_register(register("svc")) {
        SessionAction::Authorize { name } => assert_eq!(name, "svc"),
        other => panic!("expected an authorize action, got {:?}", other),
    }

    assert!(matches!(session.on_authorize(Ok(true)), SessionAction::SendOk));

    match session.on_register(Message::Control(Control::FinishRegister)) {
        SessionAction::Serve { id, name } => {
            assert_eq!(id, Registration::from(0));
            assert_eq!(name, "svc");
        },
        other => panic!("expected a serve action, got {:?}", other),
    }
}

#[test]
fn session_rejects_second_registration() {
    let mut session = Session::new();
    session.on_login(login(""));
    session.on_auth(Ok(()));
    session.on_register(register("svc"));
    session.on_authorize(Ok(true));

    match session.on_register(register("other")) {
        SessionAction::Decline { msg } => {
            assert_eq!(msg, "only one name registration is allowed")
        },
        other => panic!("expected a decline, got {:?}", other),
    }
}

#[test]
fn session_requires_one_registration() {
    let mut session = Session::new();
    session.on_login(login(""));
    session.on_auth(Ok(()));

    match session.on_register(Message::Control(Control::FinishRegister)) {
        SessionAction::Decline { msg } => assert_eq!(msg, "missing name registration"),
        other => panic!("expected a decline, got {:?}", other),
    }
}

#[test]
fn session_rejects_unexpected_first_message() {
    let mut session = Session::new();
    match session.on_login(Message::Control(Control::Okay)) {
        SessionAction::Fail { msg } => assert_eq!(msg, "received unexpected message"),
        other => panic!("expected a failure, got {:?}", other),
    }
}

#[test]
fn session_reports_auth_failure() {
    let mut session = Session::new();
    session.on_login(login("fail"));
    match session.on_auth(Err(Error::AuthenticationError("invalid token".to_owned()))) {
        SessionAction::FailWith { err } => {
            assert!(matches!(err, Error::AuthenticationError(_)))
        },
        other => panic!("expected a failure, got {:?}", other),
    }
}

#[test]
fn session_declines_unauthorized_name() {
    let mut session = Session::new();
    session.on_login(login(""));
    session.on_auth(Ok(()));
    session.on_register(register("private"));
    match session.on_authorize(Ok(false)) {
        SessionAction::Decline { msg } => {
            assert_eq!(msg, "not authorized to use this domain")
        },
        other => panic!("expected a decline, got {:?}", other),
    }
}

#[test]
fn session_rejects_unexpected_registration_message() {
    let mut session = Session::new();
    session.on_login(login(""));
    session.on_auth(Ok(()));
    match session.on_register(Message::Terminate) {
        SessionAction::Fail { msg } => assert_eq!(msg, "received unexpected message"),
        other => panic!("expected a failure, got {:?}", other),
    }
}

#[test]
fn authorize_all_accepts_everything_but_fail() {
    let auth = AuthorizeAll;
    assert!(auth.authenticate("").is_ok());
    assert!(auth.authenticate("anything").is_ok());
    match auth.authenticate("fail") {
        Err(Error::AuthenticationError(msg)) => assert_eq!(msg, "invalid token"),
        other => panic!("expected an authentication error, got {:?}", other),
    }
    assert_eq!(auth.authorize(&(), "any.domain").unwrap(), true);
}

#[test]
fn print_registerer_remembers_the_name() {
    let reg = PrintRegisterer;
    let handler = reg.register("svc", 1234).unwrap();
    assert_eq!(handler.name, "svc");
}

#[test]
fn clients_table_tracks_entries() {
    let mut clients: Clients<&'static str> = Clients::new();
    let a = Stream::new(Registration::from(0), 41000);
    let b = Stream::new(Registration::from(0), 41001);

    clients.insert(a, "first");
    clients.insert(b, "second");

    // forwarding takes the entry out and puts it back
    let entry = clients.take(a).unwrap();
    assert_eq!(entry, "first");
    clients.put_back(a, entry);

    // a close drops the entry; the connection closes afterwards
    assert_eq!(clients.take(b), Some("second"));
    assert_eq!(clients.take(b), None);
    clients.connection_closed(b);

    clients.clear();
    assert_eq!(clients.take(a), None);
}

#[test]
fn demux_routes_messages() {
    let payload = Message::Payload { id: Stream::from(5), data: vec![1, 2] };
    match demux(payload) {
        Demux::Forward { id, data } => {
            assert_eq!(id, Stream::from(5));
            assert_eq!(data, vec![1, 2]);
        },
        other => panic!("expected a forward, got {:?}", other),
    }

    let close = Message::Control(Control::Close { id: Stream::from(5) });
    match demux(close) {
        Demux::Remove { id } => assert_eq!(id, Stream::from(5)),
        other => panic!("expected a remove, got {:?}", other),
    }

    assert!(matches!(demux(Message::Terminate), Demux::End));
    assert!(matches!(demux(Message::Control(Control::Okay)), Demux::Ignore));
}

#[test]
fn agent_steps_open_backends_lazily() {
    let mut backends: Backends<&'static str> = Backends::new();
    let id = Stream::from(77);

    let payload = Message::Payload { id, data: vec![9] };
    match next_step(&backends, payload) {
        AgentStep::Connect { id: got, data } => {
            assert_eq!(got, id);
            assert_eq!(data, vec![9]);
        },
        other => panic!("expected a connect, got {:?}", other),
    }

    backends.insert(id, "backend");
    assert!(backends.contains(id));

    let payload = Message::Payload { id, data: vec![7] };
    match next_step(&backends, payload) {
        AgentStep::Forward { id: got, data } => {
            assert_eq!(got, id);
            assert_eq!(data, vec![7]);
        },
        other => panic!("expected a forward, got {:?}", other),
    }

    let close = Message::Control(Control::Close { id });
    match next_step(&backends, close) {
        AgentStep::Remove { id: got } => assert_eq!(got, id),
        other => panic!("expected a remove, got {:?}", other),
    }
    assert_eq!(backends.take(id), Some("backend"));
    assert!(!backends.contains(id));

    assert!(matches!(
        next_step(&backends, Message::Terminate),
        AgentStep::Ignore
    ));
}
