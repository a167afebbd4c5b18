use hello_server::lifecycle::{advance, start, Action, Event, Phase};
use hello_server::response::hello_world;
use hello_server::routing::{Handler, Method};
use hello_server::server::{banner, respond, rocket, Address, EXIT_FAILURE, PORT};

#[test]
fn fixed_port() {
    assert_eq!(PORT, 3000);
}

#[test]
fn bind_addresses() {
    assert_eq!(Address::any(), Address { octets: [0, 0, 0, 0], port: 3000 });
    assert_eq!(Address::loopback(), Address { octets: [127, 0, 0, 1], port: 3000 });
}

#[test]
fn address_text() {
    assert_eq!(Address::any().to_text(), "0.0.0.0:3000");
    assert_eq!(Address::loopback().to_text(), "127.0.0.1:3000");
    assert_eq!(
        Address { octets: [255, 10, 9, 100], port: 65535 }.to_text(),
        "255.10.9.100:65535"
    );
    assert_eq!(Address { octets: [192, 168, 1, 20], port: 0 }.to_text(), "192.168.1.20:0");
}

#[test]
fn startup_line() {
    assert_eq!(banner(&Address::any()), "Server listening at http://0.0.0.0:3000");
    assert_eq!(banner(&Address::loopback()), "Server listening at http://127.0.0.1:3000");
    assert_eq!(
        banner(&Address { octets: [10, 0, 0, 7], port: 49152 }),
        "Server listening at http://10.0.0.7:49152"
    );
}

#[test]
fn startup_line_is_a_single_line() {
    let line = banner(&Address::any());
    assert!(!line.contains('\n'));
    assert!(line.starts_with("Server listening at http://"));
}

#[test]
fn rocket_listens_everywhere_and_mounts_the_route() {
    let server = rocket();
    assert_eq!(server.address, Address { octets: [0, 0, 0, 0], port: 3000 });
    assert_eq!(server.router.routes.len(), 1);
    assert_eq!(server.router.routes[0].method, Method::Get);
    assert_eq!(server.router.routes[0].path, "/api/hello-world");
    assert_eq!(server.router.routes[0].handler, Handler::HelloWorld);
}

#[test]
fn dispatch_answers_the_greeting() {
    let server = rocket();
    let response = server.dispatch(Method::Get, "/api/hello-world");
    assert_eq!(response.status, 200);
    assert_eq!(response.content_type.as_deref(), Some("application/json"));
    assert_eq!(response.body, "{\"message\":\"Hello, World!\"}");
}

#[test]
fn dispatch_misses_are_404() {
    let server = rocket();
    assert_eq!(server.dispatch(Method::Get, "/api/unknown").status, 404);
    assert_eq!(server.dispatch(Method::Post, "/api/hello-world").status, 404);
    assert_eq!(server.dispatch(Method::Get, "/hello-world").status, 404);
    assert_eq!(server.dispatch(Method::Get, "/api").status, 404);
    assert_eq!(server.dispatch(Method::Get, "/api/unknown").body, "Not Found");
}

#[test]
fn dispatch_agrees_with_the_handler() {
    let server = rocket();
    let methods = [Method::Get, Method::Post, Method::Head, Method::Other];
    let paths = ["/api/hello-world", "/api/unknown", "/", "", "/api/hello-world/"];
    for method in methods {
        for path in paths {
            let routed = server.dispatch(method, path);
            let direct = hello_world(method, path);
            assert_eq!(routed.status, direct.status);
            assert_eq!(routed.content_type, direct.content_type);
            assert_eq!(routed.body, direct.body);
        }
    }
}

#[test]
fn respond_runs_the_handler_or_answers_404() {
    let hit = respond(Some(Handler::HelloWorld));
    assert_eq!(hit.status, 200);
    assert_eq!(hit.body, "{\"message\":\"Hello, World!\"}");
    let miss = respond(None);
    assert_eq!(miss.status, 404);
    assert_eq!(miss.body, "Not Found");
}

#[test]
fn process_starts_in_starting() {
    assert_eq!(start(), Phase::Starting);
}

#[test]
fn successful_bind_announces_and_listens() {
    let address = Address::loopback();
    assert_eq!(
        advance(Phase::Starting, Event::Bound(address)),
        (Phase::Listening, Action::Announce(address))
    );
}

#[test]
fn failed_bind_exits_with_failure() {
    assert_eq!(EXIT_FAILURE, 1);
    assert_eq!(
        advance(Phase::Starting, Event::BindFailed),
        (Phase::Failed, Action::Exit(1))
    );
}

#[test]
fn listening_serves_each_connection() {
    assert_eq!(advance(Phase::Listening, Event::Accepted), (Phase::Listening, Action::Serve));
}

#[test]
fn connection_error_is_reported_and_listening_goes_on() {
    assert_eq!(
        advance(Phase::Listening, Event::ConnectionFailed),
        (Phase::Listening, Action::Report)
    );
}

#[test]
fn accept_error_is_fatal() {
    assert_eq!(
        advance(Phase::Listening, Event::AcceptFailed),
        (Phase::Failed, Action::Exit(1))
    );
}

#[test]
fn events_out_of_place_change_nothing() {
    let address = Address::any();
    assert_eq!(advance(Phase::Starting, Event::Accepted), (Phase::Starting, Action::Ignore));
    assert_eq!(
        advance(Phase::Starting, Event::ConnectionFailed),
        (Phase::Starting, Action::Ignore)
    );
    assert_eq!(advance(Phase::Starting, Event::AcceptFailed), (Phase::Starting, Action::Ignore));
    assert_eq!(
        advance(Phase::Listening, Event::Bound(address)),
        (Phase::Listening, Action::Ignore)
    );
    assert_eq!(advance(Phase::Listening, Event::BindFailed), (Phase::Listening, Action::Ignore));
}

#[test]
fn failed_is_final() {
    let events = [
        Event::Bound(Address::any()),
        Event::BindFailed,
        Event::Accepted,
        Event::ConnectionFailed,
        Event::AcceptFailed,
    ];
    for event in events {
        assert_eq!(advance(Phase::Failed, event), (Phase::Failed, Action::Ignore));
    }
}

#[test]
fn a_whole_run() {
    let mut phase = start();
    let (next, action) = advance(phase, Event::Bound(Address::any()));
    phase = next;
    let line = match action {
        Action::Announce(address) => banner(&address),
        other => panic!("unexpected action {:?}", other),
    };
    assert_eq!(line, "Server listening at http://0.0.0.0:3000");
    for _ in 0..3 {
        let (next, action) = advance(phase, Event::Accepted);
        phase = next;
        assert_eq!(action, Action::Serve);
    }
    let (next, action) = advance(phase, Event::ConnectionFailed);
    phase = next;
    assert_eq!(action, Action::Report);
    assert_eq!(phase, Phase::Listening);
    let (next, action) = advance(phase, Event::AcceptFailed);
    assert_eq!(next, Phase::Failed);
    assert_eq!(action, Action::Exit(1));
}
