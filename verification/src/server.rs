//! The server: where it listens, what it routes, and what it does at start-up.

use vstd::prelude::*;
use vstd::string::*;
use crate::payload::{api, greeting_body};
use crate::response::{
    is_greeting_request,
    json_response,
    not_found_response,
    response_for,
    Response,
    ResponseView,
};
use crate::routing::{lookup, lookup_from, nested, Handler, Method, RouteView, Router};
use crate::text::{decimal, decimal_text};

verus! {

/// The port that the server listens on.
pub const PORT: u16 = 3000;

/// The exit status of a server that could not start or could not go on.
pub const EXIT_FAILURE: u8 = 1;

/// An IPv4 address and a port.
#[derive(Clone, Copy, Debug, PartialEq, Eq)]
pub struct Address {
    pub octets: [u8; 4],
    pub port: u16,
}

impl Address {
    /// The address as `a.b.c.d:port`.
    pub open spec fn text(self) -> Seq<char> {
        decimal(self.octets[0] as nat) + seq!['.'] + decimal(self.octets[1] as nat) + seq!['.']
            + decimal(self.octets[2] as nat) + seq!['.'] + decimal(self.octets[3] as nat)
            + seq![':'] + decimal(self.port as nat)
    }

    /// Every interface, on the fixed port.
    pub fn any() -> (address: Address)
        ensures
            address.octets@ == seq![0u8, 0u8, 0u8, 0u8],
            address.port == PORT,
    {
        let address = Address { octets: [0, 0, 0, 0], port: PORT };
        assert(address.octets@ =~= seq![0u8, 0u8, 0u8, 0u8]);
        address
    }

    /// The loopback interface, on the fixed port.
    pub fn loopback() -> (address: Address)
        ensures
            address.octets@ == seq![127u8, 0u8, 0u8, 1u8],
            address.port == PORT,
    {
        let address = Address { octets: [127, 0, 0, 1], port: PORT };
        assert(address.octets@ =~= seq![127u8, 0u8, 0u8, 1u8]);
        address
    }

    /// Writes the address as `a.b.c.d:port`.
    pub fn to_text(&self) -> (text: String)
        ensures
            text@ == self.text(),
    {
        let mut text = decimal_text(self.octets[0] as u16);
        text.append(".");
        text.append(decimal_text(self.octets[1] as u16).as_str());
        text.append(".");
        text.append(decimal_text(self.octets[2] as u16).as_str());
        text.append(".");
        text.append(decimal_text(self.octets[3] as u16).as_str());
        text.append(":");
        text.append(decimal_text(self.port).as_str());
        proof {
            reveal_strlit(".");
            reveal_strlit(":");
            assert(text@ =~= self.text());
        }
        text
    }
}

/// The start-up line for a listener bound to `address`.
pub open spec fn banner_text(address: Address) -> Seq<char> {
    "Server listening at http://"@ + address.text()
}

/// The one line written to standard output once the listener is bound.
pub fn banner(address: &Address) -> (line: String)
    ensures
        line@ == banner_text(*address),
{
    let mut line = String::from_str("Server listening at http://");
    line.append(address.to_text().as_str());
    line
}

/// The response that a routing decision leads to.
pub open spec fn answer(found: Option<Handler>) -> ResponseView {
    match found {
        Some(Handler::HelloWorld) => json_response(greeting_body()),
        None => not_found_response(),
    }
}

/// The routes of the server: the greeting route, mounted under `/api`.
pub open spec fn mounted_routes() -> Seq<RouteView> {
    nested(
        "/api"@,
        seq![RouteView { method: Method::Get, path: "/hello-world"@, handler: Handler::HelloWorld }],
    )
}

/// A bind address and a routing table.
#[derive(Debug)]
pub struct Server {
    pub address: Address,
    pub router: Router,
}

/// Runs the handler that the table found, or answers 404 where it found none.
pub fn respond(found: Option<Handler>) -> (response: Response)
    ensures
        response@ == answer(found),
{
    match found {
        Some(Handler::HelloWorld) => Response::json(api().to_json()),
        None => Response::not_found(),
    }
}

/// Builds the server: every interface on the fixed port, and a table with the
/// greeting route `GET /hello-world` mounted under `/api`.
pub fn rocket() -> (server: Server)
    ensures
        server.address.octets@ == seq![0u8, 0u8, 0u8, 0u8],
        server.address.port == PORT,
        server.router@ == mounted_routes(),
{
    let routes = Router::new().route(Method::Get, "/hello-world", Handler::HelloWorld);
    let router = Router::new().nest("/api", &routes);
    assert(router@ =~= mounted_routes());
    Server { address: Address::any(), router }
}

impl Server {
    /// Routes one request through the table and answers it.
    pub fn dispatch(&self, method: Method, path: &str) -> (response: Response)
        ensures
            response@ == answer(lookup(self.router@, method, path@)),
            self.router@ == mounted_routes() ==> response@ == response_for(method, path@),
    {
        proof {
            lemma_mounted_routes_answer(method, path@);
        }
        respond(self.router.find(method, path))
    }
}

/// The mounted table holds one route, `GET /api/hello-world`.
pub proof fn lemma_mounted_routes()
    ensures
        mounted_routes() == seq![
            RouteView { method: Method::Get, path: "/api/hello-world"@, handler: Handler::HelloWorld },
        ],
{
    reveal_strlit("/api");
    reveal_strlit("/hello-world");
    reveal_strlit("/api/hello-world");
    assert("/api"@ + "/hello-world"@ =~= "/api/hello-world"@);
    assert(mounted_routes() =~= seq![
        RouteView { method: Method::Get, path: "/api/hello-world"@, handler: Handler::HelloWorld },
    ]);
}

/// Routing through the mounted table gives every request the response that
/// the handler owes it: the table and the direct match agree.
pub proof fn lemma_mounted_routes_answer(method: Method, path: Seq<char>)
    ensures
        answer(lookup(mounted_routes(), method, path)) == response_for(method, path),
{
    lemma_mounted_routes();
    let routes = mounted_routes();
    assert(routes.len() == 1);
    assert(routes[0].accepts(method, path) <==> is_greeting_request(method, path));
    assert(lookup_from(routes, 1, method, path) is None);
}

} // verus!
