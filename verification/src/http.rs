//! The HTTP transport: which request goes where, and how messages are answered.
//!
//! Endpoints:
//!   POST /mcp       client sends JSON-RPC message, gets JSON response
//!   GET  /mcp       SSE stream, if the client accepts one
//!   GET  /mcp/sse   SSE stream for server-initiated messages (notifications)
//!   GET  /health    tells that the server is up
//!
//! A preflight request of a browser is answered before it is routed.

use crate::protocol::JsonRpcResponse;
use crate::text::{decimal, is_whitespace, same_text, trim, trimmed};
use crate::text::{law_decimal_stands_for_the_number, law_inside_is_what_trimming_leaves};
use crate::text::law_trimming_leaves_the_inside;
use vstd::prelude::*;

verus! {

/// What the health endpoint answers.
pub const HEALTH_BODY: &'static str = "ok";

/// The method of a request.
#[derive(Debug, Clone, Copy, PartialEq, Eq, Structural)]
pub enum Method {
    Get,
    Head,
    Post,
    Delete,
    /// Any other method.
    Other,
}

/// The parts of a request that decide where it goes.
#[derive(Debug)]
pub struct RequestHead {
    pub method: Method,
    /// The path, without the query.
    pub path: String,
    /// The `Origin` header.
    pub origin: Option<String>,
    /// The `Accept` header.
    pub accept: Option<String>,
}

/// Where a request goes.
#[derive(Debug, Clone, Copy, PartialEq, Eq, Structural)]
pub enum Route {
    /// To the message handler, which gets the body.
    Message,
    /// To a new stream of server-initiated messages.
    EventStream,
    /// To the health endpoint.
    Health,
    /// Nowhere: it is answered with this status alone.
    Refused(u16),
}

/// How a posted message is answered.
#[derive(Debug)]
pub enum PostReply {
    /// With a response, as JSON.
    Json(JsonRpcResponse),
    /// With no body: the message was a notification.
    Accepted,
}

/// `c` is a decimal digit.
pub open spec fn is_digit(c: char) -> bool {
    '0' <= c <= '9'
}

/// A port at the end of an origin: nothing, or a colon and digits.
pub open spec fn is_port_suffix(s: Seq<char>) -> bool {
    s.len() > 0 ==> {
        &&& s.len() > 1
        &&& s[0] == ':'
        &&& forall|i: int| 1 <= i < s.len() ==> is_digit(#[trigger] s[i])
    }
}

/// `c` is the character `lower` of a name written in lower case, in either case.
pub open spec fn is_in_either_case(c: char, lower: char) -> bool {
    c == lower || ('A' <= c <= 'Z' && c as int + 32 == lower as int)
}

/// `s` begins with `host`, a name written in lower case, in any mix of cases.
pub open spec fn begins_with_host(s: Seq<char>, host: Seq<char>) -> bool {
    &&& host.len() <= s.len()
    &&& forall|i: int| 0 <= i < host.len() ==> is_in_either_case(#[trigger] s[i], host[i])
}

/// `s` is the host `host`, with or without a port.
pub open spec fn is_host_and_port(s: Seq<char>, host: Seq<char>) -> bool {
    begins_with_host(s, host) && is_port_suffix(s.skip(host.len() as int))
}

/// `s` is a name of this machine, with or without a port.
pub open spec fn is_local_authority(s: Seq<char>) -> bool {
    ||| is_host_and_port(s, "localhost"@)
    ||| is_host_and_port(s, "127.0.0.1"@)
    ||| is_host_and_port(s, "[::1]"@)
}

/// `s` is a scheme: some characters, none of which can end it.
pub open spec fn is_scheme(s: Seq<char>) -> bool {
    &&& s.len() > 0
    &&& forall|i: int| 0 <= i < s.len() ==> s[i] != ':' && s[i] != '/'
}

/// `origin` is a page that this machine serves to itself, under any scheme.
pub open spec fn is_localhost_origin(origin: Seq<char>) -> bool {
    exists|k: int| #[trigger] ends_scheme(origin, k) && is_local_authority(origin.skip(k + 3))
}

/// The scheme of `origin` ends at `k`, where `://` stands.
pub open spec fn ends_scheme(origin: Seq<char>, k: int) -> bool {
    &&& 0 < k
    &&& k + 3 <= origin.len()
    &&& is_scheme(origin.take(k))
    &&& origin[k] == ':'
    &&& origin[k + 1] == '/'
    &&& origin[k + 2] == '/'
}

fn check_port_suffix(s: &str) -> (r: bool)
    ensures
        r == is_port_suffix(s@),
{
    let n: usize = s.unicode_len();
    if n == 0 {
        return true;
    }
    if n == 1 || s.get_char(0) != ':' {
        return false;
    }
    let mut i: usize = 1;
    while i < n
        invariant
            1 <= i <= n,
            n == s@.len(),
            s@[0] == ':',
            forall|j: int| 1 <= j < i ==> is_digit(#[trigger] s@[j]),
        decreases n - i,
    {
        let c = s.get_char(i);
        if c < '0' || c > '9' {
            return false;
        }
        i = i + 1;
    }
    true
}

fn check_host_and_port(s: &str, host: &str) -> (r: bool)
    ensures
        r == is_host_and_port(s@, host@),
{
    let n: usize = host.unicode_len();
    let m: usize = s.unicode_len();
    if m < n {
        return false;
    }
    let mut i: usize = 0;
    while i < n
        invariant
            i <= n,
            n == host@.len(),
            n <= s@.len(),
            forall|j: int| 0 <= j < i ==> is_in_either_case(#[trigger] s@[j], host@[j]),
        decreases n - i,
    {
        let c = s.get_char(i);
        let lower = host.get_char(i);
        if c != lower && !('A' <= c && c <= 'Z' && c as u32 + 32 == lower as u32) {
            assert(!is_in_either_case(s@[i as int], host@[i as int]));
            return false;
        }
        i = i + 1;
    }
    let port = s.substring_char(n, m);
    assert(port@ =~= s@.skip(n as int));
    check_port_suffix(port)
}

fn check_local_authority(s: &str) -> (r: bool)
    ensures
        r == is_local_authority(s@),
{
    check_host_and_port(s, "localhost") || check_host_and_port(s, "127.0.0.1")
        || check_host_and_port(s, "[::1]")
}

/// Whether `origin` is a page that this machine serves to itself.
pub fn localhost_origin(origin: &str) -> (r: bool)
    ensures
        r == is_localhost_origin(origin@),
{
    let n: usize = origin.unicode_len();
    let mut k: usize = 0;
    while k < n && origin.get_char(k) != ':' && origin.get_char(k) != '/'
        invariant
            k <= n,
            n == origin@.len(),
            forall|i: int| 0 <= i < k ==> origin@[i] != ':' && origin@[i] != '/',
        decreases n - k,
    {
        k = k + 1;
    }
    assert forall|j: int| #[trigger] ends_scheme(origin@, j) implies j == k by {
        if k < j {
            assert(origin@.take(j)[k as int] == origin@[k as int]);
        }
    }
    if k == 0 || n - k < 3 || origin.get_char(k) != ':' || origin.get_char(k + 1) != '/'
        || origin.get_char(k + 2) != '/' {
        return false;
    }
    assert(ends_scheme(origin@, k as int));
    let authority = origin.substring_char(k + 3, n);
    assert(authority@ =~= origin@.skip(k + 3));
    check_local_authority(authority)
}

/// The characters from `a` to `b` are the media type of one item of an `Accept` header: they stand
/// between commas, in front of the parameters.
pub open spec fn is_media_type(accept: Seq<char>, a: int, b: int) -> bool {
    &&& 0 <= a <= b <= accept.len()
    &&& a == 0 || accept[a - 1] == ','
    &&& b == accept.len() || accept[b] == ',' || accept[b] == ';'
    &&& forall|i: int| a <= i < b ==> accept[i] != ',' && accept[i] != ';'
}

/// An `Accept` header lists the media type of event streams.
pub open spec fn lists_event_stream(accept: Seq<char>) -> bool {
    exists|a: int, b: int| #[trigger]
        is_media_type(accept, a, b) && trimmed(accept.subrange(a, b)) == "text/event-stream"@
}

/// Whether an `Accept` header lists the media type of event streams.
pub fn accepts_event_stream(accept: &str) -> (r: bool)
    ensures
        r == lists_event_stream(accept@),
{
    let n: usize = accept.unicode_len();
    let mut start: usize = 0;
    let mut in_type: bool = true;
    let mut i: usize = 0;
    loop
        invariant
            n == accept@.len(),
            start <= i <= n,
            start == 0 || accept@[start - 1] == ',',
            forall|j: int| start <= j < i ==> accept@[j] != ',',
            in_type ==> forall|j: int| start <= j < i ==> accept@[j] != ';',
            !in_type ==> exists|j: int| start <= j < i && accept@[j] == ';',
            forall|a: int, b: int| #[trigger]
                is_media_type(accept@, a, b) && b < i ==> trimmed(accept@.subrange(a, b))
                    != "text/event-stream"@,
        decreases n - i,
    {
        let c: Option<char> = if i < n {
            Some(accept.get_char(i))
        } else {
            None
        };
        let ends_item: bool = c.is_none() || c == Some(',');
        if in_type && (ends_item || c == Some(';')) {
            assert(is_media_type(accept@, start as int, i as int));
            if same_text(trim(accept.substring_char(start, i)), "text/event-stream") {
                return true;
            }
            in_type = false;
        }
        assert forall|a: int, b: int| #[trigger]
            is_media_type(accept@, a, b) && b == i implies trimmed(accept@.subrange(a, b))
            != "text/event-stream"@ by {
            assert(a == start);
        }
        if i == n {
            return false;
        }
        i = i + 1;
        if ends_item {
            start = i;
            in_type = true;
        }
    }
}

impl RequestHead {
    /// The request comes from a page that another machine serves.
    pub open spec fn is_foreign(self) -> bool {
        self.origin matches Some(origin) && !is_localhost_origin(origin@)
    }

    /// The client accepts an event stream.
    pub open spec fn wants_stream(self) -> bool {
        self.accept matches Some(accept) && lists_event_stream(accept@)
    }

    /// The request asks for a document. `HEAD` asks for the same as `GET`, without its body.
    pub open spec fn reads(self) -> bool {
        self.method == Method::Get || self.method == Method::Head
    }

    /// Where the request goes. What the message endpoint serves it does not serve to a page of
    /// another machine.
    pub open spec fn goes_to(self) -> Route {
        if self.path@ == "/mcp"@ {
            if self.method == Method::Post {
                if self.is_foreign() {
                    Route::Refused(403)
                } else {
                    Route::Message
                }
            } else if self.method == Method::Get && self.wants_stream() {
                if self.is_foreign() {
                    Route::Refused(403)
                } else {
                    Route::EventStream
                }
            } else {
                Route::Refused(405)
            }
        } else if self.path@ == "/mcp/sse"@ {
            if self.reads() {
                Route::EventStream
            } else {
                Route::Refused(405)
            }
        } else if self.path@ == "/health"@ {
            if self.reads() {
                Route::Health
            } else {
                Route::Refused(405)
            }
        } else {
            Route::Refused(404)
        }
    }
}

/// Whether the message endpoint may serve a request of this origin: one that a page of another
/// machine makes may not be served, so that no such page can reach the server through a name that
/// was bound to this machine.
pub fn origin_allowed(origin: &Option<String>) -> (r: bool)
    ensures
        r == (origin matches Some(o) ==> is_localhost_origin(o@)),
{
    match origin {
        Some(o) => localhost_origin(o.as_str()),
        None => true,
    }
}

/// Decides where a request to the message endpoint goes.
fn message_route(head: &RequestHead) -> (r: Route)
    requires
        head.path@ == "/mcp"@,
    ensures
        r == head.goes_to(),
{
    let served: Route = if head.method == Method::Post {
        Route::Message
    } else if head.method == Method::Get {
        let wants_stream: bool = match &head.accept {
            Some(accept) => accepts_event_stream(accept.as_str()),
            None => false,
        };
        if !wants_stream {
            return Route::Refused(405);
        }
        Route::EventStream
    } else {
        return Route::Refused(405);
    };
    if origin_allowed(&head.origin) {
        served
    } else {
        Route::Refused(403)
    }
}

/// Decides where a request goes.
pub fn route(head: &RequestHead) -> (r: Route)
    ensures
        r == head.goes_to(),
{
    let reads: bool = head.method == Method::Get || head.method == Method::Head;
    let path = head.path.as_str();
    if same_text(path, "/mcp") {
        message_route(head)
    } else if same_text(path, "/mcp/sse") {
        if reads {
            Route::EventStream
        } else {
            Route::Refused(405)
        }
    } else if same_text(path, "/health") {
        if reads {
            Route::Health
        } else {
            Route::Refused(405)
        }
    } else {
        Route::Refused(404)
    }
}

/// The methods that a path is served with, as the `Allow` header lists them.
pub fn allowed_methods(path: &str) -> (r: Option<&'static str>)
    ensures
        if path@ == "/mcp"@ {
            r is Some && r->Some_0@ == "GET,POST"@
        } else if path@ == "/mcp/sse"@ || path@ == "/health"@ {
            r is Some && r->Some_0@ == "GET,HEAD"@
        } else {
            r is None
        },
{
    if same_text(path, "/mcp") {
        Some("GET,POST")
    } else if same_text(path, "/mcp/sse") || same_text(path, "/health") {
        Some("GET,HEAD")
    } else {
        None
    }
}

impl PostReply {
    /// The status that the reply is sent with.
    pub open spec fn code(self) -> u16 {
        match self {
            PostReply::Json(_) => 200,
            PostReply::Accepted => 202,
        }
    }

    /// The status that the reply is sent with.
    pub fn status(&self) -> (r: u16)
        ensures
            r == self.code(),
    {
        match self {
            PostReply::Json(_) => 200,
            PostReply::Accepted => 202,
        }
    }
}

/// Answers a posted message with what the handler returned for it.
pub fn post_reply(response: Option<JsonRpcResponse>) -> (r: PostReply)
    ensures
        match response {
            Some(resp) => r == PostReply::Json(resp),
            None => r == PostReply::Accepted,
        },
        r.code() == if response is Some {
            200u16
        } else {
            202u16
        },
{
    match response {
        Some(resp) => PostReply::Json(resp),
        None => PostReply::Accepted,
    }
}

/// A request is forbidden if and only if it comes from a page that another machine serves and the
/// message endpoint would serve it otherwise.
pub proof fn law_forbidden_means_foreign(head: RequestHead)
    ensures
        head.goes_to() == Route::Refused(403) <==> {
            &&& head.is_foreign()
            &&& head.path@ == "/mcp"@
            &&& head.method == Method::Post || (head.method == Method::Get && head.wants_stream())
        },
{
}

/// The handler gets a message only if it is posted to the message endpoint by a client that is
/// not a foreign page, and it gets every such message.
pub proof fn law_handler_gets_posted_messages(head: RequestHead)
    ensures
        head.goes_to() == Route::Message <==> {
            &&& !head.is_foreign()
            &&& head.method == Method::Post
            &&& head.path@ == "/mcp"@
        },
{
}

/// The origin makes no difference between requests that are not foreign, and none at all outside
/// the message endpoint.
pub proof fn law_origin_matters_at_the_message_endpoint(a: RequestHead, b: RequestHead)
    requires
        a.method == b.method,
        a.path@ == b.path@,
        a.wants_stream() == b.wants_stream(),
        a.path@ == "/mcp"@ ==> a.is_foreign() == b.is_foreign(),
    ensures
        a.goes_to() == b.goes_to(),
{
}

/// Nothing at the message endpoint can be deleted: the server holds no session to end.
pub proof fn law_messages_cannot_be_deleted(head: RequestHead)
    requires
        head.path@ == "/mcp"@,
        head.method == Method::Delete,
    ensures
        head.goes_to() == Route::Refused(405),
{
}

/// A page of this machine is local: under any scheme, by any of the three names of this machine, in
/// capitals or not, with any port or none.
pub proof fn law_pages_of_this_machine_are_local(
    scheme: Seq<char>,
    host: Seq<char>,
    name: Seq<char>,
    port: Seq<char>,
)
    requires
        scheme.len() > 0,
        forall|i: int| 0 <= i < scheme.len() ==> #[trigger] scheme[i] != ':' && scheme[i] != '/',
        host == "localhost"@ || host == "127.0.0.1"@ || host == "[::1]"@,
        name.len() == host.len(),
        forall|i: int|
            0 <= i < name.len() ==> #[trigger] name[i] == host[i] || (65 <= name[i] as int <= 90
                && name[i] as int + 32 == host[i] as int),
        port.len() > 0 ==> {
            &&& port.len() > 1
            &&& port[0] == ':'
            &&& forall|i: int| 1 <= i < port.len() ==> '0' <= #[trigger] port[i] <= '9'
        },
    ensures
        is_localhost_origin(scheme + "://"@ + name + port),
{
    reveal_strlit("://");
    let origin = scheme + "://"@ + name + port;
    let k = scheme.len() as int;
    assert(origin.take(k) =~= scheme);
    assert(origin[k] == "://"@[0]);
    assert(origin[k + 1] == "://"@[1]);
    assert(origin[k + 2] == "://"@[2]);
    assert(ends_scheme(origin, k));
    let authority = origin.skip(k + 3);
    assert(authority =~= name + port);
    assert forall|i: int| 0 <= i < host.len() implies is_in_either_case(
        #[trigger] authority[i],
        host[i],
    ) by {
        assert(authority[i] == name[i]);
    }
    assert(authority.skip(host.len() as int) =~= port);
    assert(is_host_and_port(authority, host));
}

/// A message that a page of this machine posts is handled, whatever its scheme and its port.
pub proof fn law_local_pages_can_post(
    head: RequestHead,
    scheme: Seq<char>,
    host: Seq<char>,
    port: nat,
)
    requires
        scheme.len() > 0,
        forall|i: int| 0 <= i < scheme.len() ==> #[trigger] scheme[i] != ':' && scheme[i] != '/',
        host == "localhost"@ || host == "127.0.0.1"@ || host == "[::1]"@,
        head.origin is Some,
        head.origin->Some_0@ == scheme + "://"@ + host || head.origin->Some_0@ == scheme + "://"@
            + host + (":"@ + decimal(port)),
        head.path@ == "/mcp"@,
        head.method is Post,
    ensures
        is_localhost_origin(head.origin->Some_0@),
        head.goes_to() == Route::Message,
{
    reveal_strlit(":");
    law_decimal_stands_for_the_number(port);
    let none = Seq::<char>::empty();
    let suffix = ":"@ + decimal(port);
    assert forall|i: int| 1 <= i < suffix.len() implies '0' <= #[trigger] suffix[i] <= '9' by {
        assert(suffix[i] == decimal(port)[i - 1]);
    }
    assert(suffix[0] == ":"@[0]);
    law_pages_of_this_machine_are_local(scheme, host, host, none);
    law_pages_of_this_machine_are_local(scheme, host, host, suffix);
    assert(scheme + "://"@ + host + none =~= scheme + "://"@ + host);
}

/// Nothing else is local: an origin that is taken for a page of this machine is a scheme, one of
/// the three names of this machine, in capitals or not, and a port or none.
pub proof fn law_local_pages_are_of_this_machine(origin: Seq<char>)
    requires
        is_localhost_origin(origin),
    ensures
        exists|scheme: Seq<char>, host: Seq<char>, name: Seq<char>, port: Seq<char>|
            #![trigger scheme + "://"@ + name + port, host.len()]
            {
                &&& origin == scheme + "://"@ + name + port
                &&& scheme.len() > 0
                &&& forall|i: int|
                    0 <= i < scheme.len() ==> #[trigger] scheme[i] != ':' && scheme[i] != '/'
                &&& host == "localhost"@ || host == "127.0.0.1"@ || host == "[::1]"@
                &&& name.len() == host.len()
                &&& forall|i: int|
                    0 <= i < name.len() ==> #[trigger] name[i] == host[i] || (65 <= name[i] as int
                        <= 90 && name[i] as int + 32 == host[i] as int)
                &&& port.len() > 0 ==> {
                    &&& port.len() > 1
                    &&& port[0] == ':'
                    &&& forall|i: int| 1 <= i < port.len() ==> '0' <= #[trigger] port[i] <= '9'
                }
            },
{
    reveal_strlit("://");
    let k = choose|k: int| #[trigger]
        ends_scheme(origin, k) && is_local_authority(origin.skip(k + 3));
    let scheme = origin.take(k);
    let authority = origin.skip(k + 3);
    let host = if is_host_and_port(authority, "localhost"@) {
        "localhost"@
    } else if is_host_and_port(authority, "127.0.0.1"@) {
        "127.0.0.1"@
    } else {
        "[::1]"@
    };
    let n = host.len() as int;
    let name = authority.take(n);
    let port = authority.skip(n);
    assert(is_host_and_port(authority, host));
    assert forall|i: int| 0 <= i < name.len() implies #[trigger] name[i] == host[i] || (65
        <= name[i] as int <= 90 && name[i] as int + 32 == host[i] as int) by {
        assert(name[i] == authority[i]);
        assert(is_in_either_case(authority[i], host[i]));
    }
    assert forall|i: int| 1 <= i < port.len() implies '0' <= #[trigger] port[i] <= '9' by {
        assert(is_digit(port[i]));
    }
    assert(origin =~= scheme + "://"@ + name + port);
}

/// A page of any other host is foreign: of one that is neither `localhost` nor `127.0.0.1`,
/// whatever the case, and that is not written with colons.
pub proof fn law_pages_of_other_hosts_are_foreign(scheme: Seq<char>, host: Seq<char>)
    requires
        scheme.len() > 0,
        forall|i: int| 0 <= i < scheme.len() ==> #[trigger] scheme[i] != ':' && scheme[i] != '/',
        forall|i: int| 0 <= i < host.len() ==> #[trigger] host[i] != ':',
        host.len() != 9 || exists|i: int|
            0 <= i < 9 && #[trigger] host[i] != "localhost"@[i] && host[i] as int + 32
                != "localhost"@[i] as int,
        host != "127.0.0.1"@,
    ensures
        !is_localhost_origin(scheme + "://"@ + host),
{
    reveal_strlit("://");
    reveal_strlit("localhost");
    reveal_strlit("127.0.0.1");
    reveal_strlit("[::1]");
    let origin = scheme + "://"@ + host;
    let n = scheme.len() as int;
    assert(origin[n] == "://"@[0]);
    assert forall|k: int| #[trigger] ends_scheme(origin, k) implies !is_local_authority(
        origin.skip(k + 3),
    ) by {
        if k < n {
            assert(origin[k] == scheme[k]);
        }
        if k > n {
            assert(origin.take(k)[n] == ':');
        }
        let authority = origin.skip(n + 3);
        assert(authority =~= host);
        assert forall|h: Seq<char>| #[trigger] is_host_and_port(host, h) implies host.len()
            == h.len() by {
            let port = host.skip(h.len() as int);
            if port.len() > 0 {
                assert(port[0] == host[h.len() as int]);
            }
        }
        if is_host_and_port(host, "localhost"@) {
            let i = choose|i: int|
                0 <= i < 9 && #[trigger] host[i] != "localhost"@[i] && host[i] as int + 32
                    != "localhost"@[i] as int;
            assert(is_in_either_case(host[i], "localhost"@[i]));
        }
        if is_host_and_port(host, "127.0.0.1"@) {
            assert forall|i: int| 0 <= i < 9 implies host[i] == "127.0.0.1"@[i] by {
                assert(is_in_either_case(host[i], "127.0.0.1"@[i]));
            }
            assert(host =~= "127.0.0.1"@);
        }
        if is_host_and_port(host, "[::1]"@) {
            assert(is_in_either_case(host[1], "[::1]"@[1]));
        }
    }
}

/// An `Accept` header lists event streams wherever their media type stands in it: alone, between
/// commas, in front of parameters, and with whitespace around it.
pub proof fn law_listed_event_stream_is_found(
    front: Seq<char>,
    before: Seq<char>,
    after: Seq<char>,
    back: Seq<char>,
)
    requires
        front.len() > 0 ==> front[front.len() - 1] == ',',
        back.len() > 0 ==> back[0] == ',' || back[0] == ';',
        forall|i: int| 0 <= i < before.len() ==> is_whitespace(#[trigger] before[i]),
        forall|i: int| 0 <= i < after.len() ==> is_whitespace(#[trigger] after[i]),
    ensures
        lists_event_stream(front + before + "text/event-stream"@ + after + back),
{
    reveal_strlit("text/event-stream");
    let kind = "text/event-stream"@;
    let accept = front + before + kind + after + back;
    let item = before + kind + after;
    let a = front.len() as int;
    let b = a + item.len();
    assert forall|i: int| 0 <= i < kind.len() implies kind[i] != ',' && kind[i] != ';' by {}
    assert forall|i: int| a <= i < b implies accept[i] != ',' && accept[i] != ';' by {
        let j = i - a;
        if j < before.len() {
            assert(accept[i] == before[j]);
        } else if j < before.len() + kind.len() {
            assert(accept[i] == kind[j - before.len()]);
        } else {
            assert(accept[i] == after[j - before.len() - kind.len()]);
        }
    }
    assert(is_media_type(accept, a, b));
    assert(accept.subrange(a, b) =~= item);
    assert(kind[0] == 't' && kind[kind.len() - 1] == 'm');
    law_inside_is_what_trimming_leaves(before, kind, after);
}

/// An `Accept` header that is taken to list event streams does so: their media type stands in it
/// behind a comma or at its start, in front of a comma, a semicolon or its end, but for
/// whitespace.
pub proof fn law_found_event_stream_is_listed(accept: Seq<char>)
    requires
        lists_event_stream(accept),
    ensures
        exists|front: Seq<char>, before: Seq<char>, after: Seq<char>, back: Seq<char>|
            {
                &&& accept == #[trigger] (front + before + "text/event-stream"@ + after + back)
                &&& front.len() > 0 ==> front[front.len() - 1] == ','
                &&& back.len() > 0 ==> back[0] == ',' || back[0] == ';'
                &&& forall|i: int| 0 <= i < before.len() ==> is_whitespace(#[trigger] before[i])
                &&& forall|i: int| 0 <= i < after.len() ==> is_whitespace(#[trigger] after[i])
            },
{
    let kind = "text/event-stream"@;
    let (a, b) = choose|a: int, b: int| #[trigger]
        is_media_type(accept, a, b) && trimmed(accept.subrange(a, b)) == kind;
    let item = accept.subrange(a, b);
    law_trimming_leaves_the_inside(item);
    let (before, after) = choose|before: Seq<char>, after: Seq<char>|
        {
            &&& item == #[trigger] (before + trimmed(item) + after)
            &&& forall|i: int| 0 <= i < before.len() ==> is_whitespace(#[trigger] before[i])
            &&& forall|i: int| 0 <= i < after.len() ==> is_whitespace(#[trigger] after[i])
        };
    let front = accept.take(a);
    let back = accept.skip(b);
    assert(accept =~= front + item + back);
    assert(front + item + back =~= front + before + kind + after + back);
}

/// At the message endpoint a message is posted and a stream is got by a client that accepts one;
/// both are forbidden to foreign pages, and everything else is refused.
pub proof fn law_message_endpoint(head: RequestHead)
    requires
        head.path@ == "/mcp"@,
    ensures
        head.method is Post && (head.origin is None || is_localhost_origin(
            head.origin->Some_0@,
        )) ==> head.goes_to() == Route::Message,
        head.method is Post && head.origin is Some && !is_localhost_origin(head.origin->Some_0@)
            ==> head.goes_to() == Route::Refused(403),
        head.method is Get && (head.accept is None || !lists_event_stream(head.accept->Some_0@))
            ==> head.goes_to() == Route::Refused(405),
        head.method is Get && head.accept is Some && lists_event_stream(head.accept->Some_0@) && (
        head.origin is None || is_localhost_origin(head.origin->Some_0@)) ==> head.goes_to()
            == Route::EventStream,
        head.method is Get && head.accept is Some && lists_event_stream(head.accept->Some_0@)
            && head.origin is Some && !is_localhost_origin(head.origin->Some_0@) ==> head.goes_to()
            == Route::Refused(403),
        head.method is Head || head.method is Delete || head.method is Other ==> head.goes_to()
            == Route::Refused(405),
{
}

/// The stream endpoint opens a stream for every client that gets it, whatever the client accepts
/// and wherever it comes from, and refuses every other method.
pub proof fn law_stream_endpoint(head: RequestHead)
    requires
        head.path@ == "/mcp/sse"@,
    ensures
        head.method is Get || head.method is Head ==> head.goes_to() == Route::EventStream,
        head.method is Post || head.method is Delete || head.method is Other ==> head.goes_to()
            == Route::Refused(405),
{
    reveal_strlit("/mcp");
    reveal_strlit("/mcp/sse");
    assert("/mcp"@.len() != "/mcp/sse"@.len());
}

/// The health endpoint answers every client that gets it, whatever the client accepts and wherever
/// it comes from, and refuses every other method.
pub proof fn law_health_endpoint(head: RequestHead)
    requires
        head.path@ == "/health"@,
    ensures
        head.method is Get || head.method is Head ==> head.goes_to() == Route::Health,
        head.method is Post || head.method is Delete || head.method is Other ==> head.goes_to()
            == Route::Refused(405),
{
    reveal_strlit("/mcp");
    reveal_strlit("/mcp/sse");
    reveal_strlit("/health");
    assert("/mcp"@.len() != "/health"@.len());
    assert("/mcp/sse"@.len() != "/health"@.len());
}

/// There is nothing at any other path, for any client.
pub proof fn law_other_paths_are_not_found(head: RequestHead)
    ensures
        head.goes_to() == Route::Refused(404) <==> {
            &&& head.path@ != "/mcp"@
            &&& head.path@ != "/mcp/sse"@
            &&& head.path@ != "/health"@
        },
{
}

/// A response is sent with the status for success, and no response with that for acceptance.
pub proof fn law_status_of_replies(response: JsonRpcResponse)
    ensures
        PostReply::Json(response).code() == 200,
        PostReply::Accepted.code() == 202,
        HEALTH_BODY@ == "ok"@,
{
}

} // verus!
