//! What the operations of the library do, told by their calls.
//!
//! In each law `call_ensures` stands for a call that was made, with what it was given and what it
//! returned.

use crate::board::{law_failed_body_is_rolled_back, law_failed_push_is_reported};
use crate::board::{law_ok_means_pushed, law_successful_commit_returns_the_result};
use crate::board::{law_unopened_commit_fails, with_commit, CommitCalls};
use crate::error::{law_errors_are_shown_with_their_cause, SexpError};
use crate::http::{accepts_event_stream, allowed_methods, is_localhost_origin, law_health_endpoint};
use crate::http::{law_listed_event_stream_is_found, law_local_pages_can_post, law_message_endpoint};
use crate::http::{law_other_paths_are_not_found, law_pages_of_other_hosts_are_foreign};
use crate::http::{law_stream_endpoint, lists_event_stream, localhost_origin, origin_allowed};
use crate::http::{post_reply, route, PostReply, RequestHead, Route};
use crate::json::{json_quoted, json_text, parsed_json};
use crate::paths::{can_be_file_name, can_be_parent, is_behind_last_slash, is_file_alone};
use crate::paths::{is_file_behind_backslash, is_file_in, optional_text};
use crate::protocol::{JsonRpcError, JsonRpcResponse};
use crate::server::{McpServerState, ServerState};
use crate::stdio::{after_dispatch, after_parse, after_read, frame, law_line_is_handled_by_its_text};
use crate::stdio::{law_outcome_of_parsing_decides, law_skipped_means_blank, StdioAction};
use crate::text::{decimal, decimal_text, decimal_value, file_stem, is_whitespace};
use crate::text::{law_decimal_stands_for_the_number, law_inside_is_what_trimming_leaves};
use crate::text::{law_name_without_extension_is_its_stem, law_stem_stands_before_the_extension};
use crate::text::{same_text, stem_of, trim, utf8_lossy};
use crate::viewer::{check_launch, detect_kicad, detect_kicad_cli, law_names_of_file_and_window};
use crate::viewer::{law_svg_file_replaces_the_extension, law_tool_gets_directory_and_schematic};
use crate::viewer::{load_script, svg_file_name, window_title, CliRun, Launch, OpenedSchematic};
use crate::viewer::{name_or_empty, RenderJob, RenderStep, ViewerState};
use crate::watcher::{are_file_names, law_saved_schematic_is_rendered_again};
use crate::watcher::{law_when_a_change_renders, parent_or_here, watch_dir, watch_report};
use crate::watcher::{ChangeFilter, ChangeKind, WatchReport};
use std::sync::Arc;
use vstd::prelude::*;
use vstd::utf8::{decode_utf8, valid_utf8};

verus! {

/// Reading a line that holds a message between whitespace hands that very message over; reading
/// one that holds something else answers it with a JSON-RPC parse error.
pub proof fn law_reading_a_line(
    n: usize,
    before: Seq<char>,
    text: Seq<char>,
    after: Seq<char>,
    line: &str,
    action: StdioAction,
)
    requires
        n > 0,
        forall|i: int| 0 <= i < before.len() ==> is_whitespace(#[trigger] before[i]),
        forall|i: int| 0 <= i < after.len() ==> is_whitespace(#[trigger] after[i]),
        text.len() > 0,
        !is_whitespace(text[0]),
        !is_whitespace(text[text.len() - 1]),
        line@ == before + text + after,
        call_ensures(after_read, (n, line), action),
    ensures
        match parsed_json(text) {
            Ok(message) => action == StdioAction::Dispatch(message),
            Err(reason) => {
                &&& action is Send
                &&& action->Send_0.id is None
                &&& action->Send_0.result is None
                &&& action->Send_0.error is Some
                &&& action->Send_0.error->Some_0.code == -32700
                &&& action->Send_0.error->Some_0.message@ == "Parse error: "@ + reason
                &&& action->Send_0.error->Some_0.data is None
            },
        },
{
    law_line_is_handled_by_its_text(n as nat, before, text, after, action);
}

/// Reading nothing stops the transport, and reading a blank line, and no other, goes on to the
/// next.
pub proof fn law_reading_nothing(n: usize, line: &str, action: StdioAction)
    requires
        call_ensures(after_read, (n, line), action),
    ensures
        action is Stop <==> n == 0,
        n > 0 ==> (action is Read <==> forall|i: int|
            0 <= i < line@.len() ==> is_whitespace(#[trigger] line@[i])),
{
    if n > 0 {
        law_skipped_means_blank(n as nat, line@, action);
    }
}

/// Two lines that hold the same text between whitespace are handled alike.
pub proof fn law_reading_two_lines(
    n: usize,
    m: usize,
    before: Seq<char>,
    text: Seq<char>,
    after: Seq<char>,
    line: &str,
    bare: &str,
    action: StdioAction,
    message: serde_json::Value,
)
    requires
        n > 0,
        m > 0,
        forall|i: int| 0 <= i < before.len() ==> is_whitespace(#[trigger] before[i]),
        forall|i: int| 0 <= i < after.len() ==> is_whitespace(#[trigger] after[i]),
        text.len() > 0,
        !is_whitespace(text[0]),
        !is_whitespace(text[text.len() - 1]),
        line@ == before + text + after,
        bare@ == text,
        call_ensures(after_read, (n, line), action),
        call_ensures(after_read, (m, bare), StdioAction::Dispatch(message)),
    ensures
        action == StdioAction::Dispatch(message),
{
    let none = Seq::<char>::empty();
    assert(bare@ =~= none + text + none);
    law_reading_a_line(n, before, text, after, line, action);
    law_reading_a_line(m, none, text, none, bare, StdioAction::Dispatch(message));
}

/// Deciding by the outcome of parsing, by an answer of the handler, and framing a response.
pub proof fn law_transport_steps(
    parsed: Result<serde_json::Value, String>,
    action: StdioAction,
    response: Option<JsonRpcResponse>,
    next: StdioAction,
    value: &serde_json::Value,
    line: Result<String, serde_json::Error>,
)
    requires
        call_ensures(after_parse, (parsed,), action),
        call_ensures(after_dispatch, (response,), next),
        call_ensures(frame, (value,), line),
    ensures
        match parsed {
            Ok(message) => action == StdioAction::Dispatch(message),
            Err(reason) => {
                &&& action is Send
                &&& action->Send_0.id is None
                &&& action->Send_0.result is None
                &&& action->Send_0.error is Some
                &&& action->Send_0.error->Some_0.code == -32700
                &&& action->Send_0.error->Some_0.message@ == "Parse error: "@ + reason@
                &&& action->Send_0.error->Some_0.data is None
            },
        },
        match response {
            Some(resp) => next == StdioAction::Send(resp),
            None => next is Read,
        },
        line is Ok,
        line->Ok_0@ == json_text(*value) + seq!['\n'],
        forall|i: int|
            0 <= i < line->Ok_0@.len() - 1 ==> #[trigger] line->Ok_0@[i] as int >= 32,
{
    law_outcome_of_parsing_decides(parsed, action);
    let text = json_text(*value);
    assert(line->Ok_0@ =~= text + seq!['\n']);
    assert forall|i: int| 0 <= i < line->Ok_0@.len() - 1 implies #[trigger] line->Ok_0@[i] as int
        >= 32 by {
        assert(line->Ok_0@[i] == text[i]);
    }
}

/// Routing a request to the message endpoint: it takes messages, and streams for those who accept
/// them, from local clients.
pub proof fn law_routing_to_messages(head: &RequestHead, r: Route)
    requires
        call_ensures(route, (head,), r),
        head.path@ == "/mcp"@,
    ensures
        ({
            let local = head.origin is None || is_localhost_origin(head.origin->Some_0@);
            let stream = head.accept is Some && lists_event_stream(head.accept->Some_0@);
            &&& head.method is Post && local ==> r == Route::Message
            &&& head.method is Post && !local ==> r == Route::Refused(403)
            &&& head.method is Get && stream && local ==> r == Route::EventStream
            &&& head.method is Get && stream && !local ==> r == Route::Refused(403)
            &&& head.method is Get && !stream ==> r == Route::Refused(405)
            &&& head.method is Head || head.method is Delete || head.method is Other ==> r
                == Route::Refused(405)
        }),
{
    law_message_endpoint(*head);
}

/// Routing a request to any other path: neither its origin nor what it accepts makes a difference.
pub proof fn law_routing_elsewhere(head: &RequestHead, r: Route)
    requires
        call_ensures(route, (head,), r),
        head.path@ != "/mcp"@,
    ensures
        ({
            let reads = head.method is Get || head.method is Head;
            &&& head.path@ == "/mcp/sse"@ && reads ==> r == Route::EventStream
            &&& head.path@ == "/health"@ && reads ==> r == Route::Health
            &&& (head.path@ == "/mcp/sse"@ || head.path@ == "/health"@) && !reads ==> r
                == Route::Refused(405)
            &&& head.path@ != "/mcp/sse"@ && head.path@ != "/health"@ ==> r == Route::Refused(404)
        }),
{
    reveal_strlit("/mcp/sse");
    reveal_strlit("/health");
    assert("/mcp/sse"@.len() != "/health"@.len());
    if head.path@ == "/mcp/sse"@ {
        law_stream_endpoint(*head);
    } else if head.path@ == "/health"@ {
        law_health_endpoint(*head);
    } else {
        law_other_paths_are_not_found(*head);
    }
}

/// A message that a page of this machine posts is handled, at every port.
pub proof fn law_routing_a_local_page(
    head: &RequestHead,
    r: Route,
    scheme: Seq<char>,
    host: Seq<char>,
    port: nat,
)
    requires
        call_ensures(route, (head,), r),
        scheme.len() > 0,
        forall|i: int| 0 <= i < scheme.len() ==> #[trigger] scheme[i] != ':' && scheme[i] != '/',
        host == "localhost"@ || host == "127.0.0.1"@ || host == "[::1]"@,
        head.origin is Some,
        head.origin->Some_0@ == scheme + "://"@ + host || head.origin->Some_0@ == scheme + "://"@
            + host + (":"@ + decimal(port)),
        head.path@ == "/mcp"@,
        head.method is Post,
    ensures
        r == Route::Message,
{
    law_local_pages_can_post(*head, scheme, host, port);
}

/// A message that a page of another host posts is forbidden.
pub proof fn law_routing_a_foreign_page(
    head: &RequestHead,
    r: Route,
    scheme: Seq<char>,
    host: Seq<char>,
)
    requires
        call_ensures(route, (head,), r),
        scheme.len() > 0,
        forall|i: int| 0 <= i < scheme.len() ==> #[trigger] scheme[i] != ':' && scheme[i] != '/',
        forall|i: int| 0 <= i < host.len() ==> #[trigger] host[i] != ':',
        host.len() != 9 || exists|i: int|
            0 <= i < 9 && #[trigger] host[i] != "localhost"@[i] && host[i] as int + 32
                != "localhost"@[i] as int,
        host != "127.0.0.1"@,
        head.origin is Some,
        head.origin->Some_0@ == scheme + "://"@ + host,
        head.path@ == "/mcp"@,
        head.method is Post,
    ensures
        r == Route::Refused(403),
{
    law_pages_of_other_hosts_are_foreign(scheme, host);
    law_message_endpoint(*head);
}

/// A client that lists event streams among what it accepts, anywhere in the list, gets one from the
/// message endpoint.
pub proof fn law_routing_a_listener(
    head: &RequestHead,
    r: Route,
    front: Seq<char>,
    before: Seq<char>,
    after: Seq<char>,
    back: Seq<char>,
)
    requires
        call_ensures(route, (head,), r),
        front.len() > 0 ==> front[front.len() - 1] == ',',
        back.len() > 0 ==> back[0] == ',' || back[0] == ';',
        forall|i: int| 0 <= i < before.len() ==> is_whitespace(#[trigger] before[i]),
        forall|i: int| 0 <= i < after.len() ==> is_whitespace(#[trigger] after[i]),
        head.accept is Some,
        head.accept->Some_0@ == front + before + "text/event-stream"@ + after + back,
        head.origin is None,
        head.path@ == "/mcp"@,
        head.method is Get,
    ensures
        r == Route::EventStream,
{
    law_listed_event_stream_is_found(front, before, after, back);
    law_message_endpoint(*head);
}

/// Telling origins apart, and what a client accepts.
pub proof fn law_headers_are_told_apart(
    origin: &str,
    local: bool,
    sent: &Option<String>,
    allowed: bool,
    accept: &str,
    stream: bool,
)
    requires
        call_ensures(localhost_origin, (origin,), local),
        call_ensures(origin_allowed, (sent,), allowed),
        call_ensures(accepts_event_stream, (accept,), stream),
    ensures
        local == is_localhost_origin(origin@),
        sent is None ==> allowed,
        sent is Some ==> allowed == is_localhost_origin(sent->Some_0@),
        stream == lists_event_stream(accept@),
{
}

/// A response is sent as it is with status 200; without one the status is 202.
pub proof fn law_posting_a_message(
    response: Option<JsonRpcResponse>,
    reply: PostReply,
    sent: &PostReply,
    status: u16,
)
    requires
        call_ensures(post_reply, (response,), reply),
        call_ensures(PostReply::status, (sent,), status),
        *sent == reply,
    ensures
        match response {
            Some(resp) => reply == PostReply::Json(resp) && status == 200,
            None => reply is Accepted && status == 202,
        },
{
}

/// The methods that are listed for each of the three paths; nothing is listed for any other.
pub proof fn law_listed_methods(path: &str, listed: Option<&str>)
    requires
        call_ensures(allowed_methods, (path,), listed),
    ensures
        path@ == "/mcp"@ ==> listed is Some && listed->Some_0@ == "GET,POST"@,
        path@ == "/mcp/sse"@ || path@ == "/health"@ ==> listed is Some && listed->Some_0@
            == "GET,HEAD"@,
        listed is Some ==> path@ == "/mcp"@ || path@ == "/mcp/sse"@ || path@ == "/health"@,
{
    reveal_strlit("/mcp");
    reveal_strlit("/mcp/sse");
    reveal_strlit("/health");
    assert("/mcp"@.len() != "/mcp/sse"@.len());
    assert("/mcp"@.len() != "/health"@.len());
}

/// A change is accepted if and only if a file of the watched name was created or modified half a
/// second or more after the last accepted change; an accepted change becomes the last one, and
/// nothing else changes.
pub proof fn law_accepting_a_change(
    filter: &mut ChangeFilter,
    kind: ChangeKind,
    names: &Vec<Option<String>>,
    now: u64,
    r: bool,
)
    requires
        call_ensures(ChangeFilter::accept, (filter, kind, names, now), r),
    ensures
        r <==> {
            &&& kind is Created || kind is Modified
            &&& exists|i: int|
                0 <= i < names@.len() && (#[trigger] names@[i]) is Some && names@[i]->Some_0@
                    == old(filter).target_name@
            &&& now >= old(filter).last_event + 500_000_000
        },
        final(filter).target_name@ == old(filter).target_name@,
        r ==> final(filter).last_event == now,
        !r ==> final(filter).last_event == old(filter).last_event,
{
    law_when_a_change_renders(
        old(filter).target_name@,
        old(filter).last_event,
        kind,
        names@,
        now,
    );
}

/// A schematic that is saved half a second or more after watching it began is rendered again: the
/// filter that was made for its path accepts a change to that path.
pub proof fn law_accepting_a_save(
    path: &str,
    start: u64,
    made: ChangeFilter,
    filter: &mut ChangeFilter,
    dir: Seq<char>,
    name: Seq<char>,
    kind: ChangeKind,
    paths: &Vec<String>,
    i: int,
    now: u64,
    r: bool,
)
    requires
        name.len() > 0,
        name != seq!['.'],
        name != seq!['.', '.'],
        forall|j: int| 0 <= j < name.len() ==> #[trigger] name[j] != '/' && name[j] != '\\',
        path@ == dir + seq!['/'] + name,
        path@[0] == '/' || path@[0] == '\\' ==> path@[1] != '/' && path@[1] != '\\' && path@[1]
            != '?',
        call_ensures(ChangeFilter::new, (path, start), made),
        *old(filter) == made,
        call_ensures(ChangeFilter::accept_paths, (filter, kind, paths, now), r),
        0 <= i < paths@.len(),
        paths@[i]@ == path@,
        kind is Created || kind is Modified,
        now >= start + 500_000_000,
    ensures
        made.target_name@ == name,
        made.last_event == start,
        r,
        final(filter).last_event == now,
{
    let none = Seq::<char>::empty();
    assert(path@ =~= dir + seq!['/'] + name + none);
    assert(is_file_in(path@, dir, name, none));
    let names = choose|names: Seq<Option<String>>|
        {
            &&& #[trigger] are_file_names(paths@, names)
            &&& r == crate::watcher::matters(
                old(filter).target_name@,
                old(filter).last_event,
                kind,
                names,
                now,
            )
        };
    law_saved_schematic_is_rendered_again(
        dir,
        name,
        Some(name),
        dir,
        paths@,
        names,
        i,
        start,
        kind,
        now,
    );
}

/// A change of another kind is never accepted by its paths, and one that comes too soon is not
/// either; both leave the filter as it was.
pub proof fn law_rejecting_a_change(
    filter: &mut ChangeFilter,
    kind: ChangeKind,
    paths: &Vec<String>,
    now: u64,
    r: bool,
)
    requires
        call_ensures(ChangeFilter::accept_paths, (filter, kind, paths, now), r),
        kind is Other || paths@.len() == 0 || now < old(filter).last_event + 500_000_000,
    ensures
        !r,
        final(filter).last_event == old(filter).last_event,
        final(filter).target_name@ == old(filter).target_name@,
{
    let names = choose|names: Seq<Option<String>>|
        {
            &&& #[trigger] are_file_names(paths@, names)
            &&& r == crate::watcher::matters(
                old(filter).target_name@,
                old(filter).last_event,
                kind,
                names,
                now,
            )
        };
    law_when_a_change_renders(old(filter).target_name@, old(filter).last_event, kind, names, now);
}

/// The file to watch is the schematic, in the directory it is in.
pub proof fn law_watching_a_schematic(
    path: &str,
    now: u64,
    filter: ChangeFilter,
    watched: String,
    dir: Seq<char>,
    name: Seq<char>,
)
    requires
        name.len() > 0,
        name != seq!['.'],
        name != seq!['.', '.'],
        forall|j: int| 0 <= j < name.len() ==> #[trigger] name[j] != '/' && name[j] != '\\',
        dir.len() > 2,
        dir[0] == '/' ==> dir[1] != '/' && dir[1] != '\\' && dir[1] != '?',
        dir[0] != '\\',
        dir[dir.len() - 1] != '/',
        dir[dir.len() - 1] != '\\',
        dir[dir.len() - 1] != '.',
        path@ == dir + seq!['/'] + name,
        call_ensures(ChangeFilter::new, (path, now), filter),
        call_ensures(watch_dir, (path,), watched),
    ensures
        filter.target_name@ == name,
        filter.last_event == now,
        watched@ == dir,
{
    let none = Seq::<char>::empty();
    assert(path@ =~= dir + seq!['/'] + name + none);
    assert(is_file_in(path@, dir, name, none));
}

/// A file that is watched by its name alone, a directory that is missing, and what is done with a
/// schematic that was rendered again.
pub proof fn law_watching_steps(
    name: Option<String>,
    now: u64,
    filter: ChangeFilter,
    parent: Option<String>,
    dir: String,
    rendered: Result<String, String>,
    report: WatchReport,
)
    requires
        call_ensures(ChangeFilter::for_name, (name, now), filter),
        call_ensures(parent_or_here, (parent,), dir),
        call_ensures(watch_report, (rendered,), report),
    ensures
        name is Some ==> filter.target_name@ == name->Some_0@,
        name is None ==> filter.target_name@.len() == 0,
        filter.last_event == now,
        parent is Some ==> dir@ == parent->Some_0@,
        parent is None ==> dir@ == "."@,
        match rendered {
            Ok(svg) => report == WatchReport::Emit(svg),
            Err(e) => report is Log && report->Log_0@ == "[Viewer] Render error: "@ + e@,
        },
{
}

/// The first place where a tool is found is the one that is used.
pub proof fn law_choosing_tools(present: [bool; 2], cli: String, kicad: String)
    requires
        call_ensures(detect_kicad_cli, (present,), cli),
        call_ensures(detect_kicad, (present,), kicad),
    ensures
        present@[0] ==> cli@ == r"C:\KiCad\10.0\bin\kicad-cli.exe"@ && kicad@
            == r"C:\KiCad\10.0\bin\kicad.exe"@,
        !present@[0] && present@[1] ==> cli@
            == r"C:\Program Files\KiCad\10.0\bin\kicad-cli.exe"@ && kicad@
            == r"C:\Program Files\KiCad\10.0\bin\kicad.exe"@,
        !present@[0] && !present@[1] ==> cli@ == "kicad-cli"@ && kicad@ == "kicad"@,
{
}

/// A viewer shows nothing until a file that is there is opened; from then on that file is rendered
/// and opened in KiCAD, and a file that is not there changes nothing.
pub proof fn law_opening_then_refreshing(
    viewer: &mut ViewerState,
    path: String,
    found: bool,
    opened: Result<RenderJob, String>,
    after: &ViewerState,
    again: Result<RenderJob, String>,
    present: [bool; 2],
    launch: Result<Launch, String>,
)
    requires
        call_ensures(ViewerState::open_schematic, (viewer, path, found), opened),
        *after == *final(viewer),
        call_ensures(ViewerState::refresh, (after,), again),
        call_ensures(ViewerState::open_in_kicad, (after, present), launch),
    ensures
        final(viewer).kicad_cli == old(viewer).kicad_cli,
        found ==> {
            &&& opened is Ok
            &&& opened->Ok_0.cli == old(viewer).kicad_cli
            &&& opened->Ok_0.schematic == path
            &&& again == opened
            &&& launch is Ok
            &&& launch->Ok_0.argument == path
        },
        !found ==> {
            &&& opened is Err
            &&& opened->Err_0@ == "File not found: "@ + path@
            &&& final(viewer).schematic_path == old(viewer).schematic_path
        },
        !found && old(viewer).schematic_path is None ==> {
            &&& again is Err
            &&& again->Err_0@ == "No schematic loaded"@
            &&& launch is Err
            &&& launch->Err_0@ == "No schematic loaded"@
        },
        !found && old(viewer).schematic_path is Some ==> {
            &&& again is Ok
            &&& again->Ok_0.schematic == old(viewer).schematic_path->Some_0
            &&& again->Ok_0.cli == old(viewer).kicad_cli
            &&& launch is Ok
            &&& launch->Ok_0.argument == old(viewer).schematic_path->Some_0
        },
        launch is Ok && present@[0] ==> launch->Ok_0.program@
            == r"C:\KiCad\10.0\bin\kicad.exe"@,
        launch is Ok && !present@[0] && present@[1] ==> launch->Ok_0.program@
            == r"C:\Program Files\KiCad\10.0\bin\kicad.exe"@,
        launch is Ok && !present@[0] && !present@[1] ==> launch->Ok_0.program@ == "kicad"@,
{
}

/// A new viewer shows nothing and uses the tool it was given.
pub proof fn law_new_viewer(cli: String, viewer: ViewerState)
    requires
        call_ensures(ViewerState::new, (cli,), viewer),
    ensures
        viewer.schematic_path is None,
        viewer.kicad_cli == cli,
{
}

/// The tool is run on the schematic of the job, with the output directory behind the option for it,
/// if that directory was created.
pub proof fn law_preparing_to_render(
    job: &RenderJob,
    output_dir: &str,
    prepared: Result<(), String>,
    step: RenderStep,
)
    requires
        call_ensures(RenderJob::after_prepare, (job, output_dir, prepared), step),
    ensures
        prepared is Ok ==> {
            &&& step is Run
            &&& step->Run_0@.len() == 6
            &&& step->Run_0@[0]@ == "sch"@
            &&& step->Run_0@[1]@ == "export"@
            &&& step->Run_0@[2]@ == "svg"@
            &&& step->Run_0@[3]@ == "--output"@
            &&& step->Run_0@[4]@ == output_dir@
            &&& step->Run_0@[5]@ == job.schematic@
        },
        prepared is Err ==> step == RenderStep::Done(Err(prepared->Err_0)),
{
    if prepared is Ok {
        assert(prepared->Ok_0 == ());
        law_tool_gets_directory_and_schematic(*job, output_dir, step);
    }
}

/// After the tool ran with success on a schematic in a directory, the SVG file of its name is read,
/// and the title of its window is its name; a run that failed is reported.
pub proof fn law_running_the_tool(
    job: &RenderJob,
    ran: Result<CliRun, String>,
    step: RenderStep,
    dir: Seq<char>,
    stem: Seq<char>,
    extension: Seq<char>,
    svg: String,
    shown: Result<OpenedSchematic, String>,
)
    requires
        call_ensures(RenderJob::after_run, (job, ran), step),
        call_ensures(RenderJob::finish_open, (job, Ok(svg)), shown),
        stem.len() > 0,
        stem != seq!['.'],
        forall|i: int| 0 <= i < stem.len() ==> #[trigger] stem[i] != '/' && stem[i] != '\\',
        forall|i: int|
            0 <= i < extension.len() ==> #[trigger] extension[i] != '/' && extension[i] != '\\'
                && extension[i] != '.',
        job.schematic@ == dir + seq!['/'] + (stem + seq!['.'] + extension),
        job.schematic@[0] == '/' || job.schematic@[0] == '\\' ==> job.schematic@[1] != '/'
            && job.schematic@[1] != '\\' && job.schematic@[1] != '?',
    ensures
        ran is Ok && ran->Ok_0.success ==> step is Read && step->Read_0@ == stem + ".svg"@,
        ran is Ok && !ran->Ok_0.success ==> {
            &&& step is Done
            &&& step->Done_0 is Err
            &&& step->Done_0->Err_0@ == "kicad-cli failed: "@ + utf8_lossy(ran->Ok_0.stderr@)
            &&& valid_utf8(ran->Ok_0.stderr@) ==> step->Done_0->Err_0@ == "kicad-cli failed: "@
                + decode_utf8(ran->Ok_0.stderr@)
        },
        ran is Err ==> {
            &&& step is Done
            &&& step->Done_0 is Err
            &&& step->Done_0->Err_0@ == "Failed to run kicad-cli: "@ + ran->Err_0@
        },
        shown is Ok,
        shown->Ok_0.svg == svg,
        shown->Ok_0.title@ == stem + seq!['.'] + extension + " — Schematic Viewer"@,
{
    if ran is Ok && ran->Ok_0.success {
        law_svg_file_replaces_the_extension(
            *job,
            dir,
            stem,
            extension,
            ran->Ok_0,
            step,
            shown->Ok_0.title@,
        );
    } else {
        let name = stem + seq!['.'] + extension;
        crate::viewer::lemma_name_with_extension(stem, extension);
        let none = Seq::<char>::empty();
        assert(job.schematic@ =~= dir + seq!['/'] + name + none);
        assert(is_file_in(job.schematic@, dir, name, none));
    }
}

/// After the SVG file was read it is what rendering gives; a failure to read it, to render, or to
/// launch KiCAD is reported.
pub proof fn law_rendering_steps(
    read: Result<String, String>,
    step: RenderStep,
    job: &RenderJob,
    e: String,
    shown: Result<OpenedSchematic, String>,
    launched: Result<(), String>,
    checked: Result<(), String>,
)
    requires
        call_ensures(crate::viewer::after_read, (read,), step),
        call_ensures(RenderJob::finish_open, (job, Err(e)), shown),
        call_ensures(check_launch, (launched,), checked),
    ensures
        match read {
            Ok(svg) => step == RenderStep::Done(Ok(svg)),
            Err(m) => {
                &&& step is Done
                &&& step->Done_0 is Err
                &&& step->Done_0->Err_0@ == "Failed to read SVG: "@ + m@
            },
        },
        shown == Err::<OpenedSchematic, String>(e),
        launched is Ok ==> checked is Ok,
        launched is Err ==> checked is Err && checked->Err_0@ == "Failed to launch KiCAD: "@
            + launched->Err_0@,
{
}

/// The names of SVG files and windows, for every file name.
pub proof fn law_naming_files_and_windows(
    name: Option<String>,
    file: String,
    title: String,
    stem: Seq<char>,
    extension: Seq<char>,
)
    requires
        call_ensures(svg_file_name, (name,), file),
        call_ensures(window_title, (name,), title),
        stem.len() > 0,
        forall|i: int| 0 <= i < extension.len() ==> #[trigger] extension[i] != '.',
    ensures
        name is Some && name->Some_0@ == stem + seq!['.'] + extension ==> file@ == stem + ".svg"@,
        name is Some && (forall|i: int|
            1 <= i < name->Some_0@.len() ==> #[trigger] name->Some_0@[i] != '.') ==> file@
            == name->Some_0@ + ".svg"@,
        name is None ==> file@ == ".svg"@,
        name is Some ==> title@ == name->Some_0@ + " — Schematic Viewer"@,
        name is None ==> title@ == " — Schematic Viewer"@,
{
    let text = match name {
        Some(n) => n@,
        None => Seq::empty(),
    };
    law_names_of_file_and_window(text, stem, extension);
}

/// The script hands the quoted path to the page, and two paths give the same script only if they
/// are the same.
pub proof fn law_loading_a_schematic(
    path: &str,
    script: String,
    other: &str,
    other_script: String,
)
    requires
        call_ensures(load_script, (path,), script),
        call_ensures(load_script, (other,), other_script),
    ensures
        script@ == "if(window.loadSchematic) window.loadSchematic("@ + json_quoted(path@) + ");"@,
        script@ == other_script@ ==> path@ == other@,
        (forall|i: int|
            0 <= i < path@.len() ==> #[trigger] path@[i] as int >= 32 && path@[i] != '"' && path@[i]
                != '\\') ==> script@ == "if(window.loadSchematic) window.loadSchematic(\""@ + path@
            + "\");"@,
{
    let head = "if(window.loadSchematic) window.loadSchematic("@;
    let tail = ");"@;
    reveal_strlit("if(window.loadSchematic) window.loadSchematic(");
    reveal_strlit("if(window.loadSchematic) window.loadSchematic(\"");
    reveal_strlit(");");
    reveal_strlit("\");");
    if script@ == other_script@ {
        let a = json_quoted(path@);
        let b = json_quoted(other@);
        assert(script@ == head + a + tail);
        assert(other_script@ == head + b + tail);
        assert(script@.len() == head.len() + a.len() + tail.len());
        assert(other_script@.len() == head.len() + b.len() + tail.len());
        assert(a =~= script@.subrange(head.len() as int, (head.len() + a.len()) as int));
        assert(b =~= other_script@.subrange(head.len() as int, (head.len() + b.len()) as int));
        crate::json::law_quoting_loses_nothing(path@, other@);
    }
    if forall|i: int|
        0 <= i < path@.len() ==> #[trigger] path@[i] as int >= 32 && path@[i] != '"' && path@[i]
            != '\\' {
        crate::json::law_plain_text_is_quoted_as_it_is(path@);
        assert("if(window.loadSchematic) window.loadSchematic(\""@ =~= head + seq!['"']);
        assert("\");"@ =~= seq!['"'] + tail);
        assert(script@ =~= head + seq!['"'] + path@ + (seq!['"'] + tail));
    }
}

/// A new server is not ready; one is ready if and only if its state says so; and every server
/// introduces itself in the same way.
pub proof fn law_serving<R>(
    router: Arc<R>,
    fresh: McpServerState<R>,
    server: &McpServerState<R>,
    ready: bool,
    introduction: crate::protocol::InitializeResult,
)
    requires
        call_ensures(McpServerState::<R>::new, (router,), fresh),
        call_ensures(McpServerState::<R>::is_ready, (server,), ready),
        call_ensures(McpServerState::<R>::build_initialize_result, (), introduction),
    ensures
        fresh.state == ServerState::Uninitialized,
        fresh.router == router,
        ready <==> server.state == ServerState::Ready,
        introduction.protocol_version@ == "2024-11-05"@,
        introduction.capabilities.tools is Some,
        introduction.capabilities.tools->Some_0.list_changed == Some(true),
        introduction.server_info.name@ == "konnect"@,
        introduction.server_info.version@ == "0.1.0"@,
{
}

/// Errors are shown with their cause.
pub proof fn law_showing_an_error(error: &SexpError, text: String)
    requires
        call_ensures(SexpError::to_string, (error,), text),
    ensures
        *error matches SexpError::Parse { offset, message } ==> exists|digits: Seq<char>|
            {
                &&& text@ == #[trigger] ("Parse error at offset "@ + digits + ": "@ + message@)
                &&& decimal_value(digits) == offset
                &&& digits.len() > 0
                &&& forall|i: int| 0 <= i < digits.len() ==> '0' <= #[trigger] digits[i] <= '9'
            },
        *error matches SexpError::Io(e) ==> exists|cause: String|
            {
                &&& #[trigger] vstd::string::to_string_from_display_ensures::<std::io::Error>(
                    &e,
                    cause,
                )
                &&& text@ == "IO error: "@ + cause@
            },
        *error matches SexpError::MissingNode(name) ==> text@ == "Missing node: "@ + name@,
        *error matches SexpError::InvalidValue(value) ==> text@ == "Invalid value: "@ + value@,
{
    law_errors_are_shown_with_their_cause(*error, text@);
}

/// Trimming, comparing, counting and taking the extension off.
pub proof fn law_handling_text(
    s: &str,
    left: &str,
    before: Seq<char>,
    text: Seq<char>,
    after: Seq<char>,
    a: &str,
    b: &str,
    same: bool,
    n: usize,
    digits: String,
    name: &str,
    stem: &str,
    extension: Seq<char>,
    head: Seq<char>,
)
    requires
        call_ensures(trim, (s,), left),
        s@ == before + text + after,
        forall|i: int| 0 <= i < before.len() ==> is_whitespace(#[trigger] before[i]),
        forall|i: int| 0 <= i < after.len() ==> is_whitespace(#[trigger] after[i]),
        text.len() > 0,
        !is_whitespace(text[0]),
        !is_whitespace(text[text.len() - 1]),
        call_ensures(same_text, (a, b), same),
        call_ensures(decimal_text, (n,), digits),
        call_ensures(stem_of, (name,), stem),
        head.len() > 0,
        forall|i: int| 0 <= i < extension.len() ==> #[trigger] extension[i] != '.',
    ensures
        left@ == text,
        same <==> a@ == b@,
        decimal_value(digits@) == n,
        name@ == head + seq!['.'] + extension ==> stem@ == head,
        (forall|i: int| 1 <= i < name@.len() ==> #[trigger] name@[i] != '.') ==> stem@ == name@,
{
    law_inside_is_what_trimming_leaves(before, text, after);
    law_decimal_stands_for_the_number(n as nat);
    law_stem_stands_before_the_extension(head, extension);
    if forall|i: int| 1 <= i < name@.len() ==> #[trigger] name@[i] != '.' {
        law_name_without_extension_is_its_stem(name@);
    }
}

/// A commit whose closure fails is rolled back and fails with the closure's error, whatever rolling
/// it back replies.
pub proof fn law_committing_a_failure<B, P, D, F, I, R, E>(
    client: CommitCalls<B, P, D>,
    description: &str,
    f: F,
    out: Result<R, E>,
) where
    B: FnOnce() -> Result<I, E>,
    P: FnOnce(&I, &str) -> Result<(), E>,
    D: FnOnce(&I) -> Result<(), E>,
    F: FnOnce() -> Result<R, E>,

    requires
        call_ensures(with_commit::<B, P, D, F, I, R, E>, (client, description, f), out),
        forall|e: E| !#[trigger] call_ensures(client.begin_commit, (), Err::<I, E>(e)),
        forall|result: R| !#[trigger] call_ensures(f, (), Ok::<R, E>(result)),
    ensures
        out matches Err(e) && call_ensures(f, (), Err::<R, E>(e)),
        exists|commit_id: I, dropped: Result<(), E>|
            {
                &&& #[trigger] call_ensures(client.begin_commit, (), Ok::<I, E>(commit_id))
                &&& #[trigger] call_ensures(client.drop_commit, (&commit_id,), dropped)
            },
{
    law_failed_body_is_rolled_back::<B, P, D, F, I, R, E>(client, description, f, out);
}

/// A commit whose calls all succeed is pushed under its description and returns what the closure
/// returned.
pub proof fn law_committing_a_success<B, P, D, F, I, R, E>(
    client: CommitCalls<B, P, D>,
    description: &str,
    f: F,
    out: Result<R, E>,
) where
    B: FnOnce() -> Result<I, E>,
    P: FnOnce(&I, &str) -> Result<(), E>,
    D: FnOnce(&I) -> Result<(), E>,
    F: FnOnce() -> Result<R, E>,

    requires
        call_ensures(with_commit::<B, P, D, F, I, R, E>, (client, description, f), out),
        forall|e: E| !#[trigger] call_ensures(client.begin_commit, (), Err::<I, E>(e)),
        forall|e: E| !#[trigger] call_ensures(f, (), Err::<R, E>(e)),
        forall|commit_id: I, e: E|
            !#[trigger] call_ensures(
                client.push_commit,
                (&commit_id, description),
                Err::<(), E>(e),
            ),
    ensures
        out matches Ok(result) && call_ensures(f, (), Ok::<R, E>(result)),
        exists|commit_id: I|
            {
                &&& #[trigger] call_ensures(client.begin_commit, (), Ok::<I, E>(commit_id))
                &&& call_ensures(
                    client.push_commit,
                    (&commit_id, description),
                    Ok::<(), E>(()),
                )
            },
{
    law_successful_commit_returns_the_result::<B, P, D, F, I, R, E>(client, description, f, out);
    law_ok_means_pushed::<B, P, D, F, I, R, E>(client, description, f, out->Ok_0);
}

/// A commit that cannot be pushed fails with the error of pushing it.
pub proof fn law_committing_without_push<B, P, D, F, I, R, E>(
    client: CommitCalls<B, P, D>,
    description: &str,
    f: F,
    out: Result<R, E>,
) where
    B: FnOnce() -> Result<I, E>,
    P: FnOnce(&I, &str) -> Result<(), E>,
    D: FnOnce(&I) -> Result<(), E>,
    F: FnOnce() -> Result<R, E>,

    requires
        call_ensures(with_commit::<B, P, D, F, I, R, E>, (client, description, f), out),
        forall|e: E| !#[trigger] call_ensures(client.begin_commit, (), Err::<I, E>(e)),
        forall|e: E| !#[trigger] call_ensures(f, (), Err::<R, E>(e)),
        forall|commit_id: I, pushed: Result<(), E>| #[trigger]
            call_ensures(client.push_commit, (&commit_id, description), pushed) ==> pushed is Err,
    ensures
        out is Err,
        exists|commit_id: I|
            {
                &&& #[trigger] call_ensures(client.begin_commit, (), Ok::<I, E>(commit_id))
                &&& call_ensures(
                    client.push_commit,
                    (&commit_id, description),
                    Err::<(), E>(out->Err_0),
                )
            },
{
    law_failed_push_is_reported::<B, P, D, F, I, R, E>(client, description, f, out);
}

/// A commit that cannot be opened fails with the error of opening it.
pub proof fn law_committing_without_begin<B, P, D, F, I, R, E>(
    client: CommitCalls<B, P, D>,
    description: &str,
    f: F,
    out: Result<R, E>,
) where
    B: FnOnce() -> Result<I, E>,
    P: FnOnce(&I, &str) -> Result<(), E>,
    D: FnOnce(&I) -> Result<(), E>,
    F: FnOnce() -> Result<R, E>,

    requires
        call_ensures(with_commit::<B, P, D, F, I, R, E>, (client, description, f), out),
        forall|commit_id: I|
            !#[trigger] call_ensures(client.begin_commit, (), Ok::<I, E>(commit_id)),
    ensures
        out matches Err(e) && call_ensures(client.begin_commit, (), Err::<I, E>(e)),
{
    law_unopened_commit_fails::<B, P, D, F, I, R, E>(client, description, f, out);
}

/// `path` is the file `name`, in the directory `dir` or alone, and every system reads it so.
pub open spec fn is_plain_path(path: Seq<char>, dir: Option<Seq<char>>, name: Seq<char>) -> bool {
    &&& name.len() > 0
    &&& name != seq!['.']
    &&& name != seq!['.', '.']
    &&& forall|j: int| 0 <= j < name.len() ==> #[trigger] name[j] != '/' && name[j] != '\\'
    &&& match dir {
        Some(d) => {
            &&& path == d + seq!['/'] + name
            &&& path[0] == '/' || path[0] == '\\' ==> path[1] != '/' && path[1] != '\\' && path[1]
                != '?'
        },
        None => path == name && (path.len() > 1 ==> path[1] != ':'),
    }
}

/// The file name of a plain path is the name it was put together from.
proof fn lemma_name_of_plain_path(
    path: Seq<char>,
    dir: Option<Seq<char>>,
    name: Seq<char>,
    found: Option<Seq<char>>,
)
    requires
        is_plain_path(path, dir, name),
        can_be_file_name(path, found),
    ensures
        found == Some(name),
{
    let none = Seq::<char>::empty();
    match dir {
        Some(d) => {
            assert(path =~= d + seq!['/'] + name + none);
            assert(is_file_in(path, d, name, none));
        },
        None => {
            assert(path =~= name + none);
            assert(is_file_alone(path, name, none));
        },
    }
}

/// A change to the files at some paths is accepted if and only if one of them has the watched name
/// and was created or modified half a second or more after the last accepted change, whatever the
/// directories and however many the paths.
pub proof fn law_accepting_by_paths(
    filter: &mut ChangeFilter,
    kind: ChangeKind,
    paths: &Vec<String>,
    now: u64,
    r: bool,
    dirs: Seq<Option<Seq<char>>>,
    names: Seq<Seq<char>>,
)
    requires
        call_ensures(ChangeFilter::accept_paths, (filter, kind, paths, now), r),
        dirs.len() == paths@.len(),
        names.len() == paths@.len(),
        forall|i: int|
            0 <= i < paths@.len() ==> is_plain_path(
                (#[trigger] paths@[i])@,
                dirs[i],
                names[i],
            ),
    ensures
        r <==> {
            &&& kind is Created || kind is Modified
            &&& exists|i: int| 0 <= i < names.len() && #[trigger] names[i] == old(filter).target_name@
            &&& now >= old(filter).last_event + 500_000_000
        },
        final(filter).target_name@ == old(filter).target_name@,
        r ==> final(filter).last_event == now,
        !r ==> final(filter).last_event == old(filter).last_event,
{
    let target = old(filter).target_name@;
    let last = old(filter).last_event;
    let found = choose|found: Seq<Option<String>>|
        {
            &&& #[trigger] are_file_names(paths@, found)
            &&& r == crate::watcher::matters(target, last, kind, found, now)
        };
    law_when_a_change_renders(target, last, kind, found, now);
    assert forall|i: int| 0 <= i < names.len() implies (#[trigger] found[i]) is Some
        && found[i]->Some_0@ == names[i] by {
        assert(is_plain_path(paths@[i]@, dirs[i], names[i]));
        lemma_name_of_plain_path(paths@[i]@, dirs[i], names[i], optional_text(found[i]));
    }
    if exists|i: int| 0 <= i < names.len() && #[trigger] names[i] == target {
        let i = choose|i: int| 0 <= i < names.len() && #[trigger] names[i] == target;
        assert(found[i] is Some && found[i]->Some_0@ == target);
    }
    if exists|i: int|
        0 <= i < found.len() && (#[trigger] found[i]) is Some && found[i]->Some_0@ == target {
        let i = choose|i: int|
            0 <= i < found.len() && (#[trigger] found[i]) is Some && found[i]->Some_0@ == target;
        assert(names[i] == target);
    }
}

/// A schematic is watched by its name, wherever it is; one that is given by its name alone has the
/// empty directory for its own, and the root has neither a name nor a directory.
pub proof fn law_watching_by_name(
    path: &str,
    now: u64,
    filter: ChangeFilter,
    watched: String,
    dir: Option<Seq<char>>,
    name: Seq<char>,
)
    requires
        call_ensures(ChangeFilter::new, (path, now), filter),
        call_ensures(watch_dir, (path,), watched),
    ensures
        is_plain_path(path@, dir, name) ==> filter.target_name@ == name,
        is_plain_path(path@, None, name) ==> watched@.len() == 0,
        path@ == seq!['/'] ==> filter.target_name@.len() == 0 && watched@ == "."@,
        filter.last_event == now,
{
    let found = choose|found: Option<Seq<char>>|
        {
            &&& #[trigger] can_be_file_name(path@, found)
            &&& filter.target_name@ == name_or_empty(found)
        };
    if is_plain_path(path@, dir, name) {
        lemma_name_of_plain_path(path@, dir, name, found);
    }
    if is_plain_path(path@, None, name) {
        let none = Seq::<char>::empty();
        assert(path@ =~= name + none);
        assert(is_file_alone(path@, name, none));
    }
}

/// The SVG file that is read after the tool ran with success, and the title of the window, are
/// named after the schematic, wherever it is and with or without an extension.
pub proof fn law_rendered_schematic_gives_the_names(
    job: &RenderJob,
    ran: Result<CliRun, String>,
    step: RenderStep,
    svg: String,
    shown: Result<OpenedSchematic, String>,
    dir: Option<Seq<char>>,
    name: Seq<char>,
    stem: Seq<char>,
    extension: Seq<char>,
)
    requires
        call_ensures(RenderJob::after_run, (job, ran), step),
        call_ensures(RenderJob::finish_open, (job, Ok(svg)), shown),
        ran is Ok,
        ran->Ok_0.success,
        is_plain_path(job.schematic@, dir, name),
        stem.len() > 0,
        forall|i: int| 0 <= i < extension.len() ==> #[trigger] extension[i] != '.',
        name == stem + seq!['.'] + extension || name == stem,
        name == stem ==> forall|i: int| 1 <= i < name.len() ==> #[trigger] name[i] != '.',
    ensures
        step is Read,
        step->Read_0@ == stem + ".svg"@,
        shown is Ok,
        shown->Ok_0.svg == svg,
        shown->Ok_0.title@ == name + " — Schematic Viewer"@,
{
    assert forall|found: Option<Seq<char>>| #[trigger]
        can_be_file_name(job.schematic@, found) implies found == Some(name) by {
        lemma_name_of_plain_path(job.schematic@, dir, name, found);
    }
    law_names_of_file_and_window(name, stem, extension);
}

/// A failed request is answered with its id and its error, and nothing else.
pub proof fn law_answering_with_an_error(
    id: Option<serde_json::Value>,
    error: JsonRpcError,
    response: JsonRpcResponse,
)
    requires
        call_ensures(JsonRpcResponse::error, (id, error), response),
    ensures
        response.id == id,
        response.error == Some(error),
        response.result is None,
{
}

/// Whatever a path looks like and whichever system reads it, the file name in it names the file
/// that is watched, the SVG file and the window, and the directory in it is watched.
pub proof fn law_every_path_is_read_by_the_system(
    path: &str,
    now: u64,
    filter: ChangeFilter,
    watched: String,
    job: &RenderJob,
    ran: Result<CliRun, String>,
    step: RenderStep,
    svg: String,
    shown: Result<OpenedSchematic, String>,
)
    requires
        call_ensures(ChangeFilter::new, (path, now), filter),
        call_ensures(watch_dir, (path,), watched),
        call_ensures(RenderJob::after_run, (job, ran), step),
        call_ensures(RenderJob::finish_open, (job, Ok(svg)), shown),
        ran is Ok,
        ran->Ok_0.success,
    ensures
        exists|name: Option<Seq<char>>|
            {
                &&& #[trigger] can_be_file_name(path@, name)
                &&& name is Some ==> filter.target_name@ == name->Some_0
                &&& name is None ==> filter.target_name@.len() == 0
            },
        exists|dir: Option<Seq<char>>|
            {
                &&& #[trigger] can_be_parent(path@, dir)
                &&& dir is Some ==> watched@ == dir->Some_0
                &&& dir is None ==> watched@ == "."@
            },
        step is Read,
        exists|name: Option<Seq<char>>|
            {
                &&& #[trigger] can_be_file_name(job.schematic@, name)
                &&& name is Some ==> step->Read_0@ == file_stem(name->Some_0) + ".svg"@
                &&& name is None ==> step->Read_0@ == ".svg"@
            },
        shown is Ok,
        shown->Ok_0.svg == svg,
        exists|name: Option<Seq<char>>|
            {
                &&& #[trigger] can_be_file_name(job.schematic@, name)
                &&& name is Some ==> shown->Ok_0.title@ == name->Some_0 + " — Schematic Viewer"@
                &&& name is None ==> shown->Ok_0.title@ == " — Schematic Viewer"@
            },
{
    let none = Seq::<char>::empty();
    law_names_of_file_and_window(none, seq!['a'], none);
}

/// A schematic behind a backslash is taken for the file behind it, or, where a backslash is a
/// character like any other, for what stands behind the last slash; the SVG file is named after it.
pub proof fn law_schematic_behind_a_backslash(
    job: &RenderJob,
    ran: Result<CliRun, String>,
    step: RenderStep,
    dir: Seq<char>,
    name: Seq<char>,
)
    requires
        call_ensures(RenderJob::after_run, (job, ran), step),
        ran is Ok,
        ran->Ok_0.success,
        job.schematic@ == dir + seq!['\\'] + name,
        name.len() > 0,
        name != seq!['.'],
        name != seq!['.', '.'],
        forall|j: int| 0 <= j < name.len() ==> #[trigger] name[j] != '/' && name[j] != '\\',
        job.schematic@[0] == '/' || job.schematic@[0] == '\\' ==> job.schematic@[1] != '/'
            && job.schematic@[1] != '\\' && job.schematic@[1] != '?',
    ensures
        step is Read,
        step->Read_0@ == file_stem(name) + ".svg"@ || exists|tail: Seq<char>|
            {
                &&& #[trigger] is_behind_last_slash(job.schematic@, tail)
                &&& step->Read_0@ == file_stem(tail) + ".svg"@
            },
{
    let none = Seq::<char>::empty();
    assert(job.schematic@ =~= dir + seq!['\\'] + name + none);
    assert(is_file_behind_backslash(job.schematic@, dir, name, none));
}

/// A change is accepted by the file names of its paths, as the system reads them: each path counts,
/// and nothing else does.
pub proof fn law_changes_count_by_their_names(
    filter: &mut ChangeFilter,
    kind: ChangeKind,
    paths: &Vec<String>,
    now: u64,
    r: bool,
)
    requires
        call_ensures(ChangeFilter::accept_paths, (filter, kind, paths, now), r),
    ensures
        exists|names: Seq<Option<String>>|
            {
                &&& #[trigger] are_file_names(paths@, names)
                &&& r <==> {
                    &&& kind is Created || kind is Modified
                    &&& exists|i: int|
                        0 <= i < names.len() && (#[trigger] names[i]) is Some && names[i]->Some_0@
                            == old(filter).target_name@
                    &&& now >= old(filter).last_event + 500_000_000
                }
            },
        r ==> final(filter).last_event == now,
        !r ==> final(filter).last_event == old(filter).last_event,
        final(filter).target_name@ == old(filter).target_name@,
{
    let target = old(filter).target_name@;
    let last = old(filter).last_event;
    let names = choose|names: Seq<Option<String>>|
        {
            &&& #[trigger] are_file_names(paths@, names)
            &&& r == crate::watcher::matters(target, last, kind, names, now)
        };
    law_when_a_change_renders(target, last, kind, names, now);
    assert(are_file_names(paths@, names));
}

} // verus!
