//! The STDIO transport: one message per line.
//!
//! The transport reads a line, asks what to do with it, does that, and goes on until it is told to
//! stop. What is written to standard output is a framed response and nothing else.

use crate::json::{is_compact, json_text, parse_json, parsed_json, value_string};
use crate::protocol::{JsonRpcError, JsonRpcResponse, PARSE_ERROR};
use crate::text::{is_blank, is_whitespace, trim, trim_end, trim_start, trimmed};
use crate::text::{law_blank_text_is_trimmed_away, law_inside_is_what_trimming_leaves};
use crate::text::law_padding_is_trimmed;
use vstd::prelude::*;

verus! {

/// What the transport does next.
#[derive(Debug)]
pub enum StdioAction {
    /// Shuts down: the client has gone.
    Stop,
    /// Reads the next line.
    Read,
    /// Hands a message to the handler.
    Dispatch(serde_json::Value),
    /// Writes a response, then reads the next line.
    Send(JsonRpcResponse),
}

/// What a line holds.
pub enum LineContent {
    /// Nothing but whitespace.
    Blank,
    /// A message.
    Message(serde_json::Value),
    /// Something that is not JSON, for this reason.
    Fault(Seq<char>),
}

/// What a line holds, whatever whitespace is around it.
pub open spec fn line_content(line: Seq<char>) -> LineContent {
    if trimmed(line).len() == 0 {
        LineContent::Blank
    } else {
        match parsed_json(trimmed(line)) {
            Ok(message) => LineContent::Message(message),
            Err(reason) => LineContent::Fault(reason),
        }
    }
}

impl StdioAction {
    /// This is what is done with a line that was parsed with this outcome: a message goes to the
    /// handler; what is not JSON is answered with an error.
    pub open spec fn follows_parse(self, parsed: Result<serde_json::Value, Seq<char>>) -> bool {
        match parsed {
            Ok(message) => self == StdioAction::Dispatch(message),
            Err(reason) => self matches StdioAction::Send(response)
                && response.reports_parse_error(reason),
        }
    }

    /// This is what is done after `n` bytes were read as `line`: no bytes at all are the end of
    /// the input, a blank line is skipped, a message goes to the handler, and what is not JSON is
    /// answered with an error.
    pub open spec fn follows_read(self, n: nat, line: Seq<char>) -> bool {
        if n == 0 {
            self == StdioAction::Stop
        } else {
            match line_content(line) {
                LineContent::Blank => self == StdioAction::Read,
                LineContent::Message(message) => self == StdioAction::Dispatch(message),
                LineContent::Fault(reason) => self matches StdioAction::Send(response)
                    && response.reports_parse_error(reason),
            }
        }
    }
}

/// The outcome of parsing, with the error as text.
pub open spec fn parse_outcome(parsed: Result<serde_json::Value, String>) -> Result<
    serde_json::Value,
    Seq<char>,
> {
    match parsed {
        Ok(message) => Ok(message),
        Err(reason) => Err(reason@),
    }
}

/// Decides what to do with a line that was parsed with this outcome.
pub fn after_parse(parsed: Result<serde_json::Value, String>) -> (action: StdioAction)
    ensures
        action.follows_parse(parse_outcome(parsed)),
        match parsed {
            Ok(message) => action == StdioAction::Dispatch(message),
            Err(reason) => action is Send && action->Send_0.reports_parse_error(reason@),
        },
{
    match parsed {
        Ok(message) => StdioAction::Dispatch(message),
        Err(reason) => StdioAction::Send(
            JsonRpcResponse::error(
                None,
                JsonRpcError {
                    code: PARSE_ERROR,
                    message: "Parse error: ".to_string().concat(reason.as_str()),
                    data: None,
                },
            ),
        ),
    }
}

/// Decides what to do after `n` bytes were read as `line`.
pub fn after_read(n: usize, line: &str) -> (action: StdioAction)
    ensures
        action.follows_read(n as nat, line@),
        n == 0 ==> action is Stop,
        n > 0 && trimmed(line@).len() == 0 ==> action is Read,
        n > 0 && trimmed(line@).len() > 0 ==> match parsed_json(trimmed(line@)) {
            Ok(message) => action == StdioAction::Dispatch(message),
            Err(reason) => action is Send && action->Send_0.reports_parse_error(reason),
        },
{
    if n == 0 {
        return StdioAction::Stop;
    }
    let text = trim(line);
    if text.is_empty() {
        return StdioAction::Read;
    }
    after_parse(parse_json(text))
}

/// What is done after the handler returned this for a message.
pub open spec fn dispatched(response: Option<JsonRpcResponse>) -> StdioAction {
    match response {
        Some(resp) => StdioAction::Send(resp),
        None => StdioAction::Read,
    }
}

/// Decides what to do after the handler returned this for a message.
pub fn after_dispatch(response: Option<JsonRpcResponse>) -> (action: StdioAction)
    ensures
        action == dispatched(response),
        match response {
            Some(resp) => action == StdioAction::Send(resp),
            None => action is Read,
        },
{
    match response {
        Some(resp) => StdioAction::Send(resp),
        None => StdioAction::Read,
    }
}

/// The line that carries the JSON text `json`.
pub open spec fn framed(json: Seq<char>) -> Seq<char> {
    json.push('\n')
}

/// Makes the line that carries a response, given as a JSON value.
pub fn frame(response: &serde_json::Value) -> (line: Result<String, serde_json::Error>)
    ensures
        line is Ok,
        line->Ok_0@ == framed(json_text(*response)),
        is_compact(json_text(*response)),
{
    proof {
        reveal_strlit("\n");
    }
    match value_string(response) {
        Ok(json) => Ok(json.concat("\n")),
        Err(e) => Err(e),
    }
}

/// The length of the first line of `input`, with the line break that ends it.
pub open spec fn first_line_len(input: Seq<char>) -> nat
    decreases input.len(),
{
    if input.len() == 0 {
        0
    } else if input.first() == '\n' {
        1
    } else {
        1 + first_line_len(input.drop_first())
    }
}

/// The lines of `input`, each with the line break that ends it. The last one may have none.
pub open spec fn lines(input: Seq<char>) -> Seq<Seq<char>>
    decreases input.len(),
{
    if input.len() == 0 {
        Seq::empty()
    } else {
        proof {
            lemma_first_line_len(input);
        }
        let k = first_line_len(input) as int;
        seq![input.take(k)] + lines(input.skip(k))
    }
}

/// The message that a line hands over, if it holds one.
pub open spec fn line_messages(line: Seq<char>) -> Seq<serde_json::Value> {
    match line_content(line) {
        LineContent::Message(message) => seq![message],
        _ => Seq::empty(),
    }
}

/// The messages that are handed over for these lines, in order.
pub open spec fn messages(ls: Seq<Seq<char>>) -> Seq<serde_json::Value>
    decreases ls.len(),
{
    if ls.len() == 0 {
        Seq::empty()
    } else {
        line_messages(ls.first()) + messages(ls.drop_first())
    }
}

/// The responses that are written for a line, as JSON values, where `reply` says how the handler
/// answers a message and `fault` how a line that is not JSON is answered.
pub open spec fn line_responses(
    line: Seq<char>,
    reply: spec_fn(serde_json::Value) -> Option<serde_json::Value>,
    fault: spec_fn(Seq<char>) -> serde_json::Value,
) -> Seq<serde_json::Value> {
    match line_content(line) {
        LineContent::Blank => Seq::empty(),
        LineContent::Message(message) => match reply(message) {
            Some(response) => seq![response],
            None => Seq::empty(),
        },
        LineContent::Fault(reason) => seq![fault(reason)],
    }
}

/// The responses that are written for these lines, in order.
pub open spec fn responses(
    ls: Seq<Seq<char>>,
    reply: spec_fn(serde_json::Value) -> Option<serde_json::Value>,
    fault: spec_fn(Seq<char>) -> serde_json::Value,
) -> Seq<serde_json::Value>
    decreases ls.len(),
{
    if ls.len() == 0 {
        Seq::empty()
    } else {
        line_responses(ls.first(), reply, fault) + responses(ls.drop_first(), reply, fault)
    }
}

/// What is written to carry these responses.
pub open spec fn written(rs: Seq<serde_json::Value>) -> Seq<char>
    decreases rs.len(),
{
    if rs.len() == 0 {
        Seq::empty()
    } else {
        framed(json_text(rs.first())) + written(rs.drop_first())
    }
}

/// How many of the lines are not blank.
pub open spec fn nonblank(ls: Seq<Seq<char>>) -> nat
    decreases ls.len(),
{
    if ls.len() == 0 {
        0
    } else {
        nonblank(ls.drop_first()) + if is_blank(ls.first()) {
            0nat
        } else {
            1nat
        }
    }
}

/// `input` is made of whole lines: it is empty, or ends with a line break.
pub open spec fn is_whole(input: Seq<char>) -> bool {
    input.len() > 0 ==> input.last() == '\n'
}

/// `b` is the line `a` with other whitespace around it. The line break that ends it counts as
/// such.
pub open spec fn is_respaced_line(a: Seq<char>, b: Seq<char>) -> bool {
    exists|core: Seq<char>, end: Seq<char>, before: Seq<char>, after: Seq<char>|
        {
            &&& a == #[trigger] (core + end)
            &&& b == #[trigger] (before + core + after)
            &&& is_blank(end)
            &&& is_blank(before)
            &&& is_blank(after)
        }
}

/// The lines `b` are the lines `a` with other whitespace around them, and with blank lines added
/// and left out anywhere.
pub open spec fn is_respaced(a: Seq<Seq<char>>, b: Seq<Seq<char>>) -> bool
    decreases a.len() + b.len(),
{
    ||| a.len() == 0 && b.len() == 0
    ||| a.len() > 0 && is_blank(a.first()) && is_respaced(a.drop_first(), b)
    ||| b.len() > 0 && is_blank(b.first()) && is_respaced(a, b.drop_first())
    ||| a.len() > 0 && b.len() > 0 && is_respaced_line(a.first(), b.first()) && is_respaced(
        a.drop_first(),
        b.drop_first(),
    )
}

/// No line's handling depends on an earlier one: what whole lines `a` and then `b` hand over is
/// what `a` hands over and then what `b` hands over, and if the answers of the handler depend on
/// the message alone, the same holds of what is written.
pub proof fn law_lines_are_handled_one_by_one(
    a: Seq<char>,
    b: Seq<char>,
    reply: spec_fn(serde_json::Value) -> Option<serde_json::Value>,
    fault: spec_fn(Seq<char>) -> serde_json::Value,
)
    requires
        is_whole(a),
    ensures
        messages(lines(a + b)) == messages(lines(a)) + messages(lines(b)),
        written(responses(lines(a + b), reply, fault)) == written(
            responses(lines(a), reply, fault),
        ) + written(responses(lines(b), reply, fault)),
{
    lemma_lines_concat(a, b);
    lemma_messages_concat(lines(a), lines(b));
    lemma_responses_concat(lines(a), lines(b), reply, fault);
    lemma_written_concat(responses(lines(a), reply, fault), responses(lines(b), reply, fault));
}

/// Blank lines and the whitespace around a line, a missing line break at the end among it, make
/// no difference: neither to the messages that are handed over nor to what is written.
pub proof fn law_whitespace_makes_no_difference(
    a: Seq<char>,
    b: Seq<char>,
    reply: spec_fn(serde_json::Value) -> Option<serde_json::Value>,
    fault: spec_fn(Seq<char>) -> serde_json::Value,
)
    requires
        is_respaced(lines(a), lines(b)),
    ensures
        messages(lines(a)) == messages(lines(b)),
        written(responses(lines(a), reply, fault)) == written(responses(lines(b), reply, fault)),
{
    lemma_respaced_lines(lines(a), lines(b), reply, fault);
}

/// Adding whitespace other than a line break at either end of a line, putting in a blank line, or
/// taking the line break from the end of an input leaves the lines as they were but for
/// whitespace.
pub proof fn law_respacing_an_input(
    before: Seq<char>,
    line: Seq<char>,
    left: Seq<char>,
    right: Seq<char>,
    blank: Seq<char>,
    after: Seq<char>,
)
    requires
        is_whole(before),
        !line.contains('\n'),
        !left.contains('\n'),
        !right.contains('\n'),
        !blank.contains('\n'),
        is_blank(left),
        is_blank(right),
        is_blank(blank),
    ensures
        is_respaced(
            lines(before + framed(line) + after),
            lines(before + framed(left + line + right) + after),
        ),
        is_respaced(lines(before + after), lines(before + framed(blank) + after)),
        is_respaced(lines(before + framed(line)), lines(before + line)),
{
    let padded = left + line + right;
    assert(!padded.contains('\n')) by {
        assert forall|i: int| 0 <= i < padded.len() implies padded[i] != '\n' by {
            if i < left.len() {
                assert(padded[i] == left[i]);
            } else if i < left.len() + line.len() {
                assert(padded[i] == line[i - left.len()]);
            } else {
                assert(padded[i] == right[i - left.len() - line.len()]);
            }
        }
    }
    let none = Seq::<char>::empty();
    let end = seq!['\n'];
    lemma_lines_around(before, line, after);
    lemma_lines_around(before, padded, after);
    lemma_lines_around(before, blank, after);
    lemma_lines_concat(before, after);
    assert(framed(line) =~= line + end);
    assert(is_blank(end));

    // Whitespace at either end of the line.
    lemma_respaced_same(lines(after));
    assert(is_respaced_line(framed(line), framed(padded))) by {
        let last = right + end;
        assert(framed(padded) =~= left + line + last);
        assert(is_blank(last));
    }
    lemma_respaced_line_then(framed(line), framed(padded), lines(after), lines(after));
    lemma_respaced_prefix(
        lines(before),
        seq![framed(line)] + lines(after),
        seq![framed(padded)] + lines(after),
    );

    // A blank line more.
    assert(is_blank(framed(blank)));
    let more = seq![framed(blank)] + lines(after);
    assert(more.drop_first() =~= lines(after));
    assert(is_respaced(lines(after), more));
    lemma_respaced_prefix(lines(before), lines(after), more);

    // No line break at the end.
    assert(before + framed(line) + none =~= before + framed(line));
    lemma_lines_around(before, line, none);
    lemma_lines_concat(before, line);
    let whole = seq![framed(line)] + lines(none);
    assert(whole.drop_first() =~= lines(none));
    if line.len() == 0 {
        assert(line =~= none);
        lemma_respaced_same(lines(none));
        assert(is_respaced(whole, lines(line)));
    } else {
        lemma_single_line(line);
        assert(is_respaced_line(framed(line), line)) by {
            assert(line =~= none + line + none);
        }
        lemma_respaced_same(lines(none));
        lemma_respaced_line_then(framed(line), line, lines(none), lines(none));
        assert(seq![line] + lines(none) =~= lines(line));
    }
    lemma_respaced_prefix(lines(before), whole, lines(line));
}

/// What is written is one line per response, in order, and nothing else: no line break stands
/// inside a response. `frame` makes sure of what is required here of every response that is
/// written.
pub proof fn law_output_is_one_line_per_response(rs: Seq<serde_json::Value>)
    requires
        forall|i: int| 0 <= i < rs.len() ==> is_compact(#[trigger] json_text(rs[i])),
    ensures
        is_whole(written(rs)),
        lines(written(rs)) == rs.map_values(|r: serde_json::Value| framed(json_text(r))),
    decreases rs.len(),
{
    let of = |r: serde_json::Value| framed(json_text(r));
    if rs.len() > 0 {
        let text = json_text(rs.first());
        let rest = rs.drop_first();
        assert(json_text(rs[0]) == text);
        assert forall|i: int| 0 <= i < rest.len() implies is_compact(
            #[trigger] json_text(rest[i]),
        ) by {
            assert(rest[i] == rs[i + 1]);
            assert(is_compact(json_text(rs[i + 1])));
        }
        law_output_is_one_line_per_response(rest);
        assert(!text.contains('\n'));
        let none = Seq::<char>::empty();
        assert(none + framed(text) + written(rest) =~= written(rs));
        lemma_lines_around(none, text, written(rest));
        assert(rs.map_values(of) =~= seq![framed(text)] + rest.map_values(of));
        if rest.len() > 0 {
            assert(written(rest).len() > 0);
            assert(written(rs).last() == written(rest).last());
        } else {
            assert(written(rs) =~= framed(text));
        }
    } else {
        assert(rs.map_values(of) =~= Seq::<Seq<char>>::empty());
    }
}

/// There are no more responses than lines that are not blank.
pub proof fn law_responses_are_no_more_than_lines(
    ls: Seq<Seq<char>>,
    reply: spec_fn(serde_json::Value) -> Option<serde_json::Value>,
    fault: spec_fn(Seq<char>) -> serde_json::Value,
)
    ensures
        messages(ls).len() <= nonblank(ls),
        responses(ls, reply, fault).len() <= nonblank(ls),
    decreases ls.len(),
{
    if ls.len() > 0 {
        law_blank_text_is_trimmed_away(ls.first());
        law_responses_are_no_more_than_lines(ls.drop_first(), reply, fault);
    }
}

/// What is written has no more lines than the input has lines that are not blank. `frame` makes
/// sure of what is required here of every response that is written.
pub proof fn law_output_is_no_longer_than_input(
    input: Seq<char>,
    reply: spec_fn(serde_json::Value) -> Option<serde_json::Value>,
    fault: spec_fn(Seq<char>) -> serde_json::Value,
)
    requires
        ({
            let rs = responses(lines(input), reply, fault);
            forall|i: int| 0 <= i < rs.len() ==> is_compact(#[trigger] json_text(rs[i]))
        }),
    ensures
        lines(written(responses(lines(input), reply, fault))).len() <= nonblank(lines(input)),
{
    law_output_is_one_line_per_response(responses(lines(input), reply, fault));
    law_responses_are_no_more_than_lines(lines(input), reply, fault);
}

/// What is done after a line was read hands over the messages of that line, and it is answered by
/// the transport itself if and only if the handler is not asked and there is a response.
pub proof fn law_actions_handle_lines(
    n: nat,
    line: Seq<char>,
    action: StdioAction,
    reply: spec_fn(serde_json::Value) -> Option<serde_json::Value>,
    fault: spec_fn(Seq<char>) -> serde_json::Value,
)
    requires
        n > 0,
        action.follows_read(n, line),
    ensures
        line_messages(line) == match action {
            StdioAction::Dispatch(message) => seq![message],
            _ => Seq::empty(),
        },
        action matches StdioAction::Dispatch(message) ==> line_responses(line, reply, fault)
            == match reply(message) {
            Some(response) => seq![response],
            None => Seq::empty(),
        },
        action is Send <==> !(action is Dispatch) && line_responses(line, reply, fault).len() == 1,
        action is Read ==> line_responses(line, reply, fault).len() == 0,
{
}

/// A message that was framed is read back: the line that carries it is taken for the message
/// itself.
pub proof fn law_framed_message_is_read_back(json: Seq<char>, n: nat, action: StdioAction)
    requires
        is_compact(json),
        n > 0,
        action.follows_read(n, framed(json)),
    ensures
        action.follows_parse(parsed_json(json)),
{
    let none = Seq::<char>::empty();
    let end = seq!['\n'];
    assert(framed(json) =~= none + json + end);
    law_padding_is_trimmed(none, json, end);
    assert(trim_start(json) == json);
    assert(trim_end(json) == json);
}

/// A line is answered at most once, and then the next one is read: a message with what the handler
/// returned for it, if that is anything; a line that is not JSON with an error; a blank line not
/// at all. Here `read` is what is done with the line, `answer` what the handler returns if it is
/// asked, and `last` what is done in the end.
pub proof fn law_each_line_is_answered_at_most_once(
    n: nat,
    line: Seq<char>,
    read: StdioAction,
    answer: Option<JsonRpcResponse>,
    last: StdioAction,
)
    requires
        n > 0,
        read.follows_read(n, line),
        last == if read is Dispatch {
            dispatched(answer)
        } else {
            read
        },
    ensures
        last is Send || last is Read,
        last is Send <==> line_content(line) is Fault || (line_content(line) is Message
            && answer is Some),
        read is Dispatch && answer is Some ==> last == StdioAction::Send(answer->Some_0),
{
}

/// Only a line that is neither blank nor JSON is answered by the transport itself.
pub proof fn law_only_bad_lines_are_answered_unasked(n: nat, line: Seq<char>, action: StdioAction)
    requires
        action.follows_read(n, line),
    ensures
        action is Send <==> {
            &&& n > 0
            &&& trimmed(line).len() > 0
            &&& parsed_json(trimmed(line)) is Err
        },
{
}

/// The transport shuts down if and only if the input has ended.
pub proof fn law_stops_at_end_of_input(n: nat, line: Seq<char>, action: StdioAction)
    requires
        action.follows_read(n, line),
    ensures
        action is Stop <==> n == 0,
{
}

/// The first line is no longer than the input, and not empty unless that is.
pub proof fn lemma_first_line_len(s: Seq<char>)
    ensures
        first_line_len(s) <= s.len(),
        s.len() > 0 ==> first_line_len(s) > 0,
    decreases s.len(),
{
    if s.len() > 0 {
        lemma_first_line_len(s.drop_first());
    }
}

proof fn lemma_first_line_concat(a: Seq<char>, b: Seq<char>)
    requires
        a.len() > 0,
        a.last() == '\n',
    ensures
        first_line_len(a + b) == first_line_len(a),
    decreases a.len(),
{
    assert((a + b).first() == a.first());
    if a.first() != '\n' {
        assert(a.drop_first().last() == a.last());
        assert((a + b).drop_first() =~= a.drop_first() + b);
        lemma_first_line_concat(a.drop_first(), b);
    }
}

proof fn lemma_lines_concat(a: Seq<char>, b: Seq<char>)
    requires
        is_whole(a),
    ensures
        lines(a + b) == lines(a) + lines(b),
    decreases a.len(),
{
    if a.len() == 0 {
        assert(a + b =~= b);
        assert(lines(a) + lines(b) =~= lines(b));
    } else {
        lemma_first_line_concat(a, b);
        lemma_first_line_len(a);
        let k = first_line_len(a) as int;
        let rest = a.skip(k);
        assert((a + b).take(k) =~= a.take(k));
        assert((a + b).skip(k) =~= rest + b);
        assert(rest.len() > 0 ==> rest.last() == a.last());
        lemma_lines_concat(rest, b);
        assert(lines(a + b) =~= lines(a) + lines(b));
    }
}

proof fn lemma_single_line(line: Seq<char>)
    requires
        !line.contains('\n'),
    ensures
        first_line_len(line) == line.len(),
        first_line_len(framed(line)) == line.len() + 1,
        line.len() > 0 ==> lines(line) == seq![line],
        lines(framed(line)) == seq![framed(line)],
    decreases line.len(),
{
    if line.len() > 0 {
        assert(line[0] != '\n');
        let rest = line.drop_first();
        assert(!rest.contains('\n')) by {
            assert forall|i: int| 0 <= i < rest.len() implies rest[i] != '\n' by {
                assert(rest[i] == line[i + 1]);
            }
        }
        lemma_single_line(rest);
        assert(framed(line).drop_first() =~= framed(rest));
        assert(framed(line).first() == line[0]);
    }
    let n = line.len() as int;
    assert(line.take(n) =~= line);
    assert(line.skip(n) =~= Seq::<char>::empty());
    assert(framed(line).take(n + 1) =~= framed(line));
    assert(framed(line).skip(n + 1) =~= Seq::<char>::empty());
    let none = lines(Seq::<char>::empty());
    assert(seq![line] + none =~= seq![line]);
    assert(seq![framed(line)] + none =~= seq![framed(line)]);
}

proof fn lemma_lines_around(before: Seq<char>, line: Seq<char>, after: Seq<char>)
    requires
        is_whole(before),
        !line.contains('\n'),
    ensures
        lines(before + framed(line) + after) == lines(before) + (seq![framed(line)] + lines(after)),
{
    assert(before + framed(line) + after =~= before + (framed(line) + after));
    lemma_lines_concat(before, framed(line) + after);
    lemma_lines_concat(framed(line), after);
    lemma_single_line(line);
}

proof fn lemma_messages_concat(a: Seq<Seq<char>>, b: Seq<Seq<char>>)
    ensures
        messages(a + b) == messages(a) + messages(b),
    decreases a.len(),
{
    if a.len() == 0 {
        assert(a + b =~= b);
        assert(messages(a) + messages(b) =~= messages(b));
    } else {
        assert((a + b).first() == a.first());
        assert((a + b).drop_first() =~= a.drop_first() + b);
        lemma_messages_concat(a.drop_first(), b);
        assert(messages(a + b) =~= messages(a) + messages(b));
    }
}

proof fn lemma_responses_concat(
    a: Seq<Seq<char>>,
    b: Seq<Seq<char>>,
    reply: spec_fn(serde_json::Value) -> Option<serde_json::Value>,
    fault: spec_fn(Seq<char>) -> serde_json::Value,
)
    ensures
        responses(a + b, reply, fault) == responses(a, reply, fault) + responses(b, reply, fault),
    decreases a.len(),
{
    if a.len() == 0 {
        assert(a + b =~= b);
        assert(responses(a, reply, fault) + responses(b, reply, fault) =~= responses(
            b,
            reply,
            fault,
        ));
    } else {
        assert((a + b).first() == a.first());
        assert((a + b).drop_first() =~= a.drop_first() + b);
        lemma_responses_concat(a.drop_first(), b, reply, fault);
        assert(responses(a + b, reply, fault) =~= responses(a, reply, fault) + responses(
            b,
            reply,
            fault,
        ));
    }
}

proof fn lemma_written_concat(a: Seq<serde_json::Value>, b: Seq<serde_json::Value>)
    ensures
        written(a + b) == written(a) + written(b),
    decreases a.len(),
{
    if a.len() == 0 {
        assert(a + b =~= b);
        assert(written(a) + written(b) =~= written(b));
    } else {
        assert((a + b).first() == a.first());
        assert((a + b).drop_first() =~= a.drop_first() + b);
        lemma_written_concat(a.drop_first(), b);
        assert(written(a + b) =~= written(a) + written(b));
    }
}

proof fn lemma_respaced_line_content(a: Seq<char>, b: Seq<char>)
    requires
        is_respaced_line(a, b),
    ensures
        line_content(a) == line_content(b),
{
    let (core, end, before, after) = choose|
        core: Seq<char>,
        end: Seq<char>,
        before: Seq<char>,
        after: Seq<char>,
    |
        {
            &&& a == #[trigger] (core + end)
            &&& b == #[trigger] (before + core + after)
            &&& is_blank(end)
            &&& is_blank(before)
            &&& is_blank(after)
        };
    let none = Seq::<char>::empty();
    assert(a =~= none + core + end);
    law_padding_is_trimmed(none, core, end);
    law_padding_is_trimmed(before, core, after);
}

proof fn lemma_respaced_lines(
    a: Seq<Seq<char>>,
    b: Seq<Seq<char>>,
    reply: spec_fn(serde_json::Value) -> Option<serde_json::Value>,
    fault: spec_fn(Seq<char>) -> serde_json::Value,
)
    requires
        is_respaced(a, b),
    ensures
        messages(a) == messages(b),
        responses(a, reply, fault) == responses(b, reply, fault),
    decreases a.len() + b.len(),
{
    if a.len() > 0 && is_blank(a.first()) && is_respaced(a.drop_first(), b) {
        law_blank_text_is_trimmed_away(a.first());
        lemma_respaced_lines(a.drop_first(), b, reply, fault);
        assert(messages(a) =~= messages(a.drop_first()));
        assert(responses(a, reply, fault) =~= responses(a.drop_first(), reply, fault));
    } else if b.len() > 0 && is_blank(b.first()) && is_respaced(a, b.drop_first()) {
        law_blank_text_is_trimmed_away(b.first());
        lemma_respaced_lines(a, b.drop_first(), reply, fault);
        assert(messages(b) =~= messages(b.drop_first()));
        assert(responses(b, reply, fault) =~= responses(b.drop_first(), reply, fault));
    } else if a.len() > 0 && b.len() > 0 {
        lemma_respaced_line_content(a.first(), b.first());
        lemma_respaced_lines(a.drop_first(), b.drop_first(), reply, fault);
    }
}

proof fn lemma_respaced_line_same(line: Seq<char>)
    ensures
        is_respaced_line(line, line),
{
    let none = Seq::<char>::empty();
    assert(line =~= line + none);
    assert(line =~= none + line + none);
    assert(is_blank(none));
}

proof fn lemma_respaced_same(ls: Seq<Seq<char>>)
    ensures
        is_respaced(ls, ls),
    decreases ls.len(),
{
    if ls.len() > 0 {
        lemma_respaced_line_same(ls.first());
        lemma_respaced_same(ls.drop_first());
    }
}

proof fn lemma_respaced_line_then(
    x: Seq<char>,
    y: Seq<char>,
    a: Seq<Seq<char>>,
    b: Seq<Seq<char>>,
)
    requires
        is_respaced_line(x, y),
        is_respaced(a, b),
    ensures
        is_respaced(seq![x] + a, seq![y] + b),
{
    assert((seq![x] + a).drop_first() =~= a);
    assert((seq![y] + b).drop_first() =~= b);
}

proof fn lemma_respaced_prefix(
    prefix: Seq<Seq<char>>,
    a: Seq<Seq<char>>,
    b: Seq<Seq<char>>,
)
    requires
        is_respaced(a, b),
    ensures
        is_respaced(prefix + a, prefix + b),
    decreases prefix.len(),
{
    if prefix.len() == 0 {
        assert(prefix + a =~= a);
        assert(prefix + b =~= b);
    } else {
        let rest = prefix.drop_first();
        lemma_respaced_prefix(rest, a, b);
        lemma_respaced_line_same(prefix.first());
        lemma_respaced_line_then(prefix.first(), prefix.first(), rest + a, rest + b);
        assert(prefix + a =~= seq![prefix.first()] + (rest + a));
        assert(prefix + b =~= seq![prefix.first()] + (rest + b));
    }
}

/// Every line that holds something is handled by what it holds between the whitespace around it:
/// every message is handed to the handler, whatever it says, and everything that is not JSON is
/// answered with a JSON-RPC parse error that gives the reason.
pub proof fn law_line_is_handled_by_its_text(
    n: nat,
    before: Seq<char>,
    text: Seq<char>,
    after: Seq<char>,
    action: StdioAction,
)
    requires
        n > 0,
        forall|i: int| 0 <= i < before.len() ==> is_whitespace(#[trigger] before[i]),
        forall|i: int| 0 <= i < after.len() ==> is_whitespace(#[trigger] after[i]),
        text.len() > 0,
        !is_whitespace(text[0]),
        !is_whitespace(text[text.len() - 1]),
        action.follows_read(n, before + text + after),
    ensures
        match parsed_json(text) {
            Ok(message) => action == StdioAction::Dispatch(message),
            Err(reason) => {
                &&& action is Send
                &&& action->Send_0.id is None
                &&& action->Send_0.result is None
                &&& action->Send_0.error is Some
                &&& action->Send_0.error->Some_0.code == -32700
                &&& action->Send_0.error->Some_0.message@ == "Parse error: "@ + reason
                &&& action->Send_0.error->Some_0.data is None
            },
        },
{
    law_inside_is_what_trimming_leaves(before, text, after);
}

/// Every line that is not blank and whose trimmed text is JSON goes to the handler.
pub proof fn law_every_message_is_dispatched(
    n: nat,
    line: Seq<char>,
    message: serde_json::Value,
    action: StdioAction,
)
    requires
        n > 0,
        trimmed(line).len() > 0,
        parsed_json(trimmed(line)) == Ok::<serde_json::Value, Seq<char>>(message),
        action.follows_read(n, line),
    ensures
        action == StdioAction::Dispatch(message),
{
}

/// A line of nothing but whitespace is skipped, and no other line is.
pub proof fn law_skipped_means_blank(n: nat, line: Seq<char>, action: StdioAction)
    requires
        n > 0,
        action.follows_read(n, line),
    ensures
        action is Read <==> forall|i: int|
            0 <= i < line.len() ==> is_whitespace(#[trigger] line[i]),
        !(action is Stop),
{
    law_blank_text_is_trimmed_away(line);
}

/// What was parsed is dispatched as it is; what could not be parsed is answered with a JSON-RPC
/// parse error that gives the reason.
pub proof fn law_outcome_of_parsing_decides(
    parsed: Result<serde_json::Value, String>,
    action: StdioAction,
)
    requires
        action.follows_parse(parse_outcome(parsed)),
    ensures
        match parsed {
            Ok(message) => action == StdioAction::Dispatch(message),
            Err(reason) => {
                &&& action is Send
                &&& action->Send_0.id is None
                &&& action->Send_0.result is None
                &&& action->Send_0.error is Some
                &&& action->Send_0.error->Some_0.code == -32700
                &&& action->Send_0.error->Some_0.message@ == "Parse error: "@ + reason@
                &&& action->Send_0.error->Some_0.data is None
            },
        },
{
}

/// Every response of the handler is sent as it is, and without one nothing is sent.
pub proof fn law_every_response_is_sent(response: JsonRpcResponse)
    ensures
        dispatched(Some(response)) == StdioAction::Send(response),
        dispatched(None) == StdioAction::Read,
{
}

/// The line that carries a text is the text and a line break, and nothing else.
pub proof fn law_frame_adds_a_line_break(json: Seq<char>)
    ensures
        framed(json).len() == json.len() + 1,
        framed(json)[json.len() as int] == '\n',
        framed(json).take(json.len() as int) == json,
{
    assert(framed(json).take(json.len() as int) =~= json);
}

/// An input is cut behind every line break and nowhere else, and nothing of it is lost.
pub proof fn law_input_is_cut_behind_line_breaks(
    before: Seq<char>,
    line: Seq<char>,
    after: Seq<char>,
)
    requires
        before.len() > 0 ==> before[before.len() - 1] == '\n',
        forall|i: int| 0 <= i < line.len() ==> #[trigger] line[i] != '\n',
    ensures
        lines(before + line + seq!['\n'] + after) == lines(before) + seq![line + seq!['\n']]
            + lines(after),
        line.len() > 0 ==> lines(before + line) == lines(before) + seq![line],
        lines(Seq::<char>::empty()) == Seq::<Seq<char>>::empty(),
{
    assert(!line.contains('\n'));
    assert(framed(line) =~= line + seq!['\n']);
    assert(before + line + seq!['\n'] + after =~= before + framed(line) + after);
    lemma_lines_around(before, line, after);
    assert(lines(before) + seq![framed(line)] + lines(after) =~= lines(before) + (seq![
        framed(line),
    ] + lines(after)));
    lemma_lines_concat(before, line);
    lemma_single_line(line);
}

/// The line at `k` hands over its message, if it holds one, between those of the lines before and
/// behind it, and nothing otherwise.
pub proof fn law_each_line_hands_over_its_message(ls: Seq<Seq<char>>, k: int)
    requires
        0 <= k < ls.len(),
    ensures
        messages(ls) == messages(ls.take(k)) + (if trimmed(ls[k]).len() > 0 && parsed_json(
            trimmed(ls[k]),
        ) is Ok {
            seq![parsed_json(trimmed(ls[k]))->Ok_0]
        } else {
            Seq::<serde_json::Value>::empty()
        }) + messages(ls.skip(k + 1)),
{
    let rest = ls.skip(k);
    assert(ls =~= ls.take(k) + rest);
    lemma_messages_concat(ls.take(k), rest);
    assert(rest.first() == ls[k]);
    assert(rest.drop_first() =~= ls.skip(k + 1));
    assert(messages(ls) =~= messages(ls.take(k)) + line_messages(ls[k]) + messages(
        ls.skip(k + 1),
    ));
}

/// The line at `k` is answered between the lines before and behind it: a message with what the
/// handler returns for it, what is not JSON with an error, and a blank line not at all.
pub proof fn law_each_line_gets_its_answer(
    ls: Seq<Seq<char>>,
    k: int,
    reply: spec_fn(serde_json::Value) -> Option<serde_json::Value>,
    fault: spec_fn(Seq<char>) -> serde_json::Value,
)
    requires
        0 <= k < ls.len(),
    ensures
        responses(ls, reply, fault) == responses(ls.take(k), reply, fault) + (if trimmed(
            ls[k],
        ).len() == 0 {
            Seq::<serde_json::Value>::empty()
        } else {
            match parsed_json(trimmed(ls[k])) {
                Ok(message) => match reply(message) {
                    Some(response) => seq![response],
                    None => Seq::empty(),
                },
                Err(reason) => seq![fault(reason)],
            }
        }) + responses(ls.skip(k + 1), reply, fault),
{
    let rest = ls.skip(k);
    assert(ls =~= ls.take(k) + rest);
    lemma_responses_concat(ls.take(k), rest, reply, fault);
    assert(rest.first() == ls[k]);
    assert(rest.drop_first() =~= ls.skip(k + 1));
    assert(responses(ls, reply, fault) =~= responses(ls.take(k), reply, fault) + line_responses(
        ls[k],
        reply,
        fault,
    ) + responses(ls.skip(k + 1), reply, fault));
}

/// No line is passed over: if the handler never answers, every line that is not blank is either
/// handed over or answered with an error, and if it always answers, every such line is answered.
pub proof fn law_no_line_is_passed_over(
    ls: Seq<Seq<char>>,
    reply: spec_fn(serde_json::Value) -> Option<serde_json::Value>,
    fault: spec_fn(Seq<char>) -> serde_json::Value,
)
    ensures
        (forall|m: serde_json::Value| #[trigger] reply(m) is None) ==> messages(ls).len()
            + responses(ls, reply, fault).len() == nonblank(ls),
        (forall|m: serde_json::Value| #[trigger] reply(m) is Some) ==> responses(
            ls,
            reply,
            fault,
        ).len() == nonblank(ls),
    decreases ls.len(),
{
    if ls.len() > 0 {
        law_blank_text_is_trimmed_away(ls.first());
        law_no_line_is_passed_over(ls.drop_first(), reply, fault);
    }
}

/// The response at `k` is written as its JSON text and a line break, between those before and
/// behind it.
pub proof fn law_responses_are_written_in_order(rs: Seq<serde_json::Value>, k: int)
    requires
        0 <= k < rs.len(),
    ensures
        written(rs) == written(rs.take(k)) + json_text(rs[k]) + seq!['\n'] + written(
            rs.skip(k + 1),
        ),
{
    let rest = rs.skip(k);
    assert(rs =~= rs.take(k) + rest);
    lemma_written_concat(rs.take(k), rest);
    assert(rest.first() == rs[k]);
    assert(rest.drop_first() =~= rs.skip(k + 1));
    assert(written(rs) =~= written(rs.take(k)) + json_text(rs[k]) + seq!['\n'] + written(
        rs.skip(k + 1),
    ));
}

} // verus!
