//! Talking to the renderer over its debugging port.
use crate::json::{integer_at, parse_json, string_at, string_literal};
use crate::text::{decimal_text, non_blank, same_text};
use vstd::prelude::*;

verus! {

/// Where the answer to an evaluated script holds the token of a refresh request.
pub const REFRESH_TOKEN_POINTER: &'static str = "/result/result/value/refreshRequestToken";

/// A page or another part of the renderer that can be talked to.
#[derive(Debug)]
pub struct CdpTarget {
    pub target_type: String,
    pub websocket_url: Option<String>,
}

/// The socket of a target that can show the quota: a page or a web view.
pub open spec fn target_socket(target: CdpTarget) -> Option<Seq<char>> {
    if target.target_type@ == "page"@ || target.target_type@ == "webview"@ {
        target.websocket_url.deep_view()
    } else {
        None
    }
}

/// The socket to evaluate the script over, where `target` can show the quota.
pub fn evaluation_socket(target: &CdpTarget) -> (url: Option<&str>)
    ensures
        url.deep_view() == target_socket(*target),
{
    if !same_text(target.target_type.as_str(), "page") && !same_text(
        target.target_type.as_str(),
        "webview",
    ) {
        return None;
    }
    match &target.websocket_url {
        Some(url) => Some(url.as_str()),
        None => None,
    }
}

/// Where the targets behind a debugging port are listed.
pub open spec fn target_list_text(port: u16) -> Seq<char> {
    "http://127.0.0.1:"@ + crate::text::decimal(port as nat) + "/json/list"@
}

pub fn target_list_url(port: u16) -> (url: String)
    ensures
        url@ == target_list_text(port),
{
    let mut url = "http://127.0.0.1:".to_owned();
    url.append(decimal_text(port as i64).as_str());
    url.append("/json/list");
    url
}

/// What stands in front of the script in the request to evaluate it.
pub const REQUEST_HEAD: &'static str =
    "{\"id\":1,\"method\":\"Runtime.evaluate\",\"params\":{\"awaitPromise\":false,\"expression\":";

/// What stands behind the script in the request to evaluate it.
pub const REQUEST_TAIL: &'static str = ",\"returnByValue\":true}}";

/// The request to evaluate a script and to hand its value back.
pub open spec fn evaluate_request_text(script: Seq<char>) -> Seq<char> {
    REQUEST_HEAD@ + crate::json::quoted(script) + REQUEST_TAIL@
}

pub fn evaluate_request(script: &str) -> (request: String)
    ensures
        request@ == evaluate_request_text(script@),
{
    let mut request = REQUEST_HEAD.to_owned();
    request.append(string_literal(script, "null").as_str());
    request.append(REQUEST_TAIL);
    request
}

/// The token of the refresh request in the answer to an evaluated script, where one waits.
pub fn refresh_request_token_from_cdp_response(value: &serde_json::Value) -> (token: Option<
    String,
>)
    ensures
        token.deep_view() == crate::text::non_blank_text(
            crate::json::json_strings(*value).get(REFRESH_TOKEN_POINTER@),
        ),
{
    match string_at(value, REFRESH_TOKEN_POINTER) {
        Some(token) => non_blank(Some(token.as_str())),
        None => None,
    }
}

/// What a message of a target means.
#[derive(Debug)]
pub enum CdpReply {
    /// It does not answer the request.
    Other,
    /// It answers the request, with the token of a refresh request where one waits.
    Answer(Option<String>),
}

/// What a message means, with the token as a sequence of characters.
pub enum ReplyMeaning {
    Other,
    Answer(Option<Seq<char>>),
}

impl View for CdpReply {
    type V = ReplyMeaning;

    open spec fn view(&self) -> ReplyMeaning {
        match *self {
            CdpReply::Other => ReplyMeaning::Other,
            CdpReply::Answer(token) => ReplyMeaning::Answer(token.deep_view()),
        }
    }
}

/// A message answers the request where it bears the request's number.
pub open spec fn reply_meaning(id: Option<i64>, token: Option<Seq<char>>) -> ReplyMeaning {
    if id == Some(1i64) {
        ReplyMeaning::Answer(token)
    } else {
        ReplyMeaning::Other
    }
}

/// What a message means that bears the number `id` and the token `token`, as far as it has them.
pub fn reply_from_parts(id: Option<i64>, token: Option<String>) -> (reply: CdpReply)
    ensures
        reply@ == reply_meaning(id, token.deep_view()),
{
    match id {
        Some(1) => CdpReply::Answer(token),
        _ => CdpReply::Other,
    }
}

/// What a message with the given text means; a text that is no JSON document means nothing.
pub open spec fn message_meaning(text: Seq<char>) -> ReplyMeaning {
    match crate::json::parsed_json(text) {
        Some((strings, integers)) => reply_meaning(
            integers.get("/id"@),
            crate::text::non_blank_text(strings.get(REFRESH_TOKEN_POINTER@)),
        ),
        None => ReplyMeaning::Other,
    }
}

/// What a message of a target means.
pub fn read_reply(text: &str) -> (reply: CdpReply)
    ensures
        reply@ == message_meaning(text@),
{
    match parse_json(text) {
        Some(value) => reply_from_parts(
            integer_at(&value, "/id"),
            refresh_request_token_from_cdp_response(&value),
        ),
        None => CdpReply::Other,
    }
}

/// A token that a message hands on is never blank.
pub proof fn law_tokens_are_not_blank(text: Seq<char>)
    ensures
        message_meaning(text) matches ReplyMeaning::Answer(Some(t)) ==> t.len() > 0,
{
}

/// The request to evaluate a script keeps to one line, whatever the script holds.
pub proof fn law_requests_keep_to_one_line(script: Seq<char>)
    ensures
        crate::script::on_one_line(evaluate_request_text(script)),
{
    reveal_strlit(
        "{\"id\":1,\"method\":\"Runtime.evaluate\",\"params\":{\"awaitPromise\":false,\"expression\":",
    );
    reveal_strlit(",\"returnByValue\":true}}");
    crate::json::law_literals_stay_on_their_line(script);
}

/// The script is read back from the request to evaluate it as it was.
pub proof fn law_request_holds_the_script(script: Seq<char>)
    ensures
        crate::json::read_literal(
            evaluate_request_text(script).skip(REQUEST_HEAD@.len() as int),
        ) == Some((script, REQUEST_TAIL@)),
{
    assert(evaluate_request_text(script).skip(REQUEST_HEAD@.len() as int) =~= crate::json::quoted(
        script,
    ) + REQUEST_TAIL@);
    crate::json::law_literals_are_read_back(script, REQUEST_TAIL@);
}

/// Targets are asked for on the loopback address only, whatever the port.
pub proof fn law_targets_are_on_loopback(port: u16)
    ensures
        crate::text::has_prefix(target_list_text(port), "http://127.0.0.1:"@),
{
    let head = "http://127.0.0.1:"@;
    assert(target_list_text(port).take(head.len() as int) =~= head);
}

/// A target shows the quota where it is a page or a web view, over the socket that it names.
pub proof fn law_pages_and_web_views_are_talked_to(target: CdpTarget)
    ensures
        ({
            let shows = target.target_type@ == "page"@ || target.target_type@ == "webview"@;
            &&& target.websocket_url is None || !shows ==> target_socket(target) is None
            &&& target.websocket_url matches Some(url) ==> shows ==> target_socket(target) == Some(
                url@,
            )
        }),
{
}

/// Targets are listed under the loopback address, the port in decimal notation and a fixed path.
pub proof fn law_target_list_names_the_port(port: u16)
    ensures
        target_list_text(port) == "http://127.0.0.1:"@ + crate::text::decimal_int(port as int)
            + "/json/list"@,
{
}

/// The request asks for the evaluation of the script, by value and without waiting for a promise,
/// under the number that its answer bears.
pub proof fn law_request_asks_for_evaluation(script: Seq<char>)
    ensures
        evaluate_request_text(script)
            == "{\"id\":1,\"method\":\"Runtime.evaluate\",\"params\":{\"awaitPromise\":false,\"expression\":"@
            + crate::json::quoted(script) + ",\"returnByValue\":true}}"@,
{
}

/// A message answers the request exactly where it is a JSON document with the request's number,
/// and then hands on the token that stands in the value of the evaluation, trimmed, unless that is
/// blank.
pub proof fn law_answers_bear_the_number(
    text: Seq<char>,
    strings: Map<Seq<char>, Seq<char>>,
    integers: Map<Seq<char>, i64>,
)
    ensures
        crate::json::parsed_json(text) is None ==> message_meaning(text) is Other,
        crate::json::parsed_json(text) == Some((strings, integers)) ==> {
            let pointer = "/result/result/value/refreshRequestToken"@;
            let numbered = integers.contains_key("/id"@) && integers["/id"@] == 1;
            &&& message_meaning(text) is Answer <==> numbered
            &&& numbered && !strings.contains_key(pointer) ==> message_meaning(text)
                == ReplyMeaning::Answer(None)
            &&& numbered && strings.contains_key(pointer) ==> {
                let token = crate::text::trimmed(
                    strings[pointer],
                    crate::text::CharClass::Space,
                );
                message_meaning(text) == ReplyMeaning::Answer(
                    if token.len() > 0 {
                        Some(token)
                    } else {
                        None
                    },
                )
            }
        },
{
}

/// A reply means what it holds.
pub proof fn law_replies_mean_what_they_hold(token: Option<String>, id: Option<i64>)
    ensures
        CdpReply::Other@ is Other,
        token is None ==> CdpReply::Answer(token)@ == ReplyMeaning::Answer(None),
        token matches Some(t) ==> CdpReply::Answer(token)@ == ReplyMeaning::Answer(Some(t@)),
        id == Some(1i64) ==> reply_meaning(id, token.deep_view()) == ReplyMeaning::Answer(
            token.deep_view(),
        ),
        id != Some(1i64) ==> reply_meaning(id, token.deep_view()) is Other,
{
}

} // verus!
