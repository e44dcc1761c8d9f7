//! The request handler as a state machine. A request starts in `start`,
//! which either answers at once with usage help or asks for an object to be
//! fetched; `on_fetched` turns the fetch into a transform request or a
//! failure; `on_transformed` turns the engine's output into the reply.

use vstd::prelude::*;
use vstd::string::*;
use vstd::slice::slice_to_vec;
use vstd::utf8::encode_utf8;
use crate::locator::{
    ObjectLocator, is_locator_path, lemma_parse_locator_exact, lemma_parse_locator_rejects,
    parse_locator, parse_s3_path,
};
use crate::query::{first_value, form_pairs, get_query_value, lemma_first_value};
use crate::text::push_char;

verus! {

/// An HTTP reply: status, content type and body.
pub struct Reply {
    pub status: u16,
    pub content_type: String,
    pub body: Vec<u8>,
}

/// Where a request stands: waiting for a fetch, waiting for a transform, or
/// finished with a reply or a failure message.
pub enum Stage {
    Fetch { locator: ObjectLocator, command: String },
    Transform { source: Vec<u8>, command: String },
    Replied(Reply),
    Failed(String),
}

pub enum StageView {
    Fetch { region: Seq<char>, bucket: Seq<char>, key: Seq<char>, command: Seq<char> },
    Transform { source: Seq<u8>, command: Seq<char> },
    Replied { status: u16, content_type: Seq<char>, body: Seq<u8> },
    Failed { message: Seq<char> },
}

impl View for Stage {
    type V = StageView;

    open spec fn view(&self) -> StageView {
        match self {
            Stage::Fetch { locator, command } => StageView::Fetch {
                region: locator.region@,
                bucket: locator.bucket@,
                key: locator.key@,
                command: command@,
            },
            Stage::Transform { source, command } => StageView::Transform {
                source: source@,
                command: command@,
            },
            Stage::Replied(r) => StageView::Replied {
                status: r.status,
                content_type: r.content_type@,
                body: r.body@,
            },
            Stage::Failed(m) => StageView::Failed { message: m@ },
        }
    }
}

/// What a fetch gave: the object's bytes and the storage status code, or the
/// storage client's error message.
pub open spec fn fetched_view(f: Result<(Vec<u8>, u16), String>) -> Result<(Seq<u8>, u16), Seq<char>> {
    match f {
        Ok(p) => Ok((p.0@, p.1)),
        Err(e) => Err(e@),
    }
}

/// What a transform gave: the output bytes and their MIME type, or the
/// engine's error message.
pub open spec fn transformed_view(t: Result<(Vec<u8>, String), String>) -> Result<(Seq<u8>, Seq<char>), Seq<char>> {
    match t {
        Ok(p) => Ok((p.0@, p.1@)),
        Err(e) => Err(e@),
    }
}

/// The query parameter that carries the object's path.
pub open spec fn path_param() -> Seq<char> {
    "imageflow_path"@
}

pub open spec fn help_prefix() -> Seq<char> {
    "Received path "@
}

pub open spec fn help_usage() -> Seq<char> {
    "\nTo resize an S3 Image, use /api/imageflow/s3/[region]/[bucket]/path?width=200\nExample: /api/imageflow/s3/us-west-2/imageflow-resources/test_inputs/u1.jpg?width=400"@
}

/// The usage text that echoes the received path.
pub open spec fn help_text(path: Seq<char>) -> Seq<char> {
    help_prefix() + path + help_usage()
}

pub open spec fn digits() -> Seq<char> {
    seq!['0', '1', '2', '3', '4', '5', '6', '7', '8', '9']
}

/// The decimal numeral of `n`, without leading zeros.
pub open spec fn decimal(n: nat) -> Seq<char>
    decreases n,
{
    if n < 10 {
        seq![digits()[n as int]]
    } else {
        decimal(n / 10).push(digits()[(n % 10) as int])
    }
}

/// The failure message for a fetch that answered with a status outside 2xx.
pub open spec fn upstream_message(code: u16, region: Seq<char>, bucket: Seq<char>, key: Seq<char>) -> Seq<char> {
    "Upstream HTTP error "@ + decimal(code as nat) + " for S3 region "@ + region + " bucket "@
        + bucket + " path "@ + key
}

pub open spec fn is_success_code(code: u16) -> bool {
    200 <= code < 300
}

/// Where a request with query string `query` starts.
pub open spec fn start_spec(query: Seq<char>) -> StageView {
    let path = first_value(form_pairs(query), path_param());
    match parse_locator(path) {
        Some(t) => StageView::Fetch { region: t.0, bucket: t.1, key: t.2, command: query },
        None => StageView::Replied {
            status: 200,
            content_type: "text/plain"@,
            body: encode_utf8(help_text(path)),
        },
    }
}

/// Where a request goes once the object at region/bucket/key was fetched.
pub open spec fn fetched_spec(
    region: Seq<char>,
    bucket: Seq<char>,
    key: Seq<char>,
    command: Seq<char>,
    fetched: Result<(Seq<u8>, u16), Seq<char>>,
) -> StageView {
    match fetched {
        Err(e) => StageView::Failed { message: e },
        Ok((bytes, code)) => if is_success_code(code) {
            StageView::Transform { source: bytes, command }
        } else {
            StageView::Failed { message: upstream_message(code, region, bucket, key) }
        },
    }
}

/// Where a request ends once the engine has answered.
pub open spec fn transformed_spec(transformed: Result<(Seq<u8>, Seq<char>), Seq<char>>) -> StageView {
    match transformed {
        Err(e) => StageView::Failed { message: e },
        Ok((bytes, mime)) => StageView::Replied { status: 200, content_type: mime, body: bytes },
    }
}

/// The outcome of a whole request, given what the fetch and the engine
/// answer when they are asked.
pub open spec fn respond(
    query: Seq<char>,
    fetched: Result<(Seq<u8>, u16), Seq<char>>,
    transformed: Result<(Seq<u8>, Seq<char>), Seq<char>>,
) -> StageView {
    match start_spec(query) {
        StageView::Fetch { region, bucket, key, command } => match fetched_spec(
            region,
            bucket,
            key,
            command,
            fetched,
        ) {
            StageView::Transform { .. } => transformed_spec(transformed),
            other => other,
        },
        other => other,
    }
}

/// A query whose path parameter reads `s3/{region}/{bucket}/{key}` leads to
/// the fetch of exactly that object; a 2xx fetch then hands the engine the
/// fetched bytes together with the whole query string, path parameter
/// included.
pub proof fn lemma_query_routes_to_locator(
    query: Seq<char>,
    region: Seq<char>,
    bucket: Seq<char>,
    key: Seq<char>,
    bytes: Seq<u8>,
    code: u16,
)
    requires
        is_locator_path(first_value(form_pairs(query), path_param()), region, bucket, key),
        is_success_code(code),
    ensures
        start_spec(query) == (StageView::Fetch { region, bucket, key, command: query }),
        fetched_spec(region, bucket, key, query, Ok((bytes, code))) == (StageView::Transform {
            source: bytes,
            command: query,
        }),
{
    lemma_parse_locator_exact(first_value(form_pairs(query), path_param()), region, bucket, key);
}

/// A query without the path parameter gets the usage reply: status 200,
/// `text/plain`, and the usage text around the empty path.
pub proof fn lemma_no_path_gets_help(query: Seq<char>)
    requires
        forall|i: int|
            0 <= i < form_pairs(query).len() ==> (#[trigger] form_pairs(query)[i]).0 != path_param(),
    ensures
        start_spec(query) == (StageView::Replied {
            status: 200,
            content_type: "text/plain"@,
            body: encode_utf8(help_text(Seq::<char>::empty())),
        }),
        respond(query, Err(Seq::<char>::empty()), Err(Seq::<char>::empty())) == start_spec(query),
{
    lemma_first_value(form_pairs(query), path_param());
    lemma_parse_locator_rejects(Seq::<char>::empty());
}

/// When the object is found and the engine succeeds, the reply is status
/// 200 with the engine's MIME type and exactly the engine's bytes.
pub proof fn lemma_success_reply(
    query: Seq<char>,
    region: Seq<char>,
    bucket: Seq<char>,
    key: Seq<char>,
    bytes: Seq<u8>,
    code: u16,
    out: Seq<u8>,
    mime: Seq<char>,
)
    requires
        is_locator_path(first_value(form_pairs(query), path_param()), region, bucket, key),
        is_success_code(code),
    ensures
        respond(query, Ok((bytes, code)), Ok((out, mime))) == (StageView::Replied {
            status: 200,
            content_type: mime,
            body: out,
        }),
{
    lemma_parse_locator_exact(first_value(form_pairs(query), path_param()), region, bucket, key);
}

/// A fetch that answers a status outside 2xx fails the request with the
/// message naming the status, region, bucket and key, whatever the engine
/// would have answered: the engine is not consulted.
pub proof fn lemma_upstream_failure(
    query: Seq<char>,
    region: Seq<char>,
    bucket: Seq<char>,
    key: Seq<char>,
    bytes: Seq<u8>,
    code: u16,
    transformed: Result<(Seq<u8>, Seq<char>), Seq<char>>,
)
    requires
        is_locator_path(first_value(form_pairs(query), path_param()), region, bucket, key),
        !is_success_code(code),
    ensures
        respond(query, Ok((bytes, code)), transformed) == (StageView::Failed {
            message: upstream_message(code, region, bucket, key),
        }),
{
    lemma_parse_locator_exact(first_value(form_pairs(query), path_param()), region, bucket, key);
}

/// When the object is found but the engine fails, the request fails with
/// the engine's own message.
pub proof fn lemma_transform_failure(
    query: Seq<char>,
    region: Seq<char>,
    bucket: Seq<char>,
    key: Seq<char>,
    bytes: Seq<u8>,
    code: u16,
    message: Seq<char>,
)
    requires
        is_locator_path(first_value(form_pairs(query), path_param()), region, bucket, key),
        is_success_code(code),
    ensures
        respond(query, Ok((bytes, code)), Err(message)) == (StageView::Failed { message }),
{
    lemma_parse_locator_exact(first_value(form_pairs(query), path_param()), region, bucket, key);
}

/// The same request, answered alike by the fetch and by the engine, ends
/// alike: the handler adds nothing that differs from one run to the next.
pub proof fn lemma_same_request_same_outcome(
    query1: Seq<char>,
    query2: Seq<char>,
    fetched1: Result<(Seq<u8>, u16), Seq<char>>,
    fetched2: Result<(Seq<u8>, u16), Seq<char>>,
    transformed1: Result<(Seq<u8>, Seq<char>), Seq<char>>,
    transformed2: Result<(Seq<u8>, Seq<char>), Seq<char>>,
)
    requires
        query1 == query2,
        fetched1 == fetched2,
        transformed1 == transformed2,
    ensures
        respond(query1, fetched1, transformed1) == respond(query2, fetched2, transformed2),
{
}

fn push_decimal(out: &mut String, n: u16)
    ensures
        final(out)@ == old(out)@ + decimal(n as nat),
    decreases n,
{
    let ds = vec!['0', '1', '2', '3', '4', '5', '6', '7', '8', '9'];
    assert(ds@ =~= digits());
    if n >= 10 {
        push_decimal(out, n / 10);
    }
    push_char(out, ds[(n % 10) as usize]);
    assert(final(out)@ =~= old(out)@ + decimal(n as nat));
}

/// The message for a fetch that answered `code`, outside 2xx.
pub fn upstream_error(code: u16, locator: &ObjectLocator) -> (r: String)
    ensures
        r@ == upstream_message(code, locator.region@, locator.bucket@, locator.key@),
{
    let mut m = String::from_str("Upstream HTTP error ");
    push_decimal(&mut m, code);
    m.append(" for S3 region ");
    m.append(locator.region.as_str());
    m.append(" bucket ");
    m.append(locator.bucket.as_str());
    m.append(" path ");
    m.append(locator.key.as_str());
    assert(m@ =~= upstream_message(code, locator.region@, locator.bucket@, locator.key@));
    m
}

/// The usage reply for a request whose path names no object.
pub fn help_reply(path: &str) -> (r: Reply)
    ensures
        r.status == 200,
        r.content_type@ == "text/plain"@,
        r.body@ == encode_utf8(help_text(path@)),
{
    let mut t = String::from_str("Received path ");
    t.append(path);
    t.append(
        "\nTo resize an S3 Image, use /api/imageflow/s3/[region]/[bucket]/path?width=200\nExample: /api/imageflow/s3/us-west-2/imageflow-resources/test_inputs/u1.jpg?width=400",
    );
    assert(t@ =~= help_text(path@));
    let body = slice_to_vec(t.as_str().as_bytes());
    Reply { status: 200, content_type: String::from_str("text/plain"), body }
}

/// Reads the request's query string: a path that names an object leads to
/// its fetch, with the whole query kept as the engine's command; any other
/// path, the empty one included, gets the usage reply.
pub fn start(query: &str) -> (r: Stage)
    ensures
        r@ == start_spec(query@),
{
    let path = get_query_value(query, "imageflow_path");
    match parse_s3_path(path.as_str()) {
        Some(locator) => Stage::Fetch { locator, command: String::from_str(query) },
        None => Stage::Replied(help_reply(path.as_str())),
    }
}

/// Takes the fetch's answer for `locator`: a 2xx status hands the bytes and
/// `command` to the engine; any other status, or an error of the storage
/// client, ends the request with a failure.
pub fn on_fetched(
    locator: ObjectLocator,
    command: String,
    fetched: Result<(Vec<u8>, u16), String>,
) -> (r: Stage)
    ensures
        r@ == fetched_spec(
            locator.region@,
            locator.bucket@,
            locator.key@,
            command@,
            fetched_view(fetched),
        ),
{
    match fetched {
        Err(e) => Stage::Failed(e),
        Ok((bytes, code)) => {
            if 200 <= code && code < 300 {
                Stage::Transform { source: bytes, command }
            } else {
                Stage::Failed(upstream_error(code, &locator))
            }
        },
    }
}

/// Takes the engine's answer: its output becomes a 200 reply with the
/// engine's MIME type; its error ends the request with that message.
pub fn on_transformed(transformed: Result<(Vec<u8>, String), String>) -> (r: Stage)
    ensures
        r@ == transformed_spec(transformed_view(transformed)),
{
    match transformed {
        Err(e) => Stage::Failed(e),
        Ok((bytes, mime)) => Stage::Replied(Reply { status: 200, content_type: mime, body: bytes }),
    }
}

} // verus!
