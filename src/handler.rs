use vstd::prelude::*;
use vstd::utf8::encode_utf8;

use crate::config::Args;

verus! {

/// A reply to one request: status code, headers in order, and body bytes.
pub struct Reply {
    pub status: u16,
    pub headers: Vec<(String, String)>,
    pub body: Vec<u8>,
}

/// What a reply holds, with headers as pairs of character sequences.
pub struct ReplyView {
    pub status: u16,
    pub headers: Seq<(Seq<char>, Seq<char>)>,
    pub body: Seq<u8>,
}

impl View for Reply {
    type V = ReplyView;

    open spec fn view(&self) -> ReplyView {
        ReplyView {
            status: self.status,
            headers: self.headers@.map_values(|h: (String, String)| (h.0@, h.1@)),
            body: self.body@,
        }
    }
}

pub open spec fn content_type() -> Seq<char> {
    "Content-Type"@
}

pub open spec fn content_disposition() -> Seq<char> {
    "Content-Disposition"@
}

pub open spec fn octet_stream() -> Seq<char> {
    "application/octet-stream"@
}

pub open spec fn text_plain() -> Seq<char> {
    "text/plain"@
}

/// The disposition that offers the body as a download named `filename`.
/// The name is put between double quotes as it is, without escaping.
pub open spec fn attachment(filename: Seq<char>) -> Seq<char> {
    "attachment; filename=\""@ + filename + "\""@
}

/// The reply owed to any request, given what reading the served file gave:
/// its bytes, or `None` when it could not be read for whatever reason.
pub open spec fn reply_to(args: Args, read: Option<Seq<u8>>) -> ReplyView {
    match read {
        Some(contents) => ReplyView {
            status: 200,
            headers: seq![
                (content_type(), octet_stream()),
                (content_disposition(), attachment(args.filename@)),
            ],
            body: contents,
        },
        None => ReplyView {
            status: 404,
            headers: seq![(content_type(), text_plain())],
            body: encode_utf8(args.error_msg@),
        },
    }
}

/// The outcome of a read as bytes: `None` when it failed.
pub open spec fn read_view(contents: Option<Vec<u8>>) -> Option<Seq<u8>> {
    match contents {
        Some(bytes) => Some(bytes@),
        None => None,
    }
}

fn header(name: &str, value: String) -> (r: (String, String))
    ensures
        r.0@ == name@,
        r.1@ == value@,
{
    (String::from_str(name), value)
}

/// Builds the reply from the outcome of reading the served file: the file's
/// bytes as a download under the configured name, or the configured message
/// with status 404.
pub fn simple_file_send(args: &Args, contents: Option<Vec<u8>>) -> (r: Reply)
    ensures
        r@ == reply_to(*args, read_view(contents)),
{
    match contents {
        Some(body) => {
            let mut disposition = String::from_str("attachment; filename=\"");
            disposition.append(args.filename.as_str());
            disposition.append("\"");
            let mut headers: Vec<(String, String)> = Vec::new();
            headers.push(header("Content-Type", String::from_str("application/octet-stream")));
            headers.push(header("Content-Disposition", disposition));
            let r = Reply { status: 200, headers, body };
            assert(r@.headers =~= reply_to(*args, read_view(contents)).headers);
            r
        },
        None => {
            let mut headers: Vec<(String, String)> = Vec::new();
            headers.push(header("Content-Type", String::from_str("text/plain")));
            let body = args.error_msg.as_str().as_bytes_vec();
            let r = Reply { status: 404, headers, body };
            assert(r@.headers =~= reply_to(*args, read_view(contents)).headers);
            r
        },
    }
}

/// Answers one request. Every method and every path get the same answer:
/// the served file, or the failure reply when it could not be read.
pub fn response(args: &Args, _method: &str, _path: &str, contents: Option<Vec<u8>>) -> (r: Reply)
    ensures
        r@ == reply_to(*args, read_view(contents)),
{
    simple_file_send(args, contents)
}

/// When the served file can be read, the reply is 200 with the file's bytes
/// as body, typed as an octet stream and offered as an attachment under the
/// configured name.
pub proof fn lemma_readable_object_served(args: Args, contents: Seq<u8>)
    ensures
        reply_to(args, Some(contents)).status == 200,
        reply_to(args, Some(contents)).body == contents,
        reply_to(args, Some(contents)).headers.contains((content_type(), octet_stream())),
        reply_to(args, Some(contents)).headers.contains(
            (content_disposition(), "attachment; filename=\""@ + args.filename@ + "\""@),
        ),
{
    let h = reply_to(args, Some(contents)).headers;
    assert(h[0] == (content_type(), octet_stream()));
    assert(h[1] == (content_disposition(), attachment(args.filename@)));
}

/// When the served file cannot be read, the reply is 404 with the configured
/// message, in UTF-8, as plain-text body.
pub proof fn lemma_unreadable_object_not_found(args: Args)
    ensures
        reply_to(args, None).status == 404,
        reply_to(args, None).body == encode_utf8(args.error_msg@),
        reply_to(args, None).headers == seq![(content_type(), text_plain())],
{
}

/// The same request made twice, with the file unchanged in between so that
/// both reads give the same outcome, gets identical replies.
pub proof fn lemma_repeated_request_same_reply(
    args: Args,
    first_read: Option<Vec<u8>>,
    second_read: Option<Vec<u8>>,
    first: Reply,
    second: Reply,
)
    requires
        read_view(first_read) == read_view(second_read),
        first@ == reply_to(args, read_view(first_read)),
        second@ == reply_to(args, read_view(second_read)),
    ensures
        first@ == second@,
{
}

} // verus!
