//! Requests and replies as plain data, the query of a store request, and the
//! reading of a reply's status.

use vstd::prelude::*;
use vstd::string::*;
use vstd::utf8::{decode_utf8, valid_utf8};
use reqwest::Url;
use crate::error::{outcome_view, ErrorView, WalrusError};
use crate::text::{bool_text, bool_word, decimal, decimal_text, prefixed};
use crate::web::{endpoint_text, joined_url, url_text};

verus! {

#[verifier::external_type_specification]
#[verifier::external_body]
pub struct ExUtf8Error(core::str::Utf8Error);

/// `core::str::from_utf8` accepts exactly the byte sequences that are valid
/// UTF-8, and gives the text that they encode.
pub assume_specification<'a>[ core::str::from_utf8 ](bytes: &'a [u8]) -> (text: Result<
    &'a str,
    core::str::Utf8Error,
>)
    ensures
        text is Ok <==> valid_utf8(bytes@),
        text matches Ok(decoded) ==> decoded@ == decode_utf8(bytes@),
;

/// The method of a request: reads use `Get`, writes use `Put`.
#[derive(Debug, Clone, Copy, PartialEq, Eq, Structural)]
pub enum HttpMethod {
    Get,
    Put,
}

/// One part of a multipart form: the name that keys it and its raw content.
#[derive(Debug, Clone, PartialEq, Eq)]
pub struct FormPart {
    pub name: String,
    pub content: Vec<u8>,
}

impl DeepView for FormPart {
    type V = (Seq<char>, Seq<u8>);

    open spec fn deep_view(&self) -> (Seq<char>, Seq<u8>) {
        (self.name@, self.content@)
    }
}

/// What a request carries.
#[derive(Debug, Clone, PartialEq, Eq)]
pub enum RequestBody {
    /// Nothing.
    Empty,
    /// Raw bytes, sent as they are.
    Bytes(Vec<u8>),
    /// A multipart form of these parts, in this order.
    Multipart(Vec<FormPart>),
}

/// The mathematical content of a [`RequestBody`].
pub ghost enum BodyView {
    Empty,
    Bytes(Seq<u8>),
    Multipart(Seq<(Seq<char>, Seq<u8>)>),
}

impl DeepView for RequestBody {
    type V = BodyView;

    open spec fn deep_view(&self) -> BodyView {
        match self {
            RequestBody::Empty => BodyView::Empty,
            RequestBody::Bytes(bytes) => BodyView::Bytes(bytes@),
            RequestBody::Multipart(parts) => BodyView::Multipart(parts.deep_view()),
        }
    }
}

/// One request to the service, ready to be sent.
#[derive(Debug)]
pub struct HttpRequest {
    pub method: HttpMethod,
    pub url: Url,
    pub body: RequestBody,
}

/// The mathematical content of an [`HttpRequest`]; the URL by its text.
pub ghost struct RequestView {
    pub method: HttpMethod,
    pub url: Seq<char>,
    pub body: BodyView,
}

impl DeepView for HttpRequest {
    type V = RequestView;

    open spec fn deep_view(&self) -> RequestView {
        RequestView { method: self.method, url: url_text(self.url), body: self.body.deep_view() }
    }
}

/// What the service sent back: the status code and the whole body.
#[derive(Debug, Clone, PartialEq, Eq)]
pub struct HttpReply {
    pub status: u16,
    pub body: Vec<u8>,
}

/// The query of a store request: one pair for each parameter that is given,
/// in the order `epochs`, `deletable`, `permanent`, `send_object_to`. A
/// parameter that is not given leaves no trace.
pub open spec fn store_pairs(
    epochs: Option<u64>,
    deletable: Option<bool>,
    permanent: Option<bool>,
    send_object_to: Option<Seq<char>>,
) -> Seq<(Seq<char>, Seq<char>)> {
    let first: Seq<(Seq<char>, Seq<char>)> = match epochs {
        Some(count) => seq![("epochs"@, decimal_text(count as nat))],
        None => seq![],
    };
    let second: Seq<(Seq<char>, Seq<char>)> = match deletable {
        Some(flag) => seq![("deletable"@, bool_text(flag))],
        None => seq![],
    };
    let third: Seq<(Seq<char>, Seq<char>)> = match permanent {
        Some(flag) => seq![("permanent"@, bool_text(flag))],
        None => seq![],
    };
    let fourth: Seq<(Seq<char>, Seq<char>)> = match send_object_to {
        Some(address) => seq![("send_object_to"@, address)],
        None => seq![],
    };
    first + second + third + fourth
}

/// Builds the query of a store request from the parameters that are given.
pub fn store_query(
    epochs: Option<u64>,
    deletable: Option<bool>,
    permanent: Option<bool>,
    send_object_to: Option<&str>,
) -> (pairs: Vec<(String, String)>)
    ensures
        pairs.deep_view() == store_pairs(epochs, deletable, permanent, send_object_to.deep_view()),
{
    let mut pairs: Vec<(String, String)> = Vec::new();
    if let Some(count) = epochs {
        pairs.push((String::from_str("epochs"), decimal(count)));
    }
    if let Some(flag) = deletable {
        pairs.push((String::from_str("deletable"), String::from_str(bool_word(flag))));
    }
    if let Some(flag) = permanent {
        pairs.push((String::from_str("permanent"), String::from_str(bool_word(flag))));
    }
    if let Some(address) = send_object_to {
        pairs.push((String::from_str("send_object_to"), String::from_str(address)));
    }
    assert(pairs.deep_view() =~= store_pairs(
        epochs,
        deletable,
        permanent,
        send_object_to.deep_view(),
    ));
    pairs
}

/// Whether a status code reports a failure of the client or of the server.
pub open spec fn is_failure_status(status: u16) -> bool {
    400 <= status < 600
}

/// The diagnostic of a failure reply: the body where it is text and not
/// empty, else a line that names the status.
pub open spec fn failure_detail(status: u16, body: Seq<u8>) -> Seq<char> {
    if body.len() > 0 && valid_utf8(body) {
        decode_utf8(body)
    } else {
        "HTTP status "@ + decimal_text(status as nat)
    }
}

/// What one exchange yields to the operation that made it: the body of a
/// reply that reports no failure, or the failure.
pub open spec fn reply_content(outcome: Result<HttpReply, reqwest::Error>) -> Result<
    Seq<u8>,
    ErrorView,
> {
    match outcome {
        Err(cause) => Err(ErrorView::HttpRequest(cause)),
        Ok(reply) => if is_failure_status(reply.status) {
            Err(ErrorView::ApiError(reply.status, failure_detail(reply.status, reply.body@)))
        } else {
            Ok(reply.body@)
        },
    }
}

/// A reply with a status from 400 to 599 is an `ApiError` that carries the
/// status, whatever its body holds.
pub proof fn lemma_failure_status_is_api_error(reply: HttpReply)
    requires
        is_failure_status(reply.status),
    ensures
        reply_content(Ok(reply)) == Err::<Seq<u8>, ErrorView>(
            ErrorView::ApiError(reply.status, failure_detail(reply.status, reply.body@)),
        ),
{
}

/// The body of a reply with any other status is handed out unmodified.
pub proof fn lemma_other_status_gives_the_body(reply: HttpReply)
    requires
        !is_failure_status(reply.status),
    ensures
        reply_content(Ok(reply)) == Ok::<Seq<u8>, ErrorView>(reply.body@),
{
}

/// Where no parameter is given the query is empty, and the endpoint URL is
/// the resolved reference with nothing appended to it.
pub proof fn lemma_no_parameters_no_query(base: Seq<char>, reference: Seq<char>)
    ensures
        store_pairs(None, None, None, None) == Seq::<(Seq<char>, Seq<char>)>::empty(),
        endpoint_text(base, reference, store_pairs(None, None, None, None)) == match joined_url(
            base,
            reference,
        ) {
            Ok(joined) => Ok::<Seq<char>, Seq<char>>(joined),
            Err(complaint) => Err("Failed to build URL: "@ + complaint),
        },
{
}

/// Each parameter that is given adds exactly one pair to the query.
pub proof fn lemma_one_pair_for_each_parameter(
    epochs: Option<u64>,
    deletable: Option<bool>,
    permanent: Option<bool>,
    send_object_to: Option<Seq<char>>,
)
    ensures
        store_pairs(epochs, deletable, permanent, send_object_to).len() == (if epochs is Some {
            1nat
        } else {
            0nat
        }) + (if deletable is Some {
            1nat
        } else {
            0nat
        }) + (if permanent is Some {
            1nat
        } else {
            0nat
        }) + (if send_object_to is Some {
            1nat
        } else {
            0nat
        }),
{
}

/// The deep view of a byte vector is its view.
pub proof fn lemma_bytes_deep_view(bytes: Vec<u8>)
    ensures
        bytes.deep_view() == bytes@,
{
}

fn describe_failure(status: u16, body: &Vec<u8>) -> (detail: String)
    ensures
        detail@ == failure_detail(status, body@),
{
    if body.len() > 0 {
        if let Ok(text) = core::str::from_utf8(body.as_slice()) {
            return String::from_str(text);
        }
    }
    prefixed("HTTP status ", decimal(status as u64).as_str())
}

/// Reads the outcome of one exchange. A transport failure is passed on; a
/// reply with a status from 400 to 599 is a failure that carries the status,
/// whatever its body; the body of any other reply is handed out untouched.
pub fn reply_body(outcome: Result<HttpReply, reqwest::Error>) -> (content: Result<
    Vec<u8>,
    WalrusError,
>)
    ensures
        outcome_view(content) == reply_content(outcome),
{
    match outcome {
        Err(cause) => Err(WalrusError::HttpRequest(cause)),
        Ok(reply) => {
            if 400 <= reply.status && reply.status < 600 {
                let detail = describe_failure(reply.status, &reply.body);
                Err(WalrusError::ApiError(reply.status, detail))
            } else {
                proof {
                    lemma_bytes_deep_view(reply.body);
                }
                Ok(reply.body)
            }
        },
    }
}

} // verus!
