//! Blob operations: store one payload, read one back by its blob id or by
//! the id of its object on chain.

use vstd::prelude::*;
use vstd::string::*;
use crate::client::WalrusClient;
use crate::error::{outcome_view, ErrorView, WalrusError};
use crate::http::{
    failure_detail,
    is_failure_status,
    lemma_bytes_deep_view,
    reply_body,
    reply_content,
    store_pairs,
    store_query,
    BodyView,
    HttpMethod,
    HttpReply,
    HttpRequest,
    RequestBody,
    RequestView,
};
use crate::json::{json_document, Json};
use crate::models::{BlobStoreResult, BlobStoreResultView};
use crate::text::prefixed;
use crate::web::{endpoint, endpoint_text, item_endpoint, item_text};

verus! {

/// The request that reads from `url`, if the URL could be built.
pub open spec fn read_plan(url: Result<Seq<char>, Seq<char>>) -> Result<RequestView, ErrorView> {
    match url {
        Ok(text) => Ok(RequestView { method: HttpMethod::Get, url: text, body: BodyView::Empty }),
        Err(complaint) => Err(ErrorView::InvalidUrl(complaint)),
    }
}

/// The request that writes `body` to `url`, if the URL could be built.
pub open spec fn write_plan(url: Result<Seq<char>, Seq<char>>, body: BodyView) -> Result<
    RequestView,
    ErrorView,
> {
    match url {
        Ok(text) => Ok(RequestView { method: HttpMethod::Put, url: text, body }),
        Err(complaint) => Err(ErrorView::InvalidUrl(complaint)),
    }
}

/// Builds the request that reads the item that `segments` name below
/// `reference` at the aggregator. Each segment is escaped here, so that it
/// is one segment of the path whatever characters it holds; `.` and `..`
/// name no segment and are refused as `InvalidUrl`.
pub fn read_request(client: &WalrusClient, reference: &str, segments: &Vec<&str>) -> (request:
    Result<HttpRequest, WalrusError>)
    ensures
        outcome_view(request) == read_plan(
            item_text(client.aggregator(), reference@, segments.deep_view()),
        ),
{
    match item_endpoint(client.aggregator_url(), reference, segments) {
        Ok(url) => Ok(HttpRequest { method: HttpMethod::Get, url, body: RequestBody::Empty }),
        Err(failure) => Err(failure),
    }
}

/// What the body of a reply to a store request holds: the outcome that its
/// JSON document names, or the reason why it names none.
pub open spec fn blob_store_result_of(body: Seq<u8>) -> Result<BlobStoreResultView, ErrorView> {
    match json_document(body) {
        Err(complaint) => Err(
            ErrorView::ParseError("Failed to parse BlobStoreResult: "@ + complaint),
        ),
        Ok(tree) => match BlobStoreResult::read(tree) {
            Some(result) => Ok(result),
            None => Err(
                ErrorView::ParseError(
                    "Failed to parse BlobStoreResult: the reply does not have the expected shape"@,
                ),
            ),
        },
    }
}

/// What a store request comes to, given the outcome of its exchange.
pub open spec fn store_blob_outcome(outcome: Result<HttpReply, reqwest::Error>) -> Result<
    BlobStoreResultView,
    ErrorView,
> {
    match reply_content(outcome) {
        Err(failure) => Err(failure),
        Ok(body) => blob_store_result_of(body),
    }
}

/// A reply to a store request with a status from 400 to 599 is an
/// `ApiError` that carries the status, whatever its body holds; it is never
/// read as an outcome.
pub proof fn lemma_store_blob_failure_status(reply: HttpReply)
    requires
        is_failure_status(reply.status),
    ensures
        store_blob_outcome(Ok(reply)) == Err::<BlobStoreResultView, ErrorView>(
            ErrorView::ApiError(reply.status, failure_detail(reply.status, reply.body@)),
        ),
{
}

/// A reply to a store request that reports no failure and whose body is no
/// JSON document is a `ParseError`.
pub proof fn lemma_store_blob_malformed_body(reply: HttpReply)
    requires
        !is_failure_status(reply.status),
        json_document(reply.body@) is Err,
    ensures
        store_blob_outcome(Ok(reply)) is Err,
        store_blob_outcome(Ok(reply))->Err_0 is ParseError,
{
}

/// A store request succeeds only on a document that names exactly one of
/// the two outcomes; a document that names both, or neither, is a
/// `ParseError`.
pub proof fn lemma_store_blob_names_one_outcome(reply: HttpReply)
    requires
        !is_failure_status(reply.status),
        json_document(reply.body@) is Ok,
    ensures
        ({
            let tree = json_document(reply.body@)->Ok_0;
            let created = tree.optional("newlyCreated"@) is Some;
            let certified = tree.optional("alreadyCertified"@) is Some;
            &&& store_blob_outcome(Ok(reply)) is Ok ==> created != certified
            &&& store_blob_outcome(Ok(reply)) matches Ok(BlobStoreResultView::NewlyCreated(_))
                ==> created && !certified
            &&& store_blob_outcome(Ok(reply)) matches Ok(BlobStoreResultView::AlreadyCertified(_))
                ==> certified && !created
            &&& created == certified ==> store_blob_outcome(Ok(reply)) is Err && store_blob_outcome(
                Ok(reply),
            )->Err_0 is ParseError
        }),
{
}

/// Decodes the body of a reply to a store request. A body that is no JSON
/// document, or a document that does not name exactly one outcome of the
/// expected shape, is a `ParseError`.
pub fn decode_blob_store_result(body: &[u8]) -> (decoded: Result<BlobStoreResult, WalrusError>)
    ensures
        outcome_view(decoded) == blob_store_result_of(body@),
{
    match Json::parse(body) {
        Err(complaint) => Err(
            WalrusError::ParseError(
                prefixed("Failed to parse BlobStoreResult: ", complaint.as_str()),
            ),
        ),
        Ok(tree) => match BlobStoreResult::from_json(&tree) {
            Some(result) => Ok(result),
            None => Err(
                WalrusError::ParseError(
                    String::from_str(
                        "Failed to parse BlobStoreResult: the reply does not have the expected shape",
                    ),
                ),
            ),
        },
    }
}

/// Blob operations bound to a client, which they borrow.
pub struct BlobClient<'a> {
    client: &'a WalrusClient,
}

impl<'a> BlobClient<'a> {
    /// The client that the operations are bound to.
    pub closed spec fn client(self) -> WalrusClient {
        *self.client
    }

    /// Binds the blob operations to `client`.
    pub fn new(client: &'a WalrusClient) -> (blob: Self)
        ensures
            blob.client() == *client,
    {
        Self { client }
    }

    /// The request that stores `data`: a `Put` of the raw bytes to
    /// `v1/blobs` at the publisher, with one query pair for each parameter
    /// that is given and no query where none is.
    pub open spec fn store_blob_plan(
        self,
        data: Seq<u8>,
        epochs: Option<u64>,
        deletable: Option<bool>,
        permanent: Option<bool>,
        send_object_to: Option<Seq<char>>,
    ) -> Result<RequestView, ErrorView> {
        write_plan(
            endpoint_text(
                self.client().publisher(),
                "v1/blobs"@,
                store_pairs(epochs, deletable, permanent, send_object_to),
            ),
            BodyView::Bytes(data),
        )
    }

    /// The request that reads the blob with this id: a `Get` of
    /// `v1/blobs/{blob_id}` at the aggregator, the id as one escaped segment.
    pub open spec fn read_blob_by_id_plan(self, blob_id: Seq<char>) -> Result<
        RequestView,
        ErrorView,
    > {
        read_plan(item_text(self.client().aggregator(), "v1/blobs"@, seq![blob_id]))
    }

    /// The request that reads the blob of this object: a `Get` of
    /// `v1/blobs/by-object-id/{object_id}` at the aggregator, the id as one
    /// escaped segment.
    pub open spec fn read_blob_by_object_id_plan(self, object_id: Seq<char>) -> Result<
        RequestView,
        ErrorView,
    > {
        read_plan(
            item_text(self.client().aggregator(), "v1/blobs/by-object-id"@, seq![object_id]),
        )
    }

    /// Builds the request that stores `data`.
    pub fn store_blob_request(
        &self,
        data: Vec<u8>,
        epochs: Option<u64>,
        deletable: Option<bool>,
        permanent: Option<bool>,
        send_object_to: Option<&str>,
    ) -> (request: Result<HttpRequest, WalrusError>)
        ensures
            outcome_view(request) == self.store_blob_plan(
                data@,
                epochs,
                deletable,
                permanent,
                send_object_to.deep_view(),
            ),
    {
        let pairs = store_query(epochs, deletable, permanent, send_object_to);
        match endpoint(self.client.publisher_url(), "v1/blobs", &pairs) {
            Ok(url) => Ok(
                HttpRequest { method: HttpMethod::Put, url, body: RequestBody::Bytes(data) },
            ),
            Err(failure) => Err(failure),
        }
    }

    /// Reads the outcome of the exchange that a store request was sent in.
    pub fn store_blob_result(outcome: Result<HttpReply, reqwest::Error>) -> (result: Result<
        BlobStoreResult,
        WalrusError,
    >)
        ensures
            outcome_view(result) == store_blob_outcome(outcome),
    {
        match reply_body(outcome) {
            Err(failure) => Err(failure),
            Ok(body) => {
                proof {
                    lemma_bytes_deep_view(body);
                }
                decode_blob_store_result(body.as_slice())
            },
        }
    }

    /// Stores `data` in one exchange: builds the request, hands it to `send`
    /// once, and reads what came back. Where the request cannot be built,
    /// nothing is sent.
    pub fn store_blob<F: FnOnce(HttpRequest) -> Result<HttpReply, reqwest::Error>>(
        &self,
        data: Vec<u8>,
        epochs: Option<u64>,
        deletable: Option<bool>,
        permanent: Option<bool>,
        send_object_to: Option<&str>,
        send: F,
    ) -> (result: Result<BlobStoreResult, WalrusError>)
        requires
            forall|request: HttpRequest|
                self.store_blob_plan(
                    data@,
                    epochs,
                    deletable,
                    permanent,
                    send_object_to.deep_view(),
                ) == Ok::<RequestView, ErrorView>(
                    request.deep_view(),
                ) ==> #[trigger] call_requires(send, (request,)),
        ensures
            match self.store_blob_plan(
                data@,
                epochs,
                deletable,
                permanent,
                send_object_to.deep_view(),
            ) {
                Err(failure) => outcome_view(result) == Err::<BlobStoreResultView, ErrorView>(
                    failure,
                ),
                Ok(plan) => exists|request: HttpRequest, outcome: Result<HttpReply, reqwest::Error>|
                    request.deep_view() == plan && #[trigger] call_ensures(
                        send,
                        (request,),
                        outcome,
                    ) && outcome_view(result) == store_blob_outcome(outcome),
            },
    {
        let request = match self.store_blob_request(
            data,
            epochs,
            deletable,
            permanent,
            send_object_to,
        ) {
            Ok(request) => request,
            Err(failure) => {
                return Err(failure);
            },
        };
        Self::store_blob_result(send(request))
    }

    /// Builds the request that reads the blob with this id. The id is
    /// escaped here, not by the caller, and stays one segment of the path.
    pub fn read_blob_by_id_request(&self, blob_id: &str) -> (request: Result<
        HttpRequest,
        WalrusError,
    >)
        ensures
            outcome_view(request) == self.read_blob_by_id_plan(blob_id@),
    {
        let mut segments: Vec<&str> = Vec::new();
        segments.push(blob_id);
        assert(segments.deep_view() =~= seq![blob_id@]);
        read_request(self.client, "v1/blobs", &segments)
    }

    /// Builds the request that reads the blob of this object.
    pub fn read_blob_by_object_id_request(&self, object_id: &str) -> (request: Result<
        HttpRequest,
        WalrusError,
    >)
        ensures
            outcome_view(request) == self.read_blob_by_object_id_plan(object_id@),
    {
        let mut segments: Vec<&str> = Vec::new();
        segments.push(object_id);
        assert(segments.deep_view() =~= seq![object_id@]);
        read_request(self.client, "v1/blobs/by-object-id", &segments)
    }

    /// Reads the blob with this id in one exchange. On success the bytes
    /// are the body of the reply, unmodified.
    pub fn read_blob_by_id<F: FnOnce(HttpRequest) -> Result<HttpReply, reqwest::Error>>(
        &self,
        blob_id: &str,
        send: F,
    ) -> (result: Result<Vec<u8>, WalrusError>)
        requires
            forall|request: HttpRequest|
                self.read_blob_by_id_plan(blob_id@) == Ok::<RequestView, ErrorView>(
                    request.deep_view(),
                ) ==> #[trigger] call_requires(send, (request,)),
        ensures
            match self.read_blob_by_id_plan(blob_id@) {
                Err(failure) => outcome_view(result) == Err::<Seq<u8>, ErrorView>(failure),
                Ok(plan) => exists|request: HttpRequest, outcome: Result<HttpReply, reqwest::Error>|
                    request.deep_view() == plan && #[trigger] call_ensures(
                        send,
                        (request,),
                        outcome,
                    ) && outcome_view(result) == reply_content(outcome),
            },
    {
        let request = match self.read_blob_by_id_request(blob_id) {
            Ok(request) => request,
            Err(failure) => {
                return Err(failure);
            },
        };
        reply_body(send(request))
    }

    /// Reads the blob of this object in one exchange. On success the bytes
    /// are the body of the reply, unmodified.
    pub fn read_blob_by_object_id<F: FnOnce(HttpRequest) -> Result<HttpReply, reqwest::Error>>(
        &self,
        object_id: &str,
        send: F,
    ) -> (result: Result<Vec<u8>, WalrusError>)
        requires
            forall|request: HttpRequest|
                self.read_blob_by_object_id_plan(object_id@) == Ok::<RequestView, ErrorView>(
                    request.deep_view(),
                ) ==> #[trigger] call_requires(send, (request,)),
        ensures
            match self.read_blob_by_object_id_plan(object_id@) {
                Err(failure) => outcome_view(result) == Err::<Seq<u8>, ErrorView>(failure),
                Ok(plan) => exists|request: HttpRequest, outcome: Result<HttpReply, reqwest::Error>|
                    request.deep_view() == plan && #[trigger] call_ensures(
                        send,
                        (request,),
                        outcome,
                    ) && outcome_view(result) == reply_content(outcome),
            },
    {
        let request = match self.read_blob_by_object_id_request(object_id) {
            Ok(request) => request,
            Err(failure) => {
                return Err(failure);
            },
        };
        reply_body(send(request))
    }
}

} // verus!
