//! Quilt operations: store a bundle of named payloads as one unit, read one
//! member back by its patch id or by quilt id and identifier.

use vstd::prelude::*;
use vstd::string::*;
use vstd::utf8::encode_utf8;
use crate::blob::{read_plan, read_request, write_plan};
use crate::client::WalrusClient;
use crate::error::{outcome_view, ErrorView, WalrusError};
use crate::http::{
    failure_detail,
    is_failure_status,
    lemma_bytes_deep_view,
    reply_body,
    reply_content,
    store_pairs,
    store_query,
    BodyView,
    FormPart,
    HttpMethod,
    HttpReply,
    HttpRequest,
    RequestBody,
    RequestView,
};
use crate::json::{json_document, json_literal, quote, quoted_json, Json};
use crate::models::{
    texts_of,
    QuiltMetadata,
    QuiltMetadataView,
    QuiltStoreResponse,
    QuiltStoreResponseView,
};
use crate::text::prefixed;
use crate::web::{endpoint, endpoint_text, item_text};

verus! {

/// The description of one member with every string written as a JSON
/// string literal: what is left to do is to put the literals together.
#[derive(Debug, Clone, PartialEq, Eq)]
pub struct QuotedMetadata {
    /// The literal of the identifier.
    pub identifier: String,
    /// The literals of each tag's name and value.
    pub tags: Vec<(String, String)>,
}

impl DeepView for QuotedMetadata {
    type V = QuiltMetadataView;

    open spec fn deep_view(&self) -> QuiltMetadataView {
        QuiltMetadataView { identifier: self.identifier@, tags: self.tags.deep_view() }
    }
}

/// What goes between two items of a JSON list: nothing before the first, a
/// comma before each of the others.
pub open spec fn separator(written: int) -> Seq<char> {
    if written == 0 {
        Seq::empty()
    } else {
        ","@
    }
}

/// The members of a JSON object from the literals of their names and
/// values, in their order, with commas between them.
pub open spec fn members_text(tags: Seq<(Seq<char>, Seq<char>)>) -> Seq<char>
    decreases tags.len(),
{
    if tags.len() == 0 {
        Seq::empty()
    } else {
        members_text(tags.drop_last()) + separator(tags.len() - 1) + tags.last().0 + ":"@
            + tags.last().1
    }
}

/// One description as a JSON object with the members `identifier` and
/// `tags`, from its literals.
pub open spec fn entry_text(entry: QuiltMetadataView) -> Seq<char> {
    "{\"identifier\":"@ + entry.identifier + ",\"tags\":{"@ + members_text(entry.tags) + "}}"@
}

/// The items of a JSON array, one object for each description, with commas
/// between them.
pub open spec fn entries_text(entries: Seq<QuiltMetadataView>) -> Seq<char>
    decreases entries.len(),
{
    if entries.len() == 0 {
        Seq::empty()
    } else {
        entries_text(entries.drop_last()) + separator(entries.len() - 1) + entry_text(
            entries.last(),
        )
    }
}

/// The JSON text of the `_metadata` part from the literals of its strings:
/// an array with one object for each description.
pub open spec fn metadata_text(entries: Seq<QuiltMetadataView>) -> Seq<char> {
    "["@ + entries_text(entries) + "]"@
}

/// One tag with its name and value as JSON string literals, or the complaint
/// about the first of the two that cannot be written.
pub open spec fn quoted_tag(tag: (Seq<char>, Seq<char>)) -> Result<(Seq<char>, Seq<char>), Seq<char>> {
    match quoted_json(tag.0) {
        Err(complaint) => Err(complaint),
        Ok(name) => match quoted_json(tag.1) {
            Err(complaint) => Err(complaint),
            Ok(value) => Ok((name, value)),
        },
    }
}

/// The tags with their strings as literals, or the complaint about the
/// first string that cannot be written.
pub open spec fn quoted_tags(tags: Seq<(Seq<char>, Seq<char>)>) -> Result<
    Seq<(Seq<char>, Seq<char>)>,
    Seq<char>,
>
    decreases tags.len(),
{
    if tags.len() == 0 {
        Ok(Seq::empty())
    } else {
        match quoted_tags(tags.drop_last()) {
            Err(complaint) => Err(complaint),
            Ok(head) => match quoted_tag(tags.last()) {
                Err(complaint) => Err(complaint),
                Ok(tag) => Ok(head.push(tag)),
            },
        }
    }
}

/// One description with its strings as literals.
pub open spec fn quoted_entry(entry: QuiltMetadataView) -> Result<QuiltMetadataView, Seq<char>> {
    match quoted_json(entry.identifier) {
        Err(complaint) => Err(complaint),
        Ok(identifier) => match quoted_tags(entry.tags) {
            Err(complaint) => Err(complaint),
            Ok(tags) => Ok(QuiltMetadataView { identifier, tags }),
        },
    }
}

/// The descriptions with their strings as literals, or the complaint about
/// the first string that cannot be written.
pub open spec fn quoted_entries(entries: Seq<QuiltMetadataView>) -> Result<
    Seq<QuiltMetadataView>,
    Seq<char>,
>
    decreases entries.len(),
{
    if entries.len() == 0 {
        Ok(Seq::empty())
    } else {
        match quoted_entries(entries.drop_last()) {
            Err(complaint) => Err(complaint),
            Ok(head) => match quoted_entry(entries.last()) {
                Err(complaint) => Err(complaint),
                Ok(entry) => Ok(head.push(entry)),
            },
        }
    }
}

/// The JSON text of the `_metadata` part: an array with one object for each
/// description, or the complaint about the first string that cannot be
/// written.
pub open spec fn metadata_json(entries: Seq<QuiltMetadataView>) -> Result<Seq<char>, Seq<char>> {
    match quoted_entries(entries) {
        Err(complaint) => Err(complaint),
        Ok(quoted) => Ok(metadata_text(quoted)),
    }
}

/// The tags with each name and value as its JSON string literal.
pub open spec fn literal_tags(tags: Seq<(Seq<char>, Seq<char>)>) -> Seq<(Seq<char>, Seq<char>)> {
    Seq::new(tags.len(), |i: int| (json_literal(tags[i].0), json_literal(tags[i].1)))
}

/// A description with each of its strings as its JSON string literal.
pub open spec fn literal_entry(entry: QuiltMetadataView) -> QuiltMetadataView {
    QuiltMetadataView {
        identifier: json_literal(entry.identifier),
        tags: literal_tags(entry.tags),
    }
}

/// The descriptions with each of their strings as its JSON string literal.
pub open spec fn literal_entries(entries: Seq<QuiltMetadataView>) -> Seq<QuiltMetadataView> {
    Seq::new(entries.len(), |i: int| literal_entry(entries[i]))
}

/// The content of a list of quoted things, or the complaint.
pub open spec fn quoted_view<T: DeepView>(quoted: Result<T, String>) -> Result<T::V, Seq<char>> {
    match quoted {
        Ok(value) => Ok(value.deep_view()),
        Err(complaint) => Err(complaint@),
    }
}

/// Once a prefix of the tags cannot be written, no longer prefix can, and
/// the complaint stays the same.
proof fn lemma_quoted_tags_fail(tags: Seq<(Seq<char>, Seq<char>)>, upto: int)
    requires
        0 <= upto <= tags.len(),
        quoted_tags(tags.subrange(0, upto)) is Err,
    ensures
        quoted_tags(tags) == quoted_tags(tags.subrange(0, upto)),
    decreases tags.len() - upto,
{
    if upto == tags.len() {
        assert(tags.subrange(0, upto) =~= tags);
    } else {
        let longer = tags.subrange(0, upto + 1);
        assert(longer.drop_last() =~= tags.subrange(0, upto));
        lemma_quoted_tags_fail(tags, upto + 1);
    }
}

/// Once a prefix of the descriptions cannot be written, no longer prefix
/// can, and the complaint stays the same.
proof fn lemma_quoted_entries_fail(entries: Seq<QuiltMetadataView>, upto: int)
    requires
        0 <= upto <= entries.len(),
        quoted_entries(entries.subrange(0, upto)) is Err,
    ensures
        quoted_entries(entries) == quoted_entries(entries.subrange(0, upto)),
    decreases entries.len() - upto,
{
    if upto == entries.len() {
        assert(entries.subrange(0, upto) =~= entries);
    } else {
        let longer = entries.subrange(0, upto + 1);
        assert(longer.drop_last() =~= entries.subrange(0, upto));
        lemma_quoted_entries_fail(entries, upto + 1);
    }
}

fn quote_tags(tags: &Vec<(String, String)>) -> (quoted: Result<Vec<(String, String)>, String>)
    ensures
        quoted_view(quoted) == quoted_tags(tags.deep_view()),
        quoted matches Ok(literals) ==> literals.deep_view() == literal_tags(tags.deep_view()),
{
    let ghost all = tags.deep_view();
    let mut quoted: Vec<(String, String)> = Vec::new();
    let mut i: usize = 0;
    proof {
        assert(all.subrange(0, 0) =~= Seq::empty());
        assert(quoted.deep_view() =~= Seq::empty());
    }
    while i < tags.len()
        invariant
            i <= tags.len(),
            all == tags.deep_view(),
            quoted_tags(all.subrange(0, i as int)) == Ok::<
                Seq<(Seq<char>, Seq<char>)>,
                Seq<char>,
            >(quoted.deep_view()),
            quoted.deep_view() == literal_tags(all.subrange(0, i as int)),
        decreases tags.len() - i,
    {
        let ghost upto = all.subrange(0, i + 1);
        let ghost before = quoted.deep_view();
        proof {
            assert(upto.drop_last() =~= all.subrange(0, i as int));
            assert(upto.last() == (tags@[i as int].0@, tags@[i as int].1@));
        }
        let name = match quote(tags[i].0.as_str()) {
            Ok(literal) => literal,
            Err(complaint) => {
                proof {
                    lemma_quoted_tags_fail(all, i + 1);
                }
                return Err(complaint);
            },
        };
        let value = match quote(tags[i].1.as_str()) {
            Ok(literal) => literal,
            Err(complaint) => {
                proof {
                    lemma_quoted_tags_fail(all, i + 1);
                }
                return Err(complaint);
            },
        };
        quoted.push((name, value));
        proof {
            assert(quoted.deep_view() =~= before.push((name@, value@)));
            assert(quoted.deep_view() =~= literal_tags(upto));
        }
        i += 1;
    }
    proof {
        assert(all.subrange(0, all.len() as int) =~= all);
    }
    Ok(quoted)
}

/// Writes every string of the descriptions as a JSON string literal. On
/// failure the text says what the writer found wrong with the first string
/// that it could not write.
pub fn quote_metadata(entries: &Vec<QuiltMetadata>) -> (quoted: Result<
    Vec<QuotedMetadata>,
    String,
>)
    ensures
        quoted_view(quoted) == quoted_entries(entries.deep_view()),
        quoted matches Ok(literals) ==> literals.deep_view() == literal_entries(
            entries.deep_view(),
        ),
{
    let ghost all = entries.deep_view();
    let mut quoted: Vec<QuotedMetadata> = Vec::new();
    let mut i: usize = 0;
    proof {
        assert(all.subrange(0, 0) =~= Seq::empty());
        assert(quoted.deep_view() =~= Seq::empty());
    }
    while i < entries.len()
        invariant
            i <= entries.len(),
            all == entries.deep_view(),
            quoted_entries(all.subrange(0, i as int)) == Ok::<Seq<QuiltMetadataView>, Seq<char>>(
                quoted.deep_view(),
            ),
            quoted.deep_view() == literal_entries(all.subrange(0, i as int)),
        decreases entries.len() - i,
    {
        let ghost upto = all.subrange(0, i + 1);
        let ghost before = quoted.deep_view();
        proof {
            assert(upto.drop_last() =~= all.subrange(0, i as int));
            assert(upto.last() == entries@[i as int].deep_view());
        }
        let identifier = match quote(entries[i].identifier().as_str()) {
            Ok(literal) => literal,
            Err(complaint) => {
                proof {
                    lemma_quoted_entries_fail(all, i + 1);
                }
                return Err(complaint);
            },
        };
        let tags = match quote_tags(entries[i].tags()) {
            Ok(tags) => tags,
            Err(complaint) => {
                proof {
                    lemma_quoted_entries_fail(all, i + 1);
                }
                return Err(complaint);
            },
        };
        let entry = QuotedMetadata { identifier, tags };
        quoted.push(entry);
        proof {
            assert(quoted.deep_view() =~= before.push(entry.deep_view()));
            assert(quoted.deep_view() =~= literal_entries(upto));
        }
        i += 1;
    }
    proof {
        assert(all.subrange(0, all.len() as int) =~= all);
    }
    Ok(quoted)
}

fn write_members(tags: &Vec<(String, String)>) -> (text: String)
    ensures
        text@ == members_text(tags.deep_view()),
{
    let ghost all = tags.deep_view();
    let mut text = String::new();
    let mut i: usize = 0;
    proof {
        assert(all.subrange(0, 0) =~= Seq::empty());
    }
    while i < tags.len()
        invariant
            i <= tags.len(),
            all == tags.deep_view(),
            text@ == members_text(all.subrange(0, i as int)),
        decreases tags.len() - i,
    {
        let ghost upto = all.subrange(0, i + 1);
        proof {
            assert(upto.drop_last() =~= all.subrange(0, i as int));
            assert(upto.last() == (tags@[i as int].0@, tags@[i as int].1@));
        }
        if i > 0 {
            text.append(",");
        }
        text.append(tags[i].0.as_str());
        text.append(":");
        text.append(tags[i].1.as_str());
        i += 1;
    }
    proof {
        assert(all.subrange(0, all.len() as int) =~= all);
    }
    text
}

/// Puts the JSON text of the `_metadata` part together from the literals of
/// its strings.
pub fn write_quoted_metadata(entries: &Vec<QuotedMetadata>) -> (text: String)
    ensures
        text@ == metadata_text(entries.deep_view()),
{
    let ghost all = entries.deep_view();
    let mut text = String::from_str("[");
    let ghost mut items = Seq::<char>::empty();
    let mut i: usize = 0;
    proof {
        assert(all.subrange(0, 0) =~= Seq::empty());
        assert(text@ =~= "["@ + items);
    }
    while i < entries.len()
        invariant
            i <= entries.len(),
            all == entries.deep_view(),
            items == entries_text(all.subrange(0, i as int)),
            text@ == "["@ + items,
        decreases entries.len() - i,
    {
        let ghost upto = all.subrange(0, i + 1);
        proof {
            assert(upto.drop_last() =~= all.subrange(0, i as int));
            assert(upto.last() == entries@[i as int].deep_view());
        }
        let members = write_members(&entries[i].tags);
        if i > 0 {
            text.append(",");
        }
        text.append("{\"identifier\":");
        text.append(entries[i].identifier.as_str());
        text.append(",\"tags\":{");
        text.append(members.as_str());
        text.append("}}");
        proof {
            items = entries_text(upto);
            assert(text@ =~= "["@ + items);
        }
        i += 1;
    }
    proof {
        assert(all.subrange(0, all.len() as int) =~= all);
    }
    text.append("]");
    text
}

/// Writes the descriptions of a quilt's members as the JSON text of the
/// `_metadata` part. On failure the text says what the writer found wrong.
pub fn write_metadata(entries: &Vec<QuiltMetadata>) -> (written: Result<String, String>)
    ensures
        match written {
            Ok(text) => metadata_json(entries.deep_view()) == Ok::<Seq<char>, Seq<char>>(text@),
            Err(complaint) => metadata_json(entries.deep_view()) == Err::<Seq<char>, Seq<char>>(
                complaint@,
            ),
        },
        written matches Ok(text) ==> text@ == metadata_text(literal_entries(entries.deep_view())),
{
    match quote_metadata(entries) {
        Ok(quoted) => Ok(write_quoted_metadata(&quoted)),
        Err(complaint) => Err(complaint),
    }
}

/// The parts of the form that stores a quilt: one part for each file, keyed
/// by its identifier and holding its bytes, in the order of the files; then,
/// where there is metadata, one part keyed `_metadata` that holds its JSON
/// text.
pub open spec fn quilt_parts(files: Seq<(Seq<char>, Seq<u8>)>, metadata: Option<Seq<char>>) -> Seq<
    (Seq<char>, Seq<u8>),
> {
    match metadata {
        Some(text) => files.push(("_metadata"@, encode_utf8(text))),
        None => files,
    }
}

/// Puts together the parts of the form that stores a quilt. `metadata` is
/// the JSON text of the descriptions, where there are any.
pub fn build_quilt_parts(files: Vec<(&str, Vec<u8>)>, metadata: Option<String>) -> (parts: Vec<
    FormPart,
>)
    ensures
        parts.deep_view() == quilt_parts(files.deep_view(), metadata.deep_view()),
{
    let ghost all = files.deep_view();
    let ghost items = files@;
    let mut parts: Vec<FormPart> = Vec::new();
    for file in iter: files
        invariant
            iter.seq() == items,
            all.len() == items.len(),
            forall|j: int| 0 <= j < items.len() ==> all[j] == (items[j].0@, items[j].1@),
            parts.deep_view() == all.subrange(0, iter.index()),
    {
        let ghost before = parts.deep_view();
        let (identifier, content) = file;
        parts.push(FormPart { name: String::from_str(identifier), content });
        proof {
            assert(before.push(all[iter.index()]) =~= all.subrange(0, iter.index() + 1));
        }
    }
    if let Some(text) = metadata {
        let ghost before = parts.deep_view();
        parts.push(
            FormPart { name: String::from_str("_metadata"), content: text.as_str().as_bytes_vec() },
        );
        proof {
            assert(parts.deep_view() =~= before.push(("_metadata"@, encode_utf8(text@))));
        }
    }
    parts
}

/// What the body of a reply to storing a quilt holds: the response that its
/// JSON document spells out, or the reason why it spells out none.
pub open spec fn quilt_store_response_of(body: Seq<u8>) -> Result<
    QuiltStoreResponseView,
    ErrorView,
> {
    match json_document(body) {
        Err(complaint) => Err(
            ErrorView::ParseError("Failed to parse QuiltStoreResponse: "@ + complaint),
        ),
        Ok(tree) => match QuiltStoreResponse::read(tree) {
            Some(response) => Ok(response),
            None => Err(
                ErrorView::ParseError(
                    "Failed to parse QuiltStoreResponse: the reply does not have the expected shape"@,
                ),
            ),
        },
    }
}

/// The identifiers of the files of a quilt, in their order.
pub open spec fn identifiers_of(files: Seq<(Seq<char>, Seq<u8>)>) -> Seq<Seq<char>> {
    Seq::new(files.len(), |i: int| files[i].0)
}

/// A response that answers the submission of these identifiers, or the
/// failure to do so: a reply must list as many members as files were
/// submitted, and each identifier as often as it was submitted.
pub open spec fn answering(response: QuiltStoreResponseView, identifiers: Seq<Seq<char>>) -> Result<
    QuiltStoreResponseView,
    ErrorView,
> {
    if response.answers(identifiers) {
        Ok(response)
    } else {
        Err(
            ErrorView::ParseError(
                "Failed to parse QuiltStoreResponse: the reply does not list the files that were stored"@,
            ),
        )
    }
}

/// What storing a quilt of files with these identifiers comes to, given the
/// outcome of its exchange.
pub open spec fn store_quilt_outcome(
    outcome: Result<HttpReply, reqwest::Error>,
    identifiers: Seq<Seq<char>>,
) -> Result<QuiltStoreResponseView, ErrorView> {
    match reply_content(outcome) {
        Err(failure) => Err(failure),
        Ok(body) => match quilt_store_response_of(body) {
            Err(failure) => Err(failure),
            Ok(response) => answering(response, identifiers),
        },
    }
}

/// A quilt is stored only where the reply lists one member for each file
/// that was submitted, under the identifiers that were submitted.
pub proof fn lemma_stored_quilt_answers(
    outcome: Result<HttpReply, reqwest::Error>,
    identifiers: Seq<Seq<char>>,
)
    requires
        store_quilt_outcome(outcome, identifiers) is Ok,
    ensures
        store_quilt_outcome(outcome, identifiers)->Ok_0.answers(identifiers),
        store_quilt_outcome(outcome, identifiers)->Ok_0.stored_quilt_blobs.len()
            == identifiers.len(),
{
}

/// A reply to storing a quilt with a status from 400 to 599 is an
/// `ApiError` that carries the status, whatever its body holds.
pub proof fn lemma_store_quilt_failure_status(reply: HttpReply, identifiers: Seq<Seq<char>>)
    requires
        is_failure_status(reply.status),
    ensures
        store_quilt_outcome(Ok(reply), identifiers) == Err::<QuiltStoreResponseView, ErrorView>(
            ErrorView::ApiError(reply.status, failure_detail(reply.status, reply.body@)),
        ),
{
}

/// A reply to storing a quilt that reports no failure and whose body is no
/// JSON document is a `ParseError`.
pub proof fn lemma_store_quilt_malformed_body(reply: HttpReply, identifiers: Seq<Seq<char>>)
    requires
        !is_failure_status(reply.status),
        json_document(reply.body@) is Err,
    ensures
        store_quilt_outcome(Ok(reply), identifiers) is Err,
        store_quilt_outcome(Ok(reply), identifiers)->Err_0 is ParseError,
{
}

/// Decodes the body of a reply to storing a quilt. A body that is no JSON
/// document, or a document of another shape, is a `ParseError`.
pub fn decode_quilt_store_response(body: &[u8]) -> (decoded: Result<
    QuiltStoreResponse,
    WalrusError,
>)
    ensures
        outcome_view(decoded) == quilt_store_response_of(body@),
{
    match Json::parse(body) {
        Err(complaint) => Err(
            WalrusError::ParseError(
                prefixed("Failed to parse QuiltStoreResponse: ", complaint.as_str()),
            ),
        ),
        Ok(tree) => match QuiltStoreResponse::from_json(&tree) {
            Some(response) => Ok(response),
            None => Err(
                WalrusError::ParseError(
                    String::from_str(
                        "Failed to parse QuiltStoreResponse: the reply does not have the expected shape",
                    ),
                ),
            ),
        },
    }
}

/// The deep view of a list of descriptions, where there is one.
pub open spec fn metadata_view(metadata: Option<Vec<QuiltMetadata>>) -> Option<
    Seq<QuiltMetadataView>,
> {
    match metadata {
        Some(entries) => Some(entries.deep_view()),
        None => None,
    }
}

/// Quilt operations bound to a client, which they borrow.
pub struct QuiltClient<'a> {
    client: &'a WalrusClient,
}

impl<'a> QuiltClient<'a> {
    /// The client that the operations are bound to.
    pub closed spec fn client(self) -> WalrusClient {
        *self.client
    }

    /// Binds the quilt operations to `client`.
    pub fn new(client: &'a WalrusClient) -> (quilt: Self)
        ensures
            quilt.client() == *client,
    {
        Self { client }
    }

    /// The request that stores a quilt: a `Put` of a multipart form to
    /// `v1/quilts` at the publisher, with the query of a store request. A
    /// URL that cannot be built is reported first; metadata that cannot be
    /// written is a `ParseError`, and no request comes of it.
    pub open spec fn store_quilt_plan(
        self,
        files: Seq<(Seq<char>, Seq<u8>)>,
        metadata: Option<Seq<QuiltMetadataView>>,
        epochs: Option<u64>,
        deletable: Option<bool>,
        permanent: Option<bool>,
        send_object_to: Option<Seq<char>>,
    ) -> Result<RequestView, ErrorView> {
        let url = endpoint_text(
            self.client().publisher(),
            "v1/quilts"@,
            store_pairs(epochs, deletable, permanent, send_object_to),
        );
        match (url, metadata) {
            (Err(complaint), _) => Err(ErrorView::InvalidUrl(complaint)),
            (Ok(_), None) => write_plan(url, BodyView::Multipart(quilt_parts(files, None))),
            (Ok(_), Some(entries)) => match metadata_json(entries) {
                Err(complaint) => Err(
                    ErrorView::ParseError("Failed to serialize metadata: "@ + complaint),
                ),
                Ok(text) => write_plan(url, BodyView::Multipart(quilt_parts(files, Some(text)))),
            },
        }
    }

    /// The request that reads the member with this patch id: a `Get` of
    /// `v1/blobs/by-quilt-patch-id/{patch_id}` at the aggregator, the id as
    /// one escaped segment.
    pub open spec fn read_quilt_blob_by_patch_id_plan(self, quilt_patch_id: Seq<char>) -> Result<
        RequestView,
        ErrorView,
    > {
        read_plan(
            item_text(
                self.client().aggregator(),
                "v1/blobs/by-quilt-patch-id"@,
                seq![quilt_patch_id],
            ),
        )
    }

    /// The request that reads the member `identifier` of the quilt
    /// `quilt_id`: a `Get` of `v1/blobs/by-quilt-id/{quilt_id}/{identifier}`
    /// at the aggregator, each of the two as one escaped segment.
    pub open spec fn read_quilt_blob_by_quilt_id_and_identifier_plan(
        self,
        quilt_id: Seq<char>,
        identifier: Seq<char>,
    ) -> Result<RequestView, ErrorView> {
        read_plan(
            item_text(
                self.client().aggregator(),
                "v1/blobs/by-quilt-id"@,
                seq![quilt_id, identifier],
            ),
        )
    }

    /// Builds the request that stores a quilt of `files`, each an identifier
    /// with its payload.
    pub fn store_quilt_request(
        &self,
        files: Vec<(&str, Vec<u8>)>,
        metadata: Option<Vec<QuiltMetadata>>,
        epochs: Option<u64>,
        deletable: Option<bool>,
        permanent: Option<bool>,
        send_object_to: Option<&str>,
    ) -> (request: Result<HttpRequest, WalrusError>)
        ensures
            outcome_view(request) == self.store_quilt_plan(
                files.deep_view(),
                metadata_view(metadata),
                epochs,
                deletable,
                permanent,
                send_object_to.deep_view(),
            ),
            request matches Ok(built) ==> built.deep_view().body == BodyView::Multipart(
                quilt_parts(
                    files.deep_view(),
                    match metadata {
                        Some(entries) => Some(metadata_text(literal_entries(entries.deep_view()))),
                        None => None,
                    },
                ),
            ),
    {
        let pairs = store_query(epochs, deletable, permanent, send_object_to);
        let url = match endpoint(self.client.publisher_url(), "v1/quilts", &pairs) {
            Ok(url) => url,
            Err(failure) => {
                return Err(failure);
            },
        };
        let text = match metadata {
            None => None,
            Some(entries) => match write_metadata(&entries) {
                Ok(text) => Some(text),
                Err(complaint) => {
                    return Err(
                        WalrusError::ParseError(
                            prefixed("Failed to serialize metadata: ", complaint.as_str()),
                        ),
                    );
                },
            },
        };
        let parts = build_quilt_parts(files, text);
        Ok(HttpRequest { method: HttpMethod::Put, url, body: RequestBody::Multipart(parts) })
    }

    /// Reads the outcome of the exchange in which the files with these
    /// identifiers were stored as a quilt. A reply that does not list one
    /// member for each of them is a `ParseError`.
    pub fn store_quilt_result(
        outcome: Result<HttpReply, reqwest::Error>,
        identifiers: &[&str],
    ) -> (result: Result<QuiltStoreResponse, WalrusError>)
        ensures
            outcome_view(result) == store_quilt_outcome(outcome, texts_of(identifiers@)),
    {
        let body = match reply_body(outcome) {
            Err(failure) => {
                return Err(failure);
            },
            Ok(body) => body,
        };
        proof {
            lemma_bytes_deep_view(body);
        }
        match decode_quilt_store_response(body.as_slice()) {
            Err(failure) => Err(failure),
            Ok(response) => {
                if response.answers(identifiers) {
                    Ok(response)
                } else {
                    Err(
                        WalrusError::ParseError(
                            String::from_str(
                                "Failed to parse QuiltStoreResponse: the reply does not list the files that were stored",
                            ),
                        ),
                    )
                }
            },
        }
    }

    /// Lists the identifiers of the files of a quilt, in their order.
    pub fn identifiers<'b>(files: &Vec<(&'b str, Vec<u8>)>) -> (names: Vec<&'b str>)
        ensures
            texts_of(names@) == identifiers_of(files.deep_view()),
    {
        let mut names: Vec<&'b str> = Vec::new();
        let mut i: usize = 0;
        while i < files.len()
            invariant
                i <= files.len(),
                names@.len() == i,
                forall|j: int| 0 <= j < i ==> names@[j]@ == files@[j].0@,
            decreases files.len() - i,
        {
            names.push(files[i].0);
            i += 1;
        }
        proof {
            assert(texts_of(names@) =~= identifiers_of(files.deep_view()));
        }
        names
    }

    /// Stores a quilt in one exchange: builds the request, hands it to
    /// `send` once, and reads what came back. Where the request cannot be
    /// built, nothing is sent. A reply counts only where it lists one member
    /// for each file.
    pub fn store_quilt<F: FnOnce(HttpRequest) -> Result<HttpReply, reqwest::Error>>(
        &self,
        files: Vec<(&str, Vec<u8>)>,
        metadata: Option<Vec<QuiltMetadata>>,
        epochs: Option<u64>,
        deletable: Option<bool>,
        permanent: Option<bool>,
        send_object_to: Option<&str>,
        send: F,
    ) -> (result: Result<QuiltStoreResponse, WalrusError>)
        requires
            forall|request: HttpRequest|
                self.store_quilt_plan(
                    files.deep_view(),
                    metadata_view(metadata),
                    epochs,
                    deletable,
                    permanent,
                    send_object_to.deep_view(),
                ) == Ok::<RequestView, ErrorView>(
                    request.deep_view(),
                ) ==> #[trigger] call_requires(send, (request,)),
        ensures
            match self.store_quilt_plan(
                files.deep_view(),
                metadata_view(metadata),
                epochs,
                deletable,
                permanent,
                send_object_to.deep_view(),
            ) {
                Err(failure) => outcome_view(result) == Err::<QuiltStoreResponseView, ErrorView>(
                    failure,
                ),
                Ok(plan) => exists|request: HttpRequest, outcome: Result<HttpReply, reqwest::Error>|
                    request.deep_view() == plan && #[trigger] call_ensures(
                        send,
                        (request,),
                        outcome,
                    ) && outcome_view(result) == store_quilt_outcome(
                        outcome,
                        identifiers_of(files.deep_view()),
                    ),
            },
    {
        let names = Self::identifiers(&files);
        let request = match self.store_quilt_request(
            files,
            metadata,
            epochs,
            deletable,
            permanent,
            send_object_to,
        ) {
            Ok(request) => request,
            Err(failure) => {
                return Err(failure);
            },
        };
        Self::store_quilt_result(send(request), names.as_slice())
    }

    /// Builds the request that reads the member with this patch id.
    pub fn read_quilt_blob_by_patch_id_request(&self, quilt_patch_id: &str) -> (request: Result<
        HttpRequest,
        WalrusError,
    >)
        ensures
            outcome_view(request) == self.read_quilt_blob_by_patch_id_plan(quilt_patch_id@),
    {
        let mut segments: Vec<&str> = Vec::new();
        segments.push(quilt_patch_id);
        assert(segments.deep_view() =~= seq![quilt_patch_id@]);
        read_request(self.client, "v1/blobs/by-quilt-patch-id", &segments)
    }

    /// Builds the request that reads the member `identifier` of the quilt
    /// `quilt_id`.
    pub fn read_quilt_blob_by_quilt_id_and_identifier_request(
        &self,
        quilt_id: &str,
        identifier: &str,
    ) -> (request: Result<HttpRequest, WalrusError>)
        ensures
            outcome_view(request) == self.read_quilt_blob_by_quilt_id_and_identifier_plan(
                quilt_id@,
                identifier@,
            ),
    {
        let mut segments: Vec<&str> = Vec::new();
        segments.push(quilt_id);
        segments.push(identifier);
        assert(segments.deep_view() =~= seq![quilt_id@, identifier@]);
        read_request(self.client, "v1/blobs/by-quilt-id", &segments)
    }

    /// Reads the member with this patch id in one exchange. On success the
    /// bytes are the body of the reply, unmodified.
    pub fn read_quilt_blob_by_patch_id<F: FnOnce(HttpRequest) -> Result<HttpReply, reqwest::Error>>(
        &self,
        quilt_patch_id: &str,
        send: F,
    ) -> (result: Result<Vec<u8>, WalrusError>)
        requires
            forall|request: HttpRequest|
                self.read_quilt_blob_by_patch_id_plan(quilt_patch_id@) == Ok::<RequestView, ErrorView>(
                    request.deep_view(),
                ) ==> #[trigger] call_requires(send, (request,)),
        ensures
            match self.read_quilt_blob_by_patch_id_plan(quilt_patch_id@) {
                Err(failure) => outcome_view(result) == Err::<Seq<u8>, ErrorView>(failure),
                Ok(plan) => exists|request: HttpRequest, outcome: Result<HttpReply, reqwest::Error>|
                    request.deep_view() == plan && #[trigger] call_ensures(
                        send,
                        (request,),
                        outcome,
                    ) && outcome_view(result) == reply_content(outcome),
            },
    {
        let request = match self.read_quilt_blob_by_patch_id_request(quilt_patch_id) {
            Ok(request) => request,
            Err(failure) => {
                return Err(failure);
            },
        };
        reply_body(send(request))
    }

    /// Reads the member `identifier` of the quilt `quilt_id` in one
    /// exchange. On success the bytes are the body of the reply, unmodified.
    pub fn read_quilt_blob_by_quilt_id_and_identifier<
        F: FnOnce(HttpRequest) -> Result<HttpReply, reqwest::Error>,
    >(&self, quilt_id: &str, identifier: &str, send: F) -> (result: Result<Vec<u8>, WalrusError>)
        requires
            forall|request: HttpRequest|
                self.read_quilt_blob_by_quilt_id_and_identifier_plan(quilt_id@, identifier@) == Ok::<RequestView, ErrorView>(
                    request.deep_view(),
                ) ==> #[trigger] call_requires(send, (request,)),
        ensures
            match self.read_quilt_blob_by_quilt_id_and_identifier_plan(quilt_id@, identifier@) {
                Err(failure) => outcome_view(result) == Err::<Seq<u8>, ErrorView>(failure),
                Ok(plan) => exists|request: HttpRequest, outcome: Result<HttpReply, reqwest::Error>|
                    request.deep_view() == plan && #[trigger] call_ensures(
                        send,
                        (request,),
                        outcome,
                    ) && outcome_view(result) == reply_content(outcome),
            },
    {
        let request = match self.read_quilt_blob_by_quilt_id_and_identifier_request(
            quilt_id,
            identifier,
        ) {
            Ok(request) => request,
            Err(failure) => {
                return Err(failure);
            },
        };
        reply_body(send(request))
    }
}

} // verus!
