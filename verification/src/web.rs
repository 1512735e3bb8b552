//! URLs: the outside `Url` type, what the library relies on from its parser,
//! and the verified steps that build an endpoint URL from a base.

use vstd::prelude::*;
use vstd::string::*;
use reqwest::Url;
use crate::error::{ErrorView, WalrusError};
use crate::text::prefixed;

verus! {

#[verifier::external_type_specification]
#[verifier::external_body]
pub struct ExUrl(reqwest::Url);

#[verifier::external_type_specification]
#[verifier::external_body]
pub struct ExUrlParseError(url::ParseError);

/// The serialisation of a URL: the text that `Url::as_str` gives.
pub uninterp spec fn url_text(url: Url) -> Seq<char>;

/// What `url::ParseError` prints of itself through `Display`.
pub uninterp spec fn parse_error_text(cause: url::ParseError) -> Seq<char>;

/// What `Url::parse` makes of a text: the serialisation of the absolute URL
/// that it reads, or the text of its complaint.
pub uninterp spec fn parsed_url(input: Seq<char>) -> Result<Seq<char>, Seq<char>>;

/// What `Url::join` makes of a reference read against a base URL: the
/// serialisation of the resolved URL, or the text of its complaint.
pub uninterp spec fn joined_url(base: Seq<char>, reference: Seq<char>) -> Result<
    Seq<char>,
    Seq<char>,
>;

/// The serialisation of a URL after one name/value pair has been appended to
/// its query with `Url::query_pairs_mut` and `Serializer::append_pair`.
pub uninterp spec fn url_with_pair(url: Seq<char>, name: Seq<char>, value: Seq<char>) -> Seq<
    char,
>;

/// `Url::parse` reads an absolute URL. The outcome depends on the text alone:
/// on success the URL serialises as `parsed_url` says, on failure the error
/// prints as `parsed_url` says.
pub assume_specification[ Url::parse ](input: &str) -> (parsed: Result<Url, url::ParseError>)
    ensures
        match parsed {
            Ok(url) => parsed_url(input@) == Ok::<Seq<char>, Seq<char>>(url_text(url)),
            Err(cause) => parsed_url(input@) == Err::<Seq<char>, Seq<char>>(
                parse_error_text(cause),
            ),
        },
;

/// `Url::join` resolves a reference against this URL as its base. The outcome
/// depends on the base's serialisation and the reference alone.
pub assume_specification[ Url::join ](base: &Url, input: &str) -> (joined: Result<
    Url,
    url::ParseError,
>)
    ensures
        match joined {
            Ok(url) => joined_url(url_text(*base), input@) == Ok::<Seq<char>, Seq<char>>(
                url_text(url),
            ),
            Err(cause) => joined_url(url_text(*base), input@) == Err::<Seq<char>, Seq<char>>(
                parse_error_text(cause),
            ),
        },
;

/// `Url::as_str` gives the serialisation of the URL.
pub assume_specification<'a>[ Url::as_str ](url: &'a Url) -> (text: &'a str)
    ensures
        text@ == url_text(*url),
;

/// `Display` of `url::ParseError`, through `ToString::to_string`.
#[verifier::external_body]
fn parse_error_message(cause: &url::ParseError) -> (message: String)
    ensures
        message@ == parse_error_text(*cause),
{
    cause.to_string()
}

/// The longest serialisation, in bytes, that the URL type can index.
pub const MAX_URL_BYTES: u64 = 4294967295;

/// Whether a pair can be appended to a URL of this serialisation without the
/// result outgrowing what the URL type can index. Every byte of the name and of
/// the value takes at most three bytes once escaped, and two separators are
/// added at most.
pub open spec fn pair_fits(url: Seq<char>, name: Seq<char>, value: Seq<char>) -> bool {
    vstd::utf8::encode_utf8(url).len() + 3 * (vstd::utf8::encode_utf8(name).len()
        + vstd::utf8::encode_utf8(value).len()) + 2 <= MAX_URL_BYTES
}

/// `Url::query_pairs_mut` followed by `Serializer::append_pair`: appends one
/// name/value pair to the query of the URL, escaped as a web form is. The new
/// serialisation depends on the old one and the pair alone. The URL type
/// indexes its text with 32 bits and stops the program beyond that, which the
/// precondition keeps out of reach.
#[verifier::external_body]
fn append_query_pair(url: &mut Url, name: &str, value: &str)
    requires
        pair_fits(url_text(*old(url)), name@, value@),
    ensures
        url_text(*final(url)) == url_with_pair(url_text(*old(url)), name@, value@),
{
    url.query_pairs_mut().append_pair(name, value);
}

/// Whether a segment can be appended to the path of a URL of this
/// serialisation without the result outgrowing what the URL type can index.
/// Every byte of the segment takes at most three bytes once escaped, and one
/// slash is added.
pub open spec fn segment_fits(url: Seq<char>, segment: Seq<char>) -> bool {
    vstd::utf8::encode_utf8(url).len() + 3 * vstd::utf8::encode_utf8(segment).len() + 1
        <= MAX_URL_BYTES
}

/// The serialisation of a URL after one segment has been appended to its
/// path with `Url::path_segments_mut` and `PathSegmentsMut::push`; `None`
/// for a URL that cannot be a base, whose path has no segments.
pub uninterp spec fn url_with_segment(url: Seq<char>, segment: Seq<char>) -> Option<Seq<char>>;

/// `Url::path_segments_mut` followed by `PathSegmentsMut::push`: appends one
/// segment to the path of the URL, escaped so that it stays one segment, and
/// tells whether the URL has a path of segments at all; where it has none
/// the URL stays as it is. The new serialisation depends on the old one and
/// the segment alone. The precondition keeps the text within what the URL
/// type can index.
#[verifier::external_body]
fn push_path_segment(url: &mut Url, segment: &str) -> (pushed: bool)
    requires
        segment_fits(url_text(*old(url)), segment@),
    ensures
        match url_with_segment(url_text(*old(url)), segment@) {
            Some(text) => pushed && url_text(*final(url)) == text,
            None => !pushed && url_text(*final(url)) == url_text(*old(url)),
        },
{
    match url.path_segments_mut() {
        Ok(mut path) => {
            path.push(segment);
            true
        },
        Err(()) => false,
    }
}

/// The message of an `InvalidUrl` failure for a base URL that does not parse.
pub open spec fn invalid_base(role: Seq<char>, input: Seq<char>) -> Seq<char> {
    role + parsed_url(input)->Err_0
}

/// Reads a base URL. `role` opens the message when the text is no URL.
pub fn parse_base(input: &str, role: &str) -> (parsed: Result<Url, WalrusError>)
    ensures
        match parsed {
            Ok(url) => parsed_url(input@) == Ok::<Seq<char>, Seq<char>>(url_text(url)),
            Err(failure) => parsed_url(input@) is Err && failure@ == ErrorView::InvalidUrl(
                invalid_base(role@, input@),
            ),
        },
{
    match Url::parse(input) {
        Ok(url) => Ok(url),
        Err(cause) => {
            let detail = parse_error_message(&cause);
            Err(WalrusError::InvalidUrl(prefixed(role, detail.as_str())))
        },
    }
}

/// The content of a URL that was built, or of the failure to build it.
pub open spec fn url_outcome(built: Result<Url, WalrusError>) -> Result<Seq<char>, ErrorView> {
    match built {
        Ok(url) => Ok(url_text(url)),
        Err(failure) => Err(failure@),
    }
}

/// A URL text, or the `InvalidUrl` failure that carries the complaint.
pub open spec fn or_invalid(text: Result<Seq<char>, Seq<char>>) -> Result<Seq<char>, ErrorView> {
    match text {
        Ok(url) => Ok(url),
        Err(complaint) => Err(ErrorView::InvalidUrl(complaint)),
    }
}

/// What resolving a reference against a base yields.
pub open spec fn resolved(base: Seq<char>, reference: Seq<char>) -> Result<Seq<char>, Seq<char>> {
    match joined_url(base, reference) {
        Ok(joined) => Ok(joined),
        Err(complaint) => Err("Failed to build URL: "@ + complaint),
    }
}

/// The serialisation of a URL after each pair of `pairs` has been appended to
/// its query, first to last.
pub open spec fn with_pairs(url: Seq<char>, pairs: Seq<(Seq<char>, Seq<char>)>) -> Seq<char>
    decreases pairs.len(),
{
    if pairs.len() == 0 {
        url
    } else {
        with_pairs(url_with_pair(url, pairs[0].0, pairs[0].1), pairs.drop_first())
    }
}

/// Whether each pair of `pairs` fits when they are appended first to last.
pub open spec fn pairs_fit(url: Seq<char>, pairs: Seq<(Seq<char>, Seq<char>)>) -> bool
    decreases pairs.len(),
{
    pairs.len() == 0 || (pair_fits(url, pairs[0].0, pairs[0].1) && pairs_fit(
        url_with_pair(url, pairs[0].0, pairs[0].1),
        pairs.drop_first(),
    ))
}

/// What appending the pairs to the query of a URL yields. With no pairs the
/// URL stays as it is.
pub open spec fn query_text(url: Seq<char>, pairs: Seq<(Seq<char>, Seq<char>)>) -> Result<
    Seq<char>,
    Seq<char>,
> {
    if pairs_fit(url, pairs) {
        Ok(with_pairs(url, pairs))
    } else {
        Err("Failed to build URL: URLs more than 4 GB are not supported"@)
    }
}

/// Whether a text is one of the two dot segments, which name no place of
/// their own in a path.
pub open spec fn is_dot_segment(segment: Seq<char>) -> bool {
    segment == "."@ || segment == ".."@
}

/// What appending the segments to the path of a URL yields, first to last.
/// Each segment is escaped and stays one segment. A dot segment cannot be
/// appended, nor can anything to a URL that cannot be a base.
pub open spec fn segments_text(url: Seq<char>, segments: Seq<Seq<char>>) -> Result<
    Seq<char>,
    Seq<char>,
>
    decreases segments.len(),
{
    if segments.len() == 0 {
        Ok(url)
    } else if is_dot_segment(segments[0]) {
        Err("Failed to build URL: a dot segment cannot be part of the path"@)
    } else if !segment_fits(url, segments[0]) {
        Err("Failed to build URL: URLs more than 4 GB are not supported"@)
    } else {
        match url_with_segment(url, segments[0]) {
            None => Err("Failed to build URL: relative URL with a cannot-be-a-base base"@),
            Some(longer) => segments_text(longer, segments.drop_first()),
        }
    }
}

/// What building the URL of a write yields: the reference resolved against
/// the base, then the pairs appended to the query.
pub open spec fn endpoint_text(
    base: Seq<char>,
    reference: Seq<char>,
    pairs: Seq<(Seq<char>, Seq<char>)>,
) -> Result<Seq<char>, Seq<char>> {
    match resolved(base, reference) {
        Err(complaint) => Err(complaint),
        Ok(joined) => query_text(joined, pairs),
    }
}

/// What building the URL of a read yields: the reference resolved against
/// the base, then the segments appended to the path.
pub open spec fn item_text(base: Seq<char>, reference: Seq<char>, segments: Seq<Seq<char>>) -> Result<
    Seq<char>,
    Seq<char>,
> {
    match resolved(base, reference) {
        Err(complaint) => Err(complaint),
        Ok(joined) => segments_text(joined, segments),
    }
}

fn too_long() -> (failure: WalrusError)
    ensures
        failure@ == ErrorView::InvalidUrl(
            "Failed to build URL: URLs more than 4 GB are not supported"@,
        ),
{
    WalrusError::InvalidUrl(
        String::from_str("Failed to build URL: URLs more than 4 GB are not supported"),
    )
}

fn pair_fits_now(url: &Url, name: &str, value: &str) -> (fits: bool)
    ensures
        fits == pair_fits(url_text(*url), name@, value@),
{
    let url_bytes = url.as_str().as_bytes().len() as u64;
    let name_bytes = name.as_bytes().len() as u64;
    let value_bytes = value.as_bytes().len() as u64;
    if url_bytes > MAX_URL_BYTES || name_bytes > MAX_URL_BYTES || value_bytes > MAX_URL_BYTES {
        false
    } else {
        url_bytes + 3 * (name_bytes + value_bytes) + 2 <= MAX_URL_BYTES
    }
}

fn segment_fits_now(url: &Url, segment: &str) -> (fits: bool)
    ensures
        fits == segment_fits(url_text(*url), segment@),
{
    let url_bytes = url.as_str().as_bytes().len() as u64;
    let segment_bytes = segment.as_bytes().len() as u64;
    if url_bytes > MAX_URL_BYTES || segment_bytes > MAX_URL_BYTES {
        false
    } else {
        url_bytes + 3 * segment_bytes + 1 <= MAX_URL_BYTES
    }
}

/// Resolves `reference` against `base`.
pub fn resolve(base: &Url, reference: &str) -> (built: Result<Url, WalrusError>)
    ensures
        url_outcome(built) == or_invalid(resolved(url_text(*base), reference@)),
{
    match base.join(reference) {
        Ok(url) => Ok(url),
        Err(cause) => {
            let detail = parse_error_message(&cause);
            Err(WalrusError::InvalidUrl(prefixed("Failed to build URL: ", detail.as_str())))
        },
    }
}

/// Appends `pairs` to the query of `url`, first to last. With no pairs the
/// URL is returned as it is.
pub fn with_query(url: Url, pairs: &Vec<(String, String)>) -> (built: Result<Url, WalrusError>)
    ensures
        url_outcome(built) == or_invalid(query_text(url_text(url), pairs.deep_view())),
{
    let ghost all = pairs.deep_view();
    let mut longer = url;
    let mut i: usize = 0;
    proof {
        assert(all.subrange(0, all.len() as int) =~= all);
    }
    while i < pairs.len()
        invariant
            i <= pairs.len(),
            all == pairs.deep_view(),
            pairs_fit(url_text(url), all) == pairs_fit(url_text(longer), all.subrange(i as int, all.len() as int)),
            pairs_fit(url_text(url), all) ==> with_pairs(url_text(url), all) == with_pairs(
                url_text(longer),
                all.subrange(i as int, all.len() as int),
            ),
        decreases pairs.len() - i,
    {
        let ghost rest = all.subrange(i as int, all.len() as int);
        proof {
            assert(rest.drop_first() =~= all.subrange(i + 1, all.len() as int));
        }
        if !pair_fits_now(&longer, pairs[i].0.as_str(), pairs[i].1.as_str()) {
            return Err(too_long());
        }
        append_query_pair(&mut longer, pairs[i].0.as_str(), pairs[i].1.as_str());
        i += 1;
    }
    Ok(longer)
}

/// Appends `segments` to the path of `url`, first to last, each escaped so
/// that it stays one segment whatever characters it holds.
pub fn with_segments(url: Url, segments: &Vec<&str>) -> (built: Result<Url, WalrusError>)
    ensures
        url_outcome(built) == or_invalid(segments_text(url_text(url), segments.deep_view())),
{
    let ghost all = segments.deep_view();
    let mut longer = url;
    let mut i: usize = 0;
    proof {
        assert(all.subrange(0, all.len() as int) =~= all);
    }
    while i < segments.len()
        invariant
            i <= segments.len(),
            all == segments.deep_view(),
            segments_text(url_text(url), all) == segments_text(
                url_text(longer),
                all.subrange(i as int, all.len() as int),
            ),
        decreases segments.len() - i,
    {
        let ghost rest = all.subrange(i as int, all.len() as int);
        proof {
            assert(rest[0] == segments@[i as int]@);
            assert(rest.drop_first() =~= all.subrange(i + 1, all.len() as int));
        }
        let segment = segments[i];
        if segment.eq(".") || segment.eq("..") {
            return Err(
                WalrusError::InvalidUrl(
                    String::from_str(
                        "Failed to build URL: a dot segment cannot be part of the path",
                    ),
                ),
            );
        }
        if !segment_fits_now(&longer, segment) {
            return Err(too_long());
        }
        if !push_path_segment(&mut longer, segment) {
            return Err(
                WalrusError::InvalidUrl(
                    String::from_str(
                        "Failed to build URL: relative URL with a cannot-be-a-base base",
                    ),
                ),
            );
        }
        i += 1;
    }
    Ok(longer)
}

/// Builds the URL of a write: resolves `reference` against `base` and
/// appends `pairs` to the query of the result.
pub fn endpoint(base: &Url, reference: &str, pairs: &Vec<(String, String)>) -> (built: Result<
    Url,
    WalrusError,
>)
    ensures
        url_outcome(built) == or_invalid(
            endpoint_text(url_text(*base), reference@, pairs.deep_view()),
        ),
{
    match resolve(base, reference) {
        Ok(url) => with_query(url, pairs),
        Err(failure) => Err(failure),
    }
}

/// Builds the URL of a read: resolves `reference` against `base` and
/// appends `segments` to the path of the result.
pub fn item_endpoint(base: &Url, reference: &str, segments: &Vec<&str>) -> (built: Result<
    Url,
    WalrusError,
>)
    ensures
        url_outcome(built) == or_invalid(
            item_text(url_text(*base), reference@, segments.deep_view()),
        ),
{
    match resolve(base, reference) {
        Ok(url) => with_segments(url, segments),
        Err(failure) => Err(failure),
    }
}

} // verus!
