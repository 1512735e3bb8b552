//! The endpoint resolver: two validated base URLs and the transport handle
//! that every operation shares.

use vstd::prelude::*;
use vstd::string::*;
use reqwest::{Client, Url};
use crate::error::{ErrorView, WalrusError};
use crate::web::{parse_base, parsed_url, url_text};

verus! {

#[verifier::external_type_specification]
#[verifier::external_body]
pub struct ExTransport(reqwest::Client);

/// `ClientBuilder::build` on a fresh `Client::builder()`: sets up a transport
/// with the default configuration. Whether it succeeds depends on the
/// machine (the TLS backend, the resolver's configuration), so nothing is
/// promised of the outcome.
#[verifier::external_body]
fn default_transport() -> (built: Result<Client, reqwest::Error>) {
    Client::builder().build()
}

/// The two base URLs of the service and the transport that reaches them,
/// where the machine could set one up. Nothing changes after construction.
pub struct WalrusClient {
    aggregator_url: Url,
    publisher_url: Url,
    http_client: Option<Client>,
}

/// The serialisations of the two base URLs that a pair of texts gives, the
/// aggregator's first; or the message that rejects the first text that is no
/// absolute URL.
pub open spec fn base_urls(aggregator_url: Seq<char>, publisher_url: Seq<char>) -> Result<
    (Seq<char>, Seq<char>),
    ErrorView,
> {
    match parsed_url(aggregator_url) {
        Err(complaint) => Err(ErrorView::InvalidUrl("Invalid aggregator URL: "@ + complaint)),
        Ok(aggregator) => match parsed_url(publisher_url) {
            Err(complaint) => Err(ErrorView::InvalidUrl("Invalid publisher URL: "@ + complaint)),
            Ok(publisher) => Ok((aggregator, publisher)),
        },
    }
}

/// Reads the two base URLs, the aggregator's first.
pub fn parse_bases(aggregator_url: &str, publisher_url: &str) -> (parsed: Result<
    (Url, Url),
    WalrusError,
>)
    ensures
        match parsed {
            Ok(urls) => base_urls(aggregator_url@, publisher_url@) == Ok::<
                (Seq<char>, Seq<char>),
                ErrorView,
            >((url_text(urls.0), url_text(urls.1))),
            Err(failure) => base_urls(aggregator_url@, publisher_url@) == Err::<
                (Seq<char>, Seq<char>),
                ErrorView,
            >(failure@),
        },
{
    let aggregator = match parse_base(aggregator_url, "Invalid aggregator URL: ") {
        Ok(url) => url,
        Err(failure) => {
            return Err(failure);
        },
    };
    match parse_base(publisher_url, "Invalid publisher URL: ") {
        Ok(publisher) => Ok((aggregator, publisher)),
        Err(failure) => Err(failure),
    }
}

impl WalrusClient {
    /// The serialisation of the aggregator's base URL.
    pub closed spec fn aggregator(self) -> Seq<char> {
        url_text(self.aggregator_url)
    }

    /// The serialisation of the publisher's base URL.
    pub closed spec fn publisher(self) -> Seq<char> {
        url_text(self.publisher_url)
    }

    /// The transport handle, where there is one.
    pub closed spec fn transport(self) -> Option<Client> {
        self.http_client
    }

    fn assemble(aggregator_url: &str, publisher_url: &str, http_client: Option<Client>) -> (built:
        Result<WalrusClient, WalrusError>)
        ensures
            built_view(built) == base_urls(aggregator_url@, publisher_url@),
            built matches Ok(client) ==> client.transport() == http_client,
    {
        match parse_bases(aggregator_url, publisher_url) {
            Ok((aggregator_url, publisher_url)) => Ok(
                WalrusClient { aggregator_url, publisher_url, http_client },
            ),
            Err(failure) => Err(failure),
        }
    }

    /// Builds a client around a transport that the caller has set up. It
    /// succeeds exactly if both texts are absolute URLs; otherwise the
    /// failure is `InvalidUrl` and names the first text at fault.
    pub fn with_transport(aggregator_url: &str, publisher_url: &str, http_client: Client) -> (built:
        Result<WalrusClient, WalrusError>)
        ensures
            built_view(built) == base_urls(aggregator_url@, publisher_url@),
            built matches Ok(client) ==> client.transport() == Some(http_client),
    {
        WalrusClient::assemble(aggregator_url, publisher_url, Some(http_client))
    }

    /// Builds a client with a transport of its own. It succeeds exactly if
    /// both texts are absolute URLs; otherwise the failure is `InvalidUrl`
    /// and names the first text at fault, and no client comes back. Nothing
    /// is sent. Where the machine cannot set up a transport the client is
    /// built without one, and [`WalrusClient::http_client`] says so.
    pub fn new(aggregator_url: &str, publisher_url: &str) -> (built: Result<
        WalrusClient,
        WalrusError,
    >)
        ensures
            built_view(built) == base_urls(aggregator_url@, publisher_url@),
    {
        let http_client = match default_transport() {
            Ok(transport) => Some(transport),
            Err(_) => None,
        };
        WalrusClient::assemble(aggregator_url, publisher_url, http_client)
    }

    /// The base URL of the aggregator, which serves reads.
    pub fn aggregator_url(&self) -> (url: &Url)
        ensures
            url_text(*url) == self.aggregator(),
    {
        &self.aggregator_url
    }

    /// The base URL of the publisher, which accepts writes.
    pub fn publisher_url(&self) -> (url: &Url)
        ensures
            url_text(*url) == self.publisher(),
    {
        &self.publisher_url
    }

    /// The transport handle that all operations share; `None` where the
    /// machine could not set one up.
    pub fn http_client(&self) -> (transport: Option<&Client>)
        ensures
            transport == match self.transport() {
                Some(client) => Some(&client),
                None => None,
            },
    {
        self.http_client.as_ref()
    }
}

/// A text that is no absolute URL, in either place, is rejected as
/// `InvalidUrl`: no client comes of it.
pub proof fn lemma_invalid_url_is_rejected(aggregator_url: Seq<char>, publisher_url: Seq<char>)
    requires
        parsed_url(aggregator_url) is Err || parsed_url(publisher_url) is Err,
    ensures
        base_urls(aggregator_url, publisher_url) is Err,
        base_urls(aggregator_url, publisher_url)->Err_0 is InvalidUrl,
{
}

/// Two texts that are absolute URLs are accepted, and the client holds
/// their serialisations.
pub proof fn lemma_valid_urls_are_accepted(aggregator_url: Seq<char>, publisher_url: Seq<char>)
    requires
        parsed_url(aggregator_url) is Ok,
        parsed_url(publisher_url) is Ok,
    ensures
        base_urls(aggregator_url, publisher_url) == Ok::<(Seq<char>, Seq<char>), ErrorView>(
            (parsed_url(aggregator_url)->Ok_0, parsed_url(publisher_url)->Ok_0),
        ),
{
}

/// The base URLs of a client that was built, or the failure.
pub open spec fn built_view(built: Result<WalrusClient, WalrusError>) -> Result<
    (Seq<char>, Seq<char>),
    ErrorView,
> {
    match built {
        Ok(client) => Ok((client.aggregator(), client.publisher())),
        Err(failure) => Err(failure@),
    }
}

} // verus!
