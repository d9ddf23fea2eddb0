//! Reading an OCS link from text.
//!
//! A link is read in a fixed order, and the first step that fails decides
//! the error:
//!
//! 1. the text is percent-decoded;
//! 2. the decoded text is parsed as an absolute URI;
//! 3. the scheme must be `ocs` or `ocss`, in any letter case;
//! 4. the host must be there and name a command, `download` or `install`,
//!    in any letter case;
//! 5. the query string must have a `url` parameter that is itself an
//!    absolute URI;
//! 6. the query string must have a `type` parameter;
//! 7. a `filename` parameter is taken if it is there.
//!
//! The install type is not held against the known install types here; a
//! caller that wants that resolves it with [`crate::types::install_type`].
use crate::text::lowercase;
use crate::text::percent_decode;
use crate::text::percent_decoded;
use crate::types::Command;
use crate::types::OcsParsingError;
use crate::types::OcsParsingErrorView;
use crate::types::ParsedOcsUrl;
use crate::types::ParsedOcsUrlView;
use crate::types::Scheme;
use crate::uri::is_last_occurrence;
use crate::uri::lemma_last_value;
use crate::uri::parsed_uri;
use crate::uri::Uri;
use crate::uri::UriView;
use vstd::prelude::*;

verus! {

/// The link that a parsed URI stands for, or the first error on the way:
/// steps 3 to 7 of the module's list.
pub open spec fn link_of_uri(uri: UriView) -> Result<ParsedOcsUrlView, OcsParsingErrorView> {
    match Scheme::recognized(uri.scheme) {
        Err(error) => Err(error),
        Ok(scheme) => match uri.host {
            None => Err(OcsParsingErrorView::NoOcsCommand),
            Some(host) => match Command::recognized(host) {
                Err(error) => Err(error),
                Ok(command) => match uri.query_value("url"@) {
                    None => Err(OcsParsingErrorView::NoDownloadUrl),
                    Some(given) => match parsed_uri(given) {
                        Err(error) => Err(OcsParsingErrorView::UrlParsingError(error)),
                        Ok(download_url) => ParsedOcsUrlView::assembled(
                            uri,
                            scheme,
                            command,
                            download_url,
                        ),
                    },
                },
            },
        },
    }
}

/// The link that a text stands for, or the first error on the way: all the
/// steps of the module's list.
pub open spec fn link_of_text(url: Seq<char>) -> Result<ParsedOcsUrlView, OcsParsingErrorView> {
    match percent_decoded(url) {
        Err(error) => Err(OcsParsingErrorView::UrlDecodeError(error)),
        Ok(decoded) => match parsed_uri(decoded) {
            Err(error) => Err(OcsParsingErrorView::UrlParsingError(error)),
            Ok(uri) => link_of_uri(uri),
        },
    }
}

/// Reads an OCS link from a URI that has already been parsed.
pub fn check_uri(ocs_url: Uri) -> (outcome: Result<ParsedOcsUrl, OcsParsingError>)
    ensures
        match outcome {
            Ok(link) => {
                &&& link_of_uri(ocs_url@) == Ok::<ParsedOcsUrlView, OcsParsingErrorView>(link@)
                &&& ocs_url.wf() ==> link.wf()
            },
            Err(error) => link_of_uri(ocs_url@) == Err::<ParsedOcsUrlView, OcsParsingErrorView>(
                error@,
            ),
        },
{
    let scheme = match Scheme::try_from(ocs_url.scheme()) {
        Ok(scheme) => scheme,
        Err(error) => {
            return Err(error);
        },
    };
    let command = match ocs_url.host_str() {
        None => {
            return Err(OcsParsingError::NoOcsCommand);
        },
        Some(host) => match Command::try_from(host) {
            Ok(command) => command,
            Err(error) => {
                return Err(error);
            },
        },
    };
    let download_url = match ocs_url.query_value("url") {
        None => {
            return Err(OcsParsingError::NoDownloadUrl);
        },
        Some(given) => match Uri::parse(given) {
            Ok(download_url) => download_url,
            Err(error) => {
                return Err(OcsParsingError::UrlParsingError(error));
            },
        },
    };
    ParsedOcsUrl::new(ocs_url, scheme, command, download_url)
}

/// Reads an OCS link from text.
///
/// Every text is answered: with the link it stands for, or with the error of
/// the first step that failed.
pub fn check_url(url: String) -> (outcome: Result<ParsedOcsUrl, OcsParsingError>)
    ensures
        match outcome {
            Ok(link) => {
                &&& link_of_text(url@) == Ok::<ParsedOcsUrlView, OcsParsingErrorView>(link@)
                &&& link.wf()
            },
            Err(error) => link_of_text(url@) == Err::<ParsedOcsUrlView, OcsParsingErrorView>(
                error@,
            ),
        },
{
    let decoded = match percent_decode(url.as_str()) {
        Ok(decoded) => decoded,
        Err(error) => {
            return Err(OcsParsingError::UrlDecodeError(error));
        },
    };
    let ocs_url = match Uri::parse(decoded.as_str()) {
        Ok(ocs_url) => ocs_url,
        Err(error) => {
            return Err(OcsParsingError::UrlParsingError(error));
        },
    };
    check_uri(ocs_url)
}

/// A parsed URI is read as a link exactly when its scheme and its host name
/// a scheme and a command, its `url` parameter is there and is an absolute
/// URI, and its `type` parameter is there. Nothing else counts: neither what
/// the install type is, nor whether there is a file name.
pub proof fn lemma_accepted(uri: UriView)
    ensures
        link_of_uri(uri) is Ok <==> {
            &&& Scheme::named(lowercase(uri.scheme)) is Some
            &&& uri.host matches Some(host)
            &&& Command::named(lowercase(host)) is Some
            &&& uri.query_value("url"@) matches Some(given)
            &&& parsed_uri(given) is Ok
            &&& uri.query_value("type"@) is Some
        },
{
}

/// A link that is read holds what its URI says: the scheme and the command
/// that the URI's scheme and host name, the URI that its `url` parameter
/// parses to, the value of its `type` parameter as it is, and the value of
/// its `filename` parameter, which is absent exactly when the query string
/// names no `filename`.
pub proof fn lemma_fields(uri: UriView, link: ParsedOcsUrlView)
    requires
        link_of_uri(uri) == Ok::<ParsedOcsUrlView, OcsParsingErrorView>(link),
    ensures
        link.ocs_url == uri,
        Scheme::named(lowercase(uri.scheme)) == Some(link.scheme),
        uri.host matches Some(host) && Command::named(lowercase(host)) == Some(link.command),
        uri.query_value("url"@) matches Some(given) && parsed_uri(given) == Ok::<
            UriView,
            url::ParseError,
        >(link.download_url),
        uri.query_value("type"@) == Some(link.install_type),
        uri.query_value("filename"@) == link.filename,
        link.filename is None <==> forall|index: int|
            0 <= index < uri.query_pairs.len() ==> (#[trigger] uri.query_pairs[index]).0
                != "filename"@,
        link.download_url.wf(),
        uri.wf() ==> link.wf(),
{
    lemma_last_value(uri.query_pairs, "filename"@);
    if let Some(name) = uri.query_value("filename"@) {
        let index = choose|index: int|
            #[trigger] is_last_occurrence(uri.query_pairs, "filename"@, index)
                && uri.query_pairs[index].1 == name;
        assert(uri.query_pairs[index].0 == "filename"@);
    }
}

/// A scheme that is neither `ocs` nor `ocss` in any letter case is refused
/// whatever the rest of the URI is, and the error holds the scheme whole and
/// unchanged, however long it is.
pub proof fn lemma_unexpected_scheme(uri: UriView)
    requires
        Scheme::named(lowercase(uri.scheme)) is None,
    ensures
        link_of_uri(uri) == Err::<ParsedOcsUrlView, OcsParsingErrorView>(
            OcsParsingErrorView::UnexpectedOcsScheme(uri.scheme),
        ),
{
}

/// Under a good scheme, a URI without a host is refused for want of a
/// command, and a host that is neither `download` nor `install` in any
/// letter case is refused with an error that holds the host unchanged.
pub proof fn lemma_command(uri: UriView)
    requires
        Scheme::named(lowercase(uri.scheme)) is Some,
    ensures
        uri.host is None ==> link_of_uri(uri) == Err::<ParsedOcsUrlView, OcsParsingErrorView>(
            OcsParsingErrorView::NoOcsCommand,
        ),
        uri.host matches Some(host) ==> (Command::named(lowercase(host)) is None ==> link_of_uri(
            uri,
        ) == Err::<ParsedOcsUrlView, OcsParsingErrorView>(
            OcsParsingErrorView::UnexpectedOcsCommand(host),
        )),
{
}

/// Under a good scheme and command: a URI without a `url` parameter is
/// refused as having no download URL; one whose `url` parameter is no
/// absolute URI is refused with the error of parsing it; and one with a good
/// `url` parameter and no `type` parameter is refused as having no install
/// type.
pub proof fn lemma_required_fields(uri: UriView)
    requires
        Scheme::named(lowercase(uri.scheme)) is Some,
        uri.host matches Some(host) && Command::named(lowercase(host)) is Some,
    ensures
        uri.query_value("url"@) is None ==> link_of_uri(uri) == Err::<
            ParsedOcsUrlView,
            OcsParsingErrorView,
        >(OcsParsingErrorView::NoDownloadUrl),
        uri.query_value("url"@) matches Some(given) ==> (parsed_uri(given) matches Err(error)
            ==> link_of_uri(uri) == Err::<ParsedOcsUrlView, OcsParsingErrorView>(
            OcsParsingErrorView::UrlParsingError(error),
        )),
        uri.query_value("url"@) matches Some(given) ==> (parsed_uri(given) is Ok
            && uri.query_value("type"@) is None ==> link_of_uri(uri) == Err::<
            ParsedOcsUrlView,
            OcsParsingErrorView,
        >(OcsParsingErrorView::NoInstallType)),
{
}

/// A text that cannot be percent-decoded is refused with the decoding
/// error. A text that decodes to something that is no absolute URI, such as
/// one without a scheme, is refused with the error of parsing it, and never
/// with an error about its scheme. Any other text is read as the URI it
/// decodes and parses to.
pub proof fn lemma_text(url: Seq<char>)
    ensures
        percent_decoded(url) matches Err(error) ==> link_of_text(url) == Err::<
            ParsedOcsUrlView,
            OcsParsingErrorView,
        >(OcsParsingErrorView::UrlDecodeError(error)),
        percent_decoded(url) matches Ok(decoded) ==> (parsed_uri(decoded) matches Err(error)
            ==> link_of_text(url) == Err::<ParsedOcsUrlView, OcsParsingErrorView>(
            OcsParsingErrorView::UrlParsingError(error),
        )),
        percent_decoded(url) matches Ok(decoded) ==> (parsed_uri(decoded) matches Ok(uri)
            ==> link_of_text(url) == link_of_uri(uri) && uri.wf()),
{
}

} // verus!
