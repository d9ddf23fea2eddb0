//! Absolute URIs, parsed by the `url` crate and held as plain text.
use crate::text::str_eq;
use vstd::prelude::*;

verus! {

/// `url::ParseError`, the reason why a text is no absolute URI. The library
/// only hands it on.
#[verifier::external_type_specification]
#[verifier::external_body]
pub struct ExParseError(url::ParseError);

/// The mathematical content of a [`Uri`].
pub struct UriView {
    /// The URI in its normalised, serialised form.
    pub text: Seq<char>,
    /// The scheme, without the `:` that ends it.
    pub scheme: Seq<char>,
    /// The host, where the URI has an authority.
    pub host: Option<Seq<char>>,
    /// The name-value pairs of the query string, decoded, in their order.
    pub query_pairs: Seq<(Seq<char>, Seq<char>)>,
}

/// The outcome of parsing `text` as an absolute URI: what `url::Url::parse`
/// returns for it, its successful result read through `Url::as_str`,
/// `Url::scheme`, `Url::host_str` and `Url::query_pairs`.
pub uninterp spec fn parsed_uri(text: Seq<char>) -> Result<UriView, url::ParseError>;

/// The value of `key` in a list of name-value pairs. Where a name occurs
/// more than once, its last occurrence counts.
pub open spec fn last_value(pairs: Seq<(Seq<char>, Seq<char>)>, key: Seq<char>) -> Option<
    Seq<char>,
>
    decreases pairs.len(),
{
    if pairs.len() == 0 {
        None
    } else if pairs.last().0 == key {
        Some(pairs.last().1)
    } else {
        last_value(pairs.drop_last(), key)
    }
}

/// Whether the pair at `index` carries the name `key` and no later pair does.
pub open spec fn is_last_occurrence(
    pairs: Seq<(Seq<char>, Seq<char>)>,
    key: Seq<char>,
    index: int,
) -> bool {
    &&& 0 <= index < pairs.len()
    &&& pairs[index].0 == key
    &&& forall|later: int| index < later < pairs.len() ==> (#[trigger] pairs[later]).0 != key
}

/// A name that no pair carries has no value. A name that some pair carries
/// has the value of the last pair that carries it.
pub proof fn lemma_last_value(pairs: Seq<(Seq<char>, Seq<char>)>, key: Seq<char>)
    ensures
        match last_value(pairs, key) {
            Some(value) => exists|index: int|
                #[trigger] is_last_occurrence(pairs, key, index) && pairs[index].1 == value,
            None => forall|index: int|
                0 <= index < pairs.len() ==> (#[trigger] pairs[index]).0 != key,
        },
    decreases pairs.len(),
{
    if pairs.len() == 0 {
    } else if pairs.last().0 == key {
        assert(is_last_occurrence(pairs, key, pairs.len() - 1));
    } else {
        let shorter = pairs.drop_last();
        lemma_last_value(shorter, key);
        match last_value(shorter, key) {
            Some(value) => {
                let index = choose|index: int|
                    #[trigger] is_last_occurrence(shorter, key, index) && shorter[index].1 == value;
                assert forall|later: int| index < later < pairs.len() implies (
                #[trigger] pairs[later]).0 != key by {
                    if later < shorter.len() {
                        assert(shorter[later] == pairs[later]);
                    }
                }
                assert(is_last_occurrence(pairs, key, index));
            },
            None => {
                assert forall|index: int| 0 <= index < pairs.len() implies (
                #[trigger] pairs[index]).0 != key by {
                    if index < shorter.len() {
                        assert(shorter[index] == pairs[index]);
                    }
                }
            },
        }
    }
}

impl UriView {
    /// A well-formed URI is one that parsing some text yields.
    pub open spec fn wf(self) -> bool {
        exists|text: Seq<char>| #[trigger] parsed_uri(text) == Ok::<UriView, url::ParseError>(self)
    }

    /// The value of the query parameter `key`, if the query string has one.
    pub open spec fn query_value(self, key: Seq<char>) -> Option<Seq<char>> {
        last_value(self.query_pairs, key)
    }
}

/// An absolute URI.
///
/// A `Uri` is made by [`Uri::parse`] alone, so each one is the faithful
/// record of what the `url` crate read from some text.
#[derive(Debug, Clone, PartialEq, Eq, Hash)]
pub struct Uri {
    text: String,
    scheme: String,
    host: Option<String>,
    query_pairs: Vec<(String, String)>,
}

impl View for Uri {
    type V = UriView;

    closed spec fn view(&self) -> UriView {
        UriView {
            text: self.text@,
            scheme: self.scheme@,
            host: self.host.deep_view(),
            query_pairs: self.query_pairs.deep_view(),
        }
    }
}

/// Calls `url::Url::parse` and, where it succeeds, copies out what
/// `Url::as_str`, `Url::scheme`, `Url::host_str` and `Url::query_pairs`
/// return. The contract gives the outcome its name and claims nothing else
/// about it.
#[verifier::external_body]
fn url_parse(text: &str) -> (outcome: Result<Uri, url::ParseError>)
    ensures
        match outcome {
            Ok(uri) => parsed_uri(text@) == Ok::<UriView, url::ParseError>(uri@),
            Err(error) => parsed_uri(text@) == Err::<UriView, url::ParseError>(error),
        },
{
    let url = url::Url::parse(text)?;
    Ok(Uri {
        text: url.as_str().to_owned(),
        scheme: url.scheme().to_owned(),
        host: url.host_str().map(str::to_owned),
        query_pairs: url.query_pairs().into_owned().collect(),
    })
}

impl Uri {
    /// Whether this URI is well formed; every `Uri` that [`Uri::parse`]
    /// returns is.
    pub open spec fn wf(&self) -> bool {
        self@.wf()
    }

    /// Parses `text` as an absolute URI.
    pub fn parse(text: &str) -> (outcome: Result<Uri, url::ParseError>)
        ensures
            match outcome {
                Ok(uri) => parsed_uri(text@) == Ok::<UriView, url::ParseError>(uri@) && uri.wf(),
                Err(error) => parsed_uri(text@) == Err::<UriView, url::ParseError>(error),
            },
    {
        url_parse(text)
    }

    /// The URI in its normalised, serialised form.
    pub fn as_str(&self) -> (text: &str)
        ensures
            text@ == self@.text,
    {
        self.text.as_str()
    }

    /// The scheme, without the `:` that ends it.
    pub fn scheme(&self) -> (scheme: &str)
        ensures
            scheme@ == self@.scheme,
    {
        self.scheme.as_str()
    }

    /// The host, where the URI has an authority.
    pub fn host_str(&self) -> (host: Option<&str>)
        ensures
            match host {
                Some(name) => self@.host == Some(name@),
                None => self@.host is None,
            },
    {
        match &self.host {
            Some(name) => Some(name.as_str()),
            None => None,
        }
    }

    /// The value of the query parameter `key`. Where the query string names
    /// `key` more than once, the last value is returned.
    pub fn query_value(&self, key: &str) -> (value: Option<&str>)
        ensures
            match value {
                Some(found) => self@.query_value(key@) == Some(found@),
                None => self@.query_value(key@) is None,
            },
    {
        let ghost pairs = self@.query_pairs;
        let mut i: usize = self.query_pairs.len();
        assert(pairs.subrange(0, i as int) =~= pairs);
        while i > 0
            invariant
                i <= self.query_pairs.len(),
                pairs == self.query_pairs.deep_view(),
                pairs == self@.query_pairs,
                last_value(pairs, key@) == last_value(pairs.subrange(0, i as int), key@),
            decreases i,
        {
            let ghost upto = pairs.subrange(0, i as int);
            i = i - 1;
            assert(upto.drop_last() =~= pairs.subrange(0, i as int));
            assert(upto.last() == pairs[i as int]);
            let pair = &self.query_pairs[i];
            if str_eq(pair.0.as_str(), key) {
                return Some(pair.1.as_str());
            }
        }
        None
    }
}

} // verus!
