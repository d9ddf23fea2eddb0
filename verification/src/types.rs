//! The parts of an OCS link and the errors of reading one.
use crate::text::lowercase;
use crate::text::percent_encode;
use crate::text::percent_encoded;
use crate::text::str_eq;
use crate::text::to_lowercase;
use crate::types::install_type::InstallTypeErrorView;
use crate::uri::Uri;
use crate::uri::UriView;
use vstd::prelude::*;
use vstd::string::StringExecFns;
use vstd::utf8::encode_utf8;

pub mod install_type;

pub use crate::types::install_type::AppSpecific;
pub use crate::types::install_type::InstallType;
pub use crate::types::install_type::InstallTypeError;
pub use crate::types::install_type::PersonalMedia;
pub use crate::types::install_type::QtGeneral;
pub use crate::types::install_type::Styling;
pub use crate::types::install_type::WMThemes;

verus! {

/// Why a text is no OCS link.
#[derive(Debug, PartialEq, Eq)]
pub enum OcsParsingError {
    /// The percent-decoded link is not valid UTF-8.
    UrlDecodeError(std::string::FromUtf8Error),
    /// The link, or the download URL inside it, is no absolute URI.
    UrlParsingError(url::ParseError),
    /// The link has no scheme. The parser never answers with this: a text
    /// without a scheme is no absolute URI, and is refused as such.
    NoOcsScheme,
    /// The scheme is neither `ocs` nor `ocss`. Holds the scheme as given.
    UnexpectedOcsScheme(String),
    /// The link has no host, which would name the command.
    NoOcsCommand,
    /// The command is neither `download` nor `install`. Holds the command as
    /// given.
    UnexpectedOcsCommand(String),
    /// The query string has no `url` parameter.
    NoDownloadUrl,
    /// The install type goes by no known token. Holds the install type. The
    /// parser never answers with this, since it takes any install type; the
    /// variant is for callers that go on to resolve it.
    UnknownInstallType(String),
    /// The query string has no `type` parameter.
    NoInstallType,
    /// An install-type token could not be resolved by its family.
    InstallTypeError(InstallTypeError),
}

/// The mathematical content of an [`OcsParsingError`].
pub enum OcsParsingErrorView {
    UrlDecodeError(std::string::FromUtf8Error),
    UrlParsingError(url::ParseError),
    NoOcsScheme,
    UnexpectedOcsScheme(Seq<char>),
    NoOcsCommand,
    UnexpectedOcsCommand(Seq<char>),
    NoDownloadUrl,
    UnknownInstallType(Seq<char>),
    NoInstallType,
    InstallTypeError(InstallTypeErrorView),
}

impl View for OcsParsingError {
    type V = OcsParsingErrorView;

    open spec fn view(&self) -> OcsParsingErrorView {
        match *self {
            OcsParsingError::UrlDecodeError(error) => OcsParsingErrorView::UrlDecodeError(error),
            OcsParsingError::UrlParsingError(error) => OcsParsingErrorView::UrlParsingError(error),
            OcsParsingError::NoOcsScheme => OcsParsingErrorView::NoOcsScheme,
            OcsParsingError::UnexpectedOcsScheme(scheme) => {
                OcsParsingErrorView::UnexpectedOcsScheme(scheme@)
            },
            OcsParsingError::NoOcsCommand => OcsParsingErrorView::NoOcsCommand,
            OcsParsingError::UnexpectedOcsCommand(command) => {
                OcsParsingErrorView::UnexpectedOcsCommand(command@)
            },
            OcsParsingError::NoDownloadUrl => OcsParsingErrorView::NoDownloadUrl,
            OcsParsingError::UnknownInstallType(install_type) => {
                OcsParsingErrorView::UnknownInstallType(install_type@)
            },
            OcsParsingError::NoInstallType => OcsParsingErrorView::NoInstallType,
            OcsParsingError::InstallTypeError(error) => {
                OcsParsingErrorView::InstallTypeError(error@)
            },
        }
    }
}

impl From<std::string::FromUtf8Error> for OcsParsingError {
    /// A failed percent-decoding, as an error of reading a link.
    fn from(error: std::string::FromUtf8Error) -> (converted: OcsParsingError) {
        OcsParsingError::UrlDecodeError(error)
    }
}

impl vstd::std_specs::convert::FromSpecImpl<std::string::FromUtf8Error> for OcsParsingError {
    open spec fn obeys_from_spec() -> bool {
        true
    }

    open spec fn from_spec(error: std::string::FromUtf8Error) -> OcsParsingError {
        OcsParsingError::UrlDecodeError(error)
    }
}

impl From<url::ParseError> for OcsParsingError {
    /// A failed URI parse, as an error of reading a link.
    fn from(error: url::ParseError) -> (converted: OcsParsingError) {
        OcsParsingError::UrlParsingError(error)
    }
}

impl vstd::std_specs::convert::FromSpecImpl<url::ParseError> for OcsParsingError {
    open spec fn obeys_from_spec() -> bool {
        true
    }

    open spec fn from_spec(error: url::ParseError) -> OcsParsingError {
        OcsParsingError::UrlParsingError(error)
    }
}

impl From<InstallTypeError> for OcsParsingError {
    /// A failed resolution of an install type, as an error of reading a link.
    fn from(error: InstallTypeError) -> (converted: OcsParsingError) {
        OcsParsingError::InstallTypeError(error)
    }
}

impl vstd::std_specs::convert::FromSpecImpl<InstallTypeError> for OcsParsingError {
    open spec fn obeys_from_spec() -> bool {
        true
    }

    open spec fn from_spec(error: InstallTypeError) -> OcsParsingError {
        OcsParsingError::InstallTypeError(error)
    }
}

/// The scheme of an OCS link: `ocs`, or `ocss` for the secure form of the
/// protocol.
#[derive(Debug, Clone, Copy, PartialEq, Eq, Hash)]
pub enum Scheme {
    Ocs,
    Ocss,
}

impl Scheme {
    /// The canonical text of the scheme.
    pub open spec fn text(self) -> Seq<char> {
        match self {
            Scheme::Ocs => "ocs"@,
            Scheme::Ocss => "ocss"@,
        }
    }

    /// The scheme that a lower-case text names, if it names one.
    pub open spec fn named(lowered: Seq<char>) -> Option<Scheme> {
        if lowered == "ocs"@ {
            Some(Scheme::Ocs)
        } else if lowered == "ocss"@ {
            Some(Scheme::Ocss)
        } else {
            None
        }
    }

    /// The scheme that `text` names in any letter case, or the error that
    /// holds `text` as it was given.
    pub open spec fn recognized(text: Seq<char>) -> Result<Scheme, OcsParsingErrorView> {
        match Scheme::named(lowercase(text)) {
            Some(scheme) => Ok(scheme),
            None => Err(OcsParsingErrorView::UnexpectedOcsScheme(text)),
        }
    }

    /// A lower-case text names a scheme exactly when it is the canonical text
    /// of that scheme.
    pub proof fn lemma_named_by_text(lowered: Seq<char>, scheme: Scheme)
        ensures
            Scheme::named(lowered) == Some(scheme) <==> lowered == scheme.text(),
    {
        reveal_strlit("ocs");
        reveal_strlit("ocss");
        assert("ocs"@.len() == 3);
        assert("ocss"@.len() == 4);
    }

    /// The canonical text of the scheme.
    pub fn as_str(&self) -> (text: &'static str)
        ensures
            text@ == self.text(),
    {
        match self {
            Scheme::Ocs => "ocs",
            Scheme::Ocss => "ocss",
        }
    }

    /// The canonical text of the scheme, as an owned string.
    pub fn to_string(&self) -> (text: String)
        ensures
            text@ == self.text(),
    {
        self.as_str().to_owned()
    }

    /// Reads a scheme from a text that is already in lower case.
    pub fn from_lowercase(lowered: &str) -> (scheme: Option<Scheme>)
        ensures
            scheme == Scheme::named(lowered@),
    {
        if str_eq(lowered, "ocs") {
            Some(Scheme::Ocs)
        } else if str_eq(lowered, "ocss") {
            Some(Scheme::Ocss)
        } else {
            None
        }
    }

    /// Reads a scheme from `text`, whatever its letter case. Any text but
    /// `ocs` and `ocss` is refused, and the error holds it unchanged.
    pub fn try_from(text: &str) -> (outcome: Result<Scheme, OcsParsingError>)
        ensures
            match outcome {
                Ok(scheme) => Scheme::recognized(text@) == Ok::<Scheme, OcsParsingErrorView>(
                    scheme,
                ),
                Err(error) => Scheme::recognized(text@) == Err::<Scheme, OcsParsingErrorView>(
                    error@,
                ),
            },
    {
        let lowered = to_lowercase(text);
        match Scheme::from_lowercase(lowered.as_str()) {
            Some(scheme) => Ok(scheme),
            None => Err(OcsParsingError::UnexpectedOcsScheme(text.to_owned())),
        }
    }
}

/// What an OCS link asks for. The command stands where a URI has its host.
#[derive(Debug, Clone, Copy, PartialEq, Eq, Hash)]
pub enum Command {
    /// Hand the file to the user.
    Download,
    /// Install the file and report how it went.
    Install,
}

impl Command {
    /// The canonical text of the command.
    pub open spec fn text(self) -> Seq<char> {
        match self {
            Command::Download => "download"@,
            Command::Install => "install"@,
        }
    }

    /// The command that a lower-case text names, if it names one.
    pub open spec fn named(lowered: Seq<char>) -> Option<Command> {
        if lowered == "download"@ {
            Some(Command::Download)
        } else if lowered == "install"@ {
            Some(Command::Install)
        } else {
            None
        }
    }

    /// The command that `text` names in any letter case, or the error that
    /// holds `text` as it was given.
    pub open spec fn recognized(text: Seq<char>) -> Result<Command, OcsParsingErrorView> {
        match Command::named(lowercase(text)) {
            Some(command) => Ok(command),
            None => Err(OcsParsingErrorView::UnexpectedOcsCommand(text)),
        }
    }

    /// A lower-case text names a command exactly when it is the canonical
    /// text of that command.
    pub proof fn lemma_named_by_text(lowered: Seq<char>, command: Command)
        ensures
            Command::named(lowered) == Some(command) <==> lowered == command.text(),
    {
        reveal_strlit("download");
        reveal_strlit("install");
        assert("download"@.len() == 8);
        assert("install"@.len() == 7);
    }

    /// The canonical text of the command.
    pub fn as_str(&self) -> (text: &'static str)
        ensures
            text@ == self.text(),
    {
        match self {
            Command::Download => "download",
            Command::Install => "install",
        }
    }

    /// The canonical text of the command, as an owned string.
    pub fn to_string(&self) -> (text: String)
        ensures
            text@ == self.text(),
    {
        self.as_str().to_owned()
    }

    /// Reads a command from a text that is already in lower case.
    pub fn from_lowercase(lowered: &str) -> (command: Option<Command>)
        ensures
            command == Command::named(lowered@),
    {
        if str_eq(lowered, "download") {
            Some(Command::Download)
        } else if str_eq(lowered, "install") {
            Some(Command::Install)
        } else {
            None
        }
    }

    /// Reads a command from `text`, whatever its letter case. Any text but
    /// `download` and `install` is refused, and the error holds it unchanged.
    pub fn try_from(text: &str) -> (outcome: Result<Command, OcsParsingError>)
        ensures
            match outcome {
                Ok(command) => Command::recognized(text@) == Ok::<Command, OcsParsingErrorView>(
                    command,
                ),
                Err(error) => Command::recognized(text@) == Err::<Command, OcsParsingErrorView>(
                    error@,
                ),
            },
    {
        let lowered = to_lowercase(text);
        match Command::from_lowercase(lowered.as_str()) {
            Some(command) => Ok(command),
            None => Err(OcsParsingError::UnexpectedOcsCommand(text.to_owned())),
        }
    }
}

/// The mathematical content of a [`ParsedOcsUrl`].
pub struct ParsedOcsUrlView {
    /// The whole link.
    pub ocs_url: UriView,
    pub scheme: Scheme,
    pub command: Command,
    /// Where the file is fetched from.
    pub download_url: UriView,
    /// The kind of file, as the link names it.
    pub install_type: Seq<char>,
    /// The name to save the file under, where the link gives one.
    pub filename: Option<Seq<char>>,
}

impl ParsedOcsUrlView {
    /// The link and the download URL are well-formed URIs, and the install
    /// type and the file name are what the link's query string says: the
    /// file name is absent exactly when the query string has none.
    pub open spec fn wf(self) -> bool {
        &&& self.ocs_url.wf()
        &&& self.download_url.wf()
        &&& self.ocs_url.query_value("type"@) == Some(self.install_type)
        &&& self.ocs_url.query_value("filename"@) == self.filename
    }

    /// The canonical text up to and including the install type.
    pub open spec fn rendered_head(self) -> Seq<char> {
        self.scheme.text() + "://"@ + self.command.text() + "?url="@ + percent_encoded(
            encode_utf8(self.download_url.text),
        ) + "&type="@ + self.install_type
    }

    /// The canonical text of the file name: `&filename=` and the name as it
    /// is, or nothing where the link has none.
    pub open spec fn rendered_filename(self) -> Seq<char> {
        match self.filename {
            Some(name) => "&filename="@ + name,
            None => Seq::empty(),
        }
    }

    /// The canonical text of the link:
    /// `{scheme}://{command}?url={download URL, percent-encoded}&type={install type}`,
    /// then the file name.
    pub open spec fn rendered(self) -> Seq<char> {
        self.rendered_head() + self.rendered_filename()
    }

    /// The link that the four parts make with the query string of `ocs_url`,
    /// which must name an install type and may name a file.
    pub open spec fn assembled(
        ocs_url: UriView,
        scheme: Scheme,
        command: Command,
        download_url: UriView,
    ) -> Result<ParsedOcsUrlView, OcsParsingErrorView> {
        match ocs_url.query_value("type"@) {
            None => Err(OcsParsingErrorView::NoInstallType),
            Some(install_type) => Ok(
                ParsedOcsUrlView {
                    ocs_url,
                    scheme,
                    command,
                    download_url,
                    install_type,
                    filename: ocs_url.query_value("filename"@),
                },
            ),
        }
    }
}

/// The canonical text of a link ends with a file name part exactly when the
/// link has a file name: a link without one is written up to its install
/// type, and one with a file name, be it empty, is followed by `&filename=`
/// and the name.
pub proof fn lemma_rendered_filename(link: ParsedOcsUrlView)
    ensures
        link.filename is None <==> link.rendered() == link.rendered_head(),
        link.filename matches Some(name) ==> link.rendered() == link.rendered_head()
            + "&filename="@ + name,
{
    reveal_strlit("&filename=");
    match link.filename {
        Some(name) => {
            assert(link.rendered() =~= link.rendered_head() + "&filename="@ + name);
            assert(link.rendered().len() == link.rendered_head().len() + 10 + name.len());
        },
        None => {
            assert(link.rendered() =~= link.rendered_head());
        },
    }
}

/// An OCS link that has been read and found valid.
///
/// The link itself is kept as `ocs_url`; the file it points to is at
/// `download_url`.
#[derive(Debug, Clone, PartialEq, Eq, Hash)]
pub struct ParsedOcsUrl {
    ocs_url: Uri,
    scheme: Scheme,
    command: Command,
    download_url: Uri,
    install_type: String,
    filename: Option<String>,
}

impl View for ParsedOcsUrl {
    type V = ParsedOcsUrlView;

    closed spec fn view(&self) -> ParsedOcsUrlView {
        ParsedOcsUrlView {
            ocs_url: self.ocs_url@,
            scheme: self.scheme,
            command: self.command,
            download_url: self.download_url@,
            install_type: self.install_type@,
            filename: self.filename.deep_view(),
        }
    }
}

impl ParsedOcsUrl {
    /// Whether the link is well formed; see [`ParsedOcsUrlView::wf`].
    pub open spec fn wf(&self) -> bool {
        self@.wf()
    }

    /// Makes a link from its URI, the scheme and command read from it, and
    /// the download URL it names. The install type and the file name are
    /// taken from the query string of `ocs_url`: a link without a `type`
    /// parameter is refused, one without a `filename` parameter has no file
    /// name, and an empty file name is kept as it is.
    pub fn new(ocs_url: Uri, scheme: Scheme, command: Command, download_url: Uri) -> (outcome:
        Result<ParsedOcsUrl, OcsParsingError>)
        ensures
            match outcome {
                Ok(link) => {
                    &&& ParsedOcsUrlView::assembled(ocs_url@, scheme, command, download_url@)
                        == Ok::<ParsedOcsUrlView, OcsParsingErrorView>(link@)
                    &&& ocs_url.wf() && download_url.wf() ==> link.wf()
                },
                Err(error) => ParsedOcsUrlView::assembled(ocs_url@, scheme, command, download_url@)
                    == Err::<ParsedOcsUrlView, OcsParsingErrorView>(error@),
            },
    {
        let install_type = match ocs_url.query_value("type") {
            None => {
                return Err(OcsParsingError::NoInstallType);
            },
            Some(install_type) => install_type.to_owned(),
        };
        let filename = match ocs_url.query_value("filename") {
            None => None,
            Some(filename) => Some(filename.to_owned()),
        };
        Ok(ParsedOcsUrl { ocs_url, scheme, command, download_url, install_type, filename })
    }

    /// The whole link, as a URI.
    pub fn ocs_url(&self) -> (ocs_url: &Uri)
        ensures
            ocs_url@ == self@.ocs_url,
    {
        &self.ocs_url
    }

    /// The scheme of the link.
    pub fn scheme(&self) -> (scheme: Scheme)
        ensures
            scheme == self@.scheme,
    {
        self.scheme
    }

    /// What the link asks for.
    pub fn command(&self) -> (command: Command)
        ensures
            command == self@.command,
    {
        self.command
    }

    /// Where the file is fetched from.
    pub fn download_url(&self) -> (download_url: &Uri)
        ensures
            download_url@ == self@.download_url,
    {
        &self.download_url
    }

    /// The kind of file, as the link names it.
    pub fn install_type(&self) -> (install_type: &str)
        ensures
            install_type@ == self@.install_type,
    {
        self.install_type.as_str()
    }

    /// The name to save the file under, where the link gives one.
    pub fn filename(&self) -> (filename: Option<&str>)
        ensures
            match filename {
                Some(name) => self@.filename == Some(name@),
                None => self@.filename is None,
            },
    {
        match &self.filename {
            Some(name) => Some(name.as_str()),
            None => None,
        }
    }

    /// The canonical text of the link. The download URL is percent-encoded;
    /// the install type and the file name are written as they are.
    pub fn to_string(&self) -> (text: String)
        ensures
            text@ == self@.rendered(),
    {
        let mut text = String::new();
        text.append(self.scheme.as_str());
        text.append("://");
        text.append(self.command.as_str());
        text.append("?url=");
        let download_url = percent_encode(self.download_url.as_str());
        text.append(download_url.as_str());
        text.append("&type=");
        text.append(self.install_type.as_str());
        assert(text@ =~= self@.rendered_head());
        match &self.filename {
            Some(filename) => {
                text.append("&filename=");
                text.append(filename.as_str());
                assert(text@ =~= self@.rendered_head() + ("&filename="@ + filename@));
            },
            None => {
                assert(text@ =~= self@.rendered_head() + Seq::<char>::empty());
            },
        }
        text
    }
}

} // verus!
