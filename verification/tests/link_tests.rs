use ocs_custodian::handler::check_url;
use ocs_custodian::installer::install;
use ocs_custodian::parser::check_uri;
use ocs_custodian::types::install_type::InstallTypeError;
use ocs_custodian::types::Command;
use ocs_custodian::types::OcsParsingError;
use ocs_custodian::types::ParsedOcsUrl;
use ocs_custodian::types::Scheme;
use ocs_custodian::uri::Uri;
use std::collections::hash_map::DefaultHasher;
use std::hash::Hash;
use std::hash::Hasher;

const GOOD: &str = "ocs://install?url=https%3A%2F%2Ffake.download%2Flocation.png&type=plasma_look_and_feel&filename=location55.png";

fn hash_of(link: &ParsedOcsUrl) -> u64 {
    let mut hasher = DefaultHasher::new();
    link.hash(&mut hasher);
    hasher.finish()
}

#[test]
fn good_link_has_its_parts() {
    let link = check_url(GOOD).unwrap();
    assert_eq!(link.scheme(), Scheme::Ocs);
    assert_eq!(link.command(), Command::Install);
    assert_eq!(
        link.download_url().as_str(),
        "https://fake.download/location.png"
    );
    assert_eq!(link.install_type(), "plasma_look_and_feel");
    assert_eq!(link.filename(), Some("location55.png"));
    assert_eq!(
        link.ocs_url().as_str(),
        "ocs://install?url=https://fake.download/location.png&type=plasma_look_and_feel&filename=location55.png"
    );
    assert_eq!(link.to_string(), GOOD);
}

#[test]
fn rendering_then_reading_gives_an_equal_link() {
    let link = check_url(GOOD).unwrap();
    let again = check_url(link.to_string().as_str()).unwrap();
    assert_eq!(link, again);
    assert_eq!(hash_of(&link), hash_of(&again));
    assert_eq!(link.clone(), link);
}

#[test]
fn secure_scheme_and_download_command() {
    let link =
        check_url("ocss://download?url=https%3A%2F%2Ffake.download%2Fa.mp3&type=music").unwrap();
    assert_eq!(link.scheme(), Scheme::Ocss);
    assert_eq!(link.command(), Command::Download);
    assert_eq!(
        link.to_string(),
        "ocss://download?url=https%3A%2F%2Ffake.download%2Fa.mp3&type=music"
    );
}

#[test]
fn scheme_and_command_in_any_letter_case() {
    let link =
        check_url("OCS://INSTALL?url=https%3A%2F%2Ffake.download%2Fa.mp3&type=music").unwrap();
    assert_eq!(link.scheme(), Scheme::Ocs);
    assert_eq!(link.command(), Command::Install);
    assert_eq!(
        link.to_string(),
        "ocs://install?url=https%3A%2F%2Ffake.download%2Fa.mp3&type=music"
    );
}

#[test]
fn parameter_names_are_read_as_written() {
    assert_eq!(
        check_url("OCS://INSTALL?URL=https%3A%2F%2Ffake.download%2Fa.mp3&TYPE=music"),
        Err(OcsParsingError::NoDownloadUrl)
    );
}

#[test]
fn undecodable_link_is_a_decode_error() {
    let error = String::from_utf8(b"ocs://install?url=\xff".to_vec()).unwrap_err();
    assert_eq!(
        check_url("ocs://install?url=%ff"),
        Err(OcsParsingError::UrlDecodeError(error))
    );
}

#[test]
fn escaped_delimiters_are_decoded_before_parsing() {
    let link = check_url("ocs%3A%2F%2Finstall%3Furl%3Dx%3Ay%26type%3Dmusic").unwrap();
    assert_eq!(link.scheme(), Scheme::Ocs);
    assert_eq!(link.command(), Command::Install);
    assert_eq!(link.download_url().as_str(), "x:y");
    assert_eq!(link.install_type(), "music");
    assert_eq!(link.filename(), None);
}

#[test]
fn malformed_escape_is_left_as_it_is() {
    let link = check_url("ocs://install?url=x:y&type=100%zz").unwrap();
    assert_eq!(link.install_type(), "100%zz");
}

#[test]
fn empty_link_is_a_syntax_error() {
    assert_eq!(
        check_url(""),
        Err(OcsParsingError::UrlParsingError(
            url::ParseError::RelativeUrlWithoutBase
        ))
    );
}

#[test]
fn control_characters_are_a_syntax_error() {
    assert_eq!(
        check_url("\u{1}\u{2}\u{7f}"),
        Err(OcsParsingError::UrlParsingError(
            url::ParseError::RelativeUrlWithoutBase
        ))
    );
}

#[test]
fn other_scheme_is_refused_with_its_text() {
    assert_eq!(
        check_url("sduigh:sdiguhcc8////s::;dij"),
        Err(OcsParsingError::UnexpectedOcsScheme("sduigh".to_string()))
    );
    assert_eq!(
        check_url("abc://download?url=https%3A%2F%2Fnormal.link%2Fwith_thing.mp3&type=music"),
        Err(OcsParsingError::UnexpectedOcsScheme("abc".to_string()))
    );
    assert_eq!(
        check_url("ocsss://download?url=x:y&type=music"),
        Err(OcsParsingError::UnexpectedOcsScheme("ocsss".to_string()))
    );
}

#[test]
fn long_scheme_is_kept_whole() {
    let long = "abcd".repeat(401);
    assert!(long.len() > 1600);
    assert_eq!(
        check_url(format!("{long}://download?url=x:y&type=music").as_str()),
        Err(OcsParsingError::UnexpectedOcsScheme(long))
    );
}

#[test]
fn long_command_is_kept_whole() {
    let long = "abcd".repeat(401);
    assert_eq!(
        check_url(format!("ocs://{long}?url=x:y&type=music").as_str()),
        Err(OcsParsingError::UnexpectedOcsCommand(long))
    );
}

#[test]
fn missing_command() {
    assert_eq!(
        check_url("ocs:?url=x:y&type=music"),
        Err(OcsParsingError::NoOcsCommand)
    );
    assert_eq!(
        check_url("ocs://?url=x:y&type=music"),
        Err(OcsParsingError::NoOcsCommand)
    );
}

#[test]
fn other_command_is_refused_as_given() {
    assert_eq!(
        check_url("ocs://FooBar?url=x:y&type=music"),
        Err(OcsParsingError::UnexpectedOcsCommand("FooBar".to_string()))
    );
    assert_eq!(
        check_url("ocs://installs?url=x:y&type=music"),
        Err(OcsParsingError::UnexpectedOcsCommand("installs".to_string()))
    );
}

#[test]
fn scheme_is_checked_before_command() {
    assert_eq!(
        check_url("abc://nothing"),
        Err(OcsParsingError::UnexpectedOcsScheme("abc".to_string()))
    );
}

#[test]
fn missing_download_url() {
    assert_eq!(
        check_url("ocs://install?type=music"),
        Err(OcsParsingError::NoDownloadUrl)
    );
    assert_eq!(
        check_url("ocs://install"),
        Err(OcsParsingError::NoDownloadUrl)
    );
}

#[test]
fn empty_download_url_is_a_syntax_error() {
    assert_eq!(
        check_url("ocs://install?url=&type=music"),
        Err(OcsParsingError::UrlParsingError(
            url::ParseError::RelativeUrlWithoutBase
        ))
    );
}

#[test]
fn download_url_is_checked_before_install_type() {
    assert_eq!(
        check_url("ocs://install?url=nothing"),
        Err(OcsParsingError::UrlParsingError(
            url::ParseError::RelativeUrlWithoutBase
        ))
    );
}

#[test]
fn missing_install_type() {
    assert_eq!(
        check_url("ocs://install?url=https%3A%2F%2Ffake.download%2Fa.mp3"),
        Err(OcsParsingError::NoInstallType)
    );
}

#[test]
fn unknown_install_type_is_accepted() {
    let link = check_url("ocs://install?url=x:y&type=farts").unwrap();
    assert_eq!(link.install_type(), "farts");
    let empty = check_url("ocs://install?url=x:y&type=").unwrap();
    assert_eq!(empty.install_type(), "");
    assert_eq!(empty.to_string(), "ocs://install?url=x%3Ay&type=");
}

#[test]
fn filename_left_out() {
    let link =
        check_url("ocs://install?url=https%3A%2F%2Ffake.download%2Fa.mp3&type=music").unwrap();
    assert_eq!(link.filename(), None);
    assert_eq!(
        link.to_string(),
        "ocs://install?url=https%3A%2F%2Ffake.download%2Fa.mp3&type=music"
    );
}

#[test]
fn filename_given_empty() {
    let link =
        check_url("ocs://install?url=https%3A%2F%2Ffake.download%2Fa.mp3&type=music&filename=")
            .unwrap();
    assert_eq!(link.filename(), Some(""));
    assert_eq!(
        link.to_string(),
        "ocs://install?url=https%3A%2F%2Ffake.download%2Fa.mp3&type=music&filename="
    );
}

#[test]
fn last_of_repeated_parameters_counts() {
    let link = check_url(
        "ocs://install?url=https%3A%2F%2Ffake.download%2Fa.mp3&type=music&type=icons&url=x:y&filename=a&filename=b",
    )
    .unwrap();
    assert_eq!(link.download_url().as_str(), "x:y");
    assert_eq!(link.install_type(), "icons");
    assert_eq!(link.filename(), Some("b"));
    assert_eq!(
        link.to_string(),
        "ocs://install?url=x%3Ay&type=icons&filename=b"
    );
}

#[test]
fn download_url_is_encoded_and_filename_is_not() {
    let link = check_url(
        "ocss://download?url=HTTPS%3A%2F%2FFake.Download%2Fa b.mp3&type=a%2526b&filename=a+b%2520c",
    )
    .unwrap();
    assert_eq!(link.download_url().as_str(), "https://fake.download/a%20b.mp3");
    assert_eq!(link.install_type(), "a&b");
    assert_eq!(link.filename(), Some("a b c"));
    assert_eq!(
        link.to_string(),
        "ocss://download?url=https%3A%2F%2Ffake.download%2Fa%2520b.mp3&type=a&b&filename=a b c"
    );
}

#[test]
fn unreserved_characters_are_not_encoded() {
    let link = check_url("ocs://install?url=x:aZ09~-_.!*&type=music").unwrap();
    assert_eq!(link.download_url().as_str(), "x:aZ09~-_.!*");
    assert_eq!(
        link.to_string(),
        "ocs://install?url=x%3AaZ09~-_.%21%2A&type=music"
    );
}

#[test]
fn escapes_in_the_download_url_are_encoded_again() {
    let link =
        check_url("ocs://install?url=https%3A%2F%2Ffake.download%2F%C3%A9.png&type=music").unwrap();
    assert_eq!(
        link.download_url().as_str(),
        "https://fake.download/%C3%A9.png"
    );
    assert_eq!(
        link.to_string(),
        "ocs://install?url=https%3A%2F%2Ffake.download%2F%25C3%25A9.png&type=music"
    );
}

#[test]
fn path_port_and_fragment_do_not_count() {
    let link = check_url("ocs://user:pw@install:80/path?url=x:y&type=t#frag").unwrap();
    assert_eq!(link.command(), Command::Install);
    assert_eq!(link.to_string(), "ocs://install?url=x%3Ay&type=t");
}

#[test]
fn owned_and_borrowed_entry_agree() {
    assert_eq!(
        ocs_custodian::parser::check_url(GOOD.to_string()),
        check_url(GOOD)
    );
    assert_eq!(
        ocs_custodian::parser::check_url("abc://x".to_string()),
        check_url("abc://x")
    );
}

#[test]
fn check_uri_reads_a_parsed_uri() {
    let uri = Uri::parse("ocs://download?url=x:y&type=fonts&filename=f.ttf").unwrap();
    let link = check_uri(uri.clone()).unwrap();
    assert_eq!(link.ocs_url(), &uri);
    assert_eq!(link.command(), Command::Download);
    assert_eq!(link.download_url(), &Uri::parse("x:y").unwrap());
    assert_eq!(link.install_type(), "fonts");
    assert_eq!(link.filename(), Some("f.ttf"));
    assert_eq!(
        check_uri(Uri::parse("https://download?url=x:y&type=fonts").unwrap()),
        Err(OcsParsingError::UnexpectedOcsScheme("https".to_string()))
    );
}

#[test]
fn new_takes_install_type_and_filename_from_the_query() {
    let uri = Uri::parse("ocs://install?type=icons&filename=i.tgz").unwrap();
    let download = Uri::parse("https://fake.download/i.tgz").unwrap();
    let link = ParsedOcsUrl::new(uri.clone(), Scheme::Ocss, Command::Download, download.clone())
        .unwrap();
    assert_eq!(link.ocs_url(), &uri);
    assert_eq!(link.scheme(), Scheme::Ocss);
    assert_eq!(link.command(), Command::Download);
    assert_eq!(link.download_url(), &download);
    assert_eq!(link.install_type(), "icons");
    assert_eq!(link.filename(), Some("i.tgz"));
    assert_eq!(
        link.to_string(),
        "ocss://download?url=https%3A%2F%2Ffake.download%2Fi.tgz&type=icons&filename=i.tgz"
    );
    assert_eq!(
        ParsedOcsUrl::new(
            Uri::parse("ocs://install?filename=i.tgz").unwrap(),
            Scheme::Ocs,
            Command::Install,
            download
        ),
        Err(OcsParsingError::NoInstallType)
    );
}

#[test]
fn scheme_from_text() {
    assert_eq!(Scheme::try_from("ocs"), Ok(Scheme::Ocs));
    assert_eq!(Scheme::try_from("ocss"), Ok(Scheme::Ocss));
    assert_eq!(Scheme::try_from("OcsS"), Ok(Scheme::Ocss));
    assert_eq!(
        Scheme::try_from("Abc"),
        Err(OcsParsingError::UnexpectedOcsScheme("Abc".to_string()))
    );
    assert_eq!(
        Scheme::try_from(""),
        Err(OcsParsingError::UnexpectedOcsScheme(String::new()))
    );
    assert_eq!(Scheme::from_lowercase("ocs"), Some(Scheme::Ocs));
    assert_eq!(Scheme::from_lowercase("ocss"), Some(Scheme::Ocss));
    assert_eq!(Scheme::from_lowercase("OCS"), None);
    assert_eq!(Scheme::from_lowercase("oc"), None);
}

#[test]
fn scheme_to_text() {
    assert_eq!(Scheme::Ocs.as_str(), "ocs");
    assert_eq!(Scheme::Ocss.as_str(), "ocss");
    assert_eq!(Scheme::Ocs.to_string(), "ocs");
    assert_eq!(Scheme::Ocss.to_string(), "ocss");
}

#[test]
fn command_from_text() {
    assert_eq!(Command::try_from("download"), Ok(Command::Download));
    assert_eq!(Command::try_from("install"), Ok(Command::Install));
    assert_eq!(Command::try_from("INSTALL"), Ok(Command::Install));
    assert_eq!(
        Command::try_from("Remove"),
        Err(OcsParsingError::UnexpectedOcsCommand("Remove".to_string()))
    );
    assert_eq!(Command::from_lowercase("download"), Some(Command::Download));
    assert_eq!(Command::from_lowercase("install"), Some(Command::Install));
    assert_eq!(Command::from_lowercase("Install"), None);
}

#[test]
fn command_to_text() {
    assert_eq!(Command::Download.as_str(), "download");
    assert_eq!(Command::Install.as_str(), "install");
    assert_eq!(Command::Download.to_string(), "download");
    assert_eq!(Command::Install.to_string(), "install");
}

#[test]
fn errors_convert_into_parsing_errors() {
    assert_eq!(
        OcsParsingError::from(url::ParseError::EmptyHost),
        OcsParsingError::UrlParsingError(url::ParseError::EmptyHost)
    );
    assert_eq!(
        OcsParsingError::from(InstallTypeError::NoMatchingInstallType("x".to_string())),
        OcsParsingError::InstallTypeError(InstallTypeError::NoMatchingInstallType("x".to_string()))
    );
    let error = String::from_utf8(vec![0xff]).unwrap_err();
    assert_eq!(
        OcsParsingError::from(error.clone()),
        OcsParsingError::UrlDecodeError(error)
    );
}

#[test]
fn install_returns() {
    install();
}
