//! Media types: which declared types an upload may have, and the type under
//! which a stored file is served.

use vstd::prelude::*;

use crate::change::answers;
use crate::error::{failure, AppError, AppErrorView, ErrorKind};
use crate::text::{string_of, text_of};

verus! {

/// The text of the media type that `declared` parses to, or nothing where it
/// is not a media type.
pub uninterp spec fn canonical_media_type(declared: Seq<char>) -> Option<Seq<char>>;

/// Whether `allowed` and `declared` parse to media types that are equal.
pub uninterp spec fn same_media_type(allowed: Seq<char>, declared: Seq<char>) -> bool;

/// `str::parse::<mime::Mime>` followed by `Mime::to_string`: the text that
/// the parsed media type prints as, or nothing where parsing fails. The
/// result depends on the declared text alone.
#[verifier::external_body]
fn parse_media_type(declared: &str) -> (parsed: Option<String>)
    ensures
        match parsed {
            Some(text) => canonical_media_type(declared@) == Some(text@),
            None => canonical_media_type(declared@) is None,
        },
{
    declared.parse::<mime::Mime>().ok().map(|m| m.to_string())
}

/// The texts of the five media types that an upload may have.
pub open spec fn listed_text(text: Seq<char>) -> bool {
    ||| text == "audio/mpeg"@
    ||| text == "audio/wav"@
    ||| text == "audio/flac"@
    ||| text == "audio/aac"@
    ||| text == "audio/ogg"@
}

/// `Mime`'s `==` on what the two texts parse to, the allowed type on the
/// left; false where either does not parse. The result depends on the two
/// texts alone. The allowed text is one of the five listed ones, which
/// have no parameters: the comparison then never cuts the declared text.
#[verifier::external_body]
fn media_types_match(allowed: &str, declared: &str) -> (same: bool)
    requires
        listed_text(allowed@),
    ensures
        same == same_media_type(allowed@, declared@),
{
    match (allowed.parse::<mime::Mime>(), declared.parse::<mime::Mime>()) {
        (Ok(a), Ok(d)) => a == d,
        _ => false,
    }
}

/// Whether the media type is one of the five that an upload may have.
pub open spec fn whitelisted(media_type: Seq<char>) -> bool {
    ||| same_media_type("audio/mpeg"@, media_type)
    ||| same_media_type("audio/wav"@, media_type)
    ||| same_media_type("audio/flac"@, media_type)
    ||| same_media_type("audio/aac"@, media_type)
    ||| same_media_type("audio/ogg"@, media_type)
}

/// The failure that answers an upload without a usable media type.
pub open spec fn missing_media_type() -> AppErrorView {
    failure(ErrorKind::Validation, "No content type specified"@)
}

/// The failure that answers an upload of a media type that is not accepted.
pub open spec fn unsupported_media_type() -> AppErrorView {
    failure(ErrorKind::Validation, "Invalid audio format (only MP3/WAV/FLAC/AAC/OGG)"@)
}

/// What becomes of a parsed media type, given whether it is on the
/// whitelist: the text to store, or the failure.
pub open spec fn media_type_decision(parsed: Option<Seq<char>>, listed: bool) -> Result<
    Seq<char>,
    AppErrorView,
> {
    match parsed {
        None => Err(missing_media_type()),
        Some(media_type) => if listed {
            Ok(media_type)
        } else {
            Err(unsupported_media_type())
        },
    }
}

/// What becomes of a declared media type, given what it parses to: the text
/// to store, or the failure.
pub open spec fn acceptance_of(parsed: Option<Seq<char>>) -> Result<Seq<char>, AppErrorView> {
    media_type_decision(
        parsed,
        match parsed {
            Some(media_type) => whitelisted(media_type),
            None => false,
        },
    )
}

/// What becomes of the media type that an upload declares, if it declares
/// one.
pub open spec fn acceptance(declared: Option<Seq<char>>) -> Result<Seq<char>, AppErrorView> {
    match declared {
        None => Err(missing_media_type()),
        Some(text) => acceptance_of(canonical_media_type(text)),
    }
}

/// Whether the media type is one of the five that an upload may have.
pub fn is_whitelisted(media_type: &str) -> (b: bool)
    ensures
        b == whitelisted(media_type@),
{
    media_types_match("audio/mpeg", media_type) || media_types_match("audio/wav", media_type)
        || media_types_match("audio/flac", media_type) || media_types_match(
        "audio/aac",
        media_type,
    ) || media_types_match("audio/ogg", media_type)
}

/// Decides on a parsed media type, given whether it is on the whitelist: a
/// listed type is stored as it is, an unlisted one is refused, and so is a
/// type that did not parse.
pub fn decide_media_type(parsed: Option<String>, listed: bool) -> (r: Result<String, AppError>)
    ensures
        answers(r, media_type_decision(string_of(parsed), listed)),
{
    match parsed {
        None => Err(AppError::new(ErrorKind::Validation, "No content type specified")),
        Some(media_type) => if listed {
            Ok(media_type)
        } else {
            Err(
                AppError::new(
                    ErrorKind::Validation,
                    "Invalid audio format (only MP3/WAV/FLAC/AAC/OGG)",
                ),
            )
        },
    }
}

/// Looks a parsed media type up on the whitelist and decides on it.
pub fn accept_parsed(parsed: Option<String>) -> (r: Result<String, AppError>)
    ensures
        answers(r, acceptance_of(string_of(parsed))),
{
    let listed = match &parsed {
        Some(media_type) => is_whitelisted(media_type.as_str()),
        None => false,
    };
    decide_media_type(parsed, listed)
}

/// Checks the media type that an upload declares and hands out the text to
/// store.
pub fn accept_media_type(declared: Option<&str>) -> (r: Result<String, AppError>)
    ensures
        answers(r, acceptance(text_of(declared))),
{
    match declared {
        None => Err(AppError::new(ErrorKind::Validation, "No content type specified")),
        Some(text) => accept_parsed(parse_media_type(text)),
    }
}

/// The media type under which a file stored with the given type is served:
/// the stored one if it parses, the default otherwise.
pub open spec fn served_as(stored: Seq<char>) -> Seq<char> {
    match canonical_media_type(stored) {
        Some(media_type) => media_type,
        None => "audio/mpeg"@,
    }
}

/// The media type under which a file stored with the given type is served.
pub fn served_media_type(stored: &str) -> (media_type: String)
    ensures
        media_type@ == served_as(stored@),
{
    match parse_media_type(stored) {
        Some(media_type) => media_type,
        None => "audio/mpeg".to_owned(),
    }
}

/// An upload whose declared media type is missing, does not parse, or is
/// not on the whitelist is refused as invalid.
pub proof fn unlisted_media_type_is_refused(declared: Option<Seq<char>>)
    requires
        declared matches Some(text) ==> (canonical_media_type(text) matches Some(media_type)
            ==> !whitelisted(media_type)),
    ensures
        acceptance(declared) matches Err(e) && e.kind == ErrorKind::Validation,
{
}

} // verus!
