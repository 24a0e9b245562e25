//! What the server decides for itself: where it listens, and how it hands out
//! the files of the front end.

use vstd::prelude::*;
use vstd::string::*;
use crate::app::{Body, BodyView, Response, ResponseView, STATUS_NOT_FOUND, STATUS_OK};

verus! {

/// The port on which the server listens unless it is told another.
pub const DEFAULT_PORT: i32 = 8080;

/// The port to listen on, given the port that the settings name, if they
/// name one that is a number.
pub fn port_or_default(named: Option<i32>) -> (port: i32)
    ensures
        port == match named {
            Some(p) => p,
            None => DEFAULT_PORT,
        },
{
    match named {
        Some(p) => p,
        None => DEFAULT_PORT,
    }
}

pub open spec fn msg_no_file() -> Seq<char> {
    "File not found"@
}

/// The answer to a request for a file: its content, as the kind of content
/// `content_type`, or "not found" where the front end has no such file.
pub open spec fn served(content_type: Seq<char>, content: Option<Seq<u8>>) -> ResponseView {
    match content {
        Some(bytes) => ResponseView::plain(
            STATUS_OK,
            BodyView::File { content_type, content: bytes },
        ),
        None => ResponseView::plain(STATUS_NOT_FOUND, BodyView::Text(msg_no_file())),
    }
}

pub open spec fn content_view(content: Option<Vec<u8>>) -> Option<Seq<u8>> {
    match content {
        Some(bytes) => Some(bytes@),
        None => None,
    }
}

/// Calls `mime_guess::from_path` and `MimeGuess::first_or_octet_stream`, which
/// guess the media type of a file from the extension of its path; the type is
/// returned in its text form. How a path divides into names depends on the
/// platform, so nothing is claimed of the result.
#[verifier::external_body]
fn guess_content_type(file_path: &str) -> (content_type: String) {
    mime_guess::from_path(file_path).first_or_octet_stream().as_ref().to_string()
}

/// Answers a request for a file whose kind of content is known.
pub fn serve_as(content_type: String, content: Option<Vec<u8>>) -> (r: Response)
    ensures
        r@ == served(content_type@, content_view(content)),
{
    match content {
        Some(bytes) => Response::plain(STATUS_OK, Body::File { content_type, content: bytes }),
        None => Response::plain(STATUS_NOT_FOUND, Body::Text("File not found".to_string())),
    }
}

/// Answers a request for the file at `file_path`, whose content is `content`
/// if the front end has that file. The kind of content is guessed from the
/// path.
pub fn serve_file(file_path: &str, content: Option<Vec<u8>>) -> (r: Response)
    ensures
        exists|content_type: Seq<char>| r@ == #[trigger] served(content_type, content_view(content)),
{
    let content_type = guess_content_type(file_path);
    let r = serve_as(content_type, content);
    assert(r@ == served(content_type@, content_view(content)));
    r
}

/// Answers a request for the page of the front end.
pub fn serve_index(content: Option<Vec<u8>>) -> (r: Response)
    ensures
        exists|content_type: Seq<char>| r@ == #[trigger] served(content_type, content_view(content)),
{
    serve_file("index.html", content)
}

/// What decoding `text` as standard base64 gives: the bytes, or nothing where
/// `text` is no such encoding.
pub uninterp spec fn base64_decoded(text: Seq<char>) -> Option<Seq<u8>>;

/// Calls `Engine::decode` on base64's `STANDARD` engine, which decodes the
/// input into a new `Vec` or reports why it cannot; the reason is dropped.
/// The contract names the result and says no more of it.
#[verifier::external_body]
fn decode_base64(text: &str) -> (bytes: Option<Vec<u8>>)
    ensures
        content_view(bytes) == base64_decoded(text@),
{
    base64::Engine::decode(&base64::engine::general_purpose::STANDARD, text).ok()
}

/// The secret that signs the sessions, where the settings name one: the
/// setting is the secret in base64. Without a setting, or with one that does
/// not decode, there is no secret to go by.
pub fn session_key(setting: Option<String>) -> (key: Option<Vec<u8>>)
    ensures
        content_view(key) == match setting {
            Some(text) => base64_decoded(text@),
            None => None,
        },
{
    match setting {
        Some(text) => decode_base64(text.as_str()),
        None => None,
    }
}

} // verus!
