//! An HTML-escaping writer.
//!
//! Text written through [`HtmlWriter`] is converted from ANSI-coded UTF-8 to
//! HTML before reaching the wrapped output. The conversion is pure
//! computation and lives here; performing the output is I/O and stays with
//! the caller.

use vstd::prelude::*;
use vstd::utf8::{decode_utf8, valid_utf8};

verus! {

/// Wraps an output; values written through it are first converted to HTML by
/// [`convert_to_html`], falling back to the raw bytes where the conversion
/// yields nothing.
pub struct HtmlWriter<T> {
    /// The wrapped output.
    pub inner: T,
}

impl<T> HtmlWriter<T> {
    /// Wraps `inner`.
    pub fn new(inner: T) -> (w: HtmlWriter<T>)
        ensures
            w.inner == inner,
    {
        HtmlWriter { inner }
    }
}

/// What `ansi_to_html::convert` returns for the given characters: the HTML
/// conversion, or nothing where the ANSI escape codes are malformed. The
/// result depends on the input characters alone.
pub uninterp spec fn html_of(s: Seq<char>) -> Option<Seq<char>>;

/// Relies on `ansi_to_html::convert`: converts ANSI escape codes to HTML,
/// escaping the special HTML characters; it fails exactly on malformed ANSI
/// escape codes, deterministically in the input characters.
#[verifier::external_body]
fn ansi_convert(s: &str) -> (r: Option<String>)
    ensures
        r is Some <==> html_of(s@) is Some,
        r matches Some(h) ==> Some(h@) == html_of(s@),
{
    ansi_to_html::convert(s).ok()
}

/// Relies on `str::from_utf8`: succeeds exactly on valid UTF-8 input and
/// yields the decoded characters.
#[verifier::external_body]
fn bytes_to_str(buf: &[u8]) -> (r: Option<&str>)
    ensures
        r is Some <==> valid_utf8(buf@),
        r matches Some(s) ==> s@ == decode_utf8(buf@),
{
    std::str::from_utf8(buf).ok()
}

/// Converts a byte buffer holding ANSI-coded UTF-8 text into HTML. It yields
/// nothing when the bytes are not valid UTF-8 or the ANSI escape codes are
/// malformed; a writer then falls back to the raw bytes.
pub fn convert_to_html(buf: &[u8]) -> (r: Option<String>)
    ensures
        r is Some <==> (valid_utf8(buf@) && html_of(decode_utf8(buf@)) is Some),
        r matches Some(h) ==> Some(h@) == html_of(decode_utf8(buf@)),
{
    match bytes_to_str(buf) {
        Some(s) => ansi_convert(s),
        None => None,
    }
}

} // verus!
