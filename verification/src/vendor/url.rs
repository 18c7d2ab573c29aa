//! The file name that a URL ends in.

use super::error::{VendorError, VendorErrorOf};
use vstd::prelude::*;

verus! {

/// The path segments of the URL that a text writes, as the `reqwest` crate's
/// `Url` parses it: nothing where the URL has no such path, and the parser's
/// message where the text is no URL.
pub uninterp spec fn url_path_segments(url: Seq<char>) -> Result<
    Option<Seq<Seq<char>>>,
    Seq<char>,
>;

/// Parsed path segments, as sequences of characters.
pub open spec fn segments_view(parsed: Result<Option<Vec<String>>, String>) -> Result<
    Option<Seq<Seq<char>>>,
    Seq<char>,
> {
    match parsed {
        Ok(Some(segments)) => Ok(Some(segments.deep_view())),
        Ok(None) => Ok(None),
        Err(message) => Err(message@),
    }
}

/// Whether a text can be a segment of a URL's path: it is ASCII, and holds
/// nothing that would end the segment or the path.
pub open spec fn is_segment(text: Seq<char>) -> bool {
    forall|i: int|
        0 <= i < text.len() ==> (#[trigger] text[i]) as u32 <= 0x7f && text[i] != '/' && text[i]
            != '?' && text[i] != '#'
}

/// Parses a URL and splits its path into segments.
///
/// Trusted: calls `reqwest::Url::parse`, then `Url::path_segments`, and copies
/// the segments, or the text of the parse error. The contract claims that the
/// result depends on the text alone, that there is at least one segment where
/// there are segments at all, and that the segments are ASCII without a slash,
/// a question mark or a hash: the path ends at either of the latter two, and
/// what is not ASCII is percent-encoded. The parser counts the characters
/// between scheme and path in an `i32`, which a longer text could overflow.
#[verifier::external_body]
fn parse_url_segments(url: &str) -> (parsed: Result<Option<Vec<String>>, String>)
    requires
        url@.len() <= i32::MAX,
    ensures
        segments_view(parsed) == url_path_segments(url@),
        parsed matches Ok(Some(segments)) ==> segments@.len() > 0,
        parsed matches Ok(Some(segments)) ==> forall|i: int|
            0 <= i < segments@.len() ==> is_segment((#[trigger] segments@[i])@),
{
    match reqwest::Url::parse(url) {
        Ok(parsed) => Ok(parsed.path_segments().map(|s| s.map(String::from).collect())),
        Err(error) => Err(error.to_string()),
    }
}

/// The file name that a URL ends in, given the segments of its path. A URL
/// without a path to split ends in none.
pub open spec fn file_name(
    url: Seq<char>,
    parsed: Result<Option<Seq<Seq<char>>>, Seq<char>>,
) -> Result<Seq<char>, VendorErrorOf<Seq<char>>> {
    match parsed {
        Err(source) => Err(VendorErrorOf::InputUrl { url, source }),
        Ok(None) => Err(VendorErrorOf::InputFileBad { path: url }),
        Ok(Some(segments)) => if segments.len() == 0 {
            Err(VendorErrorOf::InputFileBad { path: url })
        } else {
            Ok(segments.last())
        },
    }
}

/// Picks the file name that a URL ends in out of the segments of its path.
pub fn last_segment(url: &str, parsed: Result<Option<Vec<String>>, String>) -> (name: Result<
    String,
    VendorError,
>)
    ensures
        match name {
            Ok(name) => file_name(url@, segments_view(parsed)) == Ok::<
                Seq<char>,
                VendorErrorOf<Seq<char>>,
            >(name@),
            Err(e) => file_name(url@, segments_view(parsed)) == Err::<
                Seq<char>,
                VendorErrorOf<Seq<char>>,
            >(e@),
        },
{
    match parsed {
        Err(source) => Err(VendorErrorOf::InputUrl { url: url.to_string(), source }),
        Ok(None) => Err(VendorErrorOf::InputFileBad { path: url.to_string() }),
        Ok(Some(segments)) => {
            if segments.len() == 0 {
                Err(VendorErrorOf::InputFileBad { path: url.to_string() })
            } else {
                Ok(segments[segments.len() - 1].clone())
            }
        },
    }
}

/// The file name that a URL ends in. It holds no slash, and nothing of the
/// URL's query or fragment. A URL of more characters than the parser can count
/// is left out.
pub fn extract_file_name(url: &str) -> (name: Result<String, VendorError>)
    requires
        url@.len() <= i32::MAX,
    ensures
        match name {
            Ok(name) => file_name(url@, url_path_segments(url@)) == Ok::<
                Seq<char>,
                VendorErrorOf<Seq<char>>,
            >(name@) && is_segment(name@),
            Err(e) => file_name(url@, url_path_segments(url@)) == Err::<
                Seq<char>,
                VendorErrorOf<Seq<char>>,
            >(e@),
        },
        // Where there are segments at all, there is a last one.
        url_path_segments(url@) matches Ok(Some(segments)) ==> segments.len() > 0,
{
    let parsed = parse_url_segments(url);
    last_segment(url, parsed)
}

/// The file name is the segment behind which no other stands, however many
/// stand before it.
pub proof fn law_file_name_is_last(url: Seq<char>, segments: Seq<Seq<char>>, name: Seq<char>)
    ensures
        file_name(url, Ok(Some(segments.push(name)))) == Ok::<Seq<char>, VendorErrorOf<Seq<char>>>(
            name,
        ),
{
    assert(segments.push(name).last() == name);
}

/// A URL without a path, or with no segment in it, is refused by its own text,
/// and a text that is no URL with what the parser said of it.
pub proof fn law_file_name_is_refused(url: Seq<char>, source: Seq<char>)
    ensures
        file_name(url, Ok(None)) == Err::<Seq<char>, VendorErrorOf<Seq<char>>>(
            VendorErrorOf::InputFileBad { path: url },
        ),
        file_name(url, Ok(Some(Seq::empty()))) == Err::<Seq<char>, VendorErrorOf<Seq<char>>>(
            VendorErrorOf::InputFileBad { path: url },
        ),
        file_name(url, Err(source)) == Err::<Seq<char>, VendorErrorOf<Seq<char>>>(
            VendorErrorOf::InputUrl { url, source },
        ),
{
}

/// The file name that is picked out of a list of segments is the text of the
/// list's last string.
pub proof fn law_last_string(url: Seq<char>, segments: Vec<String>)
    ensures
        segments@.len() > 0 ==> file_name(url, segments_view(Ok(Some(segments)))) == Ok::<
            Seq<char>,
            VendorErrorOf<Seq<char>>,
        >(segments@[segments@.len() - 1]@),
        segments@.len() == 0 ==> file_name(url, segments_view(Ok(Some(segments)))) == Err::<
            Seq<char>,
            VendorErrorOf<Seq<char>>,
        >(VendorErrorOf::InputFileBad { path: url }),
{
}

/// Parsed segments are looked at as the texts that they are, in their order.
pub proof fn law_segments_are_kept(segments: Vec<String>, message: String, i: int)
    ensures
        segments_view(Ok(Some(segments))) matches Ok(Some(texts)) && texts.len() == segments@.len()
            && (0 <= i < texts.len() ==> texts[i] == segments@[i]@),
        segments_view(Ok(None)) == Ok::<Option<Seq<Seq<char>>>, Seq<char>>(None),
        segments_view(Err(message)) == Err::<Option<Seq<Seq<char>>>, Seq<char>>(message@),
{
}

} // verus!
