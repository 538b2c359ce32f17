//! From a URL to the name of the file it will be saved as.

use crate::dlm_error::{DlmError, DlmErrorView};
use crate::text::{
    chars_of, find_first, find_last, first_index_of, last_index_of, lemma_first_index_of_is_first,
    lemma_last_index_of_is_last, slice_of, string_of, trim, trim_chars,
};
use vstd::prelude::*;
use vstd::utf8::{decode_utf8, encode_utf8, valid_utf8};

verus! {

/// How the standard library describes why `bytes` are not UTF-8: the text of
/// the error that `String::from_utf8` returns for them.
pub uninterp spec fn utf8_error_text(bytes: Seq<u8>) -> Seq<char>;

/// Binds `String::from_utf8` of the standard library. Bytes that are valid
/// UTF-8 give the string they encode; other bytes give the text of the
/// library's error, named [`utf8_error_text`].
#[verifier::external_body]
pub(crate) fn string_from_utf8(bytes: Vec<u8>) -> (r: Result<String, String>)
    ensures
        match r {
            Ok(s) => valid_utf8(bytes@) && s@ == decode_utf8(bytes@),
            Err(m) => !valid_utf8(bytes@) && m@ == utf8_error_text(bytes@),
        },
{
    match String::from_utf8(bytes) {
        Ok(s) => Ok(s),
        Err(e) => Err(e.to_string()),
    }
}

/// The value of a hexadecimal digit given as an ASCII byte.
pub open spec fn hex_digit_value(b: u8) -> Option<u8> {
    if 0x30 <= b <= 0x39 {
        Some((b - 0x30) as u8)
    } else if 0x41 <= b <= 0x46 {
        Some((b - 0x41 + 10) as u8)
    } else if 0x61 <= b <= 0x66 {
        Some((b - 0x61 + 10) as u8)
    } else {
        None
    }
}

/// Percent-decoding: every `%` followed by two hexadecimal digits becomes the
/// byte they write; every other byte stays. `None` where a `%` is not followed
/// by two hexadecimal digits.
pub open spec fn percent_decoded(bytes: Seq<u8>) -> Option<Seq<u8>>
    decreases bytes.len(),
{
    if bytes.len() == 0 {
        Some(Seq::empty())
    } else if bytes[0] != 0x25 {
        match percent_decoded(bytes.skip(1)) {
            Some(rest) => Some(seq![bytes[0]] + rest),
            None => None,
        }
    } else if bytes.len() >= 3 && hex_digit_value(bytes[1]) is Some && hex_digit_value(bytes[2]) is Some {
        match percent_decoded(bytes.skip(3)) {
            Some(rest) => Some(
                seq![(16 * hex_digit_value(bytes[1])->0 + hex_digit_value(bytes[2])->0) as u8] + rest,
            ),
            None => None,
        }
    } else {
        None
    }
}

/// What is reported for a `%` that two hexadecimal digits do not follow.
pub open spec fn malformed_escape_text() -> Seq<char> {
    "a '%' is not followed by two hexadecimal digits"@
}

/// The decoded form of a URL: its UTF-8 bytes percent-decoded and read as
/// UTF-8 again, or the reason why that cannot be done.
pub open spec fn url_decoded(url: Seq<char>) -> Result<Seq<char>, DlmErrorView> {
    match percent_decoded(encode_utf8(url)) {
        None => Err(DlmErrorView::UrlDecodeError { message: malformed_escape_text() }),
        Some(bytes) => if valid_utf8(bytes) {
            Ok(decode_utf8(bytes))
        } else {
            Err(DlmErrorView::UrlDecodeError { message: utf8_error_text(bytes) })
        },
    }
}

/// What follows the last `/` of `s`: all of `s` where it has none.
pub open spec fn last_segment(s: Seq<char>) -> Seq<char> {
    s.skip(last_index_of(s, '/') + 1)
}

/// `s` with each `?` and `&` replaced by `-`.
pub open spec fn sanitized(s: Seq<char>) -> Seq<char> {
    s.map_values(
        |c: char|
            if c == '?' || c == '&' {
                '-'
            } else {
                c
            },
    )
}

/// Splits a file name into extension and base name.
///
/// The name is split at the last `.` that stands before any `?`: the
/// extension runs from there to the `?`, the base name is what stands before
/// the dot. A name whose only dots follow a `?` is split at its last dot, and
/// the extension again ends before a `?`. A name without a dot has no
/// extension, and its base name is the whole name, sanitized.
pub open spec fn split_extension(name: Seq<char>) -> (Option<Seq<char>>, Seq<char>) {
    let query = first_index_of(name, '?');
    let dot_before_query = last_index_of(name.take(query), '.');
    let dot = last_index_of(name, '.');
    if dot_before_query >= 0 {
        (Some(name.subrange(dot_before_query + 1, query)), name.take(dot_before_query))
    } else if dot >= 0 {
        let tail = name.skip(dot + 1);
        (Some(tail.take(first_index_of(tail, '?'))), name.take(dot))
    } else {
        (None, sanitized(name))
    }
}

/// A download target: the URL and the file name derived from it.
pub struct FileLink {
    pub url: String,
    pub filename_without_extension: String,
    pub extension: Option<String>,
}

/// A [`FileLink`] as a mathematical value.
pub struct FileLinkView {
    pub url: Seq<char>,
    pub filename_without_extension: Seq<char>,
    pub extension: Option<Seq<char>>,
}

impl View for FileLink {
    type V = FileLinkView;

    open spec fn view(&self) -> FileLinkView {
        FileLinkView {
            url: self.url@,
            filename_without_extension: self.filename_without_extension@,
            extension: match self.extension {
                Some(e) => Some(e@),
                None => None,
            },
        }
    }
}

/// What is reported for a URL that is empty or blank.
pub open spec fn empty_url_text() -> Seq<char> {
    "FileLink cannot be built from an empty URL"@
}

/// What is reported for a URL that ends in `/`.
pub open spec fn trailing_slash_text(trimmed: Seq<char>) -> Seq<char> {
    "FileLink cannot be built with an invalid extension '"@ + trimmed + "'"@
}

/// The target that a URL resolves to, or the reason why it resolves to none.
pub open spec fn resolved(url: Seq<char>) -> Result<FileLinkView, DlmErrorView> {
    let trimmed = trim(url);
    if trimmed.len() == 0 {
        Err(DlmErrorView::Other { message: empty_url_text() })
    } else if trimmed.last() == '/' {
        Err(DlmErrorView::Other { message: trailing_slash_text(trimmed) })
    } else {
        match url_decoded(url) {
            Err(e) => Err(e),
            Ok(decoded) => {
                let (extension, filename_without_extension) = split_extension(last_segment(decoded));
                Ok(FileLinkView { url, filename_without_extension, extension })
            },
        }
    }
}

fn hex_digit(b: u8) -> (r: Option<u8>)
    ensures
        r == hex_digit_value(b),
{
    if 0x30 <= b && b <= 0x39 {
        Some(b - 0x30)
    } else if 0x41 <= b && b <= 0x46 {
        Some(b - 0x41 + 10)
    } else if 0x61 <= b && b <= 0x66 {
        Some(b - 0x61 + 10)
    } else {
        None
    }
}

/// The decoded prefix followed by the decoding of what is left.
spec fn decoded_so_far(out: Seq<u8>, rest: Seq<u8>) -> Option<Seq<u8>> {
    match percent_decoded(rest) {
        Some(tail) => Some(out + tail),
        None => None,
    }
}

fn percent_decode(bytes: &Vec<u8>) -> (r: Option<Vec<u8>>)
    ensures
        match r {
            Some(out) => percent_decoded(bytes@) == Some(out@),
            None => percent_decoded(bytes@) is None,
        },
{
    let mut out: Vec<u8> = Vec::new();
    let mut i: usize = 0;
    assert(bytes@.skip(0) =~= bytes@);
    assert(decoded_so_far(out@, bytes@) == percent_decoded(bytes@)) by {
        if let Some(tail) = percent_decoded(bytes@) {
            assert(out@ + tail =~= tail);
        }
    }
    while i < bytes.len()
        invariant
            i <= bytes.len(),
            percent_decoded(bytes@) == decoded_so_far(out@, bytes@.skip(i as int)),
        decreases bytes.len() - i,
    {
        let ghost rest = bytes@.skip(i as int);
        let ghost before = out@;
        let b = bytes[i];
        assert(rest[0] == b);
        if b != 0x25 {
            out.push(b);
            proof {
                assert(rest.skip(1) =~= bytes@.skip(i + 1));
                if let Some(tail) = percent_decoded(rest.skip(1)) {
                    assert(before + (seq![b] + tail) =~= before.push(b) + tail);
                }
            }
            i += 1;
        } else {
            if bytes.len() - i < 3 {
                return None;
            }
            assert(rest[1] == bytes@[i + 1]);
            assert(rest[2] == bytes@[i + 2]);
            let high = hex_digit(bytes[i + 1]);
            let low = hex_digit(bytes[i + 2]);
            match (high, low) {
                (Some(h), Some(l)) => {
                    let value: u8 = 16 * h + l;
                    out.push(value);
                    proof {
                        assert(rest.skip(3) =~= bytes@.skip(i + 3));
                        if let Some(tail) = percent_decoded(rest.skip(3)) {
                            assert(before + (seq![value] + tail) =~= before.push(value) + tail);
                        }
                    }
                    i += 3;
                },
                _ => {
                    return None;
                },
            }
        }
    }
    assert(out@ + Seq::<u8>::empty() =~= out@);
    Some(out)
}

/// Percent-decodes a URL.
pub fn url_decode(data: &str) -> (r: Result<String, DlmError>)
    ensures
        match r {
            Ok(s) => url_decoded(data@) == Ok::<Seq<char>, DlmErrorView>(s@),
            Err(e) => url_decoded(data@) == Err::<Seq<char>, DlmErrorView>(e@),
        },
{
    let bytes = data.as_bytes_vec();
    match percent_decode(&bytes) {
        None => Err(
            DlmError::UrlDecodeError { message: "a '%' is not followed by two hexadecimal digits".to_owned() },
        ),
        Some(decoded) => match string_from_utf8(decoded) {
            Ok(s) => Ok(s),
            Err(message) => Err(DlmError::UrlDecodeError { message }),
        },
    }
}

fn sanitize(name: &Vec<char>) -> (r: Vec<char>)
    ensures
        r@ == sanitized(name@),
{
    let mut out: Vec<char> = Vec::new();
    let mut i: usize = 0;
    while i < name.len()
        invariant
            i <= name.len(),
            out@ == sanitized(name@.take(i as int)),
        decreases name.len() - i,
    {
        let c = name[i];
        let kept = if c == '?' || c == '&' {
            '-'
        } else {
            c
        };
        out.push(kept);
        assert(out@ =~= sanitized(name@.take(i + 1)));
        i += 1;
    }
    assert(name@.take(i as int) =~= name@);
    out
}

impl FileLink {
    /// Resolves a URL to a download target.
    ///
    /// A blank URL, a URL that ends in `/` and a URL that cannot be
    /// percent-decoded resolve to no target.
    pub fn new(url: String) -> (r: Result<FileLink, DlmError>)
        ensures
            match r {
                Ok(link) => resolved(url@) == Ok::<FileLinkView, DlmErrorView>(link@),
                Err(e) => resolved(url@) == Err::<FileLinkView, DlmErrorView>(e@),
            },
            r is Ok ==> trim(url@).len() > 0 && trim(url@).last() != '/',
    {
        let trimmed = trim_chars(&chars_of(url.as_str()));
        if trimmed.len() == 0 {
            Err(DlmError::Other { message: "FileLink cannot be built from an empty URL".to_owned() })
        } else if trimmed[trimmed.len() - 1] == '/' {
            let mut message = "FileLink cannot be built with an invalid extension '".to_owned();
            message.append(string_of(&trimmed).as_str());
            message.append("'");
            Err(DlmError::Other { message })
        } else {
            match url_decode(url.as_str()) {
                Err(e) => Err(e),
                Ok(url_decoded) => {
                    let decoded = chars_of(url_decoded.as_str());
                    let start = match find_last(&decoded, decoded.len(), '/') {
                        Some(slash) => slash + 1,
                        None => 0,
                    };
                    assert(decoded@.take(decoded.len() as int) =~= decoded@);
                    let segment = slice_of(&decoded, start, decoded.len());
                    assert(segment@ =~= last_segment(decoded@));
                    let (extension, filename_without_extension) = Self::extract_extension_from_filename(
                        string_of(&segment),
                    );
                    Ok(FileLink { url, filename_without_extension, extension })
                },
            }
        }
    }

    /// Splits a file name into its extension, if it has one, and its base
    /// name, as [`split_extension`] says.
    pub fn extract_extension_from_filename(filename: String) -> (r: (Option<String>, String))
        ensures
            match r.0 {
                Some(e) => split_extension(filename@).0 == Some(e@),
                None => split_extension(filename@).0 is None,
            },
            r.1@ == split_extension(filename@).1,
    {
        let name = chars_of(filename.as_str());
        let query = find_first(&name, '?');
        assert(name@.take(name.len() as int) =~= name@);
        match find_last(&name, query, '.') {
            Some(dot) => {
                let extension = slice_of(&name, dot + 1, query);
                let base = slice_of(&name, 0, dot);
                assert(base@ =~= name@.take(dot as int));
                (Some(string_of(&extension)), string_of(&base))
            },
            None => match find_last(&name, name.len(), '.') {
                Some(dot) => {
                    let tail = slice_of(&name, dot + 1, name.len());
                    assert(tail@ =~= name@.skip(dot + 1));
                    let end = find_first(&tail, '?');
                    let extension = slice_of(&tail, 0, end);
                    assert(extension@ =~= tail@.take(end as int));
                    let base = slice_of(&name, 0, dot);
                    assert(base@ =~= name@.take(dot as int));
                    (Some(string_of(&extension)), string_of(&base))
                },
                None => (None, string_of(&sanitize(&name))),
            },
        }
    }
}


/// What a split leaves of the query.
///
/// An extension holds no `?`: the query is cut off. One that was found
/// before the query holds no `.` either. A name without extension keeps its
/// length, and holds neither `?` nor `&` afterwards.
pub proof fn lemma_split_extension_strips_query(name: Seq<char>)
    ensures
        match split_extension(name).0 {
            Some(extension) => {
                &&& !extension.contains('?')
                &&& last_index_of(name.take(first_index_of(name, '?')), '.') >= 0 ==> !extension.contains('.')
                &&& split_extension(name).1.len() + 1 + extension.len() <= name.len()
            },
            None => {
                &&& last_index_of(name, '.') == -1
                &&& split_extension(name).1.len() == name.len()
                &&& !split_extension(name).1.contains('?')
                &&& !split_extension(name).1.contains('&')
            },
        },
{
    let query = first_index_of(name, '?');
    lemma_first_index_of_is_first(name, '?');
    let head = name.take(query);
    let dot_before_query = last_index_of(head, '.');
    lemma_last_index_of_is_last(head, '.');
    let dot = last_index_of(name, '.');
    lemma_last_index_of_is_last(name, '.');
    if dot_before_query >= 0 {
        let extension = name.subrange(dot_before_query + 1, query);
        assert forall|i: int| 0 <= i < extension.len() implies extension[i] != '?' && extension[i] != '.' by {
            assert(extension[i] == name[dot_before_query + 1 + i]);
            assert(head[dot_before_query + 1 + i] == name[dot_before_query + 1 + i]);
        }
    } else if dot >= 0 {
        let tail = name.skip(dot + 1);
        lemma_first_index_of_is_first(tail, '?');
        let extension = tail.take(first_index_of(tail, '?'));
        assert forall|i: int| 0 <= i < extension.len() implies extension[i] != '?' by {
            assert(extension[i] == tail[i]);
        }
    } else {
        let base = sanitized(name);
        assert forall|i: int| 0 <= i < base.len() implies base[i] != '?' && base[i] != '&' by {}
    }
}

} // verus!
