//! From a raw open-signal to the identity of the file it asks for, and from an
//! identity to the content address of its window.

use crate::text::same_text;
use vstd::prelude::*;
use vstd::string::*;
use vstd::utf8::{decode_utf8, encode_utf8, encode_utf8_decode_utf8};

verus! {

/// The scheme of the URL that `url::Url::parse` reads from the text `raw`;
/// `None` where it refuses the text.
pub uninterp spec fn url_scheme_of(raw: Seq<char>) -> Option<Seq<char>>;

/// The key and value pairs that `url::Url::query_pairs` yields for the URL that
/// `url::Url::parse` reads from the text `raw`, in their order; `None` where the text
/// is refused.
pub uninterp spec fn url_query_pairs_of(raw: Seq<char>) -> Option<Seq<(Seq<char>, Seq<char>)>>;

/// Bytes that percent-encoding leaves as they are: ASCII letters and digits,
/// and `-`, `.`, `_`, `~`.
pub open spec fn is_unreserved(b: u8) -> bool {
    ||| 0x30 <= b <= 0x39
    ||| 0x41 <= b <= 0x5a
    ||| 0x61 <= b <= 0x7a
    ||| b == 0x2d
    ||| b == 0x2e
    ||| b == 0x5f
    ||| b == 0x7e
}

/// The upper-case hexadecimal digit for a value below 16.
pub open spec fn hex_digit(d: u8) -> char {
    if d < 10 {
        ((0x30 + d) as u8) as char
    } else {
        ((0x37 + d) as u8) as char
    }
}

/// One byte in percent-encoded form: itself where it is unreserved, and otherwise
/// `%` followed by its two hexadecimal digits.
pub open spec fn escaped_byte(b: u8) -> Seq<char> {
    if is_unreserved(b) {
        seq![b as char]
    } else {
        seq!['%', hex_digit(b / 16), hex_digit(b % 16)]
    }
}

/// A byte string in percent-encoded form, byte by byte.
pub open spec fn percent_encoded(bytes: Seq<u8>) -> Seq<char>
    decreases bytes.len(),
{
    if bytes.len() == 0 {
        Seq::empty()
    } else {
        escaped_byte(bytes[0]) + percent_encoded(bytes.drop_first())
    }
}

/// The value of the first pair at or after position `from` whose key is `key`.
pub open spec fn first_value_from(
    pairs: Seq<(Seq<char>, Seq<char>)>,
    key: Seq<char>,
    from: int,
) -> Option<Seq<char>>
    decreases pairs.len() - from,
{
    if from < 0 || from >= pairs.len() {
        None
    } else if pairs[from].0 == key {
        Some(pairs[from].1)
    } else {
        first_value_from(pairs, key, from + 1)
    }
}

/// The value of the first pair whose key is `key`.
pub open spec fn first_value(pairs: Seq<(Seq<char>, Seq<char>)>, key: Seq<char>) -> Option<
    Seq<char>,
> {
    first_value_from(pairs, key, 0)
}

/// The file identity that a URL stands for, given its scheme, the filesystem path that
/// the platform reads from it (if any) and its query pairs: the path for a `file` URL,
/// the first `path` parameter for a `justviewer` URL, and nothing for any other scheme.
pub open spec fn identity_of(
    scheme: Seq<char>,
    file_path: Option<Seq<char>>,
    pairs: Seq<(Seq<char>, Seq<char>)>,
) -> Option<Seq<char>> {
    if scheme == "file"@ {
        file_path
    } else if scheme == "justviewer"@ {
        first_value(pairs, "path"@)
    } else {
        None
    }
}

/// Whether `r` is an admissible identity for the raw open-signal `raw`. Text that is no
/// URL, and a URL of a foreign scheme, have none. A `justviewer` URL has exactly its
/// first `path` parameter. For a `file` URL the path is the platform's to say, so any
/// answer is admitted.
pub open spec fn is_normalization(raw: Seq<char>, r: Option<Seq<char>>) -> bool {
    match url_scheme_of(raw) {
        None => r is None,
        Some(scheme) => scheme == "file"@ || r == identity_of(
            scheme,
            None,
            match url_query_pairs_of(raw) {
                Some(pairs) => pairs,
                None => Seq::empty(),
            },
        ),
    }
}

/// The content address of a new window for the file `identity`: the query `?file=`
/// followed by the identity's UTF-8 bytes in percent-encoded form.
pub open spec fn content_url_of(identity: Seq<char>) -> Seq<char> {
    "?file="@ + percent_encoded(encode_utf8(identity))
}

/// Calls `url::Url::parse` on `raw` and, on the URL it yields, `url::Url::scheme`.
/// The contract claims only that the answer is a function of the text: the scheme where
/// the text parses, `None` where it does not.
#[verifier::external_body]
fn url_scheme(raw: &str) -> (r: Option<String>)
    ensures
        r.deep_view() == url_scheme_of(raw@),
{
    match url::Url::parse(raw) {
        Ok(parsed) => Some(parsed.scheme().to_string()),
        Err(_) => None,
    }
}

/// Calls `url::Url::parse` on `raw` and, on the URL it yields, `url::Url::to_file_path`;
/// the path is handed back as text, lossily where it is not UTF-8. What path a URL
/// denotes differs between platforms, so the contract claims nothing of the answer.
#[verifier::external_body]
fn url_file_path(raw: &str) -> (r: Option<String>) {
    match url::Url::parse(raw) {
        Ok(parsed) => match parsed.to_file_path() {
            Ok(path) => Some(path.to_string_lossy().to_string()),
            Err(_) => None,
        },
        Err(_) => None,
    }
}

/// Calls `url::Url::parse` on `raw` and, on the URL it yields, `url::Url::query_pairs`,
/// collecting the decoded pairs in their order. The contract claims only that the
/// answer is a function of the text.
#[verifier::external_body]
fn url_query_pairs(raw: &str) -> (r: Option<Vec<(String, String)>>)
    ensures
        r.deep_view() == url_query_pairs_of(raw@),
{
    match url::Url::parse(raw) {
        Ok(parsed) => Some(
            parsed.query_pairs().map(|(k, v)| (k.into_owned(), v.into_owned())).collect(),
        ),
        Err(_) => None,
    }
}

/// Calls `urlencoding::encode`, which percent-encodes every byte of the text's UTF-8
/// form except ASCII letters, digits and `-`, `.`, `_`, `~`, with upper-case
/// hexadecimal digits.
#[verifier::external_body]
fn percent_encode(text: &str) -> (r: String)
    ensures
        r@ == percent_encoded(encode_utf8(text@)),
{
    urlencoding::encode(text).into_owned()
}

/// The value of the first pair in `pairs` whose key is `key`.
pub fn first_value_of(pairs: &Vec<(String, String)>, key: &str) -> (r: Option<String>)
    ensures
        r.deep_view() == first_value(pairs.deep_view(), key@),
{
    let mut i: usize = 0;
    while i < pairs.len()
        invariant
            i <= pairs.len(),
            first_value(pairs.deep_view(), key@) == first_value_from(
                pairs.deep_view(),
                key@,
                i as int,
            ),
        decreases pairs.len() - i,
    {
        if same_text(pairs[i].0.as_str(), key) {
            return Some(pairs[i].1.clone());
        }
        i += 1;
    }
    None
}

/// The file identity for a URL of which the scheme, the platform's reading of its path
/// and the query pairs are given.
pub fn identity_from_parts(
    scheme: &str,
    file_path: Option<String>,
    pairs: &Vec<(String, String)>,
) -> (r: Option<String>)
    ensures
        r.deep_view() == identity_of(scheme@, file_path.deep_view(), pairs.deep_view()),
{
    if same_text(scheme, "file") {
        file_path
    } else if same_text(scheme, "justviewer") {
        first_value_of(pairs, "path")
    } else {
        None
    }
}

/// Turns one raw open-signal into the identity of the file it asks for, or into `None`
/// where it asks for none: the text is no URL, or its scheme is neither `file` nor
/// `justviewer`, or it carries no path.
pub fn normalize(raw: &str) -> (r: Option<String>)
    ensures
        is_normalization(raw@, r.deep_view()),
{
    match url_scheme(raw) {
        None => None,
        Some(scheme) => {
            let file_path = if same_text(scheme.as_str(), "file") {
                url_file_path(raw)
            } else {
                None
            };
            let pairs = if same_text(scheme.as_str(), "justviewer") {
                match url_query_pairs(raw) {
                    Some(pairs) => pairs,
                    None => Vec::new(),
                }
            } else {
                Vec::new()
            };
            identity_from_parts(scheme.as_str(), file_path, &pairs)
        },
    }
}

/// The content address under which a new window is told which file to show.
pub fn content_url(identity: &str) -> (r: String)
    ensures
        r@ == content_url_of(identity@),
{
    let encoded = percent_encode(identity);
    "?file=".to_owned().concat(encoded.as_str())
}

/// The value of a hexadecimal digit, upper case.
pub open spec fn hex_value(c: char) -> int {
    if '0' <= c <= '9' {
        c as u8 - 0x30
    } else {
        c as u8 - 0x37
    }
}

/// The bytes that percent-encoded text stands for: an escape of `%` and two digits is
/// one byte, and every other character is its own byte.
pub open spec fn percent_decoded(chars: Seq<char>) -> Seq<int>
    decreases chars.len(),
{
    if chars.len() == 0 {
        Seq::empty()
    } else if chars[0] == '%' && chars.len() >= 3 {
        seq![hex_value(chars[1]) * 16 + hex_value(chars[2])] + percent_decoded(chars.skip(3))
    } else {
        seq![chars[0] as u8 as int] + percent_decoded(chars.skip(1))
    }
}

/// **Encoding loses nothing.** Decoding percent-encoded bytes gives back those bytes, so
/// two different file identities never share a content address.
pub proof fn lemma_encoding_reads_back(bytes: Seq<u8>)
    ensures
        percent_decoded(percent_encoded(bytes)) == bytes.map_values(|b: u8| b as int),
    decreases bytes.len(),
{
    if bytes.len() > 0 {
        let rest = percent_encoded(bytes.drop_first());
        let all = percent_encoded(bytes);
        lemma_encoding_reads_back(bytes.drop_first());
        if is_unreserved(bytes[0]) {
            assert(all.skip(1) =~= rest);
        } else {
            assert(all.skip(3) =~= rest);
        }
    }
}

/// **Different files, different addresses.** The content addresses of two different
/// file identities differ, so a window is never told another file than its own.
pub proof fn lemma_content_urls_differ(a: Seq<char>, b: Seq<char>)
    requires
        a != b,
    ensures
        content_url_of(a) != content_url_of(b),
{
    if content_url_of(a) == content_url_of(b) {
        let prefix = "?file="@;
        let ea = percent_encoded(encode_utf8(a));
        let eb = percent_encoded(encode_utf8(b));
        assert((prefix + ea).skip(prefix.len() as int) =~= ea);
        assert((prefix + eb).skip(prefix.len() as int) =~= eb);
        lemma_encoding_reads_back(encode_utf8(a));
        lemma_encoding_reads_back(encode_utf8(b));
        let pa = encode_utf8(a).map_values(|x: u8| x as int);
        let pb = encode_utf8(b).map_values(|x: u8| x as int);
        assert(encode_utf8(a) =~= encode_utf8(b)) by {
            assert(pa.len() == pb.len());
            assert forall|i: int| 0 <= i < encode_utf8(a).len() implies encode_utf8(a)[i]
                == encode_utf8(b)[i] by {
                assert(pa[i] == pb[i]);
            }
        }
        encode_utf8_decode_utf8(a);
        encode_utf8_decode_utf8(b);
        assert(decode_utf8(encode_utf8(a)) == decode_utf8(encode_utf8(b)));
    }
}

/// Characters that need no escaping in a URL's query, and the escape sign itself.
pub open spec fn is_url_safe(c: char) -> bool {
    ||| '0' <= c <= '9'
    ||| 'A' <= c <= 'Z'
    ||| 'a' <= c <= 'z'
    ||| c == '-'
    ||| c == '.'
    ||| c == '_'
    ||| c == '~'
    ||| c == '%'
}

/// **The first match is the earliest.** `first_value` answers with the value of a pair
/// that carries the key and has no pair with that key before it, and answers `None`
/// only where no pair carries the key.
pub proof fn lemma_first_value_is_earliest(pairs: Seq<(Seq<char>, Seq<char>)>, key: Seq<char>)
    ensures
        match first_value(pairs, key) {
            Some(value) => exists|i: int|
                0 <= i < pairs.len() && (#[trigger] pairs[i]).0 == key && pairs[i].1 == value
                    && forall|j: int| 0 <= j < i ==> (#[trigger] pairs[j]).0 != key,
            None => forall|j: int| 0 <= j < pairs.len() ==> (#[trigger] pairs[j]).0 != key,
        },
{
    lemma_first_value_from(pairs, key, 0);
}

proof fn lemma_first_value_from(pairs: Seq<(Seq<char>, Seq<char>)>, key: Seq<char>, from: int)
    requires
        0 <= from,
    ensures
        match first_value_from(pairs, key, from) {
            Some(value) => exists|i: int|
                from <= i < pairs.len() && (#[trigger] pairs[i]).0 == key && pairs[i].1 == value
                    && forall|j: int| from <= j < i ==> (#[trigger] pairs[j]).0 != key,
            None => forall|j: int| from <= j < pairs.len() ==> (#[trigger] pairs[j]).0 != key,
        },
    decreases pairs.len() - from,
{
    if from < pairs.len() && pairs[from].0 != key {
        lemma_first_value_from(pairs, key, from + 1);
        if let Some(value) = first_value_from(pairs, key, from + 1) {
            let i = choose|i: int|
                from + 1 <= i < pairs.len() && (#[trigger] pairs[i]).0 == key && pairs[i].1
                    == value && forall|j: int|
                    from + 1 <= j < i ==> (#[trigger] pairs[j]).0 != key;
            assert(from <= i < pairs.len() && pairs[i].0 == key && pairs[i].1 == value);
        }
    }
}

/// **Encoded text is safe in a query.** Percent-encoded text holds nothing but ASCII
/// letters, digits, `-`, `.`, `_`, `~` and `%`; so no `&`, `=`, `#` or space of a file
/// identity can cut the content address short.
pub proof fn lemma_encoded_is_url_safe(bytes: Seq<u8>)
    ensures
        forall|i: int|
            0 <= i < percent_encoded(bytes).len() ==> is_url_safe(
                #[trigger] percent_encoded(bytes)[i],
            ),
    decreases bytes.len(),
{
    if bytes.len() > 0 {
        let head = escaped_byte(bytes[0]);
        let rest = percent_encoded(bytes.drop_first());
        lemma_encoded_is_url_safe(bytes.drop_first());
        let b = bytes[0];
        assert forall|k: int| 0 <= k < head.len() implies is_url_safe(#[trigger] head[k]) by {
            if !is_unreserved(b) {
                assert(b / 16 < 16 && b % 16 < 16);
            }
        }
        assert forall|i: int| 0 <= i < percent_encoded(bytes).len() implies is_url_safe(
            #[trigger] percent_encoded(bytes)[i],
        ) by {
            if i < head.len() {
                assert(percent_encoded(bytes)[i] == head[i]);
            } else {
                assert(percent_encoded(bytes)[i] == rest[i - head.len()]);
            }
        }
    }
}

} // verus!
