use vstd::prelude::*;
use vstd::string::{StrSliceExecFns, StringExecFns};
use crate::command::{opt_view, split_first, split_once};
use crate::routing::{lower_of, lowercase, same_text};

verus! {

/// The text that `str::trim` leaves: leading and trailing white space removed.
pub uninterp spec fn trimmed_of(s: Seq<char>) -> Seq<char>;

/// The first file extension that `mime_guess` knows for a content type, if any.
pub uninterp spec fn first_mime_extension_of(content_type: Seq<char>) -> Option<Seq<char>>;

/// The percent-decoded text, or `None` where the decoded bytes are not UTF-8.
pub uninterp spec fn percent_decoded_of(s: Seq<char>) -> Option<Seq<char>>;

/// Relies on `str::trim`: the result depends on the characters alone.
#[verifier::external_body]
fn trim(s: &str) -> (r: &str)
    ensures
        r@ == trimmed_of(s@),
{
    s.trim()
}

/// Relies on `mime_guess::get_mime_extensions_str`, of which the first extension is taken.
#[verifier::external_body]
fn first_mime_extension(content_type: &str) -> (r: Option<String>)
    ensures
        opt_view(r) == first_mime_extension_of(content_type@),
{
    mime_guess::get_mime_extensions_str(content_type).and_then(<[&str]>::first).map(ToString::to_string)
}

/// Relies on `percent_encoding::percent_decode_str` and `PercentDecode::decode_utf8`.
#[verifier::external_body]
fn percent_decode(s: &str) -> (r: Option<String>)
    ensures
        opt_view(r) == percent_decoded_of(s@),
{
    match percent_encoding::percent_decode_str(s).decode_utf8() {
        Ok(t) => Some(t.into_owned()),
        Err(_) => None,
    }
}

pub open spec fn starts_with(s: Seq<char>, p: Seq<char>) -> bool {
    p.len() <= s.len() && s.subrange(0, p.len() as int) == p
}

pub open spec fn ends_with(s: Seq<char>, p: Seq<char>) -> bool {
    p.len() <= s.len() && s.subrange(s.len() - p.len(), s.len() as int) == p
}

/// `s` without every leading repetition of `p`.
pub open spec fn strip_prefix_all(s: Seq<char>, p: Seq<char>) -> Seq<char>
    decreases s.len(),
{
    if p.len() > 0 && starts_with(s, p) {
        strip_prefix_all(s.subrange(p.len() as int, s.len() as int), p)
    } else {
        s
    }
}

/// `s` without its leading `c`s.
pub open spec fn strip_leading(s: Seq<char>, c: char) -> Seq<char>
    decreases s.len(),
{
    if s.len() > 0 && s[0] == c {
        strip_leading(s.drop_first(), c)
    } else {
        s
    }
}

/// `s` without its trailing `c`s.
pub open spec fn strip_trailing(s: Seq<char>, c: char) -> Seq<char>
    decreases s.len(),
{
    if s.len() > 0 && s.last() == c {
        strip_trailing(s.drop_last(), c)
    } else {
        s
    }
}

/// The value of a `filename=` field, without the key and the surrounding quotes.
pub open spec fn field_value(t: Seq<char>) -> Seq<char> {
    strip_trailing(strip_leading(strip_prefix_all(t, "filename="@), '"'), '"')
}

/// The file name of the first `;`-separated field that, trimmed, starts with `filename=`;
/// `fuel` bounds the number of fields looked at.
pub open spec fn name_in(s: Seq<char>, fuel: nat) -> Option<Seq<char>>
    decreases fuel,
{
    if fuel == 0 {
        None
    } else {
        let (field, rest) = split_once(s, ';');
        let t = trimmed_of(field);
        if starts_with(t, "filename="@) {
            Some(field_value(t))
        } else {
            match rest {
                Some(r) => name_in(r, (fuel - 1) as nat),
                None => None,
            }
        }
    }
}

/// The file name that a `content-disposition` header gives, if any.
pub open spec fn disposition_name(header: Seq<char>) -> Option<Seq<char>> {
    name_in(header, header.len() + 1)
}

/// The name before percent decoding: the header's file name, else the URL's last path
/// segment where it has a dot, else that segment with the content type's extension, else
/// `file.bin`.
pub open spec fn raw_name_of(
    disposition: Option<Seq<char>>,
    last_segment: Option<Seq<char>>,
    mime_extension: Option<Seq<char>>,
) -> Seq<char> {
    let from_header = match disposition {
        Some(d) => disposition_name(d),
        None => None,
    };
    match from_header {
        Some(n) => n,
        None => match last_segment {
            None => "file.bin"@,
            Some(seg) => if seg.contains('.') {
                seg
            } else {
                match mime_extension {
                    Some(e) => seg + "."@ + e,
                    None => "file.bin"@,
                }
            },
        },
    }
}

/// Whether the content is sent as a video: an mp4 content type or an `.mp4` name.
pub open spec fn is_video_of(content_type: Option<Seq<char>>, name: Seq<char>) -> bool {
    (content_type is Some && starts_with(content_type.unwrap(), "video/mp4"@))
        || ends_with(lower_of(name), ".mp4"@)
}

pub open spec fn opt_str_view(o: Option<&str>) -> Option<Seq<char>> {
    match o {
        Some(s) => Some(s@),
        None => None,
    }
}

proof fn lemma_split_rest_shorter(s: Seq<char>, c: char)
    ensures
        split_once(s, c).1 is Some ==> split_once(s, c).1.unwrap().len() < s.len(),
{
    if exists|i: int| crate::command::is_first_index(s, c, i) {
        let i = choose|i: int| crate::command::is_first_index(s, c, i);
        assert(0 <= i < s.len());
    }
}

proof fn lemma_name_fuel(s: Seq<char>, fuel: nat)
    requires
        fuel > s.len(),
    ensures
        name_in(s, fuel) == name_in(s, s.len() + 1),
    decreases s.len(),
{
    lemma_split_rest_shorter(s, ';');
    let (field, rest) = split_once(s, ';');
    match rest {
        Some(r) => {
            lemma_name_fuel(r, (fuel - 1) as nat);
            lemma_name_fuel(r, s.len());
        },
        None => {},
    }
}

/// Whether `s` starts with `p`.
pub fn has_prefix(s: &str, p: &str) -> (r: bool)
    ensures
        r == starts_with(s@, p@),
{
    let n = p.unicode_len();
    if s.unicode_len() < n {
        return false;
    }
    same_text(s.substring_char(0, n), p)
}

/// Whether `s` ends with `p`.
pub fn has_suffix(s: &str, p: &str) -> (r: bool)
    ensures
        r == ends_with(s@, p@),
{
    let n = p.unicode_len();
    let m = s.unicode_len();
    if m < n {
        return false;
    }
    same_text(s.substring_char(m - n, m), p)
}

/// Whether `s` holds the character `c`.
pub fn has_char(s: &str, c: char) -> (r: bool)
    ensures
        r == s@.contains(c),
{
    let n = s.unicode_len();
    let mut i: usize = 0;
    while i < n
        invariant
            n == s@.len(),
            i <= n,
            forall|j: int| 0 <= j < i ==> s@[j] != c,
        decreases n - i,
    {
        if s.get_char(i) == c {
            assert(s@[i as int] == c);
            return true;
        }
        i = i + 1;
    }
    false
}

/// The value of a trimmed `filename=` field.
pub fn field_value_of(t: &str) -> (r: String)
    ensures
        r@ == field_value(t@),
{
    proof {
        reveal_strlit("filename=");
        assert("filename="@.len() == 9);
    }
    let mut cur: &str = t;
    let mut more = has_prefix(cur, "filename=");
    while more
        invariant
            "filename="@.len() == 9,
            more == starts_with(cur@, "filename="@),
            strip_prefix_all(cur@, "filename="@) == strip_prefix_all(t@, "filename="@),
        decreases cur@.len(),
    {
        cur = cur.substring_char(9, cur.unicode_len());
        more = has_prefix(cur, "filename=");
    }
    let ghost stripped = cur@;
    let mut more = cur.unicode_len() > 0 && cur.get_char(0) == '"';
    while more
        invariant
            more == (cur@.len() > 0 && cur@[0] == '"'),
            strip_leading(cur@, '"') == strip_leading(stripped, '"'),
        decreases cur@.len(),
    {
        let n = cur.unicode_len();
        cur = cur.substring_char(1, n);
        more = cur.unicode_len() > 0 && cur.get_char(0) == '"';
    }
    let ghost led = cur@;
    let mut more = cur.unicode_len() > 0 && cur.get_char(cur.unicode_len() - 1) == '"';
    while more
        invariant
            more == (cur@.len() > 0 && cur@.last() == '"'),
            strip_trailing(cur@, '"') == strip_trailing(led, '"'),
        decreases cur@.len(),
    {
        let n = cur.unicode_len();
        cur = cur.substring_char(0, n - 1);
        more = cur.unicode_len() > 0 && cur.get_char(cur.unicode_len() - 1) == '"';
    }
    cur.to_owned()
}

/// The file name in a `content-disposition` header value, if it has one.
pub fn name_from_disposition(header: &str) -> (r: Option<String>)
    ensures
        opt_view(r) == disposition_name(header@),
{
    let mut cur: &str = header;
    proof { reveal_strlit("filename="); }
    loop
        invariant
            disposition_name(header@) == name_in(cur@, cur@.len() + 1),
        decreases cur@.len(),
    {
        proof { lemma_split_rest_shorter(cur@, ';'); }
        let (field, rest) = split_first(cur, ';');
        let t = trim(field);
        if has_prefix(t, "filename=") {
            return Some(field_value_of(t));
        }
        match rest {
            None => return None,
            Some(r) => {
                proof { lemma_name_fuel(r@, cur@.len()); }
                cur = r;
            },
        }
    }
}

/// The name before percent decoding, from what the response tells and the extension
/// known for its content type.
pub fn raw_name(disposition: Option<&str>, last_segment: Option<&str>, mime_extension: Option<&str>) -> (r: String)
    ensures
        r@ == raw_name_of(opt_str_view(disposition), opt_str_view(last_segment), opt_str_view(mime_extension)),
{
    let from_header = match disposition {
        Some(d) => name_from_disposition(d),
        None => None,
    };
    match from_header {
        Some(n) => n,
        None => match last_segment {
            None => "file.bin".to_owned(),
            Some(seg) => {
                if has_char(seg, '.') {
                    seg.to_owned()
                } else {
                    match mime_extension {
                        Some(e) => seg.to_owned().concat(".").concat(e),
                        None => "file.bin".to_owned(),
                    }
                }
            },
        },
    }
}

/// The display name of the transferred file; `None` where percent decoding does not give
/// UTF-8.
pub fn file_name(disposition: Option<&str>, last_segment: Option<&str>, content_type: Option<&str>) -> (r: Option<String>)
    ensures
        opt_view(r) == percent_decoded_of(raw_name_of(
            opt_str_view(disposition),
            opt_str_view(last_segment),
            match content_type { Some(ct) => first_mime_extension_of(ct@), None => None },
        )),
{
    let ext = match content_type {
        Some(ct) => first_mime_extension(ct),
        None => None,
    };
    let raw = match &ext {
        Some(e) => raw_name(disposition, last_segment, Some(e.as_str())),
        None => raw_name(disposition, last_segment, None),
    };
    percent_decode(raw.as_str())
}

/// Whether the file goes out as a video.
pub fn is_video(content_type: Option<&str>, name: &str) -> (r: bool)
    ensures
        r == is_video_of(opt_str_view(content_type), name@),
{
    let by_type = match content_type {
        Some(ct) => has_prefix(ct, "video/mp4"),
        None => false,
    };
    if by_type {
        return true;
    }
    let lower = lowercase(name);
    has_suffix(lower.as_str(), ".mp4")
}

} // verus!
