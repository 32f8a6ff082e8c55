//! Request-path helpers shared by the clients: appending a device
//! identifier to an API path, and checking for a cached report file.

use vstd::prelude::*;

verus! {

/// Appending a device identifier to an API path: it is attached as the
/// first query parameter unless the path already carries a query string.
pub open spec fn spec_append_device_id(path: Seq<char>, device_id: Option<Seq<char>>) -> Seq<
    char,
> {
    match device_id {
        None => path,
        Some(id) => if path.contains('?') {
            path + "&device_id="@ + id
        } else {
            path + "?device_id="@ + id
        },
    }
}

/// Whether `s` contains the character `c`.
fn str_contains_char(s: &str, c: char) -> (r: bool)
    ensures
        r == s@.contains(c),
{
    let len = s.unicode_len();
    let mut i: usize = 0;
    while i < len
        invariant
            i <= len,
            len == s@.len(),
            forall|j: int| 0 <= j < i ==> s@[j] != c,
        decreases len - i,
    {
        if s.get_char(i) == c {
            return true;
        }
        i += 1;
    }
    false
}

/// Appends a device identifier to an API path, behind `?` when the path
/// has no query string yet and behind `&` when it already has one.
pub fn append_device_id(path: &str, device_id: Option<&str>) -> (r: String)
    ensures
        r@ == spec_append_device_id(
            path@,
            match device_id {
                Some(id) => Some(id@),
                None => None,
            },
        ),
{
    let mut new_path = path.to_owned();
    match device_id {
        None => {},
        Some(id) => {
            if str_contains_char(path, '?') {
                new_path.append("&device_id=");
            } else {
                new_path.append("?device_id=");
            }
            new_path.append(id);
        },
    }
    new_path
}

/// The HTML body a response sender wraps a payload message in.
pub open spec fn spec_html_message_body(payload: Seq<char>) -> Seq<char> {
    "<div>Message: "@ + payload + "</div>"@
}

/// Renders the HTML body carrying a payload message; the senders that
/// put it on the wire live outside this crate.
pub fn html_message_body(payload: &str) -> (r: String)
    ensures
        r@ == spec_html_message_body(payload@),
{
    let mut body = String::from_str("<div>Message: ");
    body.append(payload);
    body.append("</div>");
    body
}

/// The characters stripped from the ends of a report path: every
/// character with the Unicode `White_Space` property.
pub open spec fn spec_trim_space(c: char) -> bool {
    ||| c == '\u{0009}'
    ||| c == '\u{000A}'
    ||| c == '\u{000B}'
    ||| c == '\u{000C}'
    ||| c == '\u{000D}'
    ||| c == '\u{0020}'
    ||| c == '\u{0085}'
    ||| c == '\u{00A0}'
    ||| c == '\u{1680}'
    ||| c == '\u{2000}'
    ||| c == '\u{2001}'
    ||| c == '\u{2002}'
    ||| c == '\u{2003}'
    ||| c == '\u{2004}'
    ||| c == '\u{2005}'
    ||| c == '\u{2006}'
    ||| c == '\u{2007}'
    ||| c == '\u{2008}'
    ||| c == '\u{2009}'
    ||| c == '\u{200A}'
    ||| c == '\u{2028}'
    ||| c == '\u{2029}'
    ||| c == '\u{202F}'
    ||| c == '\u{205F}'
    ||| c == '\u{3000}'
}

/// The index of the first character that is not trimmed away, counted
/// from the front.
pub open spec fn spec_trim_start(s: Seq<char>) -> int
    decreases s.len(),
{
    if s.len() == 0 {
        0
    } else if spec_trim_space(s.first()) {
        1 + spec_trim_start(s.drop_first())
    } else {
        0
    }
}

/// One past the index of the last character that is not trimmed away.
pub open spec fn spec_trim_end(s: Seq<char>) -> int
    decreases s.len(),
{
    if s.len() == 0 {
        0
    } else if spec_trim_space(s.last()) {
        spec_trim_end(s.drop_last())
    } else {
        s.len() as int
    }
}

/// `s` with the surrounding space characters removed.
pub open spec fn spec_trimmed(s: Seq<char>) -> Seq<char> {
    if spec_trim_start(s) < spec_trim_end(s) {
        s.subrange(spec_trim_start(s), spec_trim_end(s))
    } else {
        Seq::empty()
    }
}

/// `s` with every interior carriage return and line feed removed, and
/// every backslash replaced by a forward slash.
pub open spec fn spec_cleaned(s: Seq<char>) -> Seq<char>
    decreases s.len(),
{
    if s.len() == 0 {
        Seq::empty()
    } else {
        let rest = spec_cleaned(s.drop_last());
        let c = s.last();
        if c == '\r' || c == '\n' {
            rest
        } else if c == '\\' {
            rest.push('/')
        } else {
            rest.push(c)
        }
    }
}

/// The normal form of a user-supplied report path: surrounding space
/// trimmed, interior line breaks removed, backslashes turned into
/// forward slashes.
pub open spec fn spec_normalized_report_path(s: Seq<char>) -> Seq<char> {
    spec_cleaned(spec_trimmed(s))
}

proof fn lemma_trim_start_agrees(s: Seq<char>, k: int)
    requires
        0 <= k <= s.len(),
        forall|j: int| 0 <= j < k ==> spec_trim_space(s[j]),
        k == s.len() || !spec_trim_space(s[k]),
    ensures
        spec_trim_start(s) == k,
    decreases s.len(),
{
    if s.len() > 0 && spec_trim_space(s.first()) {
        assert(k >= 1);
        let rest = s.drop_first();
        lemma_trim_start_agrees(rest, k - 1);
    }
}

proof fn lemma_trim_end_agrees(s: Seq<char>, k: int)
    requires
        0 <= k <= s.len(),
        forall|j: int| k <= j < s.len() ==> spec_trim_space(s[j]),
        k == 0 || !spec_trim_space(s[k - 1]),
    ensures
        spec_trim_end(s) == k,
    decreases s.len(),
{
    if s.len() > 0 && spec_trim_space(s.last()) {
        assert(k < s.len());
        let rest = s.drop_last();
        lemma_trim_end_agrees(rest, k);
    }
}

proof fn lemma_trim_end_bounds(s: Seq<char>)
    ensures
        0 <= spec_trim_end(s) <= s.len(),
    decreases s.len(),
{
    if s.len() > 0 && spec_trim_space(s.last()) {
        lemma_trim_end_bounds(s.drop_last());
    }
}

/// Computes the normal form of a user-supplied report path, exactly as
/// `spec_normalized_report_path` states it.
pub fn normalize_report_path(user_input: &str) -> (r: String)
    ensures
        r@ == spec_normalized_report_path(user_input@),
{
    let len = user_input.unicode_len();
    let mut start: usize = 0;
    while start < len && is_trim_space_char(user_input.get_char(start))
        invariant
            start <= len,
            len == user_input@.len(),
            forall|j: int| 0 <= j < start ==> spec_trim_space(user_input@[j]),
        decreases len - start,
    {
        start += 1;
    }
    let mut end: usize = len;
    while end > start && is_trim_space_char(user_input.get_char(end - 1))
        invariant
            start <= end <= len,
            len == user_input@.len(),
            forall|j: int| end <= j < len ==> spec_trim_space(user_input@[j]),
        decreases end,
    {
        end -= 1;
    }
    proof {
        let s = user_input@;
        if start == end {
            assert(forall|j: int| 0 <= j < s.len() ==> spec_trim_space(s[j]));
            lemma_trim_start_agrees(s, s.len() as int);
            lemma_trim_end_bounds(s);
            assert(spec_trimmed(s) =~= Seq::empty());
        } else {
            lemma_trim_start_agrees(s, start as int);
            lemma_trim_end_agrees(s, end as int);
            assert(spec_trimmed(s) =~= s.subrange(start as int, end as int));
        }
    }
    let mut out = String::new();
    let mut i: usize = start;
    proof {
        assert(user_input@.subrange(start as int, start as int) =~= Seq::empty());
    }
    while i < end
        invariant
            start <= i <= end <= len,
            len == user_input@.len(),
            out@ == spec_cleaned(user_input@.subrange(start as int, i as int)),
        decreases end - i,
    {
        let c = user_input.get_char(i);
        if c == '\r' || c == '\n' {
        } else if c == '\\' {
            push_char(&mut out, '/');
        } else {
            push_char(&mut out, c);
        }
        proof {
            assert(user_input@.subrange(start as int, i + 1).drop_last() =~= user_input@.subrange(
                start as int,
                i as int,
            ));
        }
        i += 1;
    }
    out
}

/// Whether `c` is trimmed away from the ends of a report path.
fn is_trim_space_char(c: char) -> (r: bool)
    ensures
        r == spec_trim_space(c),
{
    c == '\u{0009}' || c == '\u{000A}' || c == '\u{000B}' || c == '\u{000C}' || c == '\u{000D}'
        || c == '\u{0020}' || c == '\u{0085}' || c == '\u{00A0}' || c == '\u{1680}'
        || c == '\u{2000}' || c == '\u{2001}' || c == '\u{2002}' || c == '\u{2003}'
        || c == '\u{2004}' || c == '\u{2005}' || c == '\u{2006}' || c == '\u{2007}'
        || c == '\u{2008}' || c == '\u{2009}' || c == '\u{200A}' || c == '\u{2028}'
        || c == '\u{2029}' || c == '\u{202F}' || c == '\u{205F}' || c == '\u{3000}'
}

/// Relies on `String::push`: appends the given character to the end of
/// the string.
#[verifier::external_body]
fn push_char(s: &mut String, c: char)
    ensures
        final(s)@ == old(s)@.push(c),
{
    s.push(c);
}

/// Relies on `std::path::Path::exists`; the result depends on the
/// machine's file system, so nothing is stated of it.
#[verifier::external_body]
fn report_path_exists(path: &String) -> bool {
    std::path::Path::new(path.as_str()).exists()
}

/// Whether a cached report exists at the user-supplied path, once that
/// path is brought into its normal form.
///
/// The result depends on the file system; the normalization itself is
/// the verified part, under `normalize_report_path`'s contract.
pub fn verify_cached_report_exists(user_input: &str) -> bool {
    let normalized = normalize_report_path(user_input);
    report_path_exists(&normalized)
}

} // verus!
