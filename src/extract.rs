use vstd::prelude::*;
use vstd::string::StringSliceAdditionalSpecFns;

verus! {

/// Unicode `White_Space`, the characters that `str::trim` removes.
pub open spec fn is_white_space(c: char) -> bool {
    let n = c as u32;
    (9 <= n && n <= 13) || n == 0x20 || n == 0x85 || n == 0xA0 || n == 0x1680 || (0x2000 <= n
        && n <= 0x200A) || n == 0x2028 || n == 0x2029 || n == 0x202F || n == 0x205F || n
        == 0x3000
}

/// The one-byte encodings of white space: tab, line feed, vertical tab, form
/// feed, carriage return and space.
pub open spec fn is_space(b: u8) -> bool {
    b == 32 || (9 <= b && b <= 13)
}

/// The two-byte UTF-8 encodings of white space: U+0085 and U+00A0.
pub open spec fn is_space2(a: u8, b: u8) -> bool {
    a == 0xC2 && (b == 0x85 || b == 0xA0)
}

/// The three-byte UTF-8 encodings of white space: U+1680, U+2000 to U+200A,
/// U+2028, U+2029, U+202F, U+205F and U+3000.
pub open spec fn is_space3(a: u8, b: u8, c: u8) -> bool {
    (a == 0xE1 && b == 0x9A && c == 0x80) || (a == 0xE2 && b == 0x80 && ((0x80 <= c && c
        <= 0x8A) || c == 0xA8 || c == 0xA9 || c == 0xAF)) || (a == 0xE2 && b == 0x81 && c
        == 0x9F) || (a == 0xE3 && b == 0x80 && c == 0x80)
}

/// Length of the encoded white-space character that starts at `i` and lies
/// within `[i, e)`, or zero.
pub open spec fn space_len(s: Seq<u8>, i: int, e: int) -> int {
    if 0 <= i && i < e && e <= s.len() && is_space(s[i]) {
        1
    } else if 0 <= i && i + 2 <= e && e <= s.len() && is_space2(s[i], s[i + 1]) {
        2
    } else if 0 <= i && i + 3 <= e && e <= s.len() && is_space3(s[i], s[i + 1], s[i + 2]) {
        3
    } else {
        0
    }
}

/// Length of the encoded white-space character that ends at `e` and lies
/// within `[i, e)`, or zero.
pub open spec fn space_len_back(s: Seq<u8>, i: int, e: int) -> int {
    if 0 <= i && i < e && e <= s.len() && is_space(s[e - 1]) {
        1
    } else if 0 <= i && i + 2 <= e && e <= s.len() && is_space2(s[e - 2], s[e - 1]) {
        2
    } else if 0 <= i && i + 3 <= e && e <= s.len() && is_space3(s[e - 3], s[e - 2], s[e - 1]) {
        3
    } else {
        0
    }
}

/// Index of the first line feed at or after `i`, or the end of `s`.
pub open spec fn line_end(s: Seq<u8>, i: int) -> int
    decreases s.len() - i,
{
    if i >= s.len() {
        s.len() as int
    } else if s[i] == 10 {
        i
    } else {
        line_end(s, i + 1)
    }
}

/// Start of the UTF-8 text `[i, e)` with leading white space removed.
pub open spec fn skip_space(s: Seq<u8>, i: int, e: int) -> int
    decreases e - i,
{
    if i >= e {
        e
    } else if space_len(s, i, e) > 0 {
        skip_space(s, i + space_len(s, i, e), e)
    } else {
        i
    }
}

/// End of the UTF-8 text `[i, e)` with trailing white space removed.
pub open spec fn trim_end(s: Seq<u8>, i: int, e: int) -> int
    decreases e - i,
{
    if e <= i {
        i
    } else if space_len_back(s, i, e) > 0 {
        trim_end(s, i, e - space_len_back(s, i, e))
    } else {
        e
    }
}

/// The trimmed span of the line `[i, e)` when it begins with `{`.
pub open spec fn json_candidate(s: Seq<u8>, i: int, e: int) -> Option<(int, int)> {
    let st = skip_space(s, i, e);
    if st < e && s[st] == 123 {
        Some((st, trim_end(s, st, e)))
    } else {
        None
    }
}

/// The trimmed span of the last line at or after `i` whose trimmed text
/// begins with `{`.
pub open spec fn last_json_from(s: Seq<u8>, i: int) -> Option<(int, int)>
    decreases s.len() - i,
{
    if i < 0 || i > s.len() {
        None
    } else {
        let e = line_end(s, i);
        let here = json_candidate(s, i, e);
        let rest = if i <= e && e < s.len() {
            last_json_from(s, e + 1)
        } else {
            None
        };
        if rest is Some {
            rest
        } else {
            here
        }
    }
}

/// The trimmed span of the last line of `s` that begins with `{`.
pub open spec fn last_json_line(s: Seq<u8>) -> Option<(int, int)> {
    last_json_from(s, 0)
}

pub open spec fn span_view(o: Option<(usize, usize)>) -> Option<(int, int)> {
    match o {
        Some((a, b)) => Some((a as int, b as int)),
        None => None,
    }
}

/// The bytes `WARN`, the marker of a benign diagnostic on the error stream.
pub open spec fn warn_at(s: Seq<u8>, i: int) -> bool {
    0 <= i && i + 4 <= s.len() && s[i] == 87 && s[i + 1] == 65 && s[i + 2] == 82 && s[i + 3]
        == 78
}

pub open spec fn contains_warn(s: Seq<u8>) -> bool {
    exists|i: int| warn_at(s, i)
}

/// The text is empty once trimmed: every character is white space.
pub open spec fn all_white(s: Seq<char>) -> bool {
    forall|i: int| 0 <= i < s.len() ==> is_white_space(#[trigger] s[i])
}

/// A run of the accounting command failed outright: it exited unsuccessfully
/// and left something on its error stream, `text` (encoded as `bytes`), that
/// is neither blank nor a warning.
pub open spec fn hard_failure(success: bool, text: Seq<char>, bytes: Seq<u8>) -> bool {
    !success && !all_white(text) && !contains_warn(bytes)
}

proof fn lemma_trim_end_keeps_first(s: Seq<u8>, i: int, e: int)
    requires
        0 <= i < e <= s.len(),
        s[i] == 123,
    ensures
        i < trim_end(s, i, e) <= e,
    decreases e - i,
{
    let k = space_len_back(s, i, e);
    if k > 0 {
        if e - k > i {
            lemma_trim_end_keeps_first(s, i, e - k);
        }
    }
}

fn find_line_end(s: &[u8], i: usize) -> (e: usize)
    requires
        i <= s@.len(),
    ensures
        e == line_end(s@, i as int),
        i <= e <= s@.len(),
{
    let mut j = i;
    while j < s.len() && s[j] != 10
        invariant
            i <= j <= s@.len(),
            line_end(s@, i as int) == line_end(s@, j as int),
        decreases s@.len() - j,
    {
        j = j + 1;
    }
    j
}

fn space_len_exec(s: &[u8], i: usize, e: usize) -> (r: usize)
    requires
        i <= e <= s@.len(),
    ensures
        r == space_len(s@, i as int, e as int),
{
    if i < e && is_space_byte(s[i]) {
        1
    } else if e >= 2 && i <= e - 2 && s[i] == 0xC2 && (s[i + 1] == 0x85 || s[i + 1] == 0xA0) {
        2
    } else if e >= 3 && i <= e - 3 && is_space3_exec(s[i], s[i + 1], s[i + 2]) {
        3
    } else {
        0
    }
}

fn space_len_back_exec(s: &[u8], i: usize, e: usize) -> (r: usize)
    requires
        i <= e <= s@.len(),
    ensures
        r == space_len_back(s@, i as int, e as int),
{
    if i < e && is_space_byte(s[e - 1]) {
        1
    } else if e >= 2 && i <= e - 2 && s[e - 2] == 0xC2 && (s[e - 1] == 0x85 || s[e - 1] == 0xA0) {
        2
    } else if e >= 3 && i <= e - 3 && is_space3_exec(s[e - 3], s[e - 2], s[e - 1]) {
        3
    } else {
        0
    }
}

fn is_space3_exec(a: u8, b: u8, c: u8) -> (r: bool)
    ensures
        r == is_space3(a, b, c),
{
    (a == 0xE1 && b == 0x9A && c == 0x80) || (a == 0xE2 && b == 0x80 && ((0x80 <= c && c
        <= 0x8A) || c == 0xA8 || c == 0xA9 || c == 0xAF)) || (a == 0xE2 && b == 0x81 && c
        == 0x9F) || (a == 0xE3 && b == 0x80 && c == 0x80)
}

fn find_non_space(s: &[u8], i: usize, e: usize) -> (r: usize)
    requires
        i <= e <= s@.len(),
    ensures
        r == skip_space(s@, i as int, e as int),
        i <= r <= e,
{
    let mut j = i;
    while j < e
        invariant
            i <= j <= e,
            e <= s@.len(),
            skip_space(s@, i as int, e as int) == skip_space(s@, j as int, e as int),
        decreases e - j,
    {
        let k = space_len_exec(s, j, e);
        if k == 0 {
            return j;
        }
        j = j + k;
    }
    j
}

fn find_trim_end(s: &[u8], i: usize, e: usize) -> (r: usize)
    requires
        i <= e <= s@.len(),
    ensures
        r == trim_end(s@, i as int, e as int),
        i <= r <= e,
{
    let mut j = e;
    while j > i
        invariant
            i <= j <= e,
            e <= s@.len(),
            trim_end(s@, i as int, e as int) == trim_end(s@, i as int, j as int),
        decreases j - i,
    {
        let k = space_len_back_exec(s, i, j);
        if k == 0 {
            return j;
        }
        j = j - k;
    }
    j
}

pub fn is_space_byte(b: u8) -> (r: bool)
    ensures
        r == is_space(b),
{
    b == 32 || (9 <= b && b <= 13)
}

/// Locates the data line in the standard output of the accounting command:
/// the last line whose text, once trimmed, begins with `{`. Returns the byte
/// range of that trimmed text, or `None` when no line qualifies.
pub fn find_json_line(out: &[u8]) -> (r: Option<(usize, usize)>)
    ensures
        span_view(r) == last_json_line(out@),
        r matches Some((a, b)) ==> a < b <= out@.len() && out@[a as int] == 123,
{
    let n = out.len();
    let mut found: Option<(usize, usize)> = None;
    let mut i: usize = 0;
    loop
        invariant
            n == out@.len(),
            i <= n,
            last_json_line(out@) == (if last_json_from(out@, i as int) is Some {
                last_json_from(out@, i as int)
            } else {
                span_view(found)
            }),
            found matches Some((a, b)) ==> a < b <= n && out@[a as int] == 123,
        decreases n - i,
    {
        let e = find_line_end(out, i);
        let st = find_non_space(out, i, e);
        if st < e && out[st] == 123 {
            let en = find_trim_end(out, st, e);
            proof {
                lemma_trim_end_keeps_first(out@, st as int, e as int);
            }
            found = Some((st, en));
        }
        if e < n {
            i = e + 1;
        } else {
            return found;
        }
    }
}

/// Whether the byte `WARN` marker occurs in `s`.
pub fn has_warn_marker(s: &[u8]) -> (r: bool)
    ensures
        r == contains_warn(s@),
{
    let n = s.len();
    if n < 4 {
        return false;
    }
    let mut i: usize = 0;
    while i <= n - 4
        invariant
            n == s@.len(),
            n >= 4,
            i <= n - 3,
            forall|j: int| 0 <= j < i ==> !warn_at(s@, j),
        decreases n - i,
    {
        if s[i] == 87 && s[i + 1] == 65 && s[i + 2] == 82 && s[i + 3] == 78 {
            assert(warn_at(s@, i as int));
            return true;
        }
        i = i + 1;
    }
    assert forall|j: int| !warn_at(s@, j) by {
        if 0 <= j && j + 4 <= n {
            assert(j < i);
        }
    }
    false
}

/// Whether `c` is white space.
pub fn is_white_space_char(c: char) -> (r: bool)
    ensures
        r == is_white_space(c),
{
    let n = c as u32;
    (9 <= n && n <= 13) || n == 0x20 || n == 0x85 || n == 0xA0 || n == 0x1680 || (0x2000 <= n
        && n <= 0x200A) || n == 0x2028 || n == 0x2029 || n == 0x202F || n == 0x205F || n
        == 0x3000
}

/// Whether `s` is empty once trimmed, that is holds nothing but white space.
pub fn is_blank(s: &str) -> (r: bool)
    ensures
        r == all_white(s@),
{
    let n = s.unicode_len();
    let mut i: usize = 0;
    while i < n
        invariant
            n == s@.len(),
            i <= n,
            forall|j: int| 0 <= j < i ==> is_white_space(#[trigger] s@[j]),
        decreases n - i,
    {
        if !is_white_space_char(s.get_char(i)) {
            return false;
        }
        i = i + 1;
    }
    true
}

/// Whether an unsuccessful run is to be reported as a failure rather than
/// read for data: its error stream must hold more than white space and no
/// `WARN` marker.
pub fn is_hard_failure(success: bool, stderr: &str) -> (r: bool)
    ensures
        r == hard_failure(success, stderr@, stderr.spec_bytes()),
{
    if success || is_blank(stderr) {
        return false;
    }
    let bytes = stderr.as_bytes_vec();
    !has_warn_marker(bytes.as_slice())
}

} // verus!
