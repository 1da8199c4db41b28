//! Shortcut metadata: what a `.lnk` or `.url` file points at.
//!
//! Reading a `.lnk` needs the Windows shell; reading an internet shortcut
//! is plain text, parsed here.

use vstd::prelude::*;

use crate::text::{
    str_eq, all_digits, chars_of, digits_value, is_ascii_digit, split_char, split_on, starts_with,
    strip_prefix, trim, trimmed,
};

verus! {

/// Where a shortcut leads and how to start it.
#[derive(Debug)]
pub struct ShortcutInfo {
    pub target: String,
    pub arguments: String,
    pub working_dir: String,
    pub icon_path: String,
    pub icon_index: i32,
}

pub struct ShortcutView {
    pub target: Seq<char>,
    pub arguments: Seq<char>,
    pub working_dir: Seq<char>,
    pub icon_path: Seq<char>,
    pub icon_index: i32,
}

impl View for ShortcutInfo {
    type V = ShortcutView;

    open spec fn view(&self) -> ShortcutView {
        ShortcutView {
            target: self.target@,
            arguments: self.arguments@,
            working_dir: self.working_dir@,
            icon_path: self.icon_path@,
            icon_index: self.icon_index,
        }
    }
}

// ---------------------------------------------------------------------------
// Integers
// ---------------------------------------------------------------------------

/// What `str::parse::<i32>` gives: an optional `+` or `-` followed by at
/// least one ASCII digit and nothing else, with the value in range.
pub open spec fn parsed_i32(s: Seq<char>) -> Option<i32> {
    let neg = s.len() > 0 && s[0] == '-';
    let signed = s.len() > 0 && (s[0] == '-' || s[0] == '+');
    let body = if signed {
        s.drop_first()
    } else {
        s
    };
    let v = if neg {
        -digits_value(body)
    } else {
        digits_value(body)
    };
    if body.len() == 0 || !all_digits(body) {
        None
    } else if i32::MIN <= v && v <= i32::MAX {
        Some(v as i32)
    } else {
        None
    }
}

proof fn lemma_digits_value_grows(s: Seq<char>, k: int)
    requires
        all_digits(s),
        0 <= k <= s.len(),
    ensures
        digits_value(s) >= digits_value(s.subrange(0, k)),
        digits_value(s.subrange(0, k)) >= 0,
    decreases s.len() - k,
{
    if s.len() == 0 {
        assert(s.subrange(0, k) =~= s);
    } else if k == s.len() {
        assert(s.subrange(0, k) =~= s);
        lemma_digits_value_nonneg(s);
    } else {
        let t = s.drop_last();
        assert forall|i: int| 0 <= i < t.len() implies is_ascii_digit(#[trigger] t[i]) by {
            assert(t[i] == s[i]);
        }
        lemma_digits_value_grows(t, k);
        assert(t.subrange(0, k) =~= s.subrange(0, k));
        lemma_digits_value_nonneg(t);
        assert(is_ascii_digit(s[s.len() - 1]));
    }
}

proof fn lemma_digits_value_nonneg(s: Seq<char>)
    requires
        all_digits(s),
    ensures
        digits_value(s) >= 0,
    decreases s.len(),
{
    if s.len() > 0 {
        let t = s.drop_last();
        assert forall|i: int| 0 <= i < t.len() implies is_ascii_digit(#[trigger] t[i]) by {
            assert(t[i] == s[i]);
        }
        lemma_digits_value_nonneg(t);
        assert(is_ascii_digit(s[s.len() - 1]));
    }
}

/// Parse a decimal `i32` the way `str::parse::<i32>` does.
pub fn parse_i32(s: &str) -> (r: Option<i32>)
    ensures
        r == parsed_i32(s@),
{
    let v = chars_of(s);
    let n = v.len();
    let mut start: usize = 0;
    let mut neg = false;
    if n > 0 && (v[0] == '-' || v[0] == '+') {
        neg = v[0] == '-';
        start = 1;
    }
    let ghost body = if start == 1 {
        v@.drop_first()
    } else {
        v@
    };
    assert(body =~= v@.subrange(start as int, n as int));
    if start == n {
        return None;
    }
    let mut acc: i64 = 0;
    let mut i: usize = start;
    while i < n
        invariant
            start <= i <= n,
            n == v@.len(),
            v@ == s@,
            body == v@.subrange(start as int, n as int),
            body == (if s@.len() > 0 && (s@[0] == '-' || s@[0] == '+') {
                s@.drop_first()
            } else {
                s@
            }),
            neg == (s@.len() > 0 && s@[0] == '-'),
            0 <= acc <= 2147483648,
            acc == digits_value(v@.subrange(start as int, i as int)),
            forall|j: int| start <= j < i ==> is_ascii_digit(#[trigger] v@[j]),
        decreases n - i,
    {
        let c = v[i];
        if !('0' <= c && c <= '9') {
            proof {
                assert(body[i - start] == c);
                assert(!is_ascii_digit(body[i - start]));
            }
            return None;
        }
        let d = (c as u32 - 48) as i64;
        proof {
            let t = v@.subrange(start as int, i + 1);
            assert(t.drop_last() =~= v@.subrange(start as int, i as int));
        }
        let next = acc * 10 + d;
        if next > 2147483648 {
            proof {
                // the value is already out of range whatever follows
                if all_digits(body) {
                    lemma_digits_value_grows(body, (i + 1 - start) as int);
                    assert(body.subrange(0, (i + 1 - start) as int) =~= v@.subrange(
                        start as int,
                        i + 1,
                    ));
                    assert(digits_value(body) > 2147483648);
                }
            }
            return None;
        }
        acc = next;
        i = i + 1;
    }
    proof {
        assert(v@.subrange(start as int, n as int) == body);
        assert forall|j: int| 0 <= j < body.len() implies is_ascii_digit(#[trigger] body[j]) by {
            assert(body[j] == v@[start + j]);
        }
    }
    if neg {
        Some((-acc) as i32)
    } else if acc > 2147483647 {
        None
    } else {
        Some(acc as i32)
    }
}

// ---------------------------------------------------------------------------
// Internet shortcuts
// ---------------------------------------------------------------------------

pub open spec fn empty_shortcut() -> ShortcutView {
    ShortcutView {
        target: Seq::empty(),
        arguments: Seq::empty(),
        working_dir: Seq::empty(),
        icon_path: Seq::empty(),
        icon_index: 0,
    }
}

/// `s` with the first `n` characters dropped.
pub open spec fn after(s: Seq<char>, n: nat) -> Seq<char> {
    s.subrange(n as int, s.len() as int)
}

/// The fields read from the lines of a `.url` file; a later line setting
/// a field overrides an earlier one.
pub open spec fn url_fields(lines: Seq<Seq<char>>) -> ShortcutView
    decreases lines.len(),
{
    if lines.len() == 0 {
        empty_shortcut()
    } else {
        let prev = url_fields(lines.drop_last());
        let l = trim(lines.last());
        if starts_with(l, "URL="@) {
            ShortcutView { target: after(l, "URL="@.len()), ..prev }
        } else if starts_with(l, "IconFile="@) {
            ShortcutView { icon_path: after(l, "IconFile="@.len()), ..prev }
        } else if starts_with(l, "IconIndex="@) {
            ShortcutView {
                icon_index: match parsed_i32(after(l, "IconIndex="@.len())) {
                    Some(v) => v,
                    None => 0,
                },
                ..prev
            }
        } else if starts_with(l, "WorkingDirectory="@) {
            ShortcutView { working_dir: after(l, "WorkingDirectory="@.len()), ..prev }
        } else {
            prev
        }
    }
}

/// What a `.url` file's text describes, if it names a target.
pub open spec fn url_shortcut(data: Seq<char>) -> Option<ShortcutView> {
    let f = url_fields(split_on(data, '\n'));
    if f.target.len() == 0 {
        None
    } else {
        Some(f)
    }
}

/// Read an internet shortcut from the text of its `.url` file.
pub fn parse_url_shortcut(data: &str) -> (r: Option<ShortcutInfo>)
    ensures
        match r {
            Some(info) => url_shortcut(data@) == Some(info@),
            None => url_shortcut(data@) is None,
        },
{
    let lines = split_char(data, '\n');
    let ghost ls = split_on(data@, '\n');
    let mut info = ShortcutInfo {
        target: String::new(),
        arguments: String::new(),
        working_dir: String::new(),
        icon_path: String::new(),
        icon_index: 0,
    };
    let mut i: usize = 0;
    assert(ls.subrange(0, 0) =~= Seq::<Seq<char>>::empty());
    while i < lines.len()
        invariant
            i <= lines@.len(),
            lines@.len() == ls.len(),
            forall|k: int| 0 <= k < lines@.len() ==> #[trigger] lines@[k]@ == ls[k],
            info@ == url_fields(ls.subrange(0, i as int)),
        decreases lines@.len() - i,
    {
        proof {
            let t = ls.subrange(0, i + 1);
            assert(t.drop_last() =~= ls.subrange(0, i as int));
            assert(t.last() == lines@[i as int]@);
        }
        let line = trimmed(lines[i].as_str());
        if let Some(v) = strip_prefix(line.as_str(), "URL=") {
            info.target = v;
        } else if let Some(v) = strip_prefix(line.as_str(), "IconFile=") {
            info.icon_path = v;
        } else if let Some(v) = strip_prefix(line.as_str(), "IconIndex=") {
            info.icon_index = match parse_i32(v.as_str()) {
                Some(n) => n,
                None => 0,
            };
        } else if let Some(v) = strip_prefix(line.as_str(), "WorkingDirectory=") {
            info.working_dir = v;
        }
        i = i + 1;
    }
    assert(ls.subrange(0, ls.len() as int) =~= ls);
    if info.target.as_str().is_empty() {
        None
    } else {
        Some(info)
    }
}

/// Whether the extension of `path`, in lower case, is `ext` (`"lnk"` for
/// shell links, `"url"` for internet shortcuts).
pub open spec fn extension_is(path: Seq<char>, ext: Seq<char>) -> bool {
    match crate::storage::path_extension(path) {
        Some(e) => crate::text::ascii_lower(e) == ext,
        None => false,
    }
}

/// Whether a file's extension is `ext`, ignoring ASCII case; `ext` is
/// given in lower case.
pub fn has_extension(path: &str, ext: &str) -> (r: bool)
    ensures
        r == extension_is(path@, ext@),
{
    match crate::storage::extension_of(path) {
        Some(e) => {
            let lower = crate::text::to_ascii_lowercase(e);
            str_eq(lower.as_str(), ext)
        },
        None => false,
    }
}

// ---------------------------------------------------------------------------
// Wide strings
// ---------------------------------------------------------------------------

/// What `String::from_utf16_lossy` gives for a run of UTF-16 code units.
pub uninterp spec fn utf16_lossy(units: Seq<u16>) -> Seq<char>;

/// `String::from_utf16_lossy`: decodes UTF-16, replacing invalid data with
/// U+FFFD. Code units produced by encoding a string decode back to it.
#[verifier::external_body]
fn decode_utf16_lossy(units: &[u16]) -> (r: String)
    ensures
        r@ == utf16_lossy(units@),
        forall|s: Seq<char>| units@ == crate::text::utf16(s) ==> r@ == s,
{
    String::from_utf16_lossy(units)
}

/// Index of the first zero code unit, or the length when there is none.
pub open spec fn wide_len(buf: Seq<u16>) -> int
    decreases buf.len(),
{
    if buf.len() == 0 {
        0
    } else if buf[0] == 0 {
        0
    } else {
        1 + wide_len(buf.drop_first())
    }
}

proof fn lemma_wide_len(buf: Seq<u16>, i: int)
    requires
        0 <= i <= buf.len(),
        forall|j: int| 0 <= j < i ==> buf[j] != 0,
        i == buf.len() || buf[i] == 0,
    ensures
        wide_len(buf) == i,
    decreases i,
{
    if i > 0 {
        lemma_wide_len(buf.drop_first(), i - 1);
    }
}

/// The string held in a zero-terminated UTF-16 buffer, stopping at the
/// first zero (or the end of the buffer).
pub fn wide_to_string(buf: &[u16]) -> (r: String)
    ensures
        0 <= wide_len(buf@) <= buf@.len(),
        r@ == utf16_lossy(buf@.subrange(0, wide_len(buf@))),
{
    let mut end: usize = 0;
    while end < buf.len() && buf[end] != 0
        invariant
            end <= buf@.len(),
            forall|j: int| 0 <= j < end ==> buf@[j] != 0,
        decreases buf@.len() - end,
    {
        end = end + 1;
    }
    proof {
        lemma_wide_len(buf@, end as int);
    }
    let mut units: Vec<u16> = Vec::new();
    let mut i: usize = 0;
    while i < end
        invariant
            i <= end <= buf@.len(),
            units@ == buf@.subrange(0, i as int),
        decreases end - i,
    {
        units.push(buf[i]);
        i = i + 1;
        assert(units@ =~= buf@.subrange(0, i as int));
    }
    decode_utf16_lossy(units.as_slice())
}

} // verus!
