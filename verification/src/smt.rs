//! The status model of the SMT control knob.
//!
//! The kernel reports the state of simultaneous multi-threading as one short
//! word. [`SmtStatus`] is that word as a closed set of values, and
//! [`status_of`] says which text stands for which value: surrounding
//! whitespace and the case of ASCII letters do not matter, and every text that
//! is not one of the four known words means [`SmtStatus::Unknown`].

use vstd::prelude::*;

verus! {

/// What the kernel reports about simultaneous multi-threading.
#[derive(Debug, Clone, Copy, PartialEq, Eq, Structural)]
pub enum SmtStatus {
    On,
    Off,
    ForceOff,
    NotSupported,
    Unknown,
}

/// The characters with the Unicode property `White_Space`.
pub open spec fn is_whitespace(c: char) -> bool {
    ||| '\u{9}' <= c <= '\u{d}'
    ||| c == ' '
    ||| c == '\u{85}'
    ||| c == '\u{a0}'
    ||| c == '\u{1680}'
    ||| '\u{2000}' <= c <= '\u{200a}'
    ||| c == '\u{2028}'
    ||| c == '\u{2029}'
    ||| c == '\u{202f}'
    ||| c == '\u{205f}'
    ||| c == '\u{3000}'
}

/// An ASCII capital becomes its small letter; every other character stays.
pub open spec fn to_lower(c: char) -> char {
    if 'A' <= c <= 'Z' {
        ((c as u8) + 32) as char
    } else {
        c
    }
}

/// `s` without its leading whitespace.
pub open spec fn trim_start(s: Seq<char>) -> Seq<char>
    decreases s.len(),
{
    if s.len() > 0 && is_whitespace(s.first()) {
        trim_start(s.drop_first())
    } else {
        s
    }
}

/// `s` without its trailing whitespace.
pub open spec fn trim_end(s: Seq<char>) -> Seq<char>
    decreases s.len(),
{
    if s.len() > 0 && is_whitespace(s.last()) {
        trim_end(s.drop_last())
    } else {
        s
    }
}

/// `s` without the whitespace at either end.
pub open spec fn trim(s: Seq<char>) -> Seq<char> {
    trim_end(trim_start(s))
}

/// `s` with every ASCII capital replaced by its small letter.
pub open spec fn lowered(s: Seq<char>) -> Seq<char> {
    Seq::new(s.len(), |i: int| to_lower(s[i]))
}

/// The word that a raw text is read as: trimmed, in small letters.
pub open spec fn normalized(raw: Seq<char>) -> Seq<char> {
    lowered(trim(raw))
}

/// The status that a raw text stands for.
pub open spec fn status_of(raw: Seq<char>) -> SmtStatus {
    let word = normalized(raw);
    if word == "on"@ {
        SmtStatus::On
    } else if word == "off"@ {
        SmtStatus::Off
    } else if word == "forceoff"@ {
        SmtStatus::ForceOff
    } else if word == "notsupported"@ {
        SmtStatus::NotSupported
    } else {
        SmtStatus::Unknown
    }
}

/// The text shown for a status.
pub open spec fn label_of(status: SmtStatus) -> Seq<char> {
    match status {
        SmtStatus::On => "SMT (Hyperthreading) - On"@,
        SmtStatus::Off => "SMT (Hyperthreading) - Off"@,
        SmtStatus::ForceOff => "SMT (Hyperthreading) - Disabled at boot"@,
        SmtStatus::NotSupported => "SMT (Hyperthreading) - Not supported"@,
        SmtStatus::Unknown => "SMT (Hyperthreading) - Unknown"@,
    }
}

/// How a status is presented: its text, and whether a switch is offered.
pub struct StatusDisplay {
    pub label: &'static str,
    pub offer_toggle: bool,
}

impl SmtStatus {
    /// SMT is running: only `On` counts.
    pub fn is_enabled(&self) -> (enabled: bool)
        ensures
            enabled == (*self == SmtStatus::On),
    {
        matches!(self, SmtStatus::On)
    }

    /// The user may switch SMT: only from `On` or from `Off`.
    pub fn is_controllable(&self) -> (controllable: bool)
        ensures
            controllable == (*self == SmtStatus::On || *self == SmtStatus::Off),
    {
        matches!(self, SmtStatus::On | SmtStatus::Off)
    }

    /// The text shown for this status.
    pub fn label(&self) -> (text: &'static str)
        ensures
            text@ == label_of(*self),
    {
        match self {
            SmtStatus::On => "SMT (Hyperthreading) - On",
            SmtStatus::Off => "SMT (Hyperthreading) - Off",
            SmtStatus::ForceOff => "SMT (Hyperthreading) - Disabled at boot",
            SmtStatus::NotSupported => "SMT (Hyperthreading) - Not supported",
            SmtStatus::Unknown => "SMT (Hyperthreading) - Unknown",
        }
    }

    /// The presentation of this status: a switch is offered exactly where the
    /// status is controllable.
    pub fn display(&self) -> (shown: StatusDisplay)
        ensures
            shown.label@ == label_of(*self),
            shown.offer_toggle == (*self == SmtStatus::On || *self == SmtStatus::Off),
    {
        StatusDisplay { label: self.label(), offer_toggle: self.is_controllable() }
    }

    /// The status to show for the outcome of a read: a failed read shows as
    /// `Unknown`, whatever the failure was.
    pub fn or_unknown<E>(read: Result<SmtStatus, E>) -> (status: SmtStatus)
        ensures
            status == match read {
                Ok(found) => found,
                Err(_) => SmtStatus::Unknown,
            },
    {
        match read {
            Ok(found) => found,
            Err(_) => SmtStatus::Unknown,
        }
    }
}

/// Turns what a read of the control file gave into the status: the text is
/// read as a status, and a failure of the read is handed on as it is.
pub fn read_smt_status<E>(content: Result<String, E>) -> (status: Result<SmtStatus, E>)
    ensures
        match content {
            Ok(text) => status == Ok::<SmtStatus, E>(status_of(text@)),
            Err(failure) => status == Err::<SmtStatus, E>(failure),
        },
{
    match content {
        Ok(text) => Ok(SmtStatus::from(text.as_str())),
        Err(failure) => Err(failure),
    }
}

impl From<&str> for SmtStatus {
    /// Reads a raw text as a status. Every text has a status.
    fn from(s: &str) -> (status: SmtStatus)
        ensures
            status == status_of(s@),
    {
        let chars = chars_of(s);
        status_of_chars(&chars)
    }
}

impl vstd::std_specs::convert::FromSpecImpl<&str> for SmtStatus {
    open spec fn obeys_from_spec() -> bool {
        true
    }

    open spec fn from_spec(s: &str) -> SmtStatus {
        status_of(s@)
    }
}

/// The characters of `s`, in order.
fn chars_of(s: &str) -> (chars: Vec<char>)
    ensures
        chars@ == s@,
{
    let mut chars: Vec<char> = Vec::new();
    for c in it: s.chars()
        invariant
            chars@ == it.seq().take(it.index() as int),
    {
        chars.push(c);
    }
    chars
}

fn is_whitespace_char(c: char) -> (yes: bool)
    ensures
        yes == is_whitespace(c),
{
    ('\u{9}' <= c && c <= '\u{d}') || c == ' ' || c == '\u{85}' || c == '\u{a0}' || c == '\u{1680}'
        || ('\u{2000}' <= c && c <= '\u{200a}') || c == '\u{2028}' || c == '\u{2029}' || c
        == '\u{202f}' || c == '\u{205f}' || c == '\u{3000}'
}

fn to_lower_char(c: char) -> (small: char)
    ensures
        small == to_lower(c),
{
    if 'A' <= c && c <= 'Z' {
        ((c as u8) + 32) as char
    } else {
        c
    }
}

/// Whether `chars[start..end]`, in small letters, is `word`.
fn is_word<const N: usize>(chars: &Vec<char>, start: usize, end: usize, word: &[char; N]) -> (yes:
    bool)
    requires
        start <= end <= chars.len(),
    ensures
        yes == (lowered(chars@.subrange(start as int, end as int)) == word@),
{
    let ghost part = chars@.subrange(start as int, end as int);
    if end - start != N {
        assert(lowered(part).len() != word@.len());
        return false;
    }
    let mut i: usize = 0;
    while i < N
        invariant
            i <= N,
            start <= end <= chars.len(),
            end - start == N,
            part == chars@.subrange(start as int, end as int),
            forall|k: int| 0 <= k < i ==> to_lower(part[k]) == word@[k],
        decreases N - i,
    {
        if to_lower_char(chars[start + i]) != word[i] {
            assert(lowered(part)[i as int] != word@[i as int]);
            return false;
        }
        i += 1;
    }
    assert(lowered(part) =~= word@);
    true
}

fn status_of_chars(chars: &Vec<char>) -> (status: SmtStatus)
    ensures
        status == status_of(chars@),
{
    let mut start: usize = 0;
    while start < chars.len() && is_whitespace_char(chars[start])
        invariant
            start <= chars.len(),
            forall|k: int| 0 <= k < start ==> is_whitespace(chars@[k]),
        decreases chars.len() - start,
    {
        start += 1;
    }
    let mut end: usize = chars.len();
    while end > start && is_whitespace_char(chars[end - 1])
        invariant
            start <= end <= chars.len(),
            forall|k: int| end <= k < chars.len() ==> is_whitespace(chars@[k]),
        decreases end,
    {
        end -= 1;
    }
    proof {
        lemma_trim_is_subrange(chars@, start as int, end as int);
        reveal_strlit("on");
        reveal_strlit("off");
        reveal_strlit("forceoff");
        reveal_strlit("notsupported");
        assert("on"@ =~= ['o', 'n']@);
        assert("off"@ =~= ['o', 'f', 'f']@);
        assert("forceoff"@ =~= ['f', 'o', 'r', 'c', 'e', 'o', 'f', 'f']@);
        assert("notsupported"@ =~= ['n', 'o', 't', 's', 'u', 'p', 'p', 'o', 'r', 't', 'e', 'd']@);
    }
    if is_word(chars, start, end, &['o', 'n']) {
        SmtStatus::On
    } else if is_word(chars, start, end, &['o', 'f', 'f']) {
        SmtStatus::Off
    } else if is_word(chars, start, end, &['f', 'o', 'r', 'c', 'e', 'o', 'f', 'f']) {
        SmtStatus::ForceOff
    } else if is_word(
        chars,
        start,
        end,
        &['n', 'o', 't', 's', 'u', 'p', 'p', 'o', 'r', 't', 'e', 'd'],
    ) {
        SmtStatus::NotSupported
    } else {
        SmtStatus::Unknown
    }
}

/// The number of whitespace characters at the start of `s`.
pub open spec fn leading_whitespace(s: Seq<char>) -> nat
    decreases s.len(),
{
    if s.len() > 0 && is_whitespace(s.first()) {
        1 + leading_whitespace(s.drop_first())
    } else {
        0
    }
}

/// The number of whitespace characters at the end of `s`.
pub open spec fn trailing_whitespace(s: Seq<char>) -> nat
    decreases s.len(),
{
    if s.len() > 0 && is_whitespace(s.last()) {
        1 + trailing_whitespace(s.drop_last())
    } else {
        0
    }
}

/// Trimming at the start drops exactly the leading whitespace, and what is
/// left does not begin with whitespace.
pub proof fn lemma_trim_start_skips(s: Seq<char>)
    ensures
        leading_whitespace(s) <= s.len(),
        trim_start(s) == s.skip(leading_whitespace(s) as int),
        forall|k: int| 0 <= k < leading_whitespace(s) ==> is_whitespace(s[k]),
        leading_whitespace(s) < s.len() ==> !is_whitespace(s[leading_whitespace(s) as int]),
    decreases s.len(),
{
    if s.len() > 0 && is_whitespace(s.first()) {
        let rest = s.drop_first();
        lemma_trim_start_skips(rest);
        let n = leading_whitespace(rest) as int;
        assert(rest.skip(n) =~= s.skip(n + 1));
        assert forall|k: int| 0 <= k < n + 1 implies is_whitespace(s[k]) by {
            if k > 0 {
                assert(s[k] == rest[k - 1]);
            }
        }
        if n + 1 < s.len() {
            assert(s[n + 1] == rest[n]);
        }
    } else {
        assert(s.skip(0) =~= s);
    }
}

/// Trimming at the end drops exactly the trailing whitespace, and what is
/// left does not end with whitespace.
pub proof fn lemma_trim_end_takes(s: Seq<char>)
    ensures
        trailing_whitespace(s) <= s.len(),
        trim_end(s) == s.take(s.len() - trailing_whitespace(s)),
        forall|k: int| s.len() - trailing_whitespace(s) <= k < s.len() ==> is_whitespace(s[k]),
        trailing_whitespace(s) < s.len() ==> !is_whitespace(
            s[s.len() - trailing_whitespace(s) - 1],
        ),
    decreases s.len(),
{
    if s.len() > 0 && is_whitespace(s.last()) {
        let rest = s.drop_last();
        lemma_trim_end_takes(rest);
        let n = trailing_whitespace(rest) as int;
        assert(rest.take(rest.len() - n) =~= s.take(s.len() - (n + 1)));
        assert forall|k: int| s.len() - (n + 1) <= k < s.len() implies is_whitespace(s[k]) by {
            if k < s.len() - 1 {
                assert(s[k] == rest[k]);
            }
        }
        if n + 1 < s.len() {
            assert(s[s.len() - (n + 1) - 1] == rest[rest.len() - n - 1]);
        }
    } else {
        assert(s.take(s.len() as int) =~= s);
    }
}

/// The leading whitespace ends at the first character that is none.
proof fn lemma_leading_whitespace_is(s: Seq<char>, start: int)
    requires
        0 <= start <= s.len(),
        forall|k: int| 0 <= k < start ==> is_whitespace(s[k]),
        start < s.len() ==> !is_whitespace(s[start]),
    ensures
        leading_whitespace(s) == start,
{
    lemma_trim_start_skips(s);
    let n = leading_whitespace(s) as int;
    if n < start {
        assert(is_whitespace(s[n]));
    } else if n > start {
        assert(is_whitespace(s[start]));
    }
}

/// The trailing whitespace begins after the last character that is none.
proof fn lemma_trailing_whitespace_is(s: Seq<char>, end: int)
    requires
        0 <= end <= s.len(),
        forall|k: int| end <= k < s.len() ==> is_whitespace(s[k]),
        0 < end ==> !is_whitespace(s[end - 1]),
    ensures
        trailing_whitespace(s) == s.len() - end,
{
    lemma_trim_end_takes(s);
    let n = s.len() - trailing_whitespace(s);
    if n > end {
        assert(is_whitespace(s[n - 1]));
    } else if n < end {
        assert(is_whitespace(s[end - 1]));
    }
}

/// Where all before `start` and all from `end` on is whitespace, and the part
/// between is empty or has none at its last place, and `start` is the end of
/// the text or has none, that part is the trimmed text.
proof fn lemma_trim_is_subrange(s: Seq<char>, start: int, end: int)
    requires
        0 <= start <= end <= s.len(),
        forall|k: int| 0 <= k < start ==> is_whitespace(s[k]),
        forall|k: int| end <= k < s.len() ==> is_whitespace(s[k]),
        start < s.len() ==> !is_whitespace(s[start]),
        start < end ==> !is_whitespace(s[end - 1]),
    ensures
        trim(s) == s.subrange(start, end),
{
    lemma_leading_whitespace_is(s, start);
    lemma_trim_start_skips(s);
    let t = s.skip(start);
    assert forall|k: int| end - start <= k < t.len() implies is_whitespace(t[k]) by {
        assert(t[k] == s[k + start]);
    }
    if 0 < end - start {
        assert(t[end - start - 1] == s[end - 1]);
    }
    lemma_trailing_whitespace_is(t, end - start);
    lemma_trim_end_takes(t);
    assert(t.take(end - start) =~= s.subrange(start, end));
}

/// The trimmed text is a part of the text: what lies between the leading and
/// the trailing whitespace.
proof fn lemma_trim_bounds(s: Seq<char>) -> (bounds: (int, int))
    ensures
        0 <= bounds.0 <= bounds.1 <= s.len(),
        trim(s) == s.subrange(bounds.0, bounds.1),
        forall|k: int| 0 <= k < bounds.0 ==> is_whitespace(s[k]),
        forall|k: int| bounds.1 <= k < s.len() ==> is_whitespace(s[k]),
        bounds.0 < bounds.1 ==> !is_whitespace(s[bounds.0]) && !is_whitespace(s[bounds.1 - 1]),
        bounds.0 == bounds.1 ==> bounds.0 == s.len(),
{
    lemma_trim_start_skips(s);
    let start = leading_whitespace(s) as int;
    let t = s.skip(start);
    lemma_trim_end_takes(t);
    let end = s.len() - trailing_whitespace(t);
    assert(t.take(end - start) =~= s.subrange(start, end));
    assert forall|k: int| end <= k < s.len() implies is_whitespace(s[k]) by {
        assert(s[k] == t[k - start]);
    }
    if start < s.len() {
        assert(t[0] == s[start]);
        if start == end {
            assert(is_whitespace(t[0]));
        }
        assert(t[end - start - 1] == s[end - 1]);
    }
    (start, end)
}

/// Whitespace around a text does not change its status.
pub proof fn lemma_status_ignores_padding(before: Seq<char>, text: Seq<char>, after: Seq<char>)
    requires
        forall|k: int| 0 <= k < before.len() ==> is_whitespace(before[k]),
        forall|k: int| 0 <= k < after.len() ==> is_whitespace(after[k]),
    ensures
        trim(before + text + after) == trim(text),
        status_of(before + text + after) == status_of(text),
{
    let padded = before + text + after;
    let (start, end) = lemma_trim_bounds(text);
    if start < end {
        let from = before.len() + start;
        let to = before.len() + end;
        assert(padded[from] == text[start]);
        assert(padded[to - 1] == text[end - 1]);
        assert forall|k: int| 0 <= k < from implies is_whitespace(padded[k]) by {
            if k < before.len() {
                assert(padded[k] == before[k]);
            } else {
                assert(padded[k] == text[k - before.len()]);
            }
        }
        assert forall|k: int| to <= k < padded.len() implies is_whitespace(padded[k]) by {
            if k < before.len() + text.len() {
                assert(padded[k] == text[k - before.len()]);
            } else {
                assert(padded[k] == after[k - before.len() - text.len()]);
            }
        }
        lemma_trim_is_subrange(padded, from, to);
        assert(padded.subrange(from, to) =~= text.subrange(start, end));
    } else {
        let all = padded.len() as int;
        assert forall|k: int| 0 <= k < all implies is_whitespace(padded[k]) by {
            if k < before.len() {
                assert(padded[k] == before[k]);
            } else if k < before.len() + text.len() {
                assert(padded[k] == text[k - before.len()]);
            } else {
                assert(padded[k] == after[k - before.len() - text.len()]);
            }
        }
        lemma_trim_is_subrange(padded, all, all);
        assert(padded.subrange(all, all) =~= text.subrange(start, end));
    }
}

/// Two texts that differ only in the case of ASCII letters have one status.
pub proof fn lemma_status_ignores_case(a: Seq<char>, b: Seq<char>)
    requires
        lowered(a) == lowered(b),
    ensures
        normalized(a) == normalized(b),
        status_of(a) == status_of(b),
{
    assert(a.len() == lowered(a).len());
    assert(b.len() == lowered(b).len());
    assert forall|k: int| 0 <= k < a.len() implies to_lower(a[k]) == to_lower(b[k])
        && is_whitespace(a[k]) == is_whitespace(b[k]) by {
        assert(lowered(a)[k] == to_lower(a[k]));
        assert(lowered(b)[k] == to_lower(b[k]));
    }
    let (start, end) = lemma_trim_bounds(a);
    lemma_trim_is_subrange(b, start, end);
    assert(lowered(a.subrange(start, end)) =~= lowered(b.subrange(start, end)));
}

} // verus!
