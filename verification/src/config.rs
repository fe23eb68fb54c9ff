//! The chunk-size configuration lookup.
//!
//! The maximum element count per dispatch chunk is read from a plain
//! `key = value` text, one entry per line: lines are trimmed, lines
//! starting with `#` are comments, and the first line whose key equals
//! the requested run label supplies the value as decimal digits.
//! Reading the text from disk is the caller's concern; the lookup and
//! the number parsing are verified here over the raw bytes.

use vstd::prelude::*;

verus! {

/// No entry was found for the run label, or its value is not a number.
#[derive(Debug, Clone, Copy, PartialEq, Eq, Structural)]
pub enum ConfigError {
    MissingLabel,
    BadNumber,
}

/// Whether a byte is trimmed away at the ends of a line.
pub open spec fn is_cfg_space(b: u8) -> bool {
    b == 32 || b == 9 || b == 13 || b == 11 || b == 12
}

/// The first index at which `b` occurs, if any.
pub open spec fn spec_find(s: Seq<u8>, b: u8) -> Option<int>
    decreases s.len(),
{
    if s.len() == 0 {
        Option::None
    } else if s[0] == b {
        Option::Some(0int)
    } else {
        match spec_find(s.drop_first(), b) {
            Option::None => Option::None,
            Option::Some(i) => Option::Some(i + 1),
        }
    }
}

/// `s` with leading trimmed bytes removed.
pub open spec fn spec_trim_start(s: Seq<u8>) -> Seq<u8>
    decreases s.len(),
{
    if s.len() > 0 && is_cfg_space(s[0]) {
        spec_trim_start(s.drop_first())
    } else {
        s
    }
}

/// `s` with trailing trimmed bytes removed.
pub open spec fn spec_trim_end(s: Seq<u8>) -> Seq<u8>
    decreases s.len(),
{
    if s.len() > 0 && is_cfg_space(s.last()) {
        spec_trim_end(s.drop_last())
    } else {
        s
    }
}

/// `s` trimmed at both ends.
pub open spec fn spec_trim(s: Seq<u8>) -> Seq<u8> {
    spec_trim_end(spec_trim_start(s))
}

/// Whether a trimmed line is an entry for `label`: not a comment, with
/// an equals sign, and the trimmed key equal to the label.
pub open spec fn line_matches(line: Seq<u8>, label: Seq<u8>) -> bool {
    let t = spec_trim(line);
    &&& !(t.len() > 0 && t[0] == 35)
    &&& spec_find(t, 61) is Some
    &&& spec_trim(t.take(spec_find(t, 61).unwrap())) == label
}

/// The value text of an entry line: the trimmed segment between the
/// first equals sign and the next one, or the end of the line.
pub open spec fn line_value(line: Seq<u8>) -> Seq<u8>
    recommends
        spec_find(spec_trim(line), 61) is Some,
{
    let t = spec_trim(line);
    let eq = spec_find(t, 61).unwrap();
    let rest = t.skip(eq + 1);
    match spec_find(rest, 61) {
        Option::None => spec_trim(rest),
        Option::Some(eq2) => spec_trim(rest.take(eq2)),
    }
}

/// The value text of the first entry for `label`, scanning the lines
/// of `content` in order.
pub open spec fn spec_lookup(content: Seq<u8>, label: Seq<u8>) -> Option<Seq<u8>>
    decreases content.len(),
    via spec_lookup_decreases
{
    match spec_find(content, 10) {
        Option::None => if line_matches(content, label) {
            Option::Some(line_value(content))
        } else {
            Option::None
        },
        Option::Some(nl) => if line_matches(content.take(nl), label) {
            Option::Some(line_value(content.take(nl)))
        } else {
            spec_lookup(content.skip(nl + 1), label)
        },
    }
}

#[via_fn]
proof fn spec_lookup_decreases(content: Seq<u8>, label: Seq<u8>) {
    lemma_find_in_bounds(content, 10);
}

/// A found index lies within the sequence.
proof fn lemma_find_in_bounds(s: Seq<u8>, b: u8)
    ensures
        spec_find(s, b) is Some ==> 0 <= spec_find(s, b).unwrap() < s.len(),
    decreases s.len(),
{
    if s.len() > 0 && s[0] != b {
        lemma_find_in_bounds(s.drop_first(), b);
    }
}

/// Whether every byte is a decimal digit.
pub open spec fn all_digits(s: Seq<u8>) -> bool {
    forall|i: int| 0 <= i < s.len() ==> 48 <= #[trigger] s[i] <= 57
}

/// The number the digit text denotes.
pub open spec fn digits_val(s: Seq<u8>) -> nat
    decreases s.len(),
{
    if s.len() == 0 {
        0
    } else {
        let d = if 48 <= s.last() <= 57 {
            (s.last() - 48) as nat
        } else {
            0
        };
        digits_val(s.drop_last()) * 10 + d
    }
}

/// The number a value text denotes: all decimal digits, at least one,
/// and within the machine's range.
pub open spec fn spec_parse_usize(s: Seq<u8>) -> Option<usize> {
    if s.len() > 0 && all_digits(s) && digits_val(s) <= usize::MAX {
        Option::Some(digits_val(s) as usize)
    } else {
        Option::None
    }
}

/// A found first occurrence pins `spec_find` down.
proof fn lemma_find_at(s: Seq<u8>, b: u8, k: int)
    requires
        0 <= k <= s.len(),
        forall|j: int| 0 <= j < k ==> s[j] != b,
        k == s.len() || s[k] == b,
    ensures
        spec_find(s, b) == if k == s.len() {
            Option::<int>::None
        } else {
            Option::<int>::Some(k)
        },
    decreases k,
{
    if s.len() == 0 {
    } else if k == 0 {
    } else {
        assert(s[0] != b);
        lemma_find_at(s.drop_first(), b, k - 1);
    }
}

/// Trim bounds pin the trimmed sequence down.
proof fn lemma_trim_start_at(s: Seq<u8>, k: int)
    requires
        0 <= k <= s.len(),
        forall|j: int| 0 <= j < k ==> is_cfg_space(s[j]),
        k == s.len() || !is_cfg_space(s[k]),
    ensures
        spec_trim_start(s) == s.skip(k),
    decreases k,
{
    if k == 0 {
        assert(s.skip(0) =~= s);
    } else {
        lemma_trim_start_at(s.drop_first(), k - 1);
        assert(s.drop_first().skip(k - 1) =~= s.skip(k));
    }
}

proof fn lemma_trim_end_at(s: Seq<u8>, k: int)
    requires
        0 <= k <= s.len(),
        forall|j: int| k <= j < s.len() ==> is_cfg_space(s[j]),
        k == 0 || !is_cfg_space(s[k - 1]),
    ensures
        spec_trim_end(s) == s.take(k),
    decreases s.len() - k,
{
    if k == s.len() {
        assert(s.take(k) =~= s);
    } else {
        lemma_trim_end_at(s.drop_last(), k);
        assert(s.drop_last().take(k) =~= s.take(k));
    }
}

/// A copy of `s[from..to]`.
fn sub_bytes(s: &[u8], from: usize, to: usize) -> (r: Vec<u8>)
    requires
        from <= to <= s@.len(),
    ensures
        r@ == s@.subrange(from as int, to as int),
{
    let mut r: Vec<u8> = Vec::new();
    let mut i: usize = from;
    while i < to
        invariant
            from <= i <= to <= s@.len(),
            r@ =~= s@.subrange(from as int, i as int),
        decreases to - i,
    {
        r.push(s[i]);
        proof {
            assert(r@ =~= s@.subrange(from as int, i + 1));
        }
        i += 1;
    }
    r
}

/// The first index at or past `from` holding `b`, or the length.
fn find_byte_from(s: &[u8], from: usize, b: u8) -> (r: usize)
    requires
        from <= s@.len(),
    ensures
        from <= r <= s@.len(),
        r < s@.len() ==> s@[r as int] == b,
        forall|j: int| from <= j < r ==> s@[j] != b,
        spec_find(s@.skip(from as int), b) == if r == s@.len() {
            Option::<int>::None
        } else {
            Option::<int>::Some(r - from)
        },
{
    let n = s.len();
    let mut i: usize = from;
    while i < n
        invariant
            from <= i <= n,
            n == s@.len(),
            forall|j: int| from <= j < i ==> s@[j] != b,
        decreases n - i,
    {
        if s[i] == b {
            proof {
                lemma_find_at(s@.skip(from as int), b, i - from);
            }
            return i;
        }
        i += 1;
    }
    proof {
        lemma_find_at(s@.skip(from as int), b, n - from);
    }
    n
}

/// The trimmed copy of a byte sequence.
fn trim_bytes(s: &Vec<u8>) -> (r: Vec<u8>)
    ensures
        r@ == spec_trim(s@),
{
    let n = s.len();
    let mut a: usize = 0;
    while a < n && (s[a] == 32 || s[a] == 9 || s[a] == 13 || s[a] == 11 || s[a] == 12)
        invariant
            0 <= a <= n,
            n == s@.len(),
            forall|j: int| 0 <= j < a ==> is_cfg_space(s@[j]),
        decreases n - a,
    {
        a += 1;
    }
    proof {
        lemma_trim_start_at(s@, a as int);
    }
    let mut b: usize = n;
    while b > a && (s[b - 1] == 32 || s[b - 1] == 9 || s[b - 1] == 13 || s[b - 1] == 11 || s[b - 1]
        == 12)
        invariant
            a <= b <= n,
            n == s@.len(),
            forall|j: int| b <= j < n ==> is_cfg_space(s@[j]),
        decreases b,
    {
        b -= 1;
    }
    proof {
        let t = s@.skip(a as int);
        assert forall|j: int| b - a <= j < t.len() implies is_cfg_space(t[j]) by {
            assert(t[j] == s@[j + a]);
        }
        if b > a {
            assert(t[b - a - 1] == s@[b as int - 1]);
            assert(!is_cfg_space(t[b - a - 1]));
        } else {
            assert(a == b);
            if a > 0 {
                assert(!is_cfg_space(s@[a as int - 1]) || a == b);
            }
        }
        lemma_trim_end_at(t, b - a);
        assert(t.take(b - a) =~= s@.subrange(a as int, b as int));
    }
    sub_bytes(s.as_slice(), a, b)
}

/// Byte-sequence equality.
fn bytes_eq(a: &Vec<u8>, b: &[u8]) -> (r: bool)
    ensures
        r == (a@ == b@),
{
    let n = a.len();
    if n != b.len() {
        proof {
            assert(a@.len() != b@.len());
        }
        return false;
    }
    let mut i: usize = 0;
    while i < n
        invariant
            0 <= i <= n,
            n == a@.len(),
            n == b@.len(),
            forall|j: int| 0 <= j < i ==> a@[j] == b@[j],
        decreases n - i,
    {
        if a[i] != b[i] {
            proof {
                let ghost w = i as int;
                assert(a@[w] != b@[w]);
            }
            return false;
        }
        i += 1;
    }
    proof {
        assert(a@ =~= b@);
    }
    true
}

/// Parses a value text as a decimal number.
fn parse_usize_bytes(s: &Vec<u8>) -> (r: Option<usize>)
    ensures
        r == spec_parse_usize(s@),
{
    let n = s.len();
    if n == 0 {
        return None;
    }
    let mut val: usize = 0;
    let mut i: usize = 0;
    while i < n
        invariant
            0 <= i <= n,
            n == s@.len(),
            n > 0,
            all_digits(s@.take(i as int)),
            val == digits_val(s@.take(i as int)),
        decreases n - i,
    {
        let b = s[i];
        if b < 48 || b > 57 {
            proof {
                let ghost w = i as int;
                assert(s@[w] == b);
                assert(!(48 <= s@[w] <= 57));
            }
            return None;
        }
        let d = (b - 48) as usize;
        proof {
            assert(s@.take(i + 1).drop_last() =~= s@.take(i as int));
            assert(s@.take(i + 1).last() == s@[i as int]);
        }
        if val > (usize::MAX - d) / 10 {
            proof {
                lemma_digits_val_prefix_le(s@, i + 1);
                assert(digits_val(s@.take(i + 1)) == val * 10 + d);
                assert(digits_val(s@) > usize::MAX);
            }
            return None;
        }
        val = val * 10 + d;
        proof {
            assert(all_digits(s@.take(i + 1)));
        }
        i += 1;
    }
    proof {
        assert(s@.take(n as int) =~= s@);
    }
    Some(val)
}

/// A digit text denotes at least what any of its prefixes denotes.
proof fn lemma_digits_val_prefix_le(s: Seq<u8>, i: int)
    requires
        0 <= i <= s.len(),
    ensures
        digits_val(s) >= digits_val(s.take(i)),
    decreases s.len() - i,
{
    if i < s.len() {
        lemma_digits_val_prefix_le(s, i + 1);
        assert(s.take(i + 1).drop_last() =~= s.take(i));
        assert(digits_val(s.take(i + 1)) >= digits_val(s.take(i)));
    } else {
        assert(s.take(i) =~= s);
    }
}

/// Whether a trimmed line is an entry for `label`, and its value text.
fn match_line(line: &Vec<u8>, label: &[u8]) -> (r: Option<Vec<u8>>)
    ensures
        match r {
            Option::Some(v) => line_matches(line@, label@) && v@ == line_value(line@),
            Option::None => !line_matches(line@, label@),
        },
{
    let t = trim_bytes(line);
    if t.len() > 0 && t[0] == 35 {
        return None;
    }
    let eq = find_byte_from(t.as_slice(), 0, 61);
    if eq == t.len() {
        proof {
            assert(t@.skip(0) =~= t@);
        }
        return None;
    }
    proof {
        assert(t@.skip(0) =~= t@);
        assert(spec_find(t@, 61) == Option::<int>::Some(eq as int));
    }
    let name_raw = sub_bytes(t.as_slice(), 0, eq);
    proof {
        assert(name_raw@ =~= t@.take(eq as int));
    }
    let name = trim_bytes(&name_raw);
    if !bytes_eq(&name, label) {
        return None;
    }
    let eq2 = find_byte_from(t.as_slice(), eq + 1, 61);
    let value_raw = sub_bytes(t.as_slice(), eq + 1, eq2);
    proof {
        let rest = t@.skip(eq + 1);
        if eq2 == t@.len() {
            assert(value_raw@ =~= rest);
        } else {
            assert(value_raw@ =~= rest.take(eq2 - (eq + 1)));
        }
    }
    let value = trim_bytes(&value_raw);
    Some(value)
}

/// The value text of the first entry for `label` in `content`, from
/// byte position `pos` on.
fn lookup_from(content: &[u8], pos: usize, label: &[u8]) -> (r: Option<Vec<u8>>)
    requires
        pos <= content@.len(),
    ensures
        match r {
            Option::Some(v) => spec_lookup(content@.skip(pos as int), label@) == Option::Some(v@),
            Option::None => spec_lookup(content@.skip(pos as int), label@) is None,
        },
    decreases content@.len() - pos,
{
    let nl = find_byte_from(content, pos, 10);
    let line = sub_bytes(content, pos, nl);
    let ghost rest = content@.skip(pos as int);
    proof {
        if nl == content@.len() {
            assert(line@ =~= rest);
        } else {
            assert(line@ =~= rest.take(nl - pos));
        }
    }
    let matched = match_line(&line, label);
    match matched {
        Option::Some(v) => Option::Some(v),
        Option::None => {
            if nl == content.len() {
                Option::None
            } else {
                let r = lookup_from(content, nl + 1, label);
                proof {
                    assert(rest.skip((nl - pos) + 1) =~= content@.skip(nl + 1));
                }
                r
            }
        },
    }
}

/// Looks the maximum element count per dispatch chunk up by its run
/// label: the first `key = value` entry whose trimmed key equals the
/// label supplies the count as decimal digits. An absent entry and a
/// malformed count are distinct errors.
pub fn chunk_size_for_label(content: &[u8], label: &[u8]) -> (r: Result<usize, ConfigError>)
    ensures
        match r {
            Result::Ok(v) => spec_lookup(content@, label@) is Some && spec_parse_usize(
                spec_lookup(content@, label@).unwrap(),
            ) == Option::Some(v),
            Result::Err(e) => match e {
                ConfigError::MissingLabel => spec_lookup(content@, label@) is None,
                ConfigError::BadNumber => spec_lookup(content@, label@) is Some
                    && spec_parse_usize(spec_lookup(content@, label@).unwrap()) is None,
            },
        },
{
    proof {
        assert(content@.skip(0) =~= content@);
    }
    match lookup_from(content, 0, label) {
        Option::Some(value) => match parse_usize_bytes(&value) {
            Option::Some(v) => Ok(v),
            Option::None => Err(ConfigError::BadNumber),
        },
        Option::None => Err(ConfigError::MissingLabel),
    }
}

} // verus!
