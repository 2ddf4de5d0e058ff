//! The kernel's locked-memory accounting: the `VmLck:` line of
//! `/proc/self/status`, read by the caller, checked here against an expected
//! number of locked bytes.

use vstd::prelude::*;

verus! {

/// `VmLck:`
pub const VMLCK_PREFIX: [u8; 6] = [0x56, 0x6d, 0x4c, 0x63, 0x6b, 0x3a];

/// ASCII whitespace: space, tab, line feed, vertical tab, form feed, carriage return.
pub open spec fn is_space(b: u8) -> bool {
    b == 32 || (9 <= b && b <= 13)
}

/// The number of leading bytes before the first newline.
pub open spec fn line_len(s: Seq<u8>) -> nat
    decreases s.len(),
{
    if s.len() == 0 || s[0] == 10 { 0 } else { 1 + line_len(s.subrange(1, s.len() as int)) }
}

/// The lines of a text: the pieces between newlines; a final newline ends
/// the last line and starts no new one.
pub open spec fn lines(s: Seq<u8>) -> Seq<Seq<u8>>
    decreases s.len(),
{
    if s.len() == 0 {
        Seq::empty()
    } else {
        let n = line_len(s);
        if n < s.len() {
            seq![s.subrange(0, n as int)] + lines(s.subrange(n as int + 1, s.len() as int))
        } else {
            seq![s]
        }
    }
}

/// The number of leading non-whitespace bytes.
pub open spec fn word_len(s: Seq<u8>) -> nat
    decreases s.len(),
{
    if s.len() == 0 || is_space(s[0]) { 0 } else { 1 + word_len(s.subrange(1, s.len() as int)) }
}

/// The whitespace-separated words of a line.
pub open spec fn words(s: Seq<u8>) -> Seq<Seq<u8>>
    decreases s.len(),
{
    if s.len() == 0 {
        Seq::empty()
    } else if is_space(s[0]) {
        words(s.subrange(1, s.len() as int))
    } else {
        let n = word_len(s);
        proof {
            lemma_word_len_bound(s);
        }
        seq![s.subrange(0, n as int)] + words(s.subrange(n as int, s.len() as int))
    }
}

/// A word is no longer than the text it starts, and a text that starts with
/// a non-space byte starts with a word of at least one byte.
pub proof fn lemma_word_len_bound(s: Seq<u8>)
    ensures
        word_len(s) <= s.len(),
        s.len() > 0 && !is_space(s[0]) ==> word_len(s) >= 1,
    decreases s.len(),
{
    if s.len() > 0 && !is_space(s[0]) {
        lemma_word_len_bound(s.subrange(1, s.len() as int));
    }
}

/// Whether every byte is an ASCII digit.
pub open spec fn all_digits(d: Seq<u8>) -> bool {
    forall|i: int| 0 <= i < d.len() ==> 48 <= #[trigger] d[i] <= 57
}

/// The decimal value of a digit string.
pub open spec fn decimal_value(d: Seq<u8>) -> nat
    decreases d.len(),
{
    if d.len() == 0 { 0 } else { decimal_value(d.drop_last()) * 10 + (d.last() - 48) as nat }
}

/// What follows an optional leading `+`.
pub open spec fn unsigned_part(t: Seq<u8>) -> Seq<u8> {
    if t.len() > 0 && t[0] == 43 { t.subrange(1, t.len() as int) } else { t }
}

/// `u64::from_str`: an optional `+`, then one or more digits whose value fits.
pub open spec fn parse_u64(t: Seq<u8>) -> Option<u64> {
    let d = unsigned_part(t);
    if d.len() > 0 && all_digits(d) && decimal_value(d) <= u64::MAX { Some(decimal_value(d) as u64) } else { None }
}

/// Whether `l` starts with `VmLck:` and its second word parses as a number.
pub open spec fn vmlck_line(l: Seq<u8>) -> bool {
    VMLCK_PREFIX@.len() <= l.len() && l.subrange(0, 6) == VMLCK_PREFIX@ && words(l).len() >= 2
        && parse_u64(words(l)[1]) is Some
}

/// The kibibytes the first usable `VmLck:` line reports.
pub open spec fn vmlck_kib(ls: Seq<Seq<u8>>) -> Option<u64>
    decreases ls.len(),
{
    if ls.len() == 0 {
        None
    } else if vmlck_line(ls[0]) {
        parse_u64(words(ls[0])[1])
    } else {
        vmlck_kib(ls.drop_first())
    }
}

/// Whether the status text reports at least `expected_bytes` locked, rounded
/// up to whole KiB; false when no usable `VmLck:` line is present.
pub open spec fn spec_reports_locked(status: Seq<u8>, expected_bytes: nat) -> bool {
    match vmlck_kib(lines(status)) {
        Some(k) => k as nat * 1024 >= expected_bytes,
        None => false,
    }
}

/// The end of the whitespace run starting at `i`.
fn skip_space(l: &[u8], i: usize) -> (j: usize)
    requires
        i <= l@.len(),
    ensures
        i <= j <= l@.len(),
        words(l@.subrange(i as int, l@.len() as int)) == words(l@.subrange(j as int, l@.len() as int)),
        j < l@.len() ==> !is_space(l@[j as int]),
{
    let n = l.len();
    let mut j = i;
    while j < n && (l[j] == 32 || (9 <= l[j] && l[j] <= 13))
        invariant
            i <= j <= n,
            n == l@.len(),
            words(l@.subrange(i as int, n as int)) == words(l@.subrange(j as int, n as int)),
        decreases n - j,
    {
        let ghost rest = l@.subrange(j as int, n as int);
        assert(rest.subrange(1, rest.len() as int) =~= l@.subrange(j + 1, n as int));
        j = j + 1;
    }
    j
}

/// The end of the word starting at `i`.
fn word_end(l: &[u8], i: usize) -> (j: usize)
    requires
        i <= l@.len(),
    ensures
        i <= j <= l@.len(),
        j - i == word_len(l@.subrange(i as int, l@.len() as int)),
{
    let n = l.len();
    let mut j = i;
    while j < n && !(l[j] == 32 || (9 <= l[j] && l[j] <= 13))
        invariant
            i <= j <= n,
            n == l@.len(),
            word_len(l@.subrange(i as int, n as int)) == (j - i) + word_len(l@.subrange(j as int, n as int)),
        decreases n - j,
    {
        let ghost rest = l@.subrange(j as int, n as int);
        assert(rest.subrange(1, rest.len() as int) =~= l@.subrange(j + 1, n as int));
        j = j + 1;
    }
    proof {
        let rest = l@.subrange(j as int, n as int);
        assert(rest.len() == 0 || is_space(rest[0]));
    }
    j
}

/// Splitting off the first word of a line that starts with a non-space byte.
proof fn lemma_first_word(l: Seq<u8>, a: int, b: int)
    requires
        0 <= a < b <= l.len(),
        !is_space(l[a]),
        b - a == word_len(l.subrange(a, l.len() as int)),
    ensures
        words(l.subrange(a, l.len() as int)) == seq![l.subrange(a, b)] + words(l.subrange(b, l.len() as int)),
{
    let rest = l.subrange(a, l.len() as int);
    assert(rest.subrange(0, b - a) =~= l.subrange(a, b));
    assert(rest.subrange(b - a, rest.len() as int) =~= l.subrange(b, l.len() as int));
}

/// A word starting with a non-space byte is not empty.
proof fn lemma_word_nonempty(l: Seq<u8>, a: int)
    requires
        0 <= a < l.len(),
        !is_space(l[a]),
    ensures
        word_len(l.subrange(a, l.len() as int)) >= 1,
{
    let rest = l.subrange(a, l.len() as int);
    assert(rest[0] == l[a]);
}

/// A digit string's value is at least that of any of its prefixes.
proof fn lemma_decimal_prefix(d: Seq<u8>, k: int)
    requires
        0 <= k <= d.len(),
    ensures
        decimal_value(d.subrange(0, k)) <= decimal_value(d),
    decreases d.len() - k,
{
    if k < d.len() {
        lemma_decimal_prefix(d.drop_last(), k);
        assert(d.drop_last().subrange(0, k) =~= d.subrange(0, k));
    } else {
        assert(d.subrange(0, k) =~= d);
    }
}

/// `u64::from_str` on a byte string.
pub fn parse_u64_bytes(t: &[u8]) -> (r: Option<u64>)
    ensures
        r == parse_u64(t@),
{
    let n = t.len();
    let start: usize = if n > 0 && t[0] == 43 { 1 } else { 0 };
    let ghost d = unsigned_part(t@);
    assert(d =~= t@.subrange(start as int, n as int));
    if start == n {
        return None;
    }
    let mut k = start;
    while k < n
        invariant
            start <= k <= n,
            n == t@.len(),
            d == unsigned_part(t@),
            d == t@.subrange(start as int, n as int),
            forall|i: int| start <= i < k ==> 48 <= #[trigger] t@[i] <= 57,
        decreases n - k,
    {
        if t[k] < 48 || t[k] > 57 {
            assert(d[k - start] == t@[k as int]);
            assert(!all_digits(d));
            return None;
        }
        k = k + 1;
    }
    assert(all_digits(d)) by {
        assert forall|i: int| 0 <= i < d.len() implies 48 <= #[trigger] d[i] <= 57 by {
            assert(d[i] == t@[start + i]);
        }
    }
    let mut acc: u64 = 0;
    let mut m = start;
    assert(d.subrange(0, 0) =~= Seq::<u8>::empty());
    while m < n
        invariant
            start <= m <= n,
            n == t@.len(),
            d == unsigned_part(t@),
            d == t@.subrange(start as int, n as int),
            all_digits(d),
            acc == decimal_value(d.subrange(0, m - start)),
        decreases n - m,
    {
        assert(48 <= d[m - start] <= 57);
        assert(d[m - start] == t@[m as int]);
        let digit = (t[m] - 48) as u64;
        let ghost pre = d.subrange(0, m - start);
        let ghost next = d.subrange(0, m - start + 1);
        assert(next.drop_last() =~= pre);
        assert(next.last() == t@[m as int]);
        assert(decimal_value(next) == acc * 10 + digit);
        match acc.checked_mul(10) {
            Some(x) => match x.checked_add(digit) {
                Some(y) => {
                    acc = y;
                },
                None => {
                    proof {
                        lemma_decimal_prefix(d, m - start + 1);
                    }
                    return None;
                },
            },
            None => {
                proof {
                    lemma_decimal_prefix(d, m - start + 1);
                }
                return None;
            },
        }
        m = m + 1;
    }
    assert(d.subrange(0, n - start) =~= d);
    Some(acc)
}

/// Whether the line starts with `VmLck:`, and the number its second word gives.
fn vmlck_line_value(l: &[u8]) -> (r: Option<u64>)
    ensures
        vmlck_line(l@) ==> r == parse_u64(words(l@)[1]),
        !vmlck_line(l@) ==> r is None,
{
    let n = l.len();
    if n < 6 {
        return None;
    }
    let mut i: usize = 0;
    while i < 6
        invariant
            i <= 6,
            6 <= n == l@.len(),
            forall|k: int| 0 <= k < i ==> l@[k] == VMLCK_PREFIX@[k],
        decreases 6 - i,
    {
        if l[i] != VMLCK_PREFIX[i] {
            assert(l@.subrange(0, 6)[i as int] != VMLCK_PREFIX@[i as int]);
            return None;
        }
        i = i + 1;
    }
    assert(l@.subrange(0, 6) =~= VMLCK_PREFIX@);
    assert(l@.subrange(0, n as int) =~= l@);
    let a = skip_space(l, 0);
    if a == n {
        assert(l@.subrange(a as int, n as int) =~= Seq::<u8>::empty());
        return None;
    }
    proof { lemma_word_nonempty(l@, a as int); }
    let b = word_end(l, a);
    proof { lemma_first_word(l@, a as int, b as int); }
    let c = skip_space(l, b);
    if c == n {
        assert(l@.subrange(c as int, n as int) =~= Seq::<u8>::empty());
        return None;
    }
    proof { lemma_word_nonempty(l@, c as int); }
    let d = word_end(l, c);
    proof { lemma_first_word(l@, c as int, d as int); }
    let second = vstd::slice::slice_subrange(l, c, d);
    assert(words(l@)[1] == l@.subrange(c as int, d as int));
    parse_u64_bytes(second)
}

/// Whether the status text reports at least `expected_bytes` locked: the
/// first `VmLck:` line with a number as its second word gives the locked
/// KiB, compared with `expected_bytes` rounded up to whole KiB.
pub fn reports_locked(status: &[u8], expected_bytes: usize) -> (r: bool)
    ensures
        r == spec_reports_locked(status@, expected_bytes as nat),
{
    let n = status.len();
    let mut pos: usize = 0;
    assert(status@.subrange(0, n as int) =~= status@);
    while pos < n
        invariant
            pos <= n,
            n == status@.len(),
            vmlck_kib(lines(status@)) == vmlck_kib(lines(status@.subrange(pos as int, n as int))),
        decreases n - pos,
    {
        let ghost rest = status@.subrange(pos as int, n as int);
        let mut end = pos;
        while end < n && status[end] != 10
            invariant
                pos <= end <= n,
                n == status@.len(),
                rest == status@.subrange(pos as int, n as int),
                line_len(rest) == (end - pos) + line_len(status@.subrange(end as int, n as int)),
            decreases n - end,
        {
            let ghost r2 = status@.subrange(end as int, n as int);
            assert(r2.subrange(1, r2.len() as int) =~= status@.subrange(end + 1, n as int));
            end = end + 1;
        }
        proof {
            let r2 = status@.subrange(end as int, n as int);
            assert(r2.len() == 0 || r2[0] == 10);
            assert(line_len(rest) == end - pos);
        }
        let line = vstd::slice::slice_subrange(status, pos, end);
        let ghost ls = lines(rest);
        proof {
            assert(rest.subrange(0, end - pos) =~= line@);
            if end < n {
                assert(rest.subrange(end - pos + 1, rest.len() as int) =~= status@.subrange(end + 1, n as int));
                assert(ls == seq![line@] + lines(status@.subrange(end + 1, n as int)));
                assert(ls[0] == line@);
                assert(ls.drop_first() =~= lines(status@.subrange(end + 1, n as int)));
            } else {
                assert(rest =~= line@);
                assert(ls == seq![line@]);
                assert(ls.drop_first() =~= Seq::<Seq<u8>>::empty());
            }
        }
        match vmlck_line_value(line) {
            Some(kib) => {
                let expected_kib = expected_bytes / 1024 + if expected_bytes % 1024 == 0 { 0 } else { 1 };
                let r = kib as u128 >= expected_kib as u128;
                proof {
                    assert(vmlck_kib(ls) == Some(kib));
                    assert((kib as nat * 1024 >= expected_bytes as nat) == (kib as nat >= expected_kib as nat)) by (nonlinear_arith)
                        requires
                            expected_kib as nat == expected_bytes as nat / 1024 + if expected_bytes as nat % 1024 == 0 { 0nat } else { 1nat },
                    {
                    }
                }
                return r;
            },
            None => {
                if end == n {
                    assert(vmlck_kib(ls.drop_first()) == None::<u64>);
                    return false;
                }
                pos = end + 1;
            },
        }
    }
    assert(status@.subrange(pos as int, n as int) =~= Seq::<u8>::empty());
    false
}

} // verus!
