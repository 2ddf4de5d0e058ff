//! Text encodings used at the command-line surface: lowercase hex, hex
//! parsing, decimal digits, and the path prefixes the CLI refuses to read.

use vstd::prelude::*;

verus! {

/// The lowercase hex digit of a nibble.
pub open spec fn hex_digit(n: u8) -> u8 {
    if n < 10 { (48 + n) as u8 } else { (87 + n) as u8 }
}

/// Lowercase hex of a byte string: two digits per byte, high nibble first.
pub open spec fn spec_hex(s: Seq<u8>) -> Seq<u8> {
    Seq::new(2 * s.len(), |k: int| if k % 2 == 0 { hex_digit(s[k / 2] >> 4) } else { hex_digit(s[k / 2] & 0xf) })
}

/// The value of a hex digit (either case), or `None`.
pub open spec fn nibble_value(c: u8) -> Option<u8> {
    if 48 <= c <= 57 {
        Some((c - 48) as u8)
    } else if 97 <= c <= 102 {
        Some((c - 87) as u8)
    } else if 65 <= c <= 70 {
        Some((c - 55) as u8)
    } else {
        None
    }
}

/// Whether every character is a hex digit.
pub open spec fn all_hex(s: Seq<u8>) -> bool {
    forall|k: int| 0 <= k < s.len() ==> (#[trigger] nibble_value(s[k])) is Some
}

/// The bytes a hex string of even length encodes.
pub open spec fn hex_bytes(s: Seq<u8>) -> Seq<u8> {
    Seq::new(s.len() / 2, |i: int| ((nibble_value(s[2 * i])->0 << 4u8) | nibble_value(s[2 * i + 1])->0) as u8)
}

/// Hex decoding: `None` for an odd length or a non-hex character.
pub open spec fn spec_hex_decode(s: Seq<u8>) -> Option<Seq<u8>> {
    if s.len() % 2 == 0 && all_hex(s) { Some(hex_bytes(s)) } else { None }
}

/// The value of a hex digit (either case), or `None`.
pub fn hex_nibble(b: u8) -> (r: Option<u8>)
    ensures
        r == nibble_value(b),
        r matches Some(v) ==> v < 16,
{
    if 48 <= b && b <= 57 {
        Some(b - 48)
    } else if 97 <= b && b <= 102 {
        Some(b - 87)
    } else if 65 <= b && b <= 70 {
        Some(b - 55)
    } else {
        None
    }
}

/// The lowercase hex digit of a nibble.
fn digit(n: u8) -> (c: u8)
    requires
        n < 16,
    ensures
        c == hex_digit(n),
{
    if n < 10 { 48 + n } else { 87 + n }
}

/// Lowercase hex of a byte string.
pub fn hex(bytes: &[u8]) -> (out: Vec<u8>)
    requires
        bytes@.len() <= usize::MAX / 2,
    ensures
        out@ == spec_hex(bytes@),
{
    let mut out: Vec<u8> = Vec::new();
    let mut i: usize = 0;
    while i < bytes.len()
        invariant
            i <= bytes@.len(),
            bytes@.len() <= usize::MAX / 2,
            out@.len() == 2 * i,
            forall|k: int| 0 <= k < 2 * i ==> out@[k] == spec_hex(bytes@)[k],
        decreases bytes@.len() - i,
    {
        let b = bytes[i];
        assert(b >> 4u8 < 16 && b & 0xfu8 < 16) by (bit_vector);
        out.push(digit(b >> 4));
        out.push(digit(b & 0xf));
        proof {
            assert(spec_hex(bytes@)[2 * i as int] == hex_digit(b >> 4u8));
            assert(spec_hex(bytes@)[2 * i as int + 1] == hex_digit(b & 0xfu8));
        }
        i = i + 1;
    }
    assert(out@ =~= spec_hex(bytes@));
    out
}

/// Decode a hex string: `None` for an odd length or a non-hex character.
pub fn hex_decode(s: &[u8]) -> (r: Option<Vec<u8>>)
    ensures
        r matches Some(v) ==> spec_hex_decode(s@) == Some(v@),
        r is None ==> spec_hex_decode(s@) is None,
{
    if s.len() % 2 != 0 {
        return None;
    }
    let half = s.len() / 2;
    assert(s@.len() == 2 * half);
    let mut out: Vec<u8> = Vec::new();
    let mut i: usize = 0;
    while i < half
        invariant
            i <= half,
            half == s@.len() / 2,
            s@.len() % 2 == 0,
            s@.len() == 2 * half,
            s@.len() <= usize::MAX,
            out@.len() == i,
            forall|k: int| 0 <= k < 2 * i ==> (#[trigger] nibble_value(s@[k])) is Some,
            forall|j: int| 0 <= j < i ==> out@[j] == hex_bytes(s@)[j],
        decreases half - i,
    {
        let hi = match hex_nibble(s[2 * i]) {
            Some(v) => v,
            None => return None,
        };
        let lo = match hex_nibble(s[2 * i + 1]) {
            Some(v) => v,
            None => return None,
        };
        out.push((hi << 4) | lo);
        proof {
            assert(nibble_value(s@[2 * i as int]) is Some);
            assert(nibble_value(s@[2 * i as int + 1]) is Some);
            assert forall|k: int| 0 <= k < 2 * (i + 1) implies (#[trigger] nibble_value(s@[k])) is Some by {
                if k == 2 * i as int || k == 2 * i as int + 1 {
                } else {
                    assert(k < 2 * i);
                }
            }
        }
        i = i + 1;
    }
    assert(all_hex(s@));
    assert(out@ =~= hex_bytes(s@));
    Some(out)
}

/// Parse exactly 64 hex characters into 32 bytes.
pub fn parse_hex_root(s: &[u8]) -> (r: Option<[u8; 32]>)
    ensures
        r matches Some(a) ==> s@.len() == 64 && spec_hex_decode(s@) == Some(a@),
        r is None ==> s@.len() != 64 || spec_hex_decode(s@) is None,
{
    if s.len() != 64 {
        return None;
    }
    match hex_decode(s) {
        Some(v) => {
            let mut out = [0u8; 32];
            let mut i: usize = 0;
            while i < 32
                invariant
                    i <= 32,
                    v@.len() == 32,
                    forall|j: int| 0 <= j < i ==> out@[j] == v@[j],
                decreases 32 - i,
            {
                out[i] = v[i];
                i = i + 1;
            }
            assert(out@ =~= v@);
            Some(out)
        },
        None => None,
    }
}

/// Decimal digits of a byte, most significant first, without leading zeros.
pub open spec fn spec_decimal(n: u8) -> Seq<u8> {
    if n < 10 {
        seq![(48 + n) as u8]
    } else if n < 100 {
        seq![(48 + n / 10) as u8, (48 + n % 10) as u8]
    } else {
        seq![(48 + n / 100) as u8, (48 + (n / 10) % 10) as u8, (48 + n % 10) as u8]
    }
}

/// Decimal digits of a byte.
pub fn decimal(n: u8) -> (out: Vec<u8>)
    ensures
        out@ == spec_decimal(n),
{
    let mut out: Vec<u8> = Vec::new();
    if n < 10 {
        out.push(48 + n);
    } else if n < 100 {
        out.push(48 + n / 10);
        out.push(48 + n % 10);
    } else {
        out.push(48 + n / 100);
        out.push(48 + (n / 10) % 10);
        out.push(48 + n % 10);
    }
    assert(out@ =~= spec_decimal(n));
    out
}

/// `/proc/`, `/dev/`, `/proc`, `/dev`: paths the CLI refuses to read.
pub open spec fn blocked_prefixes() -> Seq<Seq<u8>> {
    seq![seq![47u8, 112, 114, 111, 99, 47], seq![47u8, 100, 101, 118, 47], seq![47u8, 112, 114, 111, 99], seq![47u8, 100, 101, 118]]
}

/// Whether `p` starts with `prefix`.
pub open spec fn starts_with(p: Seq<u8>, prefix: Seq<u8>) -> bool {
    prefix.len() <= p.len() && p.subrange(0, prefix.len() as int) == prefix
}

/// Whether `p` starts with `prefix`.
fn has_prefix(p: &[u8], prefix: &[u8]) -> (r: bool)
    ensures
        r == starts_with(p@, prefix@),
{
    if prefix.len() > p.len() {
        return false;
    }
    let mut i: usize = 0;
    while i < prefix.len()
        invariant
            i <= prefix@.len(),
            prefix@.len() <= p@.len(),
            forall|j: int| 0 <= j < i ==> p@[j] == prefix@[j],
        decreases prefix@.len() - i,
    {
        if p[i] != prefix[i] {
            assert(p@.subrange(0, prefix@.len() as int)[i as int] != prefix@[i as int]);
            return false;
        }
        i = i + 1;
    }
    assert(p@.subrange(0, prefix@.len() as int) =~= prefix@);
    true
}

/// Whether the path starts with one of the refused prefixes.
pub fn is_blocked_path(path: &[u8]) -> (r: bool)
    ensures
        r == exists|k: int| 0 <= k < 4 && starts_with(path@, #[trigger] blocked_prefixes()[k]),
{
    let p0: [u8; 6] = [47, 112, 114, 111, 99, 47];
    let p1: [u8; 5] = [47, 100, 101, 118, 47];
    let p2: [u8; 5] = [47, 112, 114, 111, 99];
    let p3: [u8; 4] = [47, 100, 101, 118];
    assert(p0@ =~= blocked_prefixes()[0]);
    assert(p1@ =~= blocked_prefixes()[1]);
    assert(p2@ =~= blocked_prefixes()[2]);
    assert(p3@ =~= blocked_prefixes()[3]);
    let r = has_prefix(path, &p0) || has_prefix(path, &p1) || has_prefix(path, &p2) || has_prefix(path, &p3);
    proof {
        if !r {
            assert forall|k: int| 0 <= k < 4 implies !starts_with(path@, #[trigger] blocked_prefixes()[k]) by {
                if k == 0 {} else if k == 1 {} else if k == 2 {} else {}
            }
        }
    }
    r
}

/// Decoding the hex of a byte string gives the byte string back.
pub proof fn lemma_hex_roundtrip(s: Seq<u8>)
    ensures
        spec_hex_decode(spec_hex(s)) == Some(s),
{
    let h = spec_hex(s);
    assert forall|k: int| 0 <= k < h.len() implies (#[trigger] nibble_value(h[k])) is Some by {
        let b = s[k / 2];
        assert(b >> 4u8 < 16 && b & 0xfu8 < 16) by (bit_vector);
    }
    assert(h.len() % 2 == 0);
    assert forall|i: int| 0 <= i < s.len() implies hex_bytes(h)[i] == s[i] by {
        let b = s[i];
        assert(h[2 * i] == hex_digit(b >> 4u8));
        assert(h[2 * i + 1] == hex_digit(b & 0xfu8));
        assert((2 * i) / 2 == i);
        assert((2 * i + 1) / 2 == i);
        assert(b >> 4u8 < 16 && b & 0xfu8 < 16) by (bit_vector);
        assert((((b >> 4u8) << 4u8) | (b & 0xfu8)) == b) by (bit_vector);
    }
    assert(hex_bytes(h) =~= s);
}

} // verus!
