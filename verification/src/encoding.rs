//! Text primitives shared by the discovery URL and cache-name builders:
//! API identifier validation, path-segment percent-encoding, trailing-slash
//! trimming and the short FNV-1a hash used to namespace cache files.
use vstd::prelude::*;
use vstd::utf8::*;

verus! {

/// Contract assumed for std's `String::push` (vstd gives it none): as its
/// documentation says, the call appends the one character `ch` to the end of
/// the string and changes nothing else. Verus believes this without proof.
pub assume_specification[ String::push ](s: &mut String, ch: char)
    ensures
        final(s)@ == old(s)@.push(ch),
;

// ---------------------------------------------------------------------------
// API identifiers
// ---------------------------------------------------------------------------

/// A character allowed in an API service name or version: an ASCII letter or
/// digit, `-`, `_` or `.`.
pub open spec fn is_identifier_char(c: char) -> bool {
    ('a' <= c <= 'z') || ('A' <= c <= 'Z') || ('0' <= c <= '9') || c == '-' || c == '_' || c
        == '.'
}

/// A well-formed API identifier (service name or version): non-empty, and
/// made only of identifier characters. Such a string can neither traverse
/// paths in a cache file name (`law_cache_filename_has_no_slash`) nor inject
/// anything into a discovery URL (`law_identifiers_stand_unescaped_in_url`).
pub open spec fn is_api_identifier(s: Seq<char>) -> bool {
    s.len() > 0 && forall|i: int| 0 <= i < s.len() ==> #[trigger] is_identifier_char(s[i])
}

fn identifier_char(c: char) -> (r: bool)
    ensures
        r == is_identifier_char(c),
{
    ('a' <= c && c <= 'z') || ('A' <= c && c <= 'Z') || ('0' <= c && c <= '9') || c == '-' || c
        == '_' || c == '.'
}

/// Checks that `s` is a well-formed API identifier (see [`is_api_identifier`]).
pub fn validate_api_identifier(s: &str) -> (ok: bool)
    ensures
        ok == is_api_identifier(s@),
{
    let n = s.unicode_len();
    if n == 0 {
        return false;
    }
    let mut i: usize = 0;
    while i < n
        invariant
            n == s@.len(),
            i <= n,
            forall|j: int| 0 <= j < i ==> #[trigger] is_identifier_char(s@[j]),
        decreases n - i,
    {
        if !identifier_char(s.get_char(i)) {
            return false;
        }
        i += 1;
    }
    true
}

// ---------------------------------------------------------------------------
// Percent-encoding of a URL path segment
// ---------------------------------------------------------------------------

/// Whether a byte is an RFC 3986 "unreserved" character
/// (`A-Z a-z 0-9 - . _ ~`), which a path segment carries unescaped.
pub open spec fn is_unreserved(b: u8) -> bool {
    (0x41 <= b <= 0x5a) || (0x61 <= b <= 0x7a) || (0x30 <= b <= 0x39) || b == 0x2d || b == 0x2e
        || b == 0x5f || b == 0x7e
}

/// The upper-case hexadecimal digit for a value below 16.
pub open spec fn hex_upper(d: u8) -> char {
    if d < 10 {
        ((48 + d) as u8) as char
    } else {
        ((55 + d) as u8) as char
    }
}

/// The lower-case hexadecimal digit for a value below 16.
pub open spec fn hex_lower(d: u8) -> char {
    if d < 10 {
        ((48 + d) as u8) as char
    } else {
        ((87 + d) as u8) as char
    }
}

/// How one byte of a path segment is written: itself when unreserved, else
/// `%` followed by its two upper-case hex digits.
pub open spec fn escape_byte(b: u8) -> Seq<char> {
    if is_unreserved(b) {
        seq![b as char]
    } else {
        seq!['%', hex_upper(b >> 4), hex_upper(b & 15)]
    }
}

/// The percent-encoding of a byte string, byte by byte.
pub open spec fn percent_encode(bytes: Seq<u8>) -> Seq<char>
    decreases bytes.len(),
{
    if bytes.len() == 0 {
        Seq::empty()
    } else {
        percent_encode(bytes.drop_last()) + escape_byte(bytes.last())
    }
}

/// A path segment as it stands in a URL: the percent-encoding of its UTF-8 bytes.
pub open spec fn encoded_path_segment(s: Seq<char>) -> Seq<char> {
    percent_encode(encode_utf8(s))
}

fn hex_upper_digit(d: u8) -> (c: char)
    requires
        d < 16,
    ensures
        c == hex_upper(d),
{
    if d < 10 {
        (48 + d) as char
    } else {
        (55 + d) as char
    }
}

fn hex_lower_digit(d: u8) -> (c: char)
    requires
        d < 16,
    ensures
        c == hex_lower(d),
{
    if d < 10 {
        (48 + d) as char
    } else {
        (87 + d) as char
    }
}

fn unreserved(b: u8) -> (r: bool)
    ensures
        r == is_unreserved(b),
{
    (0x41 <= b && b <= 0x5a) || (0x61 <= b && b <= 0x7a) || (0x30 <= b && b <= 0x39) || b == 0x2d
        || b == 0x2e || b == 0x5f || b == 0x7e
}

/// Percent-encodes `s` for use as one segment of a URL path.
pub fn encode_path_segment(s: &str) -> (r: String)
    ensures
        r@ == encoded_path_segment(s@),
{
    let bytes = s.as_bytes();
    let n = bytes.len();
    let mut out = String::new();
    let mut i: usize = 0;
    while i < n
        invariant
            n == bytes@.len(),
            bytes@ == encode_utf8(s@),
            i <= n,
            out@ == percent_encode(bytes@.take(i as int)),
        decreases n - i,
    {
        let b = bytes[i];
        if unreserved(b) {
            out.push(b as char);
        } else {
            assert(b >> 4 < 16 && b & 15 < 16) by (bit_vector);
            out.push('%');
            out.push(hex_upper_digit(b >> 4));
            out.push(hex_upper_digit(b & 15));
        }
        assert(bytes@.take(i + 1).drop_last() =~= bytes@.take(i as int));
        i += 1;
    }
    assert(bytes@.take(n as int) =~= bytes@);
    out
}

/// A validated identifier is its own percent-encoding: every one of its
/// characters is ASCII and unreserved.
pub proof fn lemma_identifier_needs_no_escaping(s: Seq<char>)
    requires
        is_api_identifier(s),
    ensures
        encoded_path_segment(s) == s,
{
    assert forall|i: int| 0 <= i < s.len() implies '\0' <= #[trigger] s[i] <= '\u{7f}' by {
        assert(is_identifier_char(s[i]));
    }
    assert(is_ascii_chars(s));
    is_ascii_chars_encode_utf8(s);
    lemma_ascii_unreserved_encode(s, encode_utf8(s), s.len() as int);
    assert(encode_utf8(s).take(s.len() as int) =~= encode_utf8(s));
}

proof fn lemma_ascii_unreserved_encode(s: Seq<char>, bytes: Seq<u8>, k: int)
    requires
        0 <= k <= s.len(),
        bytes.len() == s.len(),
        forall|i: int| 0 <= i < s.len() ==> #[trigger] is_identifier_char(s[i]),
        forall|i: int| 0 <= i < s.len() ==> s[i] as u8 == #[trigger] bytes[i],
    ensures
        percent_encode(bytes.take(k)) == s.take(k),
    decreases k,
{
    if k > 0 {
        lemma_ascii_unreserved_encode(s, bytes, k - 1);
        assert(bytes.take(k).drop_last() =~= bytes.take(k - 1));
        let c = s[k - 1];
        assert(is_identifier_char(c));
        let b = bytes[k - 1];
        assert(b == c as u8);
        assert(is_unreserved(b));
        assert((b as char) == c);
        assert(s.take(k) =~= s.take(k - 1).push(c));
    }
}

// ---------------------------------------------------------------------------
// Trailing slashes
// ---------------------------------------------------------------------------

/// `s` without the run of `/` characters at its end.
pub open spec fn trim_trailing_slashes(s: Seq<char>) -> Seq<char>
    decreases s.len(),
{
    if s.len() > 0 && s.last() == '/' {
        trim_trailing_slashes(s.drop_last())
    } else {
        s
    }
}

/// Returns `s` without the `/` characters at its end.
pub fn trim_end_slashes(s: &str) -> (r: &str)
    ensures
        r@ == trim_trailing_slashes(s@),
{
    let mut k = s.unicode_len();
    assert(s@.take(k as int) =~= s@);
    while k > 0 && s.get_char(k - 1) == '/'
        invariant
            k <= s@.len(),
            trim_trailing_slashes(s@.take(k as int)) == trim_trailing_slashes(s@),
        decreases k,
    {
        assert(s@.take(k - 1) =~= s@.take(k as int).drop_last());
        k -= 1;
    }
    s.substring_char(0, k)
}

// ---------------------------------------------------------------------------
// Short FNV-1a hash
// ---------------------------------------------------------------------------

/// The 64-bit FNV-1a offset basis.
pub const FNV_OFFSET_BASIS: u64 = 0xcbf2_9ce4_8422_2325;

/// The 64-bit FNV-1a prime.
pub const FNV_PRIME: u64 = 0x0000_0100_0000_01b3;

/// The 64-bit FNV-1a hash of a byte string: starting from the offset basis,
/// each byte is xor-ed in and the state multiplied by the prime modulo 2^64.
pub open spec fn fnv1a(bytes: Seq<u8>) -> u64
    decreases bytes.len(),
{
    if bytes.len() == 0 {
        FNV_OFFSET_BASIS
    } else {
        (fnv1a(bytes.drop_last()) ^ (bytes.last() as u64)).wrapping_mul(FNV_PRIME)
    }
}

/// The `i`-th hexadecimal digit (most significant first) of a 64-bit value.
pub open spec fn hex_nibble(h: u64, i: int) -> u8 {
    ((h >> ((60 - 4 * i) as u64)) & 15) as u8
}

/// The first eight digits of the 16-digit zero-padded lower-case hexadecimal
/// rendering of `h`.
pub open spec fn hex_prefix8(h: u64) -> Seq<char> {
    Seq::new(8, |i: int| hex_lower(hex_nibble(h, i)))
}

/// The short hash of a string: the first eight hex digits of the FNV-1a hash
/// of its UTF-8 bytes.
pub open spec fn spec_short_hash(s: Seq<char>) -> Seq<char> {
    hex_prefix8(fnv1a(encode_utf8(s)))
}

/// Whether `c` is a lower-case hexadecimal digit.
pub open spec fn is_lower_hex_digit(c: char) -> bool {
    ('0' <= c <= '9') || ('a' <= c <= 'f')
}

/// Returns a short (8 hex char), stable hash of `input`: the leading eight
/// digits of its 64-bit FNV-1a hash in lower-case hexadecimal.
pub fn short_hash(input: &str) -> (r: String)
    ensures
        r@ == spec_short_hash(input@),
        r@.len() == 8,
        forall|i: int| 0 <= i < 8 ==> #[trigger] is_lower_hex_digit(r@[i]),
{
    let bytes = input.as_bytes();
    let n = bytes.len();
    let mut hash: u64 = FNV_OFFSET_BASIS;
    let mut i: usize = 0;
    while i < n
        invariant
            n == bytes@.len(),
            bytes@ == encode_utf8(input@),
            i <= n,
            hash == fnv1a(bytes@.take(i as int)),
        decreases n - i,
    {
        assert(bytes@.take(i + 1).drop_last() =~= bytes@.take(i as int));
        hash = (hash ^ (bytes[i] as u64)).wrapping_mul(FNV_PRIME);
        i += 1;
    }
    assert(bytes@.take(n as int) =~= bytes@);
    let mut out = String::new();
    let mut j: u64 = 0;
    while j < 8
        invariant
            j <= 8,
            out@ == hex_prefix8(hash).take(j as int),
        decreases 8 - j,
    {
        let shift: u64 = 60 - 4 * j;
        assert((hash >> shift) & 15 < 16) by (bit_vector);
        let d = ((hash >> shift) & 15) as u8;
        out.push(hex_lower_digit(d));
        assert(out@ =~= hex_prefix8(hash).take(j + 1));
        j += 1;
    }
    assert(out@ =~= hex_prefix8(hash));
    proof {
        assert forall|k: int| 0 <= k < 8 implies #[trigger] is_lower_hex_digit(out@[k]) by {
            let h = hash;
            let sh = (60 - 4 * k) as u64;
            assert((h >> sh) & 15 < 16) by (bit_vector);
        }
    }
    out
}

// ---------------------------------------------------------------------------
// Laws of the FNV-1a hash
// ---------------------------------------------------------------------------

proof fn lemma_prime_multiplication_undone(a: u64)
    ensures
        ((((a as int) * 0x100000001b3) % 0x1_0000_0000_0000_0000) * 0xce965057aff6957b)
            % 0x1_0000_0000_0000_0000 == a as int,
{
    let m: int = 0x1_0000_0000_0000_0000;
    let p: int = 0x100000001b3;
    let inv: int = 0xce965057aff6957b;
    let k: int = 0xce9650590f;
    let x = a as int;
    vstd::arithmetic::div_mod::lemma_mul_mod_noop_left(x * p, inv, m);
    vstd::arithmetic::mul::lemma_mul_is_associative(x, p, inv);
    assert(p * inv == 1 + k * m);
    assert(x * (p * inv) == m * (x * k) + x) by (nonlinear_arith)
        requires
            p * inv == 1 + k * m,
    ;
    vstd::arithmetic::div_mod::lemma_mod_multiples_vanish(x * k, x, m);
    vstd::arithmetic::div_mod::lemma_small_mod(x as nat, m as nat);
}

/// Multiplying by the FNV prime modulo 2^64 loses nothing: different 64-bit
/// values stay different.
pub proof fn law_prime_multiplication_is_injective(a: u64, b: u64)
    ensures
        a.wrapping_mul(FNV_PRIME) == b.wrapping_mul(FNV_PRIME) ==> a == b,
{
    lemma_prime_multiplication_undone(a);
    lemma_prime_multiplication_undone(b);
}

/// The standard 64-bit FNV-1a hash, in integer arithmetic: the empty input
/// hashes to the offset basis 0xcbf29ce484222325, and appending a byte xors
/// it into the state and multiplies by 1099511628211 modulo 2^64.
pub proof fn law_fnv1a_is_standard(prefix: Seq<u8>, byte: u8)
    ensures
        fnv1a(Seq::empty()) == 0xcbf29ce484222325u64,
        fnv1a(prefix.push(byte)) as int == ((fnv1a(prefix) ^ (byte as u64)) as int
            * 1099511628211) % 18446744073709551616,
{
    assert(prefix.push(byte).drop_last() =~= prefix);
}

/// The hash reads its input as a stream: two inputs in the same hash state
/// stay in the same state when extended by the same bytes.
pub proof fn law_fnv1a_streams(p: Seq<u8>, q: Seq<u8>, rest: Seq<u8>)
    requires
        fnv1a(p) == fnv1a(q),
    ensures
        fnv1a(p + rest) == fnv1a(q + rest),
    decreases rest.len(),
{
    if rest.len() > 0 {
        let shorter = rest.drop_last();
        law_fnv1a_streams(p, q, shorter);
        assert((p + rest).drop_last() =~= p + shorter);
        assert((q + rest).drop_last() =~= q + shorter);
    } else {
        assert(p + rest =~= p);
        assert(q + rest =~= q);
    }
}

/// Every byte counts: from the same prefix, two different last bytes (such as
/// `A` and `a`) always give different hashes.
pub proof fn law_fnv1a_last_byte_matters(prefix: Seq<u8>, x: u8, y: u8)
    requires
        x != y,
    ensures
        fnv1a(prefix.push(x)) != fnv1a(prefix.push(y)),
{
    assert(prefix.push(x).drop_last() =~= prefix);
    assert(prefix.push(y).drop_last() =~= prefix);
    let h = fnv1a(prefix);
    let hx = h ^ (x as u64);
    let hy = h ^ (y as u64);
    law_prime_multiplication_is_injective(hx, hy);
    let xx = x as u64;
    let yy = y as u64;
    assert(xx != yy);
    assert(xx != yy ==> (h ^ xx) != (h ^ yy)) by (bit_vector);
}

// ---------------------------------------------------------------------------
// Laws of percent-encoding
// ---------------------------------------------------------------------------

/// The value of an upper-case hexadecimal digit (`0-9`, `A-F`).
pub open spec fn upper_hex_value(c: char) -> int {
    if '0' <= c <= '9' {
        c as int - 48
    } else if 'A' <= c <= 'F' {
        c as int - 55
    } else {
        -1
    }
}

/// Percent-decoding, read from the end: a `%` three characters from the end
/// starts an escape of two upper-case hex digits; any other last character
/// stands for its own (ASCII) byte.
pub open spec fn percent_decode(s: Seq<char>) -> Seq<u8>
    decreases s.len(),
{
    if s.len() == 0 {
        Seq::empty()
    } else if s.len() >= 3 && s[s.len() - 3] == '%' {
        percent_decode(s.take(s.len() - 3)).push(
            (upper_hex_value(s[s.len() - 2]) * 16 + upper_hex_value(s[s.len() - 1])) as u8,
        )
    } else {
        percent_decode(s.drop_last()).push(s.last() as u8)
    }
}

proof fn lemma_no_percent_at_end(bytes: Seq<u8>)
    ensures
        percent_encode(bytes).len() >= 1 ==> percent_encode(bytes).last() != '%',
        percent_encode(bytes).len() >= 2 ==> percent_encode(bytes)[percent_encode(bytes).len()
            - 2] != '%',
    decreases bytes.len(),
{
    if bytes.len() > 0 {
        lemma_no_percent_at_end(bytes.drop_last());
        let b = bytes.last();
        assert(b >> 4 < 16 && b & 15 < 16) by (bit_vector);
    }
}

/// Percent-encoding loses nothing: percent-decoding the encoding of any byte
/// string gives the byte string back, so two different strings never share
/// an encoded path segment. Escapes use upper-case hex digits.
pub proof fn law_percent_decode_inverts_encode(bytes: Seq<u8>)
    ensures
        percent_decode(percent_encode(bytes)) == bytes,
    decreases bytes.len(),
{
    if bytes.len() > 0 {
        let p = bytes.drop_last();
        let b = bytes.last();
        law_percent_decode_inverts_encode(p);
        lemma_no_percent_at_end(p);
        let e = percent_encode(p);
        let s = percent_encode(bytes);
        assert(s == e + escape_byte(b));
        if is_unreserved(b) {
            assert(s.drop_last() =~= e);
            assert(((b as char) as u8) == b);
            if s.len() >= 3 {
                assert(s[s.len() - 3] == e[e.len() - 2]);
            }
        } else {
            assert(s.take(s.len() - 3) =~= e);
            let hi = b >> 4;
            let lo = b & 15;
            assert(hi < 16 && lo < 16 && hi * 16 + lo == b) by (bit_vector)
                requires
                    hi == b >> 4,
                    lo == b & 15,
            ;
            assert(upper_hex_value(hex_upper(hi)) == hi);
            assert(upper_hex_value(hex_upper(lo)) == lo);
        }
        assert(bytes =~= p.push(b));
    }
}

// ---------------------------------------------------------------------------
// Law of the short hash's digits
// ---------------------------------------------------------------------------

/// The value of a lower-case hexadecimal digit (`0-9`, `a-f`).
pub open spec fn lower_hex_value(c: char) -> int {
    if '0' <= c <= '9' {
        c as int - 48
    } else if 'a' <= c <= 'f' {
        c as int - 87
    } else {
        -1
    }
}

/// The number written by the first `k` lower-case hex digits of `s`, most
/// significant first.
pub open spec fn hex_number(s: Seq<char>, k: nat) -> int
    decreases k,
{
    if k == 0 {
        0
    } else {
        hex_number(s, (k - 1) as nat) * 16 + lower_hex_value(s[k - 1])
    }
}

/// The eight digits of the short hash write, in lower-case hexadecimal, the
/// high 32 bits of the 64-bit FNV-1a hash: they are the first half of its
/// zero-padded 16-digit rendering.
pub proof fn law_short_hash_digits_are_high_half(s: Seq<char>)
    ensures
        hex_number(spec_short_hash(s), 8) == (fnv1a(encode_utf8(s)) >> 32) as int,
{
    let h = fnv1a(encode_utf8(s));
    let d = spec_short_hash(s);
    assert forall|i: int| 0 <= i < 8 implies lower_hex_value(#[trigger] d[i]) == ((h >> ((60 - 4
        * i) as u64)) & 15) as int by {
        let sh = (60 - 4 * i) as u64;
        assert((h >> sh) & 15 < 16) by (bit_vector);
    }
    reveal_with_fuel(hex_number, 9);
    let n0 = (h >> 60u64) & 15;
    let n1 = (h >> 56u64) & 15;
    let n2 = (h >> 52u64) & 15;
    let n3 = (h >> 48u64) & 15;
    let n4 = (h >> 44u64) & 15;
    let n5 = (h >> 40u64) & 15;
    let n6 = (h >> 36u64) & 15;
    let n7 = (h >> 32u64) & 15;
    assert(lower_hex_value(d[0]) == n0);
    assert(lower_hex_value(d[1]) == n1);
    assert(lower_hex_value(d[2]) == n2);
    assert(lower_hex_value(d[3]) == n3);
    assert(lower_hex_value(d[4]) == n4);
    assert(lower_hex_value(d[5]) == n5);
    assert(lower_hex_value(d[6]) == n6);
    assert(lower_hex_value(d[7]) == n7);
    assert((((((((n0 * 16 + n1) * 16 + n2) * 16 + n3) * 16 + n4) * 16 + n5) * 16 + n6) * 16 + n7)
        == (h >> 32u64)) by (bit_vector)
        requires
            n0 == (h >> 60u64) & 15,
            n1 == (h >> 56u64) & 15,
            n2 == (h >> 52u64) & 15,
            n3 == (h >> 48u64) & 15,
            n4 == (h >> 44u64) & 15,
            n5 == (h >> 40u64) & 15,
            n6 == (h >> 36u64) & 15,
            n7 == (h >> 32u64) & 15,
    ;
}

} // verus!
