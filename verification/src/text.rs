//! ASCII text utilities: random alphanumeric codes and the
//! case-insensitive, space-insensitive matching used by the overload
//! challenge.

use vstd::prelude::*;
use vstd::string::StringSliceAdditionalSpecFns;

use crate::rng::random_in_range;

verus! {

/// Lower-cases one ASCII byte; everything but `A..=Z` is unchanged.
pub open spec fn to_lower_spec(b: u8) -> u8 {
    if 65 <= b <= 90 {
        (b + 32) as u8
    } else {
        b
    }
}

/// Strips ASCII spaces and lower-cases the rest.
pub open spec fn normalize_spec(s: Seq<u8>) -> Seq<u8>
    decreases s.len(),
{
    if s.len() == 0 {
        Seq::empty()
    } else if s[0] == 32 {
        normalize_spec(s.drop_first())
    } else {
        seq![to_lower_spec(s[0])] + normalize_spec(s.drop_first())
    }
}

/// Whether a reply matches a challenge code: equal after dropping spaces
/// and ignoring ASCII case.
pub open spec fn code_matches_spec(input: Seq<u8>, code: Seq<u8>) -> bool {
    normalize_spec(input) == normalize_spec(code)
}

/// Whether a character is ASCII alphanumeric.
pub open spec fn is_alnum_char_spec(c: char) -> bool {
    (48 <= c as u32 <= 57) || (65 <= c as u32 <= 90) || (97 <= c as u32 <= 122)
}

/// Relies on `String::from_utf8`: ASCII bytes decode to exactly the
/// characters with the same code points, one character per byte.
#[verifier::external_body]
pub fn ascii_bytes_to_string(v: Vec<u8>) -> (r: String)
    requires
        forall|i: int| 0 <= i < v@.len() ==> v@[i] < 128,
    ensures
        r@ == v@.map_values(|b: u8| b as char),
        r@.len() == v@.len(),
        forall|i: int| 0 <= i < v@.len() ==> r@[i] == v@[i] as char,
{
    String::from_utf8(v).unwrap_or_default()
}

/// The decimal digit characters of a number, most significant first, as
/// ASCII bytes.
pub open spec fn dec_bytes_spec(n: int) -> Seq<u8>
    recommends
        n >= 0,
    decreases n,
{
    if n < 10 {
        seq![(48 + n) as u8]
    } else {
        dec_bytes_spec(n / 10).push((48 + n % 10) as u8)
    }
}

/// Every decimal byte is an ASCII digit.
pub proof fn lemma_dec_bytes_digits(n: int)
    requires
        n >= 0,
    ensures
        forall|i: int|
            0 <= i < dec_bytes_spec(n).len() ==> 48 <= #[trigger] dec_bytes_spec(n)[i] <= 57,
    decreases n,
{
    if n >= 10 {
        lemma_dec_bytes_digits(n / 10);
        assert forall|i: int|
            0 <= i < dec_bytes_spec(n).len() implies 48 <= #[trigger] dec_bytes_spec(n)[i]
            <= 57 by {
            if i < dec_bytes_spec(n).len() - 1 {
                assert(dec_bytes_spec(n)[i] == dec_bytes_spec(n / 10)[i]);
            }
        }
    }
}

/// Appends the decimal digits of `n` to a byte string.
pub fn push_dec_bytes(n: u64, out: &mut Vec<u8>)
    ensures
        final(out)@ == old(out)@ + dec_bytes_spec(n as int),
    decreases n,
{
    if n < 10 {
        out.push(48 + (n as u8));
        proof {
            assert(out@ =~= old(out)@ + dec_bytes_spec(n as int));
        }
    } else {
        push_dec_bytes(n / 10, out);
        out.push(48 + ((n % 10) as u8));
        proof {
            assert(out@ =~= old(out)@ + dec_bytes_spec(n as int));
        }
    }
}

/// A number rendered in decimal.
pub fn u64_to_string(n: u64) -> (r: String)
    ensures
        r@ == dec_bytes_spec(n as int).map_values(|b: u8| b as char),
{
    let mut bytes: Vec<u8> = Vec::new();
    push_dec_bytes(n, &mut bytes);
    proof {
        lemma_dec_bytes_digits(n as int);
        assert(bytes@ =~= dec_bytes_spec(n as int));
    }
    ascii_bytes_to_string(bytes)
}

/// One random alphanumeric character as a byte.
fn random_alnum_byte() -> (r: u8)
    ensures
        (48 <= r <= 57) || (65 <= r <= 90) || (97 <= r <= 122),
{
    let d = random_in_range(0, 61);
    if d < 26 {
        65 + (d as u8)
    } else if d < 52 {
        97 + ((d - 26) as u8)
    } else {
        48 + ((d - 52) as u8)
    }
}

/// A short random alphanumeric code: five characters drawn uniformly from
/// the 62-character alphabet. Used both for the overload challenge and as
/// an opaque correlation code on reported errors.
pub fn random_code() -> (r: String)
    ensures
        r@.len() == 5,
        forall|i: int| 0 <= i < r@.len() ==> is_alnum_char_spec(r@[i]),
{
    let mut bytes: Vec<u8> = Vec::new();
    let mut i: usize = 0;
    while i < 5
        invariant
            0 <= i <= 5,
            bytes@.len() == i,
            forall|j: int|
                0 <= j < i ==> (48 <= #[trigger] bytes@[j] <= 57) || (65 <= bytes@[j] <= 90) || (97
                    <= bytes@[j] <= 122),
        decreases 5 - i,
    {
        bytes.push(random_alnum_byte());
        i = i + 1;
    }
    ascii_bytes_to_string(bytes)
}

/// An opaque correlation code attached to reported failures.
pub fn generate_error_code() -> (r: String)
    ensures
        r@.len() == 5,
        forall|i: int| 0 <= i < r@.len() ==> is_alnum_char_spec(r@[i]),
{
    random_code()
}

/// Strips spaces and lower-cases a byte string.
fn normalize(s: &[u8]) -> (r: Vec<u8>)
    ensures
        r@ == normalize_spec(s@),
{
    let n = s.len();
    let mut out: Vec<u8> = Vec::new();
    let mut i: usize = 0;
    proof {
        assert(s@.skip(0) =~= s@);
    }
    while i < n
        invariant
            n == s@.len(),
            0 <= i <= n,
            normalize_spec(s@) =~= out@ + normalize_spec(s@.skip(i as int)),
        decreases n - i,
    {
        proof {
            assert(s@.skip(i as int)[0] == s@[i as int]);
            assert(s@.skip(i as int).drop_first() =~= s@.skip(i as int + 1));
        }
        let b = s[i];
        if b != 32 {
            let lowered: u8 = if 65 <= b && b <= 90 {
                b + 32
            } else {
                b
            };
            out.push(lowered);
            proof {
                assert(normalize_spec(s@) =~= out@ + normalize_spec(s@.skip(i as int + 1)));
            }
        }
        i = i + 1;
    }
    proof {
        assert(s@.skip(n as int) =~= Seq::<u8>::empty());
        assert(out@ + Seq::<u8>::empty() =~= out@);
    }
    out
}

/// Whether a reply matches a challenge code, ignoring ASCII case and
/// spaces.
pub fn code_matches(input: &str, code: &str) -> (r: bool)
    ensures
        r == code_matches_spec(input.spec_bytes(), code.spec_bytes()),
{
    let a = normalize(input.as_bytes());
    let b = normalize(code.as_bytes());
    if a.len() != b.len() {
        return false;
    }
    let n = a.len();
    let mut i: usize = 0;
    while i < n
        invariant
            n == a@.len() == b@.len(),
            0 <= i <= n,
            a@ == normalize_spec(input.spec_bytes()),
            b@ == normalize_spec(code.spec_bytes()),
            forall|j: int| 0 <= j < i ==> a@[j] == b@[j],
        decreases n - i,
    {
        if a[i] != b[i] {
            proof {
                assert(a@[i as int] != b@[i as int]);
                assert(a@ != b@);
                assert(a@ == normalize_spec(input.spec_bytes()));
                assert(b@ == normalize_spec(code.spec_bytes()));
                assert(!code_matches_spec(input.spec_bytes(), code.spec_bytes()));
            }
            return false;
        }
        i = i + 1;
    }
    proof {
        assert(a@ =~= b@);
    }
    true
}

} // verus!
