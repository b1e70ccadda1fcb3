//! Canonical textual renderings and the cryptographic primitives behind them:
//! decimal rendering of integers, lowercase hex encoding of bytes, and the
//! SHA-256 digest that block hashes and wallet addresses are built from.

use vstd::prelude::*;
use vstd::string::StrSliceExecFns;
use vstd::string::StringExecFns;
use sha2::Digest;

verus! {

/// The character for a single decimal (or low hex) digit value.
pub open spec fn spec_digit_char(d: nat) -> char {
    if d == 0 {
        '0'
    } else if d == 1 {
        '1'
    } else if d == 2 {
        '2'
    } else if d == 3 {
        '3'
    } else if d == 4 {
        '4'
    } else if d == 5 {
        '5'
    } else if d == 6 {
        '6'
    } else if d == 7 {
        '7'
    } else if d == 8 {
        '8'
    } else if d == 9 {
        '9'
    } else if d == 10 {
        'a'
    } else if d == 11 {
        'b'
    } else if d == 12 {
        'c'
    } else if d == 13 {
        'd'
    } else if d == 14 {
        'e'
    } else {
        'f'
    }
}

/// The canonical decimal rendering of a non-negative integer: no sign, no
/// leading zeros, `0` rendered as "0". This matches how Rust displays
/// unsigned integers.
pub open spec fn spec_dec(n: nat) -> Seq<char>
    decreases n,
{
    if n < 10 {
        seq![spec_digit_char(n)]
    } else {
        spec_dec(n / 10) + seq![spec_digit_char(n % 10)]
    }
}

/// The character for one decimal digit value.
fn digit_str(d: u64) -> (r: &'static str)
    requires
        d < 10,
    ensures
        r@ == seq![spec_digit_char(d as nat)],
{
    proof {
        reveal_strlit("0");
        reveal_strlit("1");
        reveal_strlit("2");
        reveal_strlit("3");
        reveal_strlit("4");
        reveal_strlit("5");
        reveal_strlit("6");
        reveal_strlit("7");
        reveal_strlit("8");
        reveal_strlit("9");
    }
    let r: &'static str = if d == 0 {
        "0"
    } else if d == 1 {
        "1"
    } else if d == 2 {
        "2"
    } else if d == 3 {
        "3"
    } else if d == 4 {
        "4"
    } else if d == 5 {
        "5"
    } else if d == 6 {
        "6"
    } else if d == 7 {
        "7"
    } else if d == 8 {
        "8"
    } else {
        "9"
    };
    proof {
        assert(r@ =~= seq![spec_digit_char(d as nat)]);
    }
    r
}

/// Renders `n` in canonical decimal.
pub fn u64_to_dec(n: u64) -> (r: String)
    ensures
        r@ == spec_dec(n as nat),
    decreases n,
{
    if n < 10 {
        let mut s = String::new();
        s.append(digit_str(n));
        proof {
            assert(s@ =~= spec_dec(n as nat));
        }
        s
    } else {
        let mut s = u64_to_dec(n / 10);
        s.append(digit_str(n % 10));
        proof {
            assert(s@ =~= spec_dec(n as nat));
        }
        s
    }
}

/// True exactly of the sixteen characters a lowercase hex rendering uses.
pub open spec fn is_hex_char(c: char) -> bool {
    exists|d: nat| d < 16 && c == spec_digit_char(d)
}

/// The lowercase hex rendering of a byte sequence: two digits per byte,
/// high nibble first.
pub open spec fn spec_hex(bs: Seq<u8>) -> Seq<char> {
    Seq::new(
        bs.len() * 2,
        |i: int|
            if i % 2 == 0 {
                spec_digit_char((bs[i / 2] / 16) as nat)
            } else {
                spec_digit_char((bs[i / 2] % 16) as nat)
            },
    )
}

/// Every character of a hex rendering is a lowercase hex digit.
pub proof fn lemma_spec_hex_chars(bs: Seq<u8>)
    ensures
        forall|i: int| 0 <= i < spec_hex(bs).len() ==> is_hex_char(#[trigger] spec_hex(bs)[i]),
{
    assert forall|i: int| 0 <= i < spec_hex(bs).len() implies is_hex_char(
        #[trigger] spec_hex(bs)[i],
    ) by {
        if i % 2 == 0 {
            assert(bs[i / 2] / 16 < 16);
        } else {
            assert(bs[i / 2] % 16 < 16);
        }
    }
}

/// The SHA-256 digest of the UTF-8 bytes of a character sequence. The digest
/// is a function of those characters alone; nothing more is assumed of it.
pub uninterp spec fn sha256_of(s: Seq<char>) -> Seq<u8>;

/// Relies on sha2's `Sha256::digest`: the digest depends only on the input
/// bytes (here the UTF-8 bytes of `s`) and is always 32 bytes long.
#[verifier::external_body]
pub(crate) fn sha256_digest(s: &str) -> (r: Vec<u8>)
    ensures
        r@ == sha256_of(s@),
        r@.len() == 32,
{
    sha2::Sha256::digest(s.as_bytes()).to_vec()
}

/// Relies on hex's `encode`: lowercase hex, two digits per byte, high nibble
/// first.
#[verifier::external_body]
pub(crate) fn hex_encode(bytes: &[u8]) -> (r: String)
    ensures
        r@ == spec_hex(bytes@),
{
    hex::encode(bytes)
}

/// Holds when the first `d` characters of `s` exist and are all `'0'`.
pub open spec fn spec_leading_zeros(s: Seq<char>, d: nat) -> bool {
    d <= s.len() && forall|i: int| 0 <= i < d ==> s[i] == '0'
}

/// Checks whether `s` has at least `d` leading `'0'` characters.
pub fn has_leading_zeros(s: &str, d: usize) -> (r: bool)
    ensures
        r == spec_leading_zeros(s@, d as nat),
{
    let n = s.unicode_len();
    if d > n {
        return false;
    }
    let mut i: usize = 0;
    while i < d
        invariant
            d <= s@.len(),
            i <= d,
            forall|j: int| 0 <= j < i ==> s@[j] == '0',
        decreases d - i,
    {
        if s.get_char(i) != '0' {
            return false;
        }
        i += 1;
    }
    true
}

} // verus!
