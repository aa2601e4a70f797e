//! Deterministic rendering and identifier derivation.
//!
//! Timeline entries carry their timestamp rendered in decimal, and
//! server-derived product identifiers are a fixed-width hexadecimal token
//! hashed from the product name and the creation timestamp. Both are pure
//! functions of their inputs.

use vstd::prelude::*;
use vstd::string::StrSliceExecFns;
use vstd::string::StringExecFns;

verus! {

/// Offset basis of the 64-bit FNV-1a hash.
pub const FNV_OFFSET: u64 = 0xcbf29ce484222325;

/// Prime of the 64-bit FNV-1a hash.
pub const FNV_PRIME: u64 = 0x100000001b3;

/// The character for one digit value below sixteen.
pub open spec fn digit_char(d: int) -> char {
    if d == 0 {
        '0'
    } else if d == 1 {
        '1'
    } else if d == 2 {
        '2'
    } else if d == 3 {
        '3'
    } else if d == 4 {
        '4'
    } else if d == 5 {
        '5'
    } else if d == 6 {
        '6'
    } else if d == 7 {
        '7'
    } else if d == 8 {
        '8'
    } else if d == 9 {
        '9'
    } else if d == 10 {
        'a'
    } else if d == 11 {
        'b'
    } else if d == 12 {
        'c'
    } else if d == 13 {
        'd'
    } else if d == 14 {
        'e'
    } else {
        'f'
    }
}

/// The decimal rendering of `n`: most significant digit first, no leading
/// zeros (a single `'0'` for zero).
pub open spec fn dec_str(n: u64) -> Seq<char>
    decreases n,
{
    if n < 10 {
        seq![digit_char(n as int)]
    } else {
        dec_str((n / 10) as u64).push(digit_char((n % 10) as int))
    }
}

/// One FNV-1a round: fold one value into the running hash.
pub open spec fn fnv_step(h: u64, b: u64) -> u64 {
    vstd::wrapping::u64_specs::wrapping_mul(h ^ b, FNV_PRIME)
}

/// The hash after folding in the first `k` characters of `s`.
pub open spec fn fnv_upto(s: Seq<char>, k: int) -> u64
    decreases k,
{
    if k <= 0 {
        FNV_OFFSET
    } else {
        fnv_step(fnv_upto(s, k - 1), s[k - 1] as u64)
    }
}

/// The 64-bit hash from which a derived identifier is taken: the product
/// name folded character by character, then the creation timestamp.
pub open spec fn token_hash(name: Seq<char>, timestamp: u64) -> u64 {
    fnv_step(fnv_upto(name, name.len() as int), timestamp)
}

/// Nibble `i` of `h`, most significant first.
pub open spec fn nibble(h: u64, i: int) -> u64 {
    (h >> (((15 - i) * 4) as u64)) & 0xf
}

/// The sixteen-character hexadecimal rendering of `h`.
pub open spec fn hex_str(h: u64) -> Seq<char> {
    Seq::new(16, |i: int| digit_char(nibble(h, i) as int))
}

/// The derived identifier for a product: a fixed-width hexadecimal token of
/// the hash of `(name, timestamp)`.
pub open spec fn derived_id(name: Seq<char>, timestamp: u64) -> Seq<char> {
    hex_str(token_hash(name, timestamp))
}

/// The one-character string for a digit value below sixteen.
fn digit_str(d: u64) -> (r: &'static str)
    requires
        d < 16,
    ensures
        r@ == seq![digit_char(d as int)],
{
    let r: &'static str = if d == 0 {
        "0"
    } else if d == 1 {
        "1"
    } else if d == 2 {
        "2"
    } else if d == 3 {
        "3"
    } else if d == 4 {
        "4"
    } else if d == 5 {
        "5"
    } else if d == 6 {
        "6"
    } else if d == 7 {
        "7"
    } else if d == 8 {
        "8"
    } else if d == 9 {
        "9"
    } else if d == 10 {
        "a"
    } else if d == 11 {
        "b"
    } else if d == 12 {
        "c"
    } else if d == 13 {
        "d"
    } else if d == 14 {
        "e"
    } else {
        "f"
    };
    proof {
        reveal_strlit("0");
        reveal_strlit("1");
        reveal_strlit("2");
        reveal_strlit("3");
        reveal_strlit("4");
        reveal_strlit("5");
        reveal_strlit("6");
        reveal_strlit("7");
        reveal_strlit("8");
        reveal_strlit("9");
        reveal_strlit("a");
        reveal_strlit("b");
        reveal_strlit("c");
        reveal_strlit("d");
        reveal_strlit("e");
        reveal_strlit("f");
        assert(r@ =~= seq![digit_char(d as int)]);
    }
    r
}

/// Renders `n` in decimal.
pub fn render_u64(n: u64) -> (r: String)
    ensures
        r@ == dec_str(n),
{
    let mut m: u64 = n;
    let mut acc = String::new();
    proof {
        assert(dec_str(n) =~= dec_str(m) + acc@);
    }
    while m >= 10
        invariant
            dec_str(n) == dec_str(m) + acc@,
        decreases m,
    {
        let d: u64 = m % 10;
        let ds = digit_str(d);
        let new_acc = String::from_str(ds).concat(acc.as_str());
        proof {
            assert(m / 10 < m) by (nonlinear_arith)
                requires
                    m >= 10,
            ;
            assert(dec_str(m) =~= dec_str((m / 10) as u64) + seq![digit_char((m % 10) as int)]);
            assert(dec_str((m / 10) as u64) + new_acc@ =~= dec_str(m) + acc@);
        }
        acc = new_acc;
        m = m / 10;
    }
    let r = String::from_str(digit_str(m)).concat(acc.as_str());
    proof {
        assert(dec_str(m) =~= seq![digit_char(m as int)]);
        assert(r@ =~= dec_str(n));
    }
    r
}

/// Nibble `i` of `h`, most significant first.
fn nibble_of(h: u64, i: usize) -> (r: u64)
    requires
        i < 16,
    ensures
        r == nibble(h, i as int),
        r < 16,
{
    let sh: u64 = (15 - i as u64) * 4;
    let r: u64 = (h >> sh) & 0xf;
    proof {
        assert((h >> sh) & 0xf < 16) by (bit_vector);
    }
    r
}

/// Derives a product identifier from the product name and the creation
/// timestamp: a fixed-width hexadecimal token of their hash. Used when
/// identifiers are server-derived rather than caller-supplied.
pub fn derive_product_id(name: &str, timestamp: u64) -> (r: String)
    ensures
        r@ == derived_id(name@, timestamp),
        r@.len() == 16,
{
    let n = name.unicode_len();
    let mut h: u64 = FNV_OFFSET;
    let mut i: usize = 0;
    while i < n
        invariant
            i <= n,
            n == name@.len(),
            h == fnv_upto(name@, i as int),
        decreases n - i,
    {
        let c = name.get_char(i);
        h = (h ^ (c as u64)).wrapping_mul(FNV_PRIME);
        i += 1;
    }
    h = (h ^ timestamp).wrapping_mul(FNV_PRIME);
    proof {
        assert(h == token_hash(name@, timestamp));
    }
    let mut r = String::new();
    let mut k: usize = 0;
    while k < 16
        invariant
            k <= 16,
            r@ =~= Seq::new(k as nat, |j: int| digit_char(nibble(h, j) as int)),
        decreases 16 - k,
    {
        let d = nibble_of(h, k);
        let ds = digit_str(d);
        r = r.concat(ds);
        proof {
            assert(r@ =~= Seq::new((k + 1) as nat, |j: int| digit_char(nibble(h, j) as int)));
        }
        k += 1;
    }
    proof {
        assert(r@ =~= hex_str(h));
    }
    r
}

} // verus!
