//! A stable hash of the request URL string, used to name cache entries.
//!
//! The cache's threat model is none, so the hash need not be cryptographic;
//! it only has to be a deterministic function of the URL. This is the 64-bit
//! FNV-1a hash over the URL's characters, rendered as a fixed-width
//! hexadecimal file name.

use vstd::prelude::*;

verus! {

pub const FNV_OFFSET_BASIS: u64 = 0xcbf29ce484222325;

pub const FNV_PRIME: u64 = 0x100000001b3;

/// One FNV-1a round: fold a character into the running hash, with the
/// multiplication wrapping at 64 bits.
pub open spec fn fnv_step(h: u64, c: char) -> u64 {
    (((h ^ (c as u64)) * FNV_PRIME) % 0x10000000000000000) as u64
}

/// The 64-bit FNV-1a hash of a character sequence.
pub open spec fn fnv1a(s: Seq<char>) -> u64
    decreases s.len(),
{
    if s.len() == 0 {
        FNV_OFFSET_BASIS
    } else {
        fnv_step(fnv1a(s.drop_last()), s.last())
    }
}

fn fnv_step_exec(h: u64, c: char) -> (r: u64)
    ensures
        r == fnv_step(h, c),
{
    let x: u128 = (h ^ (c as u64)) as u128;
    let m: u128 = (x * (FNV_PRIME as u128)) % 0x10000000000000000u128;
    m as u64
}

/// The cache key of a URL.
pub fn url_hash(url: &str) -> (h: u64)
    ensures
        h == fnv1a(url@),
{
    let n = url.unicode_len();
    let mut h: u64 = FNV_OFFSET_BASIS;
    let mut i: usize = 0;
    while i < n
        invariant
            n == url@.len(),
            i <= n,
            h == fnv1a(url@.take(i as int)),
        decreases n - i,
    {
        let c = url.get_char(i);
        proof {
            assert(url@.take(i + 1).drop_last() =~= url@.take(i as int));
            assert(url@.take(i + 1).last() == c);
        }
        h = fnv_step_exec(h, c);
        i = i + 1;
    }
    proof {
        assert(url@.take(n as int) =~= url@);
    }
    h
}

/// The character for one hexadecimal digit.
pub open spec fn nibble_char(n: u64) -> char {
    if n == 0 {
        '0'
    } else if n == 1 {
        '1'
    } else if n == 2 {
        '2'
    } else if n == 3 {
        '3'
    } else if n == 4 {
        '4'
    } else if n == 5 {
        '5'
    } else if n == 6 {
        '6'
    } else if n == 7 {
        '7'
    } else if n == 8 {
        '8'
    } else if n == 9 {
        '9'
    } else if n == 10 {
        'a'
    } else if n == 11 {
        'b'
    } else if n == 12 {
        'c'
    } else if n == 13 {
        'd'
    } else if n == 14 {
        'e'
    } else {
        'f'
    }
}

/// A 64-bit value written as exactly 16 hexadecimal digits, most significant
/// nibble first.
pub open spec fn spec_hex16(h: u64) -> Seq<char> {
    Seq::new(16, |i: int| nibble_char((h >> (((15 - i) * 4) as u64)) & 0xf))
}

fn nibble_str(n: u64) -> (r: &'static str)
    requires
        n < 16,
    ensures
        r@ =~= seq![nibble_char(n)],
{
    proof {
        reveal_strlit("0");
        reveal_strlit("1");
        reveal_strlit("2");
        reveal_strlit("3");
        reveal_strlit("4");
        reveal_strlit("5");
        reveal_strlit("6");
        reveal_strlit("7");
        reveal_strlit("8");
        reveal_strlit("9");
        reveal_strlit("a");
        reveal_strlit("b");
        reveal_strlit("c");
        reveal_strlit("d");
        reveal_strlit("e");
        reveal_strlit("f");
    }
    if n == 0 {
        "0"
    } else if n == 1 {
        "1"
    } else if n == 2 {
        "2"
    } else if n == 3 {
        "3"
    } else if n == 4 {
        "4"
    } else if n == 5 {
        "5"
    } else if n == 6 {
        "6"
    } else if n == 7 {
        "7"
    } else if n == 8 {
        "8"
    } else if n == 9 {
        "9"
    } else if n == 10 {
        "a"
    } else if n == 11 {
        "b"
    } else if n == 12 {
        "c"
    } else if n == 13 {
        "d"
    } else if n == 14 {
        "e"
    } else {
        "f"
    }
}

/// Renders a hash as its 16-digit hexadecimal cache file name.
pub fn hash_to_hex(h: u64) -> (r: String)
    ensures
        r@ == spec_hex16(h),
{
    let mut s = String::new();
    let mut i: usize = 0;
    while i < 16
        invariant
            i <= 16,
            s@ == spec_hex16(h).take(i as int),
        decreases 16 - i,
    {
        let shift: u64 = ((15 - i) * 4) as u64;
        let nib: u64 = (h >> shift) & 0xf;
        proof {
            assert(nib < 16) by (bit_vector)
                requires
                    nib == (h >> shift) & 0xf,
            ;
        }
        let digit = nibble_str(nib);
        s.append(digit);
        proof {
            assert(spec_hex16(h).take(i + 1) =~= spec_hex16(h).take(i as int) + seq![
                spec_hex16(h)[i as int],
            ]);
            assert(spec_hex16(h)[i as int] == nibble_char(nib));
        }
        i = i + 1;
    }
    proof {
        assert(spec_hex16(h).take(16) =~= spec_hex16(h));
    }
    s
}

/// The full file name of a URL's cache entry: the hexadecimal rendering of
/// the URL's stable hash.
pub open spec fn spec_url_to_hash(url: Seq<char>) -> Seq<char> {
    spec_hex16(fnv1a(url))
}

/// Maps a URL to the name of its cache file.
pub fn url_to_hash(url: &str) -> (r: String)
    ensures
        r@ == spec_url_to_hash(url@),
{
    let h = url_hash(url);
    hash_to_hex(h)
}

} // verus!
