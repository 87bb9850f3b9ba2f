//! Content hashing for imported archives.

use sha2::Digest;
use vstd::prelude::*;
use vstd::string::StrSliceExecFns;
use vstd::string::StringExecFns;

use crate::strutil::is_hex_lower_digit;

verus! {

/// What the SHA-256 digest of a byte string is. The digest depends
/// on the bytes alone; nothing here states what it is on any value.
pub uninterp spec fn sha256_of(data: Seq<u8>) -> Seq<u8>;

/// Relies on sha2's Sha256: the digest of a byte string is 32 bytes
/// and depends on the bytes alone.
#[verifier::external_body]
fn sha256(data: &Vec<u8>) -> (r: Vec<u8>)
    ensures
        r@ == sha256_of(data@),
        r@.len() == 32,
{
    sha2::Sha256::digest(data.as_slice()).to_vec()
}

/// The lower-case hex digit of a value below sixteen.
pub open spec fn spec_hex_char(v: u8) -> char {
    "0123456789abcdef"@[v as int]
}

/// The lower-case hex encoding of a byte string, two digits a byte.
pub open spec fn spec_hex_of(data: Seq<u8>) -> Seq<char>
    decreases data.len(),
{
    if data.len() == 0 {
        Seq::<char>::empty()
    } else {
        seq![spec_hex_char(data[0] / 16), spec_hex_char(data[0] % 16)] + spec_hex_of(
            data.drop_first(),
        )
    }
}

/// The hex encoding is twice as long as its input.
pub proof fn lemma_hex_len(data: Seq<u8>)
    ensures
        spec_hex_of(data).len() == 2 * data.len(),
    decreases data.len(),
{
    if data.len() > 0 {
        lemma_hex_len(data.drop_first());
    }
}

/// Encodes a byte string as lower-case hex.
pub fn to_hex(data: &Vec<u8>) -> (r: String)
    ensures
        r@ == spec_hex_of(data@),
{
    let table: &str = "0123456789abcdef";
    let n: usize = data.len();
    let mut out: String = String::new();
    proof {
        reveal_strlit("0123456789abcdef");
        assert(data@.skip(0) =~= data@);
    }
    let mut i: usize = 0;
    while i < n
        invariant
            n == data@.len(),
            i <= n,
            table@ == "0123456789abcdef"@,
            table@.len() == 16,
            out@ + spec_hex_of(data@.skip(i as int)) == spec_hex_of(data@),
        decreases n - i,
    {
        let b = data[i];
        let hi: usize = (b / 16) as usize;
        let lo: usize = (b % 16) as usize;
        out.append(table.substring_char(hi, hi + 1));
        out.append(table.substring_char(lo, lo + 1));
        proof {
            assert(table@.subrange(hi as int, hi + 1) =~= seq![spec_hex_char(b / 16)]);
            assert(table@.subrange(lo as int, lo + 1) =~= seq![spec_hex_char(b % 16)]);
            assert(data@.skip(i as int).drop_first() =~= data@.skip(i + 1));
            assert(out@ + spec_hex_of(data@.skip(i + 1)) =~= spec_hex_of(data@));
        }
        i = i + 1;
    }
    proof {
        assert(data@.skip(n as int) =~= Seq::<u8>::empty());
        assert(out@ =~= spec_hex_of(data@));
    }
    out
}

/// Every character of a hex encoding is a lower-case hex digit.
pub proof fn lemma_hex_lower(data: Seq<u8>)
    ensures
        forall|i: int|
            0 <= i < spec_hex_of(data).len() ==> is_hex_lower_digit(#[trigger] spec_hex_of(data)[i]),
    decreases data.len(),
{
    reveal_strlit("0123456789abcdef");
    if data.len() > 0 {
        lemma_hex_lower(data.drop_first());
        assert forall|i: int| 0 <= i < spec_hex_of(data).len() implies is_hex_lower_digit(
            #[trigger] spec_hex_of(data)[i],
        ) by {
            if i >= 2 {
                assert(spec_hex_of(data)[i] == spec_hex_of(data.drop_first())[i - 2]);
            } else {
                let v = if i == 0 {
                    data[0] / 16
                } else {
                    data[0] % 16
                };
                assert(0 <= v < 16);
                assert(spec_hex_of(data)[i] == spec_hex_char(v));
            }
        }
    }
}

/// The short content hash of an archive: the first eight hex digits
/// of its SHA-256 digest.
pub fn compute_archive_hash(data: &Vec<u8>) -> (r: String)
    ensures
        r@ == spec_hex_of(sha256_of(data@)).take(8),
        r@.len() == 8,
        crate::strutil::is_hex_lower(r@),
{
    let digest = sha256(data);
    let hex = to_hex(&digest);
    proof {
        lemma_hex_len(digest@);
        lemma_hex_lower(digest@);
    }
    crate::strutil::take_chars(hex.as_str(), 8)
}

} // verus!
