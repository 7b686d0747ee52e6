use md5::Digest;
use vstd::prelude::*;
use vstd::string::*;

verus! {

/// The MD5 digest of a byte sequence.
pub uninterp spec fn md5_of(data: Seq<u8>) -> Seq<u8>;

/// Relies on md5::Md5::digest (md-5, through the digest crate's `Digest`
/// trait): the 16-byte digest of the input, which depends on the bytes alone.
#[verifier::external_body]
fn md5_bytes(data: &[u8]) -> (r: Vec<u8>)
    ensures
        r@ == md5_of(data@),
        r@.len() == 16,
{
    md5::Md5::digest(data).to_vec()
}

/// The lower-case hexadecimal digit of `n` (below 16).
pub open spec fn hex_char(n: nat) -> char {
    seq!['0', '1', '2', '3', '4', '5', '6', '7', '8', '9', 'a', 'b', 'c', 'd', 'e', 'f'][n as int]
}

/// Two lower-case hexadecimal digits for each byte, high nibble first.
pub open spec fn hex_lower(b: Seq<u8>) -> Seq<char>
    decreases b.len(),
{
    if b.len() == 0 {
        Seq::empty()
    } else {
        let last = b.last();
        hex_lower(b.drop_last()) + seq![hex_char((last / 16) as nat), hex_char((last % 16) as nat)]
    }
}

/// The text of a digest as stored in a cache record.
pub open spec fn digest_text(data: Seq<u8>) -> Seq<char> {
    hex_lower(md5_of(data))
}

fn hex_digit(n: u8) -> (r: &'static str)
    requires
        n < 16,
    ensures
        r@ == seq![hex_char(n as nat)],
{
    proof {
        reveal_strlit("0");
        reveal_strlit("1");
        reveal_strlit("2");
        reveal_strlit("3");
        reveal_strlit("4");
        reveal_strlit("5");
        reveal_strlit("6");
        reveal_strlit("7");
        reveal_strlit("8");
        reveal_strlit("9");
        reveal_strlit("a");
        reveal_strlit("b");
        reveal_strlit("c");
        reveal_strlit("d");
        reveal_strlit("e");
        reveal_strlit("f");
    }
    let r = match n {
        0 => "0",
        1 => "1",
        2 => "2",
        3 => "3",
        4 => "4",
        5 => "5",
        6 => "6",
        7 => "7",
        8 => "8",
        9 => "9",
        10 => "a",
        11 => "b",
        12 => "c",
        13 => "d",
        14 => "e",
        _ => "f",
    };
    assert(r@ =~= seq![hex_char(n as nat)]);
    r
}

/// Lower-case hexadecimal text of a byte sequence.
pub fn to_hex(b: &[u8]) -> (r: String)
    ensures
        r@ == hex_lower(b@),
{
    let mut out = String::new();
    let mut i: usize = 0;
    while i < b.len()
        invariant
            i <= b@.len(),
            out@ == hex_lower(b@.subrange(0, i as int)),
        decreases b@.len() - i,
    {
        let byte: u8 = b[i];
        let hi = hex_digit(byte / 16);
        let lo = hex_digit(byte % 16);
        out.append(hi);
        out.append(lo);
        proof {
            let next = b@.subrange(0, i + 1);
            assert(next.drop_last() =~= b@.subrange(0, i as int));
            assert(next.last() == byte);
        }
        i = i + 1;
    }
    assert(b@.subrange(0, b@.len() as int) =~= b@);
    out
}

/// The digest text of a byte sequence: its MD5 digest in lower-case hex.
pub fn digest_hex(data: &[u8]) -> (r: String)
    ensures
        r@ == digest_text(data@),
        r@.len() == 32,
{
    let d = md5_bytes(data);
    let r = to_hex(d.as_slice());
    proof { lemma_hex_len(d@); }
    r
}

/// The digest text of a string's UTF-8 bytes.
pub fn md5(content: &str) -> (r: String)
    ensures
        r@ == digest_text(content.spec_bytes()),
        r@.len() == 32,
{
    digest_hex(content.as_bytes())
}

/// Hex text is twice as long as the bytes it encodes.
pub proof fn lemma_hex_len(b: Seq<u8>)
    ensures
        hex_lower(b).len() == 2 * b.len(),
    decreases b.len(),
{
    if b.len() > 0 {
        lemma_hex_len(b.drop_last());
    }
}

} // verus!
