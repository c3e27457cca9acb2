//! Webhook authentication: each delivery carries a signature header
//! holding the HMAC-SHA256 of the raw request body under a shared
//! secret. The header is parsed and the tag compared in constant time;
//! a mismatch rejects the delivery before anything else looks at it.

use vstd::prelude::*;
use vstd::string::*;
use crate::text::str_eq;

verus! {

/// The HMAC-SHA256 tag of a message under a key: a pure function of the
/// two, computed by an outside crate.
pub uninterp spec fn hmac_sha256(key: Seq<u8>, msg: Seq<u8>) -> Seq<u8>;

/// Relies on hmac::Hmac over sha2::Sha256: the 32-byte tag depends on
/// the key and message alone, and any key length is accepted.
#[verifier::external_body]
pub fn hmac_sha256_tag(key: &[u8], msg: &[u8]) -> (r: Vec<u8>)
    ensures
        r@ == hmac_sha256(key@, msg@),
        r@.len() == 32,
{
    let mut mac = <hmac::Hmac<sha2::Sha256> as hmac::KeyInit>::new_from_slice(key).expect(
        "HMAC accepts keys of any length",
    );
    hmac::Mac::update(&mut mac, msg);
    hmac::Mac::finalize(mac).into_bytes().to_vec()
}

/// The value of one hexadecimal digit, or 16 for a non-digit.
pub open spec fn hex_val(c: char) -> u8 {
    let u = c as u32;
    if 48 <= u <= 57 {
        (u - 48) as u8
    } else if 97 <= u <= 102 {
        (u - 87) as u8
    } else if 65 <= u <= 70 {
        (u - 55) as u8
    } else {
        16
    }
}

/// The bytes a hexadecimal string denotes, two digits per byte; None on
/// an odd length or a character that is no hexadecimal digit.
pub open spec fn hex_decode(s: Seq<char>) -> Option<Seq<u8>>
    decreases s.len(),
{
    if s.len() == 0 {
        Some(Seq::<u8>::empty())
    } else if s.len() == 1 {
        None
    } else if hex_val(s[0]) >= 16 || hex_val(s[1]) >= 16 {
        None
    } else {
        match hex_decode(s.skip(2)) {
            Some(rest) => Some(seq![(hex_val(s[0]) * 16 + hex_val(s[1])) as u8] + rest),
            None => None,
        }
    }
}

/// The value of one hexadecimal digit character, or 16 for any other.
pub fn hex_digit(c: char) -> (r: u8)
    ensures
        r == hex_val(c),
{
    let u = c as u32;
    if 48 <= u && u <= 57 {
        (u - 48) as u8
    } else if 97 <= u && u <= 102 {
        (u - 87) as u8
    } else if 65 <= u && u <= 70 {
        (u - 55) as u8
    } else {
        16
    }
}

/// Decode a hexadecimal string into bytes.
pub fn hex_decode_bytes(s: &str) -> (r: Option<Vec<u8>>)
    ensures
        r is Some <==> hex_decode(s@) is Some,
        r matches Some(v) ==> Some(v@) == hex_decode(s@),
{
    let n = s.unicode_len();
    let chars = crate::text::to_chars(s);
    let mut acc: Vec<u8> = Vec::new();
    let mut i: usize = 0;
    proof {
        assert(s@.skip(0) =~= s@);
        if hex_decode(s@) is Some {
            let rest = hex_decode(s@).unwrap();
            assert(Seq::<u8>::empty() + rest =~= rest);
        }
    }
    while i < n
        invariant
            i <= n,
            i % 2 == 0,
            n == s@.len(),
            chars@ == s@,
            hex_decode(s@) == (match hex_decode(s@.skip(i as int)) {
                Some(rest) => Some(acc@ + rest),
                None => None::<Seq<u8>>,
            }),
        decreases n - i,
    {
        if i + 1 == n {
            assert(s@.skip(i as int).len() == 1);
            assert(hex_decode(s@) is None);
            return None;
        }
        let hi = hex_digit(chars[i]);
        let lo = hex_digit(chars[i + 1]);
        assert(s@.skip(i as int)[0] == s@[i as int]);
        assert(s@.skip(i as int)[1] == s@[i + 1]);
        if hi >= 16 || lo >= 16 {
            assert(hex_decode(s@.skip(i as int)) is None);
            assert(hex_decode(s@) is None);
            return None;
        }
        acc.push(hi * 16 + lo);
        i = i + 2;
        assert(s@.skip(i - 2).skip(2) =~= s@.skip(i as int));
    }
    assert(s@.skip(i as int).len() == 0);
    assert(s@.skip(i as int) =~= Seq::<char>::empty());
    assert(hex_decode(s@) == Some(acc@ + Seq::<u8>::empty()));
    assert(acc@ + Seq::<u8>::empty() =~= acc@);
    Some(acc)
}

/// Compare two byte strings in constant time over their common length:
/// the differences are folded together and inspected only once, at the
/// end.
pub fn constant_time_eq(a: &[u8], b: &[u8]) -> (r: bool)
    ensures
        r == (a@ == b@),
{
    if a.len() != b.len() {
        assert(a@ != b@);
        return false;
    }
    let n = a.len();
    let mut acc: u8 = 0;
    let mut i: usize = 0;
    while i < n
        invariant
            i <= n,
            n == a@.len(),
            n == b@.len(),
            (acc == 0) <==> (forall|k: int| 0 <= k < i ==> a@[k] == b@[k]),
        decreases n - i,
    {
        let ghost prev = acc;
        let x = a[i];
        let y = b[i];
        acc = acc | (x ^ y);
        proof {
            assert((prev | (x ^ y)) == 0 <==> prev == 0 && x == y) by (bit_vector);
            if acc == 0 {
                assert(forall|k: int| 0 <= k < i + 1 ==> a@[k] == b@[k]);
            } else {
                assert(!(forall|k: int| 0 <= k < i + 1 ==> a@[k] == b@[k])) by {
                    if forall|k: int| 0 <= k < i + 1 ==> a@[k] == b@[k] {
                        assert(forall|k: int| 0 <= k < i ==> a@[k] == b@[k]);
                        assert(a@[i as int] == b@[i as int]);
                    }
                }
            }
        }
        i = i + 1;
    }
    proof {
        if acc == 0 {
            assert(a@ =~= b@);
        } else {
            if a@ == b@ {
                assert(forall|k: int| 0 <= k < n ==> a@[k] == b@[k]);
            }
        }
    }
    acc == 0
}

/// The tag a signature header carries: the bytes after a `sha256=`
/// prefix, hexadecimal; None when the header has another shape.
pub open spec fn parse_signature_header(h: Seq<char>) -> Option<Seq<u8>> {
    if h.len() >= 7 && h.subrange(0, 7) == "sha256="@ {
        hex_decode(h.skip(7))
    } else {
        None
    }
}

/// Whether a signature header authenticates a body under a secret: it
/// parses, and its tag is the body's HMAC-SHA256 under the secret.
pub open spec fn signature_ok(secret: Seq<u8>, body: Seq<u8>, header: Seq<char>) -> bool {
    match parse_signature_header(header) {
        Some(tag) => tag == hmac_sha256(secret, body),
        None => false,
    }
}

/// Verify a delivery's signature header against the raw body and the
/// shared secret, comparing tags in constant time.
pub fn verify_signature(secret: &[u8], body: &[u8], header: &str) -> (r: bool)
    ensures
        r == signature_ok(secret@, body@, header@),
{
    let n = header.unicode_len();
    if n < 7 {
        return false;
    }
    let prefix = header.substring_char(0, 7);
    if !str_eq(prefix, "sha256=") {
        return false;
    }
    let rest = header.substring_char(7, n);
    assert(rest@ =~= header@.skip(7));
    let claimed = match hex_decode_bytes(rest) {
        Some(v) => v,
        None => {
            return false;
        },
    };
    let expected = hmac_sha256_tag(secret, body);
    constant_time_eq(claimed.as_slice(), expected.as_slice())
}

} // verus!
