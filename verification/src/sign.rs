//! Request signing: HMAC-SHA256 over a query string, hex-encoded.
//!
//! The MAC itself is computed by the hmac and sha2 crates behind one trusted
//! wrapper; its value is named, never restated, so every contract downstream
//! says exactly "the hex encoding of that tag".

use vstd::prelude::*;

use hmac::Mac;

use vstd::string::StringSliceAdditionalSpecFns;

use crate::text::{chars_to_bytes, spec_decimal_chars, spec_hex_chars};

verus! {

/// The HMAC-SHA256 tag of a message under a key. The tag depends on the key
/// and message alone, so naming it as a function is sound.
pub uninterp spec fn hmac_sha256_of(key: Seq<u8>, msg: Seq<u8>) -> Seq<u8>;

/// Relies on the hmac crate's `Hmac<Sha256>`: the tag is a pure function of
/// key and message, thirty-two bytes long; `new_from_slice` accepts keys of
/// any length for HMAC.
#[verifier::external_body]
fn hmac_sha256(key: &[u8], msg: &[u8]) -> (r: Vec<u8>)
    ensures
        r@ == hmac_sha256_of(key@, msg@),
        r@.len() == 32,
{
    let mut mac = <hmac::Hmac<sha2::Sha256> as hmac::KeyInit>::new_from_slice(key)
        .expect("HMAC accepts keys of any length");
    mac.update(msg);
    mac.finalize().into_bytes().to_vec()
}

/// A query string with the request timestamp appended.
pub open spec fn spec_timestamped(query: Seq<char>, timestamp: u64) -> Seq<char> {
    if query.len() == 0 {
        "timestamp="@ + spec_decimal_chars(timestamp as nat)
    } else {
        query + "&timestamp="@ + spec_decimal_chars(timestamp as nat)
    }
}

/// The hex signature of an ASCII payload under a secret.
pub open spec fn spec_signature_hex(secret: Seq<u8>, payload: Seq<char>) -> Seq<char> {
    spec_hex_chars(hmac_sha256_of(secret, chars_to_bytes(payload)))
}

/// Append the timestamp to a query, sign the result with HMAC-SHA256 under
/// the secret, and append the lower-case hex signature, as private venue
/// requests require. The query must be ASCII, as venue query strings are.
pub fn sign_query(secret: &[u8], query: &str, timestamp: u64) -> (r: String)
    requires
        query.is_ascii(),
    ensures
        r@ == spec_timestamped(query@, timestamp) + "&signature="@ + spec_signature_hex(
            secret@,
            spec_timestamped(query@, timestamp),
        ),
{
    broadcast use vstd::string::is_ascii_spec_bytes;

    let mut payload = String::new();
    if query.unicode_len() == 0 {
        payload.append("timestamp=");
    } else {
        payload.append(query);
        payload.append("&timestamp=");
    }
    let ts = crate::text::u64_string(timestamp);
    payload.append(ts.as_str());
    proof {
        assert(payload@ == spec_timestamped(query@, timestamp));
        reveal_strlit("timestamp=");
        reveal_strlit("&timestamp=");
        assert(vstd::utf8::is_ascii_chars("timestamp="@));
        assert(vstd::utf8::is_ascii_chars("&timestamp="@));
        crate::text::lemma_digits_ascii(timestamp as nat);
        assert forall|i: int| 0 <= i < ts@.len() implies '\u{0}' <= #[trigger] ts@[i]
            <= '\u{7f}' by {
            assert(ts@[i] == (crate::text::spec_digits(timestamp as nat)[i] as char));
        }
        assert(vstd::utf8::is_ascii_chars(ts@));
        assert(vstd::utf8::is_ascii_chars(payload@));
        assert(payload.is_ascii());
    }
    let payload_str = payload.as_str();
    let payload_bytes = payload_str.as_bytes_vec();
    proof {
        assert(vstd::string::is_ascii(payload_str));
        assert(payload_str.spec_bytes() =~= Seq::new(
            payload_str@.len(),
            |i: int| payload_str@[i] as u8,
        ));
        assert(payload_bytes@ =~= chars_to_bytes(payload@));
    }
    let tag = hmac_sha256(secret, payload_bytes.as_slice());
    let hex = crate::text::hex_string(tag.as_slice());
    let mut r = payload;
    r.append("&signature=");
    r.append(hex.as_str());
    r
}

/// The signature is deterministic: two runs over the same secret, query and
/// timestamp produce byte-identical hex signatures.
pub proof fn lemma_signature_deterministic(
    secret1: Seq<u8>,
    query1: Seq<char>,
    ts1: u64,
    secret2: Seq<u8>,
    query2: Seq<char>,
    ts2: u64,
)
    requires
        secret1 == secret2,
        query1 == query2,
        ts1 == ts2,
    ensures
        spec_signature_hex(secret1, spec_timestamped(query1, ts1)) == spec_signature_hex(
            secret2,
            spec_timestamped(query2, ts2),
        ),
{
}

} // verus!
