//! Header codec: translates between the `Negotiate <base64>` header values
//! carried in `Authorization` and `WWW-Authenticate` headers and the raw
//! token bytes the handshake exchanges.

use vstd::prelude::*;
use vstd::string::StrSliceExecFns;
use vstd::string::StringExecFns;

verus! {

/// What the standard base64 engine encodes the given bytes to.
pub uninterp spec fn b64_of(bytes: Seq<u8>) -> Seq<char>;

/// What the standard base64 engine decodes the given text to, or `None`
/// where the text is not valid base64.
pub uninterp spec fn b64_decode_of(text: Seq<char>) -> Option<Seq<u8>>;

/// Relies on `base64::engine::general_purpose::STANDARD`'s `Engine::encode`:
/// the padded standard-alphabet encoding, a pure function of the input bytes,
/// inverted by `Engine::decode`, producing four output characters for every
/// three input bytes begun. The precondition excludes the lengths on which
/// `encode` panics because the output length does not fit in `usize`.
#[verifier::external_body]
fn b64_encode(bytes: &Vec<u8>) -> (r: String)
    requires
        4 * ((bytes@.len() + 2) / 3) <= usize::MAX as int,
    ensures
        r@ == b64_of(bytes@),
        b64_decode_of(r@) == Some(bytes@),
        r@.len() == 4 * ((bytes@.len() + 2) / 3),
{
    base64::Engine::encode(&base64::engine::general_purpose::STANDARD, bytes.as_slice())
}

/// Relies on `base64::engine::general_purpose::STANDARD`'s `Engine::decode`:
/// a pure function of the input text, returning the decoded bytes or an
/// error on text that is not valid padded standard-alphabet base64.
#[verifier::external_body]
fn b64_decode(text: &str) -> (r: Option<Vec<u8>>)
    ensures
        match r {
            Some(v) => b64_decode_of(text@) == Some(v@),
            None => b64_decode_of(text@) is None,
        },
{
    base64::Engine::decode(&base64::engine::general_purpose::STANDARD, text).ok()
}

/// The scheme prefix that frames every Negotiate token on the wire.
pub open spec fn scheme_prefix() -> Seq<char> {
    "Negotiate "@
}

/// The header value that carries `bytes` as a challenge or continuation.
pub open spec fn challenge_of(bytes: Seq<u8>) -> Seq<char> {
    scheme_prefix() + b64_of(bytes)
}

/// The token bytes an `Authorization` header value carries: the base64
/// payload after the scheme prefix, or `None` where the prefix is missing
/// or the payload does not decode.
pub open spec fn auth_token_of(header: Seq<char>) -> Option<Seq<u8>> {
    if header.len() >= scheme_prefix().len() && header.subrange(
        0,
        scheme_prefix().len() as int,
    ) == scheme_prefix() {
        b64_decode_of(header.skip(scheme_prefix().len() as int))
    } else {
        None
    }
}

/// Extracts the raw token bytes from an `Authorization` header value.
/// An absent header, a missing `Negotiate ` prefix, or malformed base64 all
/// yield `None`: no usable token this request, never a fatal error.
pub fn decode_authorization(header: Option<&str>) -> (r: Option<Vec<u8>>)
    ensures
        header is None ==> r is None,
        header matches Some(h) ==> match r {
            Some(v) => auth_token_of(h@) == Some(v@),
            None => auth_token_of(h@) is None,
        },
{
    let h = match header {
        Some(h) => h,
        None => {
            return None;
        },
    };
    proof {
        reveal_strlit("Negotiate ");
    }
    let n = h.unicode_len();
    if n < 10 {
        return None;
    }
    let prefix = h.substring_char(0, 10);
    let expected: &str = "Negotiate ";
    if !str_eq(prefix, expected) {
        proof {
            assert(h@.subrange(0, 10) != scheme_prefix());
        }
        return None;
    }
    let rest = h.substring_char(10, n);
    proof {
        assert(h@.skip(10) =~= h@.subrange(10, h@.len() as int));
    }
    b64_decode(rest)
}

/// Compares two string slices character for character.
fn str_eq(a: &str, b: &str) -> (r: bool)
    ensures
        r == (a@ == b@),
{
    let na = a.unicode_len();
    let nb = b.unicode_len();
    if na != nb {
        proof {
            assert(a@ != b@);
        }
        return false;
    }
    let mut i: usize = 0;
    while i < na
        invariant
            na == a@.len(),
            na == b@.len(),
            i <= na,
            forall|j: int| 0 <= j < i ==> a@[j] == b@[j],
        decreases na - i,
    {
        if a.get_char(i) != b.get_char(i) {
            proof {
                assert(a@[i as int] != b@[i as int]);
            }
            return false;
        }
        i += 1;
    }
    proof {
        assert(a@ =~= b@);
    }
    true
}

/// Formats raw token bytes as a `Negotiate <base64>` header value.
/// Decoding the produced value yields the byte-identical payload back.
pub fn encode_challenge(bytes: &Vec<u8>) -> (r: String)
    requires
        4 * ((bytes@.len() + 2) / 3) <= usize::MAX as int,
    ensures
        r@ == challenge_of(bytes@),
        auth_token_of(r@) == Some(bytes@),
{
    let payload = b64_encode(bytes);
    let mut out = String::from_str("Negotiate ");
    out.append(payload.as_str());
    proof {
        reveal_strlit("Negotiate ");
        assert(out@.subrange(0, 10) =~= scheme_prefix());
        assert(out@.skip(10) =~= b64_of(bytes@));
    }
    out
}

/// The response statuses the emission rule distinguishes.
#[derive(Clone, Copy, Debug, PartialEq, Eq, Structural)]
pub enum ResponseStatus {
    /// The response is "unauthorized": the client is invited to negotiate.
    Unauthorized,
    /// The response is "ok": only a final mutual-authentication leg is sent.
    Okay,
    /// Any other status: no challenge header at all.
    Other,
}

/// Decides the `WWW-Authenticate` header of a response: "unauthorized"
/// responses always carry the challenge, even with an empty payload; "ok"
/// responses carry it only when the cached continuation bytes are non-empty;
/// every other status carries none.
pub fn response_header(status: ResponseStatus, cached: &Vec<u8>) -> (r: Option<String>)
    requires
        4 * ((cached@.len() + 2) / 3) <= usize::MAX as int,
    ensures
        status == ResponseStatus::Unauthorized ==> (r matches Some(h) && h@ == challenge_of(
            cached@,
        )),
        status == ResponseStatus::Okay && cached@.len() > 0 ==> (r matches Some(h) && h@
            == challenge_of(cached@)),
        status == ResponseStatus::Okay && cached@.len() == 0 ==> r is None,
        status == ResponseStatus::Other ==> r is None,
{
    match status {
        ResponseStatus::Unauthorized => Some(encode_challenge(cached)),
        ResponseStatus::Okay => {
            if cached.len() > 0 {
                Some(encode_challenge(cached))
            } else {
                None
            }
        },
        ResponseStatus::Other => None,
    }
}

} // verus!
