//! Stateless bearer-token authentication.
//!
//! A request's `Authorization` header value is validated and a caller
//! identity is derived from the verified token's subject claim, without any
//! backing user store. Signature verification itself is delegated to the
//! `jwt` crate under an HMAC-SHA256 key; everything around that call is
//! verified.

use vstd::prelude::*;

verus! {

/// Why a bearer credential was rejected. All variants map to the same
/// generic unauthorized response; none leaks detail to the client.
#[derive(Debug, Clone, Copy, PartialEq, Eq, Structural)]
pub enum AuthError {
    /// No `Authorization` header was presented.
    MissingCredential,
    /// The header value is not visible-ASCII text.
    MalformedCredential,
    /// Signature verification or claim decoding failed, or the subject
    /// claim is empty.
    InvalidSignatureOrFormat,
}

/// The authenticated caller derived from a verified bearer credential.
#[derive(Debug)]
pub struct Caller {
    /// The token's subject claim; the sole authorization input used for
    /// ownership checks.
    pub id: String,
    /// A display suffix derived from the subject, purely for response
    /// enrichment. It has no security role and must never be used as an
    /// authorization input.
    pub display: String,
}

impl Caller {
    /// A caller is well formed when its identity is non-empty.
    pub open spec fn wf(&self) -> bool {
        self.id@.len() > 0
    }
}

/// Visible ASCII, as an HTTP header value must be to count as text.
pub open spec fn visible_ascii(s: Seq<u8>) -> bool {
    forall|i: int| 0 <= i < s.len() ==> 32 <= #[trigger] s[i] <= 126
}

/// Whether a header value starts with the scheme prefix `"Bearer "`
/// (byte values spelled out).
pub open spec fn has_bearer_prefix(s: Seq<u8>) -> bool {
    &&& s.len() >= 7
    &&& s[0] == 66u8
    &&& s[1] == 101u8
    &&& s[2] == 97u8
    &&& s[3] == 114u8
    &&& s[4] == 101u8
    &&& s[5] == 114u8
    &&& s[6] == 32u8
}

/// The token part of a header value: the optional scheme prefix is
/// stripped, a bare token is accepted as it is.
pub open spec fn token_of(header: Seq<u8>) -> Seq<u8> {
    if has_bearer_prefix(header) {
        header.skip(7)
    } else {
        header
    }
}

/// The display identity derived from a subject: its suffix after the first
/// five characters, or a fixed placeholder for short subjects.
pub open spec fn display_of(subject: Seq<char>) -> Seq<char> {
    if subject.len() > 5 {
        subject.skip(5)
    } else {
        "unknown"@
    }
}

/// The claim set that verifying a token under a secret yields: the subject
/// and expiry claims when the compact encoding, the HMAC-SHA256 signature
/// and the claim schema all check out, nothing otherwise. Verification is a
/// function of the token bytes and the secret alone.
pub uninterp spec fn token_claims(token: Seq<u8>, secret: Seq<char>) -> Option<(Seq<char>, nat)>;

/// Relies on jwt's `VerifyWithKey` for `&str` under an
/// `hmac::Hmac<sha2::Sha256>` key: parsing the compact encoding, verifying
/// the HMAC-SHA256 signature and decoding the claim set depend only on the
/// token bytes (here, the header bytes from `start` on) and the secret.
/// The subject and expiry claims must both be present.
#[verifier::external_body]
fn verify_signed_claims(header: &Vec<u8>, start: usize, secret: &str) -> (r: Option<(String, u64)>)
    requires
        start <= header@.len(),
    ensures
        r is Some <==> token_claims(header@.skip(start as int), secret@) is Some,
        r matches Some(c) ==> token_claims(header@.skip(start as int), secret@) == Some(
            (c.0@, c.1 as nat),
        ),
{
    let token = core::str::from_utf8(&header[start..]).ok()?;
    let key: hmac::Hmac<sha2::Sha256> =
        <hmac::Hmac<sha2::Sha256> as hmac::Mac>::new_from_slice(secret.as_bytes()).ok()?;
    let claims: jwt::Claims = jwt::VerifyWithKey::verify_with_key(token, &key).ok()?;
    Some((claims.registered.subject?, claims.registered.expiration?))
}

/// Validates a bearer credential and derives the caller identity.
///
/// The header is absent: `MissingCredential`. It is not visible-ASCII
/// text: `MalformedCredential`. Its token (an optional `"Bearer "` prefix
/// is stripped) does not verify under the secret, or carries an empty
/// subject: `InvalidSignatureOrFormat`. Otherwise the caller's identity is
/// exactly the token's subject claim, and the display suffix is derived
/// from it deterministically.
pub fn authenticate(header: Option<&Vec<u8>>, secret: &str) -> (r: Result<Caller, AuthError>)
    ensures
        header is None ==> r == Err::<Caller, AuthError>(AuthError::MissingCredential),
        header matches Some(h) ==> (!visible_ascii(h@) ==> r == Err::<Caller, AuthError>(
            AuthError::MalformedCredential,
        )),
        header matches Some(h) ==> (visible_ascii(h@) ==> match token_claims(
            token_of(h@),
            secret@,
        ) {
            Some(c) => {
                if c.0.len() > 0 {
                    r matches Ok(caller) && caller.id@ == c.0 && caller.display@ == display_of(c.0)
                        && caller.wf()
                } else {
                    r == Err::<Caller, AuthError>(AuthError::InvalidSignatureOrFormat)
                }
            },
            None => r == Err::<Caller, AuthError>(AuthError::InvalidSignatureOrFormat),
        }),
{
    let h = match header {
        Some(h) => h,
        None => {
            return Err(AuthError::MissingCredential);
        },
    };
    let n = h.len();
    let mut i: usize = 0;
    while i < n
        invariant
            header == Some(h),
            i <= n,
            n == h@.len(),
            forall|j: int| 0 <= j < i ==> 32 <= #[trigger] h@[j] <= 126,
        decreases n - i,
    {
        let b = h[i];
        if b < 32 || b > 126 {
            proof {
                assert(!(32 <= h@[i as int] <= 126));
            }
            return Err(AuthError::MalformedCredential);
        }
        i += 1;
    }
    let start: usize = if n >= 7 && h[0] == 66 && h[1] == 101 && h[2] == 97 && h[3] == 114 && h[4]
        == 101 && h[5] == 114 && h[6] == 32 {
        7
    } else {
        0
    };
    proof {
        if start == 0 {
            assert(h@.skip(0) =~= h@);
        }
        assert(h@.skip(start as int) == token_of(h@));
    }
    match verify_signed_claims(h, start, secret) {
        Some((subject, _expiry)) => {
            let sub_len = subject.as_str().unicode_len();
            if sub_len == 0 {
                return Err(AuthError::InvalidSignatureOrFormat);
            }
            let display: String = if sub_len > 5 {
                let suffix = subject.as_str().substring_char(5, sub_len);
                proof {
                    assert(suffix@ =~= subject@.skip(5));
                }
                suffix.to_owned()
            } else {
                "unknown".to_owned()
            };
            Ok(Caller { id: subject, display })
        },
        None => Err(AuthError::InvalidSignatureOrFormat),
    }
}

} // verus!
