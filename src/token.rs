//! Compact signed session tokens: `base64url(header) . base64url(claims) . signature`,
//! signed with HMAC-SHA256 over the first two segments.

use base64::Engine;
use vstd::prelude::*;

verus! {

/// Why a token was refused.
#[derive(Clone, Copy, Debug, PartialEq, Eq, Structural)]
pub enum TokenError {
    /// Not three segments, a segment that is not base64url, a header that does not
    /// name HS256, or claims that do not decode.
    Malformed,
    /// The signature does not match the signing input under the configured secret.
    InvalidSignature,
    /// The verification time is at or past the expiry time.
    Expired,
    /// The issue time lies after the verification time.
    NotYetValid,
}

/// What the base64url (no padding) encoding of `bytes` is.
pub uninterp spec fn b64url(bytes: Seq<u8>) -> Seq<char>;

/// What decoding `text` as base64url (no padding) gives, if it is well formed.
pub uninterp spec fn b64url_decoded(text: Seq<char>) -> Option<Seq<u8>>;

/// The base64url-encoded HMAC-SHA256 of the UTF-8 bytes of `message` under `key`.
pub uninterp spec fn hs256_signature(key: Seq<u8>, message: Seq<char>) -> Seq<char>;

/// A character of the URL-safe base64 alphabet.
pub open spec fn is_b64url_char(c: char) -> bool {
    ('A' <= c && c <= 'Z') || ('a' <= c && c <= 'z') || ('0' <= c && c <= '9') || c == '-'
        || c == '_'
}

/// Every character of `s` is of the URL-safe base64 alphabet.
pub open spec fn all_b64url(s: Seq<char>) -> bool {
    forall|i: int| 0 <= i < s.len() ==> is_b64url_char(#[trigger] s[i])
}

/// `s` holds no dot.
pub open spec fn no_dot(s: Seq<char>) -> bool {
    forall|i: int| 0 <= i < s.len() ==> #[trigger] s[i] != '.'
}

/// The segment separator.
pub open spec fn dot() -> Seq<char> {
    seq!['.']
}

/// The part of a token that the signature covers.
pub open spec fn signing_input(header: Seq<u8>, claims: Seq<u8>) -> Seq<char> {
    b64url(header) + dot() + b64url(claims)
}

/// The token that carries `header` and `claims`, signed with `key`.
pub open spec fn sealed(header: Seq<u8>, claims: Seq<u8>, key: Seq<u8>) -> Seq<char> {
    signing_input(header, claims) + dot() + hs256_signature(key, signing_input(header, claims))
}

/// `t` is the three dot-free segments `h`, `c`, `s` joined by dots.
pub open spec fn splits_into(t: Seq<char>, h: Seq<char>, c: Seq<char>, s: Seq<char>) -> bool {
    no_dot(h) && no_dot(c) && no_dot(s) && t == h + dot() + c + dot() + s
}

/// The outcome of checking the three segments of a token: the header is decoded
/// first, then the signature is checked, then the claims are decoded.
pub open spec fn segments_verdict(h: Seq<char>, c: Seq<char>, s: Seq<char>, key: Seq<u8>) -> Result<
    (Seq<u8>, Seq<u8>),
    TokenError,
> {
    match b64url_decoded(h) {
        None => Err(TokenError::Malformed),
        Some(hb) => if s != hs256_signature(key, h + dot() + c) {
            Err(TokenError::InvalidSignature)
        } else {
            match b64url_decoded(c) {
                None => Err(TokenError::Malformed),
                Some(cb) => Ok((hb, cb)),
            }
        },
    }
}

/// What opening the token `t` with `key` yields: the decoded header and claims
/// segments, or why the token is refused.
pub open spec fn opened(t: Seq<char>, key: Seq<u8>) -> Result<(Seq<u8>, Seq<u8>), TokenError> {
    if exists|h: Seq<char>, c: Seq<char>, s: Seq<char>| splits_into(t, h, c, s) {
        let (h, c, s) = choose|h: Seq<char>, c: Seq<char>, s: Seq<char>| splits_into(t, h, c, s);
        segments_verdict(h, c, s, key)
    } else {
        Err(TokenError::Malformed)
    }
}

/// Relies on base64's `URL_SAFE_NO_PAD.encode`: its output uses the URL-safe
/// alphabet only and decodes back to the input.
#[verifier::external_body]
fn b64url_encode(bytes: &[u8]) -> (r: String)
    ensures
        r@ == b64url(bytes@),
        all_b64url(r@),
        b64url_decoded(r@) == Some(bytes@),
{
    base64::engine::general_purpose::URL_SAFE_NO_PAD.encode(bytes)
}

/// Relies on base64's `URL_SAFE_NO_PAD.decode`, mapping its error to `None`.
#[verifier::external_body]
fn b64url_decode(text: &str) -> (r: Option<Vec<u8>>)
    ensures
        match r {
            Some(v) => b64url_decoded(text@) == Some(v@),
            None => b64url_decoded(text@) is None,
        },
{
    base64::engine::general_purpose::URL_SAFE_NO_PAD.decode(text).ok()
}

/// Relies on jsonwebtoken's `crypto::sign` with HS256, which for HMAC
/// algorithms always returns `Ok` with the base64url (no padding) digest; its
/// error becomes `None`.
#[verifier::external_body]
fn hs256_sign(secret: &[u8], message: &str) -> (r: Option<String>)
    ensures
        r is Some,
        r matches Some(s) ==> s@ == hs256_signature(secret@, message@),
        r matches Some(s) ==> all_b64url(s@),
{
    let key = jsonwebtoken::EncodingKey::from_secret(secret);
    jsonwebtoken::crypto::sign(message.as_bytes(), &key, jsonwebtoken::Algorithm::HS256).ok()
}

/// Relies on jsonwebtoken's `crypto::verify` with HS256, which re-signs the
/// message with the secret and compares the two signatures in constant time.
#[verifier::external_body]
fn hs256_check(signature: &str, secret: &[u8], message: &str) -> (r: bool)
    ensures
        r == (signature@ == hs256_signature(secret@, message@)),
{
    let key = jsonwebtoken::DecodingKey::from_secret(secret);
    jsonwebtoken::crypto::verify(signature, message.as_bytes(), &key, jsonwebtoken::Algorithm::HS256)
        .unwrap_or(false)
}

proof fn lemma_b64url_no_dot(s: Seq<char>)
    requires
        all_b64url(s),
    ensures
        no_dot(s),
{
    assert forall|i: int| 0 <= i < s.len() implies #[trigger] s[i] != '.' by {
        assert(is_b64url_char(s[i]));
    }
}

/// In a split token the first dot stands right after the header segment, and the
/// second right after the claims segment.
proof fn lemma_split_dots(t: Seq<char>, h: Seq<char>, c: Seq<char>, s: Seq<char>)
    requires
        splits_into(t, h, c, s),
    ensures
        t.len() == h.len() + c.len() + s.len() + 2,
        t[h.len() as int] == '.',
        t[(h.len() + 1 + c.len()) as int] == '.',
        forall|k: int| 0 <= k < h.len() ==> t[k] != '.',
        forall|k: int| h.len() < k < h.len() + 1 + c.len() ==> t[k] != '.',
        forall|k: int| h.len() + 1 + c.len() < k < t.len() ==> t[k] != '.',
        h == t.subrange(0, h.len() as int),
        c == t.subrange((h.len() + 1) as int, (h.len() + 1 + c.len()) as int),
        s == t.subrange((h.len() + c.len() + 2) as int, t.len() as int),
{
    let a = h + dot();
    let b = a + c;
    let d = b + dot();
    assert(t == d + s);
    assert forall|k: int| 0 <= k < h.len() implies t[k] != '.' by {
        assert(t[k] == d[k]);
        assert(d[k] == b[k]);
        assert(b[k] == a[k]);
        assert(a[k] == h[k]);
    }
    assert forall|k: int| h.len() < k < h.len() + 1 + c.len() implies t[k] != '.' by {
        assert(t[k] == d[k]);
        assert(d[k] == b[k]);
        assert(b[k] == c[k - h.len() - 1]);
    }
    assert forall|k: int| h.len() + 1 + c.len() < k < t.len() implies t[k] != '.' by {
        assert(t[k] == s[k - d.len()]);
    }
    assert(t[h.len() as int] == d[h.len() as int]);
    assert(t.subrange(0, h.len() as int) =~= h);
    assert(t.subrange((h.len() + 1) as int, (h.len() + 1 + c.len()) as int) =~= c);
    assert(t.subrange((h.len() + c.len() + 2) as int, t.len() as int) =~= s);
}

/// A token splits into three dot-free segments in at most one way.
proof fn lemma_split_unique(
    t: Seq<char>,
    h1: Seq<char>,
    c1: Seq<char>,
    s1: Seq<char>,
    h2: Seq<char>,
    c2: Seq<char>,
    s2: Seq<char>,
)
    requires
        splits_into(t, h1, c1, s1),
        splits_into(t, h2, c2, s2),
    ensures
        h1 == h2,
        c1 == c2,
        s1 == s2,
{
    lemma_split_dots(t, h1, c1, s1);
    lemma_split_dots(t, h2, c2, s2);
    assert(h1.len() == h2.len());
    assert(c1.len() == c2.len());
}

/// Where `i` and `j` are the only two dots of `t`, `opened` is the verdict on the
/// three segments around them.
proof fn lemma_opened_at(t: Seq<char>, key: Seq<u8>, i: int, j: int)
    requires
        0 <= i < j < t.len(),
        t[i] == '.',
        t[j] == '.',
        forall|k: int| 0 <= k < t.len() && k != i && k != j ==> t[k] != '.',
    ensures
        splits_into(t, t.subrange(0, i), t.subrange(i + 1, j), t.subrange(j + 1, t.len() as int)),
        opened(t, key) == segments_verdict(
            t.subrange(0, i),
            t.subrange(i + 1, j),
            t.subrange(j + 1, t.len() as int),
            key,
        ),
{
    let h = t.subrange(0, i);
    let c = t.subrange(i + 1, j);
    let s = t.subrange(j + 1, t.len() as int);
    assert(t =~= h + dot() + c + dot() + s);
    assert(splits_into(t, h, c, s));
    let (h2, c2, s2) = choose|h: Seq<char>, c: Seq<char>, s: Seq<char>| splits_into(t, h, c, s);
    lemma_split_unique(t, h, c, s, h2, c2, s2);
}

/// A token whose dots are not exactly two is refused as malformed.
proof fn lemma_opened_bad_dots(t: Seq<char>, key: Seq<u8>)
    requires
        forall|h: Seq<char>, c: Seq<char>, s: Seq<char>| !splits_into(t, h, c, s),
    ensures
        opened(t, key) == Err::<(Seq<u8>, Seq<u8>), TokenError>(TokenError::Malformed),
{
}

/// The first position at or after `from` that holds a dot, or the length of `t`.
fn find_dot(t: &str, from: usize) -> (r: usize)
    requires
        from <= t@.len(),
    ensures
        from <= r <= t@.len(),
        forall|k: int| from <= k < r ==> t@[k] != '.',
        r < t@.len() ==> t@[r as int] == '.',
{
    let n = t.unicode_len();
    let mut i = from;
    while i < n
        invariant
            n == t@.len(),
            from <= i <= n,
            forall|k: int| from <= k < i ==> t@[k] != '.',
        decreases n - i,
    {
        if t.get_char(i) == '.' {
            return i;
        }
        i = i + 1;
    }
    i
}

/// Builds the token that carries `header` and `claims`, signed with `secret`.
/// Opened with the same secret, it yields `header` and `claims` again; opened
/// with a secret that signs its input differently, it is refused as a
/// signature mismatch.
pub fn seal_token(header: &[u8], claims: &[u8], secret: &[u8]) -> (r: String)
    ensures
        r@ == sealed(header@, claims@, secret@),
        opened(r@, secret@) == Ok::<(Seq<u8>, Seq<u8>), TokenError>((header@, claims@)),
        forall|other: Seq<u8>|
            #[trigger] hs256_signature(other, signing_input(header@, claims@)) != hs256_signature(
                secret@,
                signing_input(header@, claims@),
            ) ==> opened(r@, other) == Err::<(Seq<u8>, Seq<u8>), TokenError>(
                TokenError::InvalidSignature,
            ),
{
    let h = b64url_encode(header);
    let c = b64url_encode(claims);
    let message = h.concat(".").concat(c.as_str());
    proof {
        reveal_strlit(".");
    }
    assert(message@ =~= signing_input(header@, claims@));
    let s = hs256_sign(secret, message.as_str()).unwrap();
    let r = message.concat(".").concat(s.as_str());
    assert(r@ =~= sealed(header@, claims@, secret@));
    proof {
        lemma_open_sealed(header@, claims@, secret@, secret@);
        assert forall|other: Seq<u8>|
            #[trigger] hs256_signature(other, signing_input(header@, claims@)) != hs256_signature(
                secret@,
                signing_input(header@, claims@),
            ) implies opened(r@, other) == Err::<(Seq<u8>, Seq<u8>), TokenError>(
            TokenError::InvalidSignature,
        ) by {
            lemma_open_sealed(header@, claims@, secret@, other);
        }
    }
    r
}

/// Splits `token` into its three segments, checks the signature with `secret`,
/// and returns the decoded header and claims segments.
pub fn open_token(token: &str, secret: &[u8]) -> (r: Result<(Vec<u8>, Vec<u8>), TokenError>)
    ensures
        match r {
            Ok((h, c)) => opened(token@, secret@) == Ok::<(Seq<u8>, Seq<u8>), TokenError>(
                (h@, c@),
            ),
            Err(e) => opened(token@, secret@) == Err::<(Seq<u8>, Seq<u8>), TokenError>(e),
        },
{
    let n = token.unicode_len();
    let i = find_dot(token, 0);
    if i == n {
        proof {
            assert forall|h: Seq<char>, c: Seq<char>, s: Seq<char>| !splits_into(
                token@,
                h,
                c,
                s,
            ) by {
                if splits_into(token@, h, c, s) {
                    lemma_split_dots(token@, h, c, s);
                }
            }
            lemma_opened_bad_dots(token@, secret@);
        }
        return Err(TokenError::Malformed);
    }
    let j = find_dot(token, i + 1);
    if j == n {
        proof {
            assert forall|h: Seq<char>, c: Seq<char>, s: Seq<char>| !splits_into(
                token@,
                h,
                c,
                s,
            ) by {
                if splits_into(token@, h, c, s) {
                    lemma_split_dots(token@, h, c, s);
                    assert(h.len() == i);
                }
            }
            lemma_opened_bad_dots(token@, secret@);
        }
        return Err(TokenError::Malformed);
    }
    let k = find_dot(token, j + 1);
    if k != n {
        proof {
            assert forall|h: Seq<char>, c: Seq<char>, s: Seq<char>| !splits_into(
                token@,
                h,
                c,
                s,
            ) by {
                if splits_into(token@, h, c, s) {
                    lemma_split_dots(token@, h, c, s);
                    assert(h.len() == i);
                    assert(h.len() + 1 + c.len() == j);
                }
            }
            lemma_opened_bad_dots(token@, secret@);
        }
        return Err(TokenError::Malformed);
    }
    proof {
        lemma_opened_at(token@, secret@, i as int, j as int);
    }
    let h = token.substring_char(0, i);
    let c = token.substring_char(i + 1, j);
    let s = token.substring_char(j + 1, n);
    let header = match b64url_decode(h) {
        Some(v) => v,
        None => {
            return Err(TokenError::Malformed);
        },
    };
    let message = token.substring_char(0, j);
    assert(message@ =~= h@ + dot() + c@);
    if !hs256_check(s, secret, message) {
        return Err(TokenError::InvalidSignature);
    }
    let claims = match b64url_decode(c) {
        Some(v) => v,
        None => {
            return Err(TokenError::Malformed);
        },
    };
    Ok((header, claims))
}

/// Given what base64url and the signature are known to satisfy, a token sealed
/// with `key` is judged under any `other` key on its three sealed segments.
proof fn lemma_open_sealed(header: Seq<u8>, claims: Seq<u8>, key: Seq<u8>, other: Seq<u8>)
    requires
        all_b64url(b64url(header)),
        all_b64url(b64url(claims)),
        all_b64url(hs256_signature(key, signing_input(header, claims))),
    ensures
        opened(sealed(header, claims, key), other) == segments_verdict(
            b64url(header),
            b64url(claims),
            hs256_signature(key, signing_input(header, claims)),
            other,
        ),
{
    let h = b64url(header);
    let c = b64url(claims);
    let s = hs256_signature(key, signing_input(header, claims));
    let t = sealed(header, claims, key);
    lemma_b64url_no_dot(h);
    lemma_b64url_no_dot(c);
    lemma_b64url_no_dot(s);
    assert(t =~= h + dot() + c + dot() + s);
    assert(splits_into(t, h, c, s));
    let (h2, c2, s2) = choose|h: Seq<char>, c: Seq<char>, s: Seq<char>| splits_into(t, h, c, s);
    lemma_split_unique(t, h, c, s, h2, c2, s2);
}

} // verus!
