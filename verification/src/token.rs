use vstd::prelude::*;

verus! {

/// The signed claim set of a session: subject (the user's id), issued-at
/// and expiry, both in seconds since the epoch.
pub struct TokenClaims {
    pub sub: u128,
    pub iat: i64,
    pub exp: i64,
}

/// The mathematical view of a claim set.
pub ghost struct ClaimsView {
    pub sub: int,
    pub iat: int,
    pub exp: int,
}

impl View for TokenClaims {
    type V = ClaimsView;

    open spec fn view(&self) -> ClaimsView {
        ClaimsView { sub: self.sub as int, iat: self.iat as int, exp: self.exp as int }
    }
}

/// The claim set carried by `token` under `secret`, or nothing where the
/// token is malformed, signed with another secret, or missing a claim.
/// Signature checking and payload recovery are functions of the token and
/// the secret alone; the expiry window is checked by verified code, so
/// the clock plays no part here.
pub uninterp spec fn token_claims(token: Seq<char>, secret: Seq<char>) -> Option<ClaimsView>;

/// Relies on jsonwebtoken::encode with HS256: the token is computed from
/// the claim set and the secret alone, and decoding it with the same
/// secret yields the claim set back. Signing with a secret key cannot
/// fail, so the token is returned outright. The round trip asks that the
/// expiry not be negative: decoding demands that the `exp` claim parse as
/// an unsigned number even with expiry checking off, so a token minted
/// with a negative expiry would not decode.
#[verifier::external_body]
pub(crate) fn encode_token(sub: u128, iat: i64, exp: i64, secret: &str) -> (r: String)
    requires
        0 <= exp,
    ensures
        token_claims(r@, secret@) == Some(
            ClaimsView { sub: sub as int, iat: iat as int, exp: exp as int },
        ),
{
    let mut claims = serde_json::Map::new();
    claims.insert("sub".to_owned(), serde_json::Value::String(sub.to_string()));
    claims.insert("iat".to_owned(), serde_json::Value::from(iat));
    claims.insert("exp".to_owned(), serde_json::Value::from(exp));
    let key = jsonwebtoken::EncodingKey::from_secret(secret.as_bytes());
    jsonwebtoken::encode(&jsonwebtoken::Header::default(), &serde_json::Value::Object(claims), &key)
        .expect("HS256 signing with a secret key cannot fail")
}

/// Relies on jsonwebtoken::decode with HS256 and expiry validation turned
/// off: acceptance and the recovered claim set are functions of the token
/// and the secret alone. The expiry window is enforced by the verified
/// gate, not here.
#[verifier::external_body]
pub(crate) fn decode_token(token: &str, secret: &str) -> (r: Option<TokenClaims>)
    ensures
        match r {
            Some(c) => token_claims(token@, secret@) == Some(c@),
            None => token_claims(token@, secret@) is None,
        },
{
    let mut validation = jsonwebtoken::Validation::new(jsonwebtoken::Algorithm::HS256);
    validation.validate_exp = false;
    let key = jsonwebtoken::DecodingKey::from_secret(secret.as_bytes());
    let data = match jsonwebtoken::decode::<serde_json::Value>(token, &key, &validation) {
        Ok(d) => d,
        Err(_) => return None,
    };
    let sub = data.claims.get("sub")?.as_str()?.parse::<u128>().ok()?;
    let iat = data.claims.get("iat")?.as_i64()?;
    let exp = data.claims.get("exp")?.as_i64()?;
    Some(TokenClaims { sub, iat, exp })
}

} // verus!
