//! Reconnect tokens: signed statements of a client's identity, with which a client that lost
//! its connection takes its place again.
use crate::clock::{utc_now, Timestamp, FIRST_SECOND, LAST_SECOND};
use crate::id::{hyphenated, parse_uuid, parsed_uuid, uuid_text, ClientId};
use crate::text::{push_signed, signed_decimal};
use jsonwebtoken::{
    decode, encode, errors::Error as JWTError, Algorithm, DecodingKey, EncodingKey, Header,
    Validation,
};
use serde::Deserialize;
use serde_json::value::RawValue;
use serde_json::Value;
use vstd::prelude::*;
use vstd::string::*;

verus! {

/// How long a reconnect token is valid, in seconds.
pub const RECONNECT_TOKEN_VALID_SECONDS: i64 = 300;

/// By how many seconds a token may be past its end and still be taken.
pub const RECONNECT_TOKEN_LEEWAY: u64 = 60;

#[verifier::external_type_specification]
#[verifier::external_body]
pub struct ExJwtError(JWTError);

/// The claims of a reconnect token, as they are written.
pub open spec fn claims_json(client_id: Seq<char>, iat: i64, exp: i64) -> Seq<char> {
    "{\"payload\":{\"client_id\":\""@ + client_id + "\"},\"iat\":"@ + signed_decimal(iat as int)
        + ",\"exp\":"@ + signed_decimal(exp as int) + "}"@
}

/// The token that `jsonwebtoken::encode` makes of claims with HS256.
pub uninterp spec fn signed_token(secret: Seq<char>, claims: Seq<char>) -> Seq<char>;

/// What a token that is signed with `secret` under HS256 carries: its `payload.client_id`, where
/// that is a string; the only element of its `payload`, where that is an array of one string; and
/// its `iat` and `exp`, where those are whole numbers. `None` of a text that is no such token.
pub uninterp spec fn token_claims(secret: Seq<char>, token: Seq<char>) -> Option<
    (Option<Seq<char>>, Option<Seq<char>>, Option<i64>, Option<i64>),
>;

/// Whether `jsonwebtoken::decode` takes a token under HS256 with the given leeway, when the
/// machine's clock reads `now` seconds since the start of 1970.
pub uninterp spec fn token_taken(
    secret: Seq<char>,
    token: Seq<char>,
    leeway: u64,
    now: u64,
) -> bool;

/// Calls `jsonwebtoken::encode` with the default HS256 header. Signing with a shared secret
/// succeeds; the claims can be read from the token again, and the token is taken until its `exp`
/// and the leeway have passed.
#[verifier::external_body]
fn sign_claims(secret: &str, claims: &str) -> (r: Result<String, JWTError>)
    requires
        exists|v: u128, iat: i64, exp: i64| claims@ == #[trigger] claims_json(
            hyphenated(v),
            iat,
            exp,
        ),
    ensures
        r is Ok,
        r->Ok_0@ == signed_token(secret@, claims@),
        forall|v: u128, iat: i64, exp: i64| claims@ == #[trigger] claims_json(
            hyphenated(v),
            iat,
            exp,
        ) ==> token_claims(secret@, r->Ok_0@) == Some(
            (Some(hyphenated(v)), None::<Seq<char>>, Some(iat), Some(exp)),
        ),
        forall|v: u128, iat: i64, exp: i64, leeway: u64, now: u64| claims@ == #[trigger] claims_json(
            hyphenated(v),
            iat,
            exp,
        ) && leeway <= now ==> (#[trigger] token_taken(secret@, r->Ok_0@, leeway, now) <==> now
            - leeway <= exp),
{
    let claims = RawValue::from_string(claims.to_string())?;
    let key = EncodingKey::from_secret(secret.as_bytes());
    encode(&Header::new(Algorithm::HS256), &claims, &key)
}

/// The text of an optional string.
pub open spec fn text_of(s: Option<String>) -> Option<Seq<char>> {
    match s {
        Some(t) => Some(t@),
        None => None,
    }
}

/// Calls `jsonwebtoken::decode` with HS256 and the given leeway, and picks the claims. A second
/// `exp` is an error; of a `payload`, `client_id` or `iat` that is given twice, the last is picked.
/// What comes back are the claims that the token carries, and a text that is no token signed with
/// the secret is an error. Whether the token is taken rests on the second that the machine's clock
/// reads during the call; which one that is, is not said, but that the first minute of 1970 has
/// passed.
#[verifier::external_body]
fn verify_claims(secret: &str, token: &str, leeway: u64) -> (r: Result<
    (Option<String>, Option<String>, Option<i64>, Option<i64>),
    JWTError,
>)
    requires
        leeway <= 60,
    ensures
        r matches Ok(c) ==> token_claims(secret@, token@) == Some(
            (text_of(c.0), text_of(c.1), c.2, c.3),
        ),
        token_claims(secret@, token@) is None ==> r is Err,
        r is Ok ==> exists|now: u64| leeway <= now && #[trigger] token_taken(
            secret@,
            token@,
            leeway,
            now,
        ),
        r is Err ==> exists|now: u64| leeway <= now && !#[trigger] token_taken(
            secret@,
            token@,
            leeway,
            now,
        ),
{
    let mut validation = Validation::new(Algorithm::HS256);
    validation.leeway = leeway;
    let key = DecodingKey::from_secret(secret.as_bytes());
    let claims = decode::<Value>(token, &key, &validation)?.claims;
    let named = claims.pointer("/payload/client_id").and_then(|v| v.as_str());
    let placed = claims.get("payload").and_then(|p| <(String,)>::deserialize(p).ok());
    let iat = claims.get("iat").and_then(|v| v.as_i64());
    let exp = claims.get("exp").and_then(|v| v.as_i64());
    Ok((named.map(|s| s.to_string()), placed.map(|p| p.0), iat, exp))
}

/// Why a token was not made or not taken.
#[derive(Clone, Copy, Debug, PartialEq, Eq, Structural)]
pub enum ReconnectTokenError {
    /// The token could not be signed.
    NotSigned,
    /// The token's signature or time does not hold.
    Rejected,
    /// The token is signed and in time, and does not say what a reconnect token says.
    MalformedClaims,
}

/// Whom a reconnect token is for.
#[derive(Clone, Copy, Debug, PartialEq, Eq, Structural)]
pub struct ReconnectTokenPayload {
    pub client_id: ClientId,
}

/// What a reconnect token says: whom it is for, when it was issued and when it ends.
#[derive(Clone, Copy, Debug, PartialEq, Eq, Structural)]
pub struct ReconnectTokenClaims {
    pub payload: ReconnectTokenPayload,
    pub iat: i64,
    pub exp: i64,
}

impl From<ReconnectTokenClaims> for ReconnectTokenPayload {
    fn from(claims: ReconnectTokenClaims) -> (r: Self) {
        claims.payload
    }
}

impl vstd::std_specs::convert::FromSpecImpl<ReconnectTokenClaims> for ReconnectTokenPayload {
    open spec fn obeys_from_spec() -> bool {
        true
    }

    open spec fn from_spec(claims: ReconnectTokenClaims) -> Self {
        claims.payload
    }
}

/// The client that a token signed with `secret` names, where it says all that a reconnect token
/// says.
pub open spec fn named_client(secret: Seq<char>, token: Seq<char>) -> Option<ClientId> {
    match token_claims(secret, token) {
        Some((named, placed, Some(_), Some(_))) => match first_of(named, placed) {
            Some(text) => match parsed_uuid(text) {
                Some(uuid) => Some(ClientId { uuid }),
                None => None,
            },
            None => None,
        },
        _ => None,
    }
}

/// The first of two texts that is there.
pub open spec fn first_of(a: Option<Seq<char>>, b: Option<Seq<char>>) -> Option<Seq<char>> {
    match a {
        Some(text) => Some(text),
        None => b,
    }
}

/// What reading a token comes to when the machine's clock reads `now`.
pub open spec fn decoded_at(secret: Seq<char>, token: Seq<char>, leeway: u64, now: u64) -> Result<
    ReconnectTokenPayload,
    ReconnectTokenError,
> {
    if !token_taken(secret, token, leeway, now) {
        Err(ReconnectTokenError::Rejected)
    } else {
        match named_client(secret, token) {
            Some(client_id) => Ok(ReconnectTokenPayload { client_id }),
            None => Err(ReconnectTokenError::MalformedClaims),
        }
    }
}

/// What the claims of a token are read as.
pub open spec fn claims_read(
    named: Option<Seq<char>>,
    placed: Option<Seq<char>>,
    iat: Option<i64>,
    exp: Option<i64>,
) -> Result<ReconnectTokenClaims, ReconnectTokenError> {
    match (first_of(named, placed), iat, exp) {
        (Some(text), Some(i), Some(e)) => match parsed_uuid(text) {
            Some(uuid) => Ok(
                ReconnectTokenClaims {
                    payload: ReconnectTokenPayload { client_id: ClientId { uuid } },
                    iat: i,
                    exp: e,
                },
            ),
            None => Err(ReconnectTokenError::MalformedClaims),
        },
        _ => Err(ReconnectTokenError::MalformedClaims),
    }
}

impl ReconnectTokenClaims {
    /// The claims of a token that is issued at `now` and valid for `valid_secs` seconds.
    pub fn issued_at(payload: ReconnectTokenPayload, now: Timestamp, valid_secs: i64) -> (r: Self)
        requires
            now.valid(),
            FIRST_SECOND <= valid_secs <= LAST_SECOND,
        ensures
            r.payload == payload,
            r.iat == now.secs,
            r.exp == now.secs + valid_secs,
    {
        ReconnectTokenClaims { payload, iat: now.secs, exp: now.secs + valid_secs }
    }

    /// Reads the claims of a token: the client's identifier, in any of the forms in which
    /// identifiers are written, the issue and the end. All three must be there. The identifier is
    /// either `named` or the only element of the payload, `placed`.
    pub fn read(
        named: Option<String>,
        placed: Option<String>,
        iat: Option<i64>,
        exp: Option<i64>,
    ) -> (r: Result<Self, ReconnectTokenError>)
        ensures
            r == claims_read(text_of(named), text_of(placed), iat, exp),
    {
        let client_id = match named {
            Some(text) => Some(text),
            None => placed,
        };
        match (client_id, iat, exp) {
            (Some(text), Some(iat), Some(exp)) => match parse_uuid(text.as_str()) {
                Some(uuid) => Ok(
                    ReconnectTokenClaims {
                        payload: ReconnectTokenPayload { client_id: ClientId { uuid } },
                        iat,
                        exp,
                    },
                ),
                None => Err(ReconnectTokenError::MalformedClaims),
            },
            _ => Err(ReconnectTokenError::MalformedClaims),
        }
    }

    /// The claims as they are written. The client's identifier can be read from them again.
    pub fn to_json(&self) -> (r: String)
        ensures
            r@ == claims_json(hyphenated(self.payload.client_id.uuid), self.iat, self.exp),
            parsed_uuid(hyphenated(self.payload.client_id.uuid)) == Some(
                self.payload.client_id.uuid,
            ),
    {
        let mut out = "{\"payload\":{\"client_id\":\"".to_owned();
        out.append(uuid_text(self.payload.client_id.uuid).as_str());
        out.append("\"},\"iat\":");
        push_signed(&mut out, self.iat);
        out.append(",\"exp\":");
        push_signed(&mut out, self.exp);
        out.append("}");
        out
    }
}

impl ReconnectTokenPayload {
    /// A payload for a client.
    pub fn new(client_id: ClientId) -> (r: Self)
        ensures
            r.client_id == client_id,
    {
        ReconnectTokenPayload { client_id }
    }

    /// Issues a token that is valid for `valid_secs` seconds from now.
    pub fn _into_token(self, secret: &str, valid_secs: i64) -> (r: Result<
        String,
        ReconnectTokenError,
    >)
        requires
            FIRST_SECOND <= valid_secs <= LAST_SECOND,
        ensures
            r matches Ok(token) && issued(secret@, self.client_id, valid_secs, token@),
    {
        let now = utc_now();
        let claims = ReconnectTokenClaims::issued_at(self, now, valid_secs);
        let text = claims.to_json();
        match sign_claims(secret, text.as_str()) {
            Ok(token) => {
                assert(issued_at(secret@, self.client_id, claims.iat, valid_secs, token@));
                Ok(token)
            },
            Err(_) => Err(ReconnectTokenError::NotSigned),
        }
    }

    /// Issues a token that is valid for five minutes from now.
    pub fn into_token(self, secret: &str) -> (r: Result<String, ReconnectTokenError>)
        ensures
            r matches Ok(token) && issued(
                secret@,
                self.client_id,
                RECONNECT_TOKEN_VALID_SECONDS,
                token@,
            ),
    {
        self._into_token(secret, RECONNECT_TOKEN_VALID_SECONDS)
    }

    /// Reads a token, which may be up to `leeway` seconds past its end when the clock is read.
    pub fn _decode_token(secret: &str, token: &str, leeway: u64) -> (r: Result<
        Self,
        ReconnectTokenError,
    >)
        requires
            leeway <= 60,
        ensures
            exists|now: u64|
                leeway <= now && r == #[trigger] decoded_at(secret@, token@, leeway, now),
            token_claims(secret@, token@) is None ==> r == Err::<Self, _>(
                ReconnectTokenError::Rejected,
            ),
    {
        let verified = verify_claims(secret, token, leeway);
        let ghost now = choose|now: u64|
            leeway <= now && (#[trigger] token_taken(secret@, token@, leeway, now)
                <==> verified is Ok);
        let r = match verified {
            Ok((named, placed, iat, exp)) => match ReconnectTokenClaims::read(
                named,
                placed,
                iat,
                exp,
            ) {
                Ok(claims) => Ok(ReconnectTokenPayload::from(claims)),
                Err(e) => Err(e),
            },
            Err(_) => Err(ReconnectTokenError::Rejected),
        };
        assert(r == decoded_at(secret@, token@, leeway, now));
        r
    }

    /// Reads a token, which may be up to a minute past its end when the clock is read.
    pub fn decode_token(secret: &str, token: &str) -> (r: Result<Self, ReconnectTokenError>)
        ensures
            exists|now: u64|
                RECONNECT_TOKEN_LEEWAY <= now && r == #[trigger] decoded_at(
                    secret@,
                    token@,
                    RECONNECT_TOKEN_LEEWAY,
                    now,
                ),
            token_claims(secret@, token@) is None ==> r == Err::<Self, _>(
                ReconnectTokenError::Rejected,
            ),
    {
        Self::_decode_token(secret, token, RECONNECT_TOKEN_LEEWAY)
    }
}

/// The token was issued to the client at the second `iat`, names the client, and is taken for
/// `valid_secs` seconds from then and the leeway.
pub open spec fn issued_at(
    secret: Seq<char>,
    client_id: ClientId,
    iat: i64,
    valid_secs: i64,
    token: Seq<char>,
) -> bool {
    &&& 0 <= iat <= LAST_SECOND
    &&& token == signed_token(
        secret,
        claims_json(hyphenated(client_id.uuid), iat, (iat + valid_secs) as i64),
    )
    &&& named_client(secret, token) == Some(client_id)
    &&& forall|leeway: u64, now: u64|
        leeway <= now ==> (#[trigger] token_taken(secret, token, leeway, now) <==> now - leeway
            <= iat + valid_secs)
}

/// The token was issued to the client at some second.
pub open spec fn issued(
    secret: Seq<char>,
    client_id: ClientId,
    valid_secs: i64,
    token: Seq<char>,
) -> bool {
    exists|iat: i64| #[trigger] issued_at(secret, client_id, iat, valid_secs, token)
}

/// A token lasts for its time and the leeway, to the second: until then it reads as the client that
/// it was issued to, and afterwards it is rejected.
pub proof fn law_token_lasts_for_its_time(
    secret: Seq<char>,
    client_id: ClientId,
    iat: i64,
    valid_secs: i64,
    token: Seq<char>,
    leeway: u64,
    now: u64,
)
    requires
        issued_at(secret, client_id, iat, valid_secs, token),
        leeway <= now,
    ensures
        decoded_at(secret, token, leeway, now) == (if now <= iat + valid_secs + leeway {
            Ok::<ReconnectTokenPayload, ReconnectTokenError>(ReconnectTokenPayload { client_id })
        } else {
            Err(ReconnectTokenError::Rejected)
        }),
{
}

/// Claims are read exactly if an identifier, the issue and the end are there and the identifier can
/// be read. The identifier that is named counts before the one that is placed.
pub proof fn law_claims_must_all_be_there(
    named: Option<Seq<char>>,
    placed: Option<Seq<char>>,
    iat: Option<i64>,
    exp: Option<i64>,
)
    ensures
        ({
            let id = if named is Some {
                parsed_uuid(named->Some_0)
            } else if placed is Some {
                parsed_uuid(placed->Some_0)
            } else {
                None
            };
            let r = claims_read(named, placed, iat, exp);
            &&& r is Ok <==> id is Some && iat is Some && exp is Some
            &&& r matches Ok(claims) ==> Some(claims.payload.client_id.uuid) == id && Some(
                claims.iat,
            ) == iat && Some(claims.exp) == exp
            &&& r matches Err(e) ==> e == ReconnectTokenError::MalformedClaims
        }),
{
}

/// A token reads as a client exactly if it is taken and its claims can be read, as the client that
/// they name; one that is taken and says something else is malformed; one that is not taken is
/// rejected.
pub proof fn law_token_reads_as_its_claims(
    secret: Seq<char>,
    token: Seq<char>,
    leeway: u64,
    now: u64,
    named: Option<Seq<char>>,
    placed: Option<Seq<char>>,
    iat: Option<i64>,
    exp: Option<i64>,
)
    requires
        token_claims(secret, token) == Some((named, placed, iat, exp)),
    ensures
        !token_taken(secret, token, leeway, now) ==> decoded_at(secret, token, leeway, now)
            == Err::<ReconnectTokenPayload, _>(ReconnectTokenError::Rejected),
        token_taken(secret, token, leeway, now) ==> match claims_read(named, placed, iat, exp) {
            Ok(claims) => decoded_at(secret, token, leeway, now) == Ok::<_, ReconnectTokenError>(
                claims.payload,
            ),
            Err(e) => decoded_at(secret, token, leeway, now) == Err::<ReconnectTokenPayload, _>(e),
        },
{
}

/// A token of the usual length is taken, with the usual leeway, for five minutes and one more.
pub proof fn law_usual_token_lasts_six_minutes(
    secret: Seq<char>,
    client_id: ClientId,
    iat: i64,
    token: Seq<char>,
    now: u64,
)
    requires
        issued_at(secret, client_id, iat, RECONNECT_TOKEN_VALID_SECONDS, token),
        RECONNECT_TOKEN_LEEWAY <= now,
    ensures
        decoded_at(secret, token, RECONNECT_TOKEN_LEEWAY, now) is Ok <==> now <= iat + 360,
        decoded_at(secret, token, RECONNECT_TOKEN_LEEWAY, now) matches Ok(payload)
            ==> payload.client_id == client_id,
{
}

} // verus!
