//! Users, roles and the checks on requests: the bearer token of a request,
//! the roles its claims grant, the user list kept by the administrators and
//! the login check.

use vstd::prelude::*;

use crate::error::Error;
use crate::text::{concat3, lowercase, owned, str_eq, starts_with, to_lowercase, view_opt};

verus! {

/// A role a user can have.
#[derive(Clone, Copy, Debug, PartialEq, Eq, Structural)]
pub enum Role {
    SuperUser,
    Engineer,
    Viewer,
}

/// The role a name stands for: an unknown name stands for `Viewer`.
pub open spec fn role_named(name: Seq<char>) -> Role {
    if name == "SuperUser"@ {
        Role::SuperUser
    } else if name == "Engineer"@ {
        Role::Engineer
    } else {
        Role::Viewer
    }
}

/// The name of a role.
pub open spec fn role_name(r: Role) -> Seq<char> {
    match r {
        Role::SuperUser => "SuperUser"@,
        Role::Engineer => "Engineer"@,
        Role::Viewer => "Viewer"@,
    }
}

impl Role {
    /// The role a name stands for; an unknown name stands for `Viewer`.
    pub fn from_str(role: &str) -> (r: Role)
        ensures
            r == role_named(role@),
    {
        if str_eq(role, "SuperUser") {
            Role::SuperUser
        } else if str_eq(role, "Engineer") {
            Role::Engineer
        } else {
            Role::Viewer
        }
    }

    /// The name of the role.
    pub fn name(&self) -> (r: String)
        ensures
            r@ == role_name(*self),
    {
        match self {
            Role::SuperUser => owned("SuperUser"),
            Role::Engineer => owned("Engineer"),
            Role::Viewer => owned("Viewer"),
        }
    }
}

/// A role's name stands for the role again.
pub proof fn law_role_name_roundtrip(r: Role)
    ensures
        role_named(role_name(r)) == r,
{
    reveal_strlit("SuperUser");
    reveal_strlit("Engineer");
    reveal_strlit("Viewer");
    assert("Viewer"@.len() != "SuperUser"@.len());
    assert("Viewer"@.len() != "Engineer"@.len());
    assert("Engineer"@.len() != "SuperUser"@.len());
}

/// A user of the HMI.
#[derive(Clone, Debug)]
pub struct User {
    pub id: String,
    pub username: String,
    pub pwd: String,
    pub displayname: String,
    pub role: String,
}

/// What a user record holds.
pub struct UserView {
    pub id: Seq<char>,
    pub username: Seq<char>,
    pub pwd: Seq<char>,
    pub displayname: Seq<char>,
    pub role: Seq<char>,
}

impl View for User {
    type V = UserView;

    open spec fn view(&self) -> UserView {
        UserView {
            id: self.id@,
            username: self.username@,
            pwd: self.pwd@,
            displayname: self.displayname@,
            role: self.role@,
        }
    }
}

/// The records of a user list.
pub open spec fn user_views(s: Seq<User>) -> Seq<UserView> {
    s.map_values(|u: User| u@)
}

impl User {
    /// A user with every field empty.
    pub fn empty() -> (r: User)
        ensures
            r@.id.len() == 0 && r@.username.len() == 0 && r@.pwd.len() == 0
                && r@.displayname.len() == 0 && r@.role.len() == 0,
    {
        User {
            id: String::new(),
            username: String::new(),
            pwd: String::new(),
            displayname: String::new(),
            role: String::new(),
        }
    }
}

/// Whether `pass` is the password that the bcrypt hash `hash` was made from,
/// as `pwhash::bcrypt::verify` decides it.
pub uninterp spec fn bcrypt_verifies(pass: Seq<char>, hash: Seq<char>) -> bool;

/// Whether `pwhash::bcrypt::verify` can read the salt of `hash` without
/// panicking: its decoder subtracts 0x20 from each character's code and then
/// indexes a table of 0x60 entries, so a character below U+0020, or U+0080,
/// would take it out of range.
pub open spec fn decodable_hash(hash: Seq<char>) -> bool {
    forall|i: int| 0 <= i < hash.len() ==> (hash[i] as u32) >= 0x20 && (hash[i] as u32) != 0x80
}

/// Whether `pass` logs in against the stored hash `hash`: the hash can be
/// read, and `pass` verifies against it.
pub open spec fn password_matches(pass: Seq<char>, hash: Seq<char>) -> bool {
    decodable_hash(hash) && bcrypt_verifies(pass, hash)
}

/// Calls `pwhash::bcrypt::hash`, which hashes a password with a fresh random
/// salt and never returns an error. The salt is random, so the hash is not
/// a function of the password; what holds of every outcome is that the
/// password verifies against it (`verify` recomputes the hash with the salt
/// and cost that the hash carries), and that the hash is written in
/// `$2b$10$` followed by characters of bcrypt's base-64 alphabet, all of
/// which its decoder reads.
#[verifier::external_body]
fn hash_password(password: &str) -> (r: String)
    ensures
        bcrypt_verifies(password@, r@),
        decodable_hash(r@),
{
    pwhash::bcrypt::hash(password).expect("Unable to hash password")
}

/// Calls `pwhash::bcrypt::verify`: whether `password` verifies against the
/// bcrypt hash `hash`. A hash with a character its salt decoder cannot read
/// is left out, as the decoder panics on it.
#[verifier::external_body]
fn verify_password(password: &str, hash: &str) -> (r: bool)
    requires
        decodable_hash(hash@),
    ensures
        r == bcrypt_verifies(password@, hash@),
{
    pwhash::bcrypt::verify(password, hash)
}

/// Whether every character of a stored hash is one that bcrypt's salt
/// decoder reads.
pub fn is_decodable_hash(hash: &str) -> (r: bool)
    ensures
        r == decodable_hash(hash@),
{
    let n = hash.unicode_len();
    let mut i: usize = 0;
    while i < n
        invariant
            n == hash@.len(),
            i <= n,
            forall|j: int| 0 <= j < i ==> (hash@[j] as u32) >= 0x20 && (hash@[j] as u32) != 0x80,
        decreases n - i,
    {
        let c = hash.get_char(i);
        let code = c as u32;
        if code < 0x20 || code == 0x80 {
            return false;
        }
        i = i + 1;
    }
    true
}

/// The bearer prefix of an authorization header.
pub open spec fn bearer() -> Seq<char> {
    "Bearer "@
}

/// `s` without every leading repetition of `prefix` (`s` itself for an empty
/// prefix).
pub open spec fn trim_start_all(s: Seq<char>, prefix: Seq<char>) -> Seq<char>
    decreases s.len(),
{
    if prefix.len() > 0 && prefix.len() <= s.len() && s.subrange(0, prefix.len() as int) == prefix {
        trim_start_all(s.subrange(prefix.len() as int, s.len() as int), prefix)
    } else {
        s
    }
}

/// The token of a request's authorization header: none without a header
/// (or one that is not text), an invalid header when it does not start with
/// `Bearer `, else the header without its leading `Bearer ` prefixes.
pub open spec fn header_token(header: Option<Seq<char>>) -> Result<Seq<char>, Error> {
    match header {
        None => Err(Error::NoAuthHeaderError),
        Some(h) => if bearer().len() <= h.len() && h.subrange(0, bearer().len() as int) == bearer() {
            Ok(trim_start_all(h, bearer()))
        } else {
            Err(Error::InvalidAuthHeaderError)
        },
    }
}

/// The token of a request's authorization header, given as text where the
/// request has one.
pub fn jwt_from_header(header: Option<&str>) -> (r: Result<String, Error>)
    ensures
        match r {
            Ok(t) => header_token(
                match header {
                    Some(h) => Some(h@),
                    None => None,
                },
            ) == Ok::<Seq<char>, Error>(t@),
            Err(e) => header_token(
                match header {
                    Some(h) => Some(h@),
                    None => None,
                },
            ) == Err::<Seq<char>, Error>(e),
        },
{
    let auth_header = match header {
        Some(h) => h,
        None => {
            return Err(Error::NoAuthHeaderError);
        },
    };
    proof {
        reveal_strlit("Bearer ");
    }
    if !starts_with(auth_header, "Bearer ") {
        return Err(Error::InvalidAuthHeaderError);
    }
    let n = auth_header.unicode_len();
    let mut i: usize = 0;
    proof {
        assert(auth_header@.subrange(0, n as int) =~= auth_header@);
    }
    while n - i >= 7 && starts_with(auth_header.substring_char(i, n), "Bearer ")
        invariant
            n == auth_header@.len(),
            i <= n,
            bearer().len() == 7,
            trim_start_all(auth_header@, bearer()) == trim_start_all(
                auth_header@.subrange(i as int, n as int),
                bearer(),
            ),
        decreases n - i,
    {
        proof {
            let t = auth_header@.subrange(i as int, n as int);
            assert(t.subrange(7, t.len() as int) =~= auth_header@.subrange(i + 7, n as int));
        }
        i = i + 7;
    }
    proof {
        let t = auth_header@.subrange(i as int, n as int);
        if i + 7 > n {
            assert(t.len() < 7);
        }
    }
    Ok(owned(auth_header.substring_char(i, n)))
}

/// The key id (`kid`) in the header of the JWT `token`, as
/// `alcoholic_jwt::token_kid` reads it; `None` where the token has no header
/// part, the header does not decode, or it carries no key id.
pub uninterp spec fn token_key_id(token: Seq<char>) -> Option<Seq<char>>;

/// Calls `alcoholic_jwt::token_kid`, which decodes the header of a token and
/// reads its `kid`. The contract names the result: it is a function of the
/// token's text alone. An error and a header without a key id both come back
/// as `None`.
#[verifier::external_body]
fn token_kid(token: &str) -> (r: Option<String>)
    ensures
        match r {
            Some(k) => token_key_id(token@) == Some(k@),
            None => token_key_id(token@) is None,
        },
{
    match alcoholic_jwt::token_kid(token) {
        Ok(kid) => kid,
        Err(_) => None,
    }
}

/// The key id of a token, given what was read of its header: the id where
/// there is one, else `ExtractJWKKidError`.
pub fn kid_or_error(kid: Option<String>) -> (r: Result<String, Error>)
    ensures
        match kid {
            Some(k) => r matches Ok(t) && t@ == k@,
            None => r == Err::<String, Error>(Error::ExtractJWKKidError),
        },
{
    match kid {
        Some(k) => Ok(k),
        None => Err(Error::ExtractJWKKidError),
    }
}

/// The key id in the header of a JWT, which picks the key that checks the
/// token's signature; `ExtractJWKKidError` where the header has none.
pub fn extract_kid(jwt: &str) -> (r: Result<String, Error>)
    ensures
        match token_key_id(jwt@) {
            Some(k) => r matches Ok(t) && t@ == k,
            None => r == Err::<String, Error>(Error::ExtractJWKKidError),
        },
{
    kid_or_error(token_kid(jwt))
}

/// What the checks on a request read of a valid token's claims: the items
/// of its role list (`http://oes.com//roles`), each a name where it is a
/// string, where that claim is an array; and its subject (`sub`) where that
/// is a string.
pub struct TokenClaims {
    pub roles: Option<Vec<Option<String>>>,
    pub sub: Option<String>,
}

/// What a token's claims hold.
pub struct TokenClaimsView {
    pub roles: Option<Seq<Option<Seq<char>>>>,
    pub sub: Option<Seq<char>>,
}

impl View for TokenClaims {
    type V = TokenClaimsView;

    open spec fn view(&self) -> TokenClaimsView {
        TokenClaimsView {
            roles: match self.roles {
                Some(rs) => Some(rs@.map_values(|r: Option<String>| view_opt(r))),
                None => None,
            },
            sub: view_opt(self.sub),
        }
    }
}

/// Whether every item of the claims' role list, where there is one, is a
/// string.
pub open spec fn roles_readable(claims: TokenClaimsView) -> bool {
    match claims.roles {
        Some(rs) => forall|i: int| 0 <= i < rs.len() ==> rs[i] is Some,
        None => true,
    }
}

/// Whether an item of a role list names the super user.
pub open spec fn is_super_user_role(item: Option<Seq<char>>) -> bool {
    item matches Some(s) && role_named(s) == Role::SuperUser
}

/// Whether a role list names the super user.
pub open spec fn names_super_user(items: Seq<Option<Seq<char>>>) -> bool {
    exists|i: int| 0 <= i < items.len() && #[trigger] is_super_user_role(items[i])
}

/// What the claims of a valid token grant for a request that needs `role`:
/// the token's subject; no permission when the request needs the super user
/// and the roles do not name it; an invalid token without a role list or a
/// subject.
pub open spec fn role_check(claims: TokenClaimsView, role: Role) -> Result<Seq<char>, Error> {
    match claims.roles {
        Some(rs) => if role == Role::SuperUser && !names_super_user(rs) {
            Err(Error::NoPermissionError)
        } else {
            match claims.sub {
                Some(s) => Ok(s),
                None => Err(Error::JWTTokenError),
            }
        },
        None => Err(Error::JWTTokenError),
    }
}

/// Whether the role list of `claims` can be read.
pub fn has_readable_roles(claims: &TokenClaims) -> (r: bool)
    ensures
        r == roles_readable(claims@),
{
    match &claims.roles {
        Some(rs) => {
            let n = rs.len();
            let mut i: usize = 0;
            while i < n
                invariant
                    n == rs@.len(),
                    claims.roles == Some(*rs),
                    i <= n,
                    forall|j: int| 0 <= j < i ==> rs@[j] is Some,
                decreases n - i,
            {
                if rs[i].is_none() {
                    proof {
                        assert(claims@.roles.unwrap()[i as int] == view_opt(rs@[i as int]));
                    }
                    return false;
                }
                i = i + 1;
            }
            proof {
                assert forall|j: int| 0 <= j < claims@.roles.unwrap().len() implies claims@.roles.unwrap()[j] is Some by {
                    assert(claims@.roles.unwrap()[j] == view_opt(rs@[j]));
                }
            }
            true
        },
        None => true,
    }
}

/// Checks the claims of a valid token against the role a request needs:
/// the token's subject, or the error the request is refused with.
pub fn check_role(claims: &TokenClaims, role: Role) -> (r: Result<String, Error>)
    requires
        roles_readable(claims@),
    ensures
        match r {
            Ok(s) => role_check(claims@, role) == Ok::<Seq<char>, Error>(s@),
            Err(e) => role_check(claims@, role) == Err::<Seq<char>, Error>(e),
        },
{
    let roles = match &claims.roles {
        Some(rs) => rs,
        None => {
            return Err(Error::JWTTokenError);
        },
    };
    let ghost items = claims@.roles.unwrap();
    proof {
        assert forall|j: int| 0 <= j < roles@.len() implies roles@[j] is Some by {
            assert(items[j] == view_opt(roles@[j]));
        }
    }
    let n = roles.len();
    let mut has_super = false;
    let mut i: usize = 0;
    while i < n
        invariant
            n == roles@.len(),
            items == roles@.map_values(|r: Option<String>| view_opt(r)),
            i <= n,
            forall|j: int| 0 <= j < n ==> roles@[j] is Some,
            has_super <==> names_super_user(items.subrange(0, i as int)),
        decreases n - i,
    {
        proof {
            assert(items[i as int] == view_opt(roles@[i as int]));
        }
        match &roles[i] {
            Some(name) => {
                if Role::from_str(name.as_str()) == Role::SuperUser {
                    has_super = true;
                }
            },
            None => {},
        }
        proof {
            let t = items.subrange(0, i + 1);
            assert(t[i as int] == items[i as int]);
            if is_super_user_role(items[i as int]) {
                assert(is_super_user_role(t[i as int]));
            }
            if names_super_user(t) {
                let k = choose|k: int| 0 <= k < t.len() && #[trigger] is_super_user_role(t[k]);
                if k < i {
                    assert(items.subrange(0, i as int)[k] == t[k]);
                }
            }
            if names_super_user(items.subrange(0, i as int)) {
                let k = choose|k: int|
                    0 <= k < i && #[trigger] is_super_user_role(items.subrange(0, i as int)[k]);
                assert(t[k] == items.subrange(0, i as int)[k]);
            }
        }
        i = i + 1;
    }
    proof {
        assert(items.subrange(0, n as int) =~= items);
    }
    if role == Role::SuperUser && !has_super {
        return Err(Error::NoPermissionError);
    }
    match &claims.sub {
        Some(s) => Ok(s.clone()),
        None => Err(Error::JWTTokenError),
    }
}

/// One key of the identity provider's key set: its key id, where it has
/// one, and the key's JSON text as the provider publishes it.
pub struct Jwk {
    pub kid: Option<String>,
    pub json: String,
}

/// What a key holds.
pub struct JwkView {
    pub kid: Option<Seq<char>>,
    pub json: Seq<char>,
}

impl View for Jwk {
    type V = JwkView;

    open spec fn view(&self) -> JwkView {
        JwkView { kid: view_opt(self.kid), json: self.json@ }
    }
}

/// The identity provider's keys, in the order it lists them.
pub struct KeySet {
    pub keys: Vec<Jwk>,
}

/// The views of a list of keys.
pub open spec fn key_views(keys: Seq<Jwk>) -> Seq<JwkView> {
    keys.map_values(|k: Jwk| k@)
}

/// Whether key `i` is the first of `keys` with key id `kid`.
pub open spec fn is_first_key(keys: Seq<JwkView>, kid: Seq<char>, i: int) -> bool {
    &&& 0 <= i < keys.len()
    &&& keys[i].kid == Some(kid)
    &&& forall|j: int| 0 <= j < i ==> keys[j].kid != Some(kid)
}

/// The position of the first key with key id `kid`, if any.
pub open spec fn key_position(keys: Seq<JwkView>, kid: Seq<char>) -> Option<int> {
    if exists|i: int| is_first_key(keys, kid, i) {
        Some(choose|i: int| is_first_key(keys, kid, i))
    } else {
        None
    }
}

proof fn lemma_first_key_unique(keys: Seq<JwkView>, kid: Seq<char>, i: int, j: int)
    requires
        is_first_key(keys, kid, i),
        is_first_key(keys, kid, j),
    ensures
        i == j,
{
    if i < j {
        assert(keys[i].kid != Some(kid));
    } else if j < i {
        assert(keys[j].kid != Some(kid));
    }
}

/// The key of the set with key id `kid`: the first one listed with it, as
/// `JWKS::find` picks it.
pub fn find_key<'a>(keys: &'a KeySet, kid: &str) -> (r: Option<&'a Jwk>)
    ensures
        match r {
            Some(k) => key_position(key_views(keys.keys@), kid@) matches Some(i) && *k == keys.keys@[i],
            None => key_position(key_views(keys.keys@), kid@) is None,
        },
{
    let ghost s = key_views(keys.keys@);
    let n = keys.keys.len();
    let mut i: usize = 0;
    while i < n
        invariant
            n == keys.keys@.len(),
            s == key_views(keys.keys@),
            i <= n,
            forall|j: int| 0 <= j < i ==> s[j].kid != Some(kid@),
        decreases n - i,
    {
        let matches = match &keys.keys[i].kid {
            Some(k) => str_eq(k.as_str(), kid),
            None => false,
        };
        proof {
            assert(s[i as int] == keys.keys@[i as int]@);
        }
        if matches {
            proof {
                assert(is_first_key(s, kid@, i as int));
                let c = choose|c: int| is_first_key(s, kid@, c);
                lemma_first_key_unique(s, kid@, i as int, c);
            }
            return Some(&keys.keys[i]);
        }
        i = i + 1;
    }
    proof {
        if exists|c: int| is_first_key(s, kid@, c) {
            let c = choose|c: int| is_first_key(s, kid@, c);
            assert(s[c].kid == Some(kid@));
        }
    }
    None
}

/// The claims of the token `token` that `alcoholic_jwt::validate` accepts
/// under the key whose JSON text is `key.json`, with the checks that the
/// issuer is `issuer`, the audience is `audience` and a subject is present,
/// as the request checks read them; `None` where the key does not decode or
/// the token fails the signature or a check.
pub uninterp spec fn token_claims(
    token: Seq<char>,
    key: JwkView,
    issuer: Seq<char>,
    audience: Seq<char>,
) -> Option<TokenClaimsView>;

/// Decodes `key` as an `alcoholic_jwt::JWK` (`serde_json::from_str`) and
/// calls `alcoholic_jwt::validate` on `token` with the checks
/// `Issuer(issuer)`, `Audience(audience)` and `SubjectPresent`; from the
/// claims of a valid token it moves out the role list's string items and the
/// subject. The contract names the result: signature and claim checks are a
/// function of the token, the key and the two names alone (no expiry check
/// is asked for, so the clock plays no part).
#[verifier::external_body]
fn validate_token(token: &str, key: &Jwk, issuer: &str, audience: &str) -> (r: Option<TokenClaims>)
    ensures
        match r {
            Some(c) => token_claims(token@, key@, issuer@, audience@) == Some(c@),
            None => token_claims(token@, key@, issuer@, audience@) is None,
        },
{
    let jwk: alcoholic_jwt::JWK = serde_json::from_str(key.json.as_str()).ok()?;
    let checks = vec![
        alcoholic_jwt::Validation::Issuer(issuer.to_string()),
        alcoholic_jwt::Validation::Audience(audience.to_string()),
        alcoholic_jwt::Validation::SubjectPresent,
    ];
    let claims = alcoholic_jwt::validate(token, &jwk, checks).ok()?.claims;
    let text = |v: &serde_json::Value| v.as_str().map(|s| s.to_string());
    let roles = match claims.get("http://oes.com//roles") {
        Some(serde_json::Value::Array(a)) => Some(a.iter().map(text).collect()),
        _ => None,
    };
    Some(TokenClaims { roles, sub: claims.get("sub").and_then(text) })
}

/// What a request with bearer token `jwt` that needs `role` is answered,
/// given the identity provider's keys, issuer and audience: the token's
/// subject, or the error of the first step that refuses it.
pub open spec fn token_check(
    jwt: Seq<char>,
    keys: Seq<JwkView>,
    issuer: Seq<char>,
    audience: Seq<char>,
    role: Role,
) -> Result<Seq<char>, Error> {
    match token_key_id(jwt) {
        None => Err(Error::ExtractJWKKidError),
        Some(kid) => match key_position(keys, kid) {
            None => Err(Error::WrongCredentialsError),
            Some(i) => match token_claims(jwt, keys[i], issuer, audience) {
                None => Err(Error::JWTTokenError),
                Some(c) => if roles_readable(c) {
                    role_check(c, role)
                } else {
                    Err(Error::JWTTokenError)
                },
            },
        },
    }
}

/// Checks a bearer token against the role a request needs: reads its key
/// id, finds that key in the provider's set, validates the token under it
/// and checks the role its claims grant. A role list with an item that is
/// no string is refused as an invalid token.
pub fn valid_jwt(jwt: &str, keys: &KeySet, issuer: &str, audience: &str, role: Role) -> (r: Result<
    String,
    Error,
>)
    ensures
        match r {
            Ok(s) => token_check(jwt@, key_views(keys.keys@), issuer@, audience@, role) == Ok::<
                Seq<char>,
                Error,
            >(s@),
            Err(e) => token_check(jwt@, key_views(keys.keys@), issuer@, audience@, role) == Err::<
                Seq<char>,
                Error,
            >(e),
        },
{
    let kid = match extract_kid(jwt) {
        Ok(k) => k,
        Err(e) => {
            return Err(e);
        },
    };
    let key = match find_key(keys, kid.as_str()) {
        Some(k) => k,
        None => {
            return Err(Error::WrongCredentialsError);
        },
    };
    proof {
        let i = key_position(key_views(keys.keys@), kid@).unwrap();
        assert(key_views(keys.keys@)[i] == keys.keys@[i]@);
    }
    let claims = match validate_token(jwt, key, issuer, audience) {
        Some(c) => c,
        None => {
            return Err(Error::JWTTokenError);
        },
    };
    if !has_readable_roles(&claims) {
        return Err(Error::JWTTokenError);
    }
    check_role(&claims, role)
}

/// The secret that login tokens are signed with.
pub open spec fn jwt_secret() -> Seq<char> {
    "openfmbsecrete2@2@"@
}

/// The compact JWT that `jsonwebtoken::encode` makes with the header
/// `HS512` and the key `secret` (its UTF-8 bytes) for the claims object
/// with the members `exp`, `name`, `role` and `sub` (in that order, as
/// `serde_json` writes an object's members); `None` where it refuses.
pub uninterp spec fn hs512_token(
    sub: Seq<char>,
    name: Seq<char>,
    role: Seq<char>,
    exp: u64,
    secret: Seq<char>,
) -> Option<Seq<char>>;

/// Calls `jsonwebtoken::encode` with an HS512 header, the claims `sub`,
/// `name`, `role` and `exp`, and `secret` as the HMAC key. The contract
/// names the result: signing with HMAC is a function of its inputs alone.
#[verifier::external_body]
fn encode_token(sub: &str, name: &str, role: &str, exp: u64, secret: &str) -> (r: Option<String>)
    ensures
        match r {
            Some(t) => hs512_token(sub@, name@, role@, exp, secret@) == Some(t@),
            None => hs512_token(sub@, name@, role@, exp, secret@) is None,
        },
{
    let mut claims = serde_json::Map::new();
    claims.insert("sub".to_string(), serde_json::Value::from(sub));
    claims.insert("name".to_string(), serde_json::Value::from(name));
    claims.insert("role".to_string(), serde_json::Value::from(role));
    claims.insert("exp".to_string(), serde_json::Value::from(exp));
    let header = jsonwebtoken::Header::new(jsonwebtoken::Algorithm::HS512);
    jsonwebtoken::encode(&header, &claims, &jsonwebtoken::EncodingKey::from_secret(secret.as_bytes())).ok()
}

/// The login token of user `uid`, shown as `name`, with role `role`, that
/// expires at `expiration` (seconds since the epoch): signed with the
/// server's secret; `JWTTokenCreationError` where signing fails.
pub fn create_jwt(uid: &str, name: &str, role: &Role, expiration: u64) -> (r: Result<String, Error>)
    ensures
        match hs512_token(uid@, name@, role_name(*role), expiration, jwt_secret()) {
            Some(t) => r matches Ok(s) && s@ == t,
            None => r == Err::<String, Error>(Error::JWTTokenCreationError),
        },
{
    let role_text = role.name();
    match encode_token(uid, name, role_text.as_str(), expiration, "openfmbsecrete2@2@") {
        Some(t) => Ok(t),
        None => Err(Error::JWTTokenCreationError),
    }
}

/// Whether two users clash: the same id or the same username, ignoring case.
pub open spec fn users_clash(a: UserView, b: UserView) -> bool {
    lowercase(a.id) == lowercase(b.id) || lowercase(a.username) == lowercase(b.username)
}

/// Whether some user of the list clashes with `u`.
pub open spec fn has_clash(s: Seq<UserView>, u: UserView) -> bool {
    exists|i: int| 0 <= i < s.len() && users_clash(s[i], u)
}

/// Whether entry `i` is the first user with id `id`.
pub open spec fn is_first_id(s: Seq<UserView>, id: Seq<char>, i: int) -> bool {
    &&& 0 <= i < s.len()
    &&& s[i].id == id
    &&& forall|j: int| 0 <= j < i ==> s[j].id != id
}

/// Whether some user has id `id`.
pub open spec fn has_id(s: Seq<UserView>, id: Seq<char>) -> bool {
    exists|i: int| 0 <= i < s.len() && s[i].id == id
}

/// The list as it is sent to clients: every password cleared.
pub open spec fn without_passwords(s: Seq<UserView>) -> Seq<UserView> {
    s.map_values(|u: UserView| UserView { pwd: Seq::empty(), ..u })
}

/// Clears every password of a user list before it is sent to a client.
pub fn clear_passwords(list: &mut Vec<User>)
    ensures
        user_views(final(list)@) == without_passwords(user_views(old(list)@)),
{
    let n = list.len();
    let mut i: usize = 0;
    while i < n
        invariant
            n == list@.len(),
            i <= n,
            forall|j: int|
                0 <= j < i ==> #[trigger] list@[j]@ == (UserView {
                    pwd: Seq::empty(),
                    ..old(list)@[j]@
                }),
            forall|j: int| i <= j < n ==> #[trigger] list@[j] == old(list)@[j],
        decreases n - i,
    {
        let u = &list[i];
        let cleared = User {
            id: u.id.clone(),
            username: u.username.clone(),
            pwd: String::new(),
            displayname: u.displayname.clone(),
            role: u.role.clone(),
        };
        list.set(i, cleared);
        i = i + 1;
    }
    assert(user_views(list@) =~= without_passwords(user_views(old(list)@)));
}

/// A copy of a user record.
pub fn copy_user(u: &User) -> (r: User)
    ensures
        r@ == u@,
{
    User {
        id: u.id.clone(),
        username: u.username.clone(),
        pwd: u.pwd.clone(),
        displayname: u.displayname.clone(),
        role: u.role.clone(),
    }
}

/// The position of the first user that clashes with `user`, if any.
fn position_of_clash(list: &Vec<User>, user: &User) -> (r: Option<usize>)
    ensures
        r is None <==> !has_clash(user_views(list@), user@),
        r matches Some(i) ==> i < list@.len() && users_clash(list@[i as int]@, user@),
{
    let id = to_lowercase(user.id.as_str());
    let name = to_lowercase(user.username.as_str());
    let n = list.len();
    let mut i: usize = 0;
    while i < n
        invariant
            n == list@.len(),
            i <= n,
            id@ == lowercase(user.id@),
            name@ == lowercase(user.username@),
            forall|j: int| 0 <= j < i ==> !users_clash(#[trigger] user_views(list@)[j], user@),
        decreases n - i,
    {
        let x = &list[i];
        if str_eq(to_lowercase(x.id.as_str()).as_str(), id.as_str()) || str_eq(
            to_lowercase(x.username.as_str()).as_str(),
            name.as_str(),
        ) {
            proof {
                assert(user_views(list@)[i as int] == list@[i as int]@);
                assert(users_clash(user_views(list@)[i as int], user@));
            }
            return Some(i);
        }
        proof {
            assert(user_views(list@)[i as int] == list@[i as int]@);
        }
        i = i + 1;
    }
    None
}

/// The position of the first user with id `id`, if any.
pub fn position_of_id(list: &Vec<User>, id: &str) -> (r: Option<usize>)
    ensures
        r is None <==> !has_id(user_views(list@), id@),
        r matches Some(i) ==> is_first_id(user_views(list@), id@, i as int),
{
    let n = list.len();
    let mut i: usize = 0;
    while i < n
        invariant
            n == list@.len(),
            i <= n,
            forall|j: int| 0 <= j < i ==> #[trigger] user_views(list@)[j].id != id@,
        decreases n - i,
    {
        if str_eq(list[i].id.as_str(), id) {
            proof {
                assert(user_views(list@)[i as int].id == id@);
            }
            return Some(i);
        }
        i = i + 1;
    }
    None
}

/// Adds a user whose password is replaced by its bcrypt hash, unless a
/// user with the same id or username (ignoring case) is there already; then
/// the list is unchanged and the answer is `AddUserError`.
pub fn create_user(list: &mut Vec<User>, user: &User) -> (r: Result<(), Error>)
    ensures
        has_clash(user_views(old(list)@), user@) ==> r == Err::<(), Error>(Error::AddUserError)
            && final(list)@ == old(list)@,
        !has_clash(user_views(old(list)@), user@) ==> {
            &&& r is Ok
            &&& final(list)@.len() == old(list)@.len() + 1
            &&& final(list)@.subrange(0, old(list)@.len() as int) == old(list)@
            &&& final(list)@.last()@ == (UserView { pwd: final(list)@.last()@.pwd, ..user@ })
            &&& password_matches(user@.pwd, final(list)@.last()@.pwd)
        },
{
    match position_of_clash(list, user) {
        Some(_) => Err(Error::AddUserError),
        None => {
            let mut u = copy_user(user);
            u.pwd = hash_password(user.pwd.as_str());
            let ghost before = list@;
            list.push(u);
            proof {
                assert(list@.subrange(0, before.len() as int) =~= before);
            }
            Ok(())
        },
    }
}

/// Removes the first user with the id of `user`; the list is unchanged when
/// there is none.
pub fn delete_user(list: &mut Vec<User>, user: &User)
    ensures
        !has_id(user_views(old(list)@), user@.id) ==> final(list)@ == old(list)@,
        forall|i: int|
            is_first_id(user_views(old(list)@), user@.id, i) ==> final(list)@ == old(list)@.remove(i),
{
    match position_of_id(list, user.id.as_str()) {
        Some(pos) => {
            list.remove(pos);
        },
        None => {},
    }
}

/// Gives the first user with the id of `user` the display name and role of
/// `user` and the bcrypt hash of its password; the list is unchanged when
/// there is none.
pub fn update_user(list: &mut Vec<User>, user: &User)
    ensures
        !has_id(user_views(old(list)@), user@.id) ==> final(list)@ == old(list)@,
        forall|i: int|
            is_first_id(user_views(old(list)@), user@.id, i) ==> {
                &&& final(list)@.len() == old(list)@.len()
                &&& forall|j: int| 0 <= j < old(list)@.len() && j != i ==> final(list)@[j] == old(list)@[j]
                &&& final(list)@[i]@.id == old(list)@[i]@.id
                &&& final(list)@[i]@.username == old(list)@[i]@.username
                &&& final(list)@[i]@.displayname == user@.displayname
                &&& final(list)@[i]@.role == user@.role
                &&& password_matches(user@.pwd, final(list)@[i]@.pwd)
            },
{
    match position_of_id(list, user.id.as_str()) {
        Some(pos) => {
            let old_user = &list[pos];
            let updated = User {
                id: old_user.id.clone(),
                username: old_user.username.clone(),
                pwd: hash_password(user.pwd.as_str()),
                displayname: user.displayname.clone(),
                role: user.role.clone(),
            };
            list.set(pos, updated);
            proof {
                assert forall|i: int| is_first_id(user_views(old(list)@), user@.id, i) implies i == pos by {
                    if i < pos {
                    } else if i > pos {
                    }
                }
            }
        },
        None => {},
    }
}

/// The user a login is for: the last of the users (in the order given)
/// whose username is `username` and whose stored hash can be read and has
/// `pwd` verify against it, if any.
pub open spec fn login_user(s: Seq<UserView>, username: Seq<char>, pwd: Seq<char>) -> Option<int>
    decreases s.len(),
{
    if s.len() == 0 {
        None
    } else if s.last().username == username && password_matches(pwd, s.last().pwd) {
        Some(s.len() - 1)
    } else {
        login_user(s.drop_last(), username, pwd)
    }
}

/// The position of the user a login is for, if any.
pub fn find_login_user(users: &Vec<User>, username: &str, pwd: &str) -> (r: Option<usize>)
    ensures
        match r {
            Some(i) => login_user(user_views(users@), username@, pwd@) == Some(i as int),
            None => login_user(user_views(users@), username@, pwd@) is None,
        },
{
    let ghost s = user_views(users@);
    let n = users.len();
    let mut found: Option<usize> = None;
    let mut i: usize = 0;
    while i < n
        invariant
            n == users@.len(),
            s == user_views(users@),
            i <= n,
            match found {
                Some(k) => login_user(s.subrange(0, i as int), username@, pwd@) == Some(k as int),
                None => login_user(s.subrange(0, i as int), username@, pwd@) is None,
            },
        decreases n - i,
    {
        proof {
            assert(s.subrange(0, i + 1).drop_last() =~= s.subrange(0, i as int));
            assert(s.subrange(0, i + 1).last() == users@[i as int]@);
        }
        if str_eq(users[i].username.as_str(), username) && is_decodable_hash(users[i].pwd.as_str())
            && verify_password(pwd, users[i].pwd.as_str()) {
            found = Some(i);
        }
        i = i + 1;
    }
    proof {
        assert(s.subrange(0, n as int) =~= s);
    }
    found
}

/// The users a new installation starts with: the administrator, with the
/// bcrypt hash of the initial password.
pub fn default_users() -> (r: Vec<User>)
    ensures
        r@.len() == 1,
        r@[0]@.id == "e2a1eaff-c4ea-4f28-bd59-d88fc2882f39"@,
        r@[0]@.username == "admin"@,
        r@[0]@.displayname == "Administrator"@,
        r@[0]@.role == "Admin"@,
        password_matches("hm1admin"@, r@[0]@.pwd),
{
    let admin = User {
        id: owned("e2a1eaff-c4ea-4f28-bd59-d88fc2882f39"),
        username: owned("admin"),
        pwd: hash_password("hm1admin"),
        displayname: owned("Administrator"),
        role: owned("Admin"),
    };
    vec![admin]
}

/// Where the user list is kept: under `/<app_dir>/` when the application
/// directory is named, else in the working directory.
pub fn get_user_file(app_dir: &str) -> (r: String)
    ensures
        r@ == (if app_dir@.len() > 0 {
            "/"@ + app_dir@ + "/users.json"@
        } else {
            "users.json"@
        }),
{
    if !app_dir.is_empty() {
        return concat3("/", app_dir, "/users.json");
    }
    owned("users.json")
}

/// A login finds the last matching user at or after a user that matches.
proof fn lemma_login_finds_at_or_after(s: Seq<UserView>, username: Seq<char>, pwd: Seq<char>, i: int)
    requires
        0 <= i < s.len(),
        s[i].username == username,
        password_matches(pwd, s[i].pwd),
    ensures
        login_user(s, username, pwd) matches Some(k) && i <= k < s.len(),
    decreases s.len(),
{
    if !(s.last().username == username && password_matches(pwd, s.last().pwd)) {
        assert(s.drop_last()[i] == s[i]);
        lemma_login_finds_at_or_after(s.drop_last(), username, pwd, i);
    }
}

/// A user that was added can log in with the password it was given: the
/// login finds the new user, the last of the list.
pub proof fn law_created_user_can_log_in(after: Seq<UserView>, user: UserView)
    requires
        after.len() > 0,
        after.last().username == user.username,
        password_matches(user.pwd, after.last().pwd),
    ensures
        login_user(after, user.username, user.pwd) == Some(after.len() - 1),
{
}

/// After a user's password is changed, a login with the user's name and the
/// new password succeeds, for that user or one listed after it.
pub proof fn law_updated_password_logs_in(after: Seq<UserView>, i: int, username: Seq<char>, pwd: Seq<char>)
    requires
        0 <= i < after.len(),
        after[i].username == username,
        password_matches(pwd, after[i].pwd),
    ensures
        login_user(after, username, pwd) matches Some(k) && i <= k < after.len(),
{
    lemma_login_finds_at_or_after(after, username, pwd, i);
}

} // verus!
