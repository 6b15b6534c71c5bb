use hmi_server::auth::{
    check_role, clear_passwords, create_jwt, create_user, default_users, delete_user, extract_kid, find_key,
    find_login_user, get_user_file, has_readable_roles, is_decodable_hash, jwt_from_header, kid_or_error,
    update_user, valid_jwt, Jwk, KeySet, Role, TokenClaims, User,
};
use hmi_server::error::Error;

fn user(id: &str, name: &str, pwd: &str, role: &str) -> User {
    User {
        id: id.to_string(),
        username: name.to_string(),
        pwd: pwd.to_string(),
        displayname: name.to_uppercase(),
        role: role.to_string(),
    }
}

#[test]
fn bearer_tokens() {
    assert_eq!(jwt_from_header(None), Err(Error::NoAuthHeaderError));
    assert_eq!(jwt_from_header(Some("Basic abc")), Err(Error::InvalidAuthHeaderError));
    assert_eq!(jwt_from_header(Some("Bearer abc.def")), Ok("abc.def".to_string()));
    assert_eq!(jwt_from_header(Some("Bearer Bearer tok")), Ok("tok".to_string()));
    assert_eq!(jwt_from_header(Some("Bearer ")), Ok("".to_string()));
    assert_eq!(jwt_from_header(Some("bearer x")), Err(Error::InvalidAuthHeaderError));
}

fn claims(roles: Option<Vec<&str>>, sub: Option<&str>) -> TokenClaims {
    TokenClaims {
        roles: roles.map(|rs| rs.into_iter().map(|r| Some(r.to_string())).collect()),
        sub: sub.map(|s| s.to_string()),
    }
}

#[test]
fn roles_are_checked() {
    let c = claims(Some(vec!["Viewer", "SuperUser"]), Some("u1"));
    assert_eq!(check_role(&c, Role::SuperUser), Ok("u1".to_string()));
    let c = claims(Some(vec!["Engineer"]), Some("u2"));
    assert_eq!(check_role(&c, Role::SuperUser), Err(Error::NoPermissionError));
    assert_eq!(check_role(&c, Role::Viewer), Ok("u2".to_string()));
    let c = claims(Some(vec!["Engineer"]), None);
    assert_eq!(check_role(&c, Role::Engineer), Err(Error::JWTTokenError));
    let c = claims(None, Some("u3"));
    assert_eq!(check_role(&c, Role::Viewer), Err(Error::JWTTokenError));
}

#[test]
fn role_names() {
    assert_eq!(Role::from_str("SuperUser"), Role::SuperUser);
    assert_eq!(Role::from_str("Engineer"), Role::Engineer);
    assert_eq!(Role::from_str("Admin"), Role::Viewer);
    assert_eq!(Role::Engineer.name(), "Engineer");
}

#[test]
fn users_are_created_and_can_log_in() {
    let mut list = Vec::new();
    assert_eq!(create_user(&mut list, &user("ID1", "alice", "secret", "Engineer")), Ok(()));
    assert_ne!(list[0].pwd, "secret");
    assert_eq!(create_user(&mut list, &user("id1", "bob", "x", "Viewer")), Err(Error::AddUserError));
    assert_eq!(create_user(&mut list, &user("id2", "ALICE", "x", "Viewer")), Err(Error::AddUserError));
    assert_eq!(list.len(), 1);
    assert_eq!(find_login_user(&list, "alice", "secret"), Some(0));
    assert_eq!(find_login_user(&list, "alice", "wrong"), None);
    assert_eq!(find_login_user(&list, "bob", "secret"), None);
}

#[test]
fn users_are_updated_and_deleted() {
    let mut list = Vec::new();
    create_user(&mut list, &user("a", "alice", "one", "Viewer")).unwrap();
    create_user(&mut list, &user("b", "bob", "two", "Viewer")).unwrap();
    update_user(&mut list, &user("b", "ignored", "three", "SuperUser"));
    assert_eq!(list[1].username, "bob");
    assert_eq!(list[1].role, "SuperUser");
    assert_eq!(find_login_user(&list, "bob", "three"), Some(1));
    assert_eq!(find_login_user(&list, "bob", "two"), None);
    delete_user(&mut list, &user("a", "", "", ""));
    assert_eq!(list.len(), 1);
    clear_passwords(&mut list);
    assert_eq!(list[0].pwd, "");
}

#[test]
fn the_administrator_is_created_first() {
    let users = default_users();
    assert_eq!(users.len(), 1);
    assert_eq!(users[0].username, "admin");
    assert_eq!(find_login_user(&users, "admin", "hm1admin"), Some(0));
    assert_eq!(get_user_file(""), "users.json");
    assert_eq!(get_user_file("app"), "/app/users.json");
}

#[test]
fn key_id_is_read_from_the_token_header() {
    let token = "eyJhbGciOiJSUzI1NiIsImtpZCI6ImFiYyJ9.eyJzdWIiOiJ4In0.c2ln";
    assert_eq!(extract_kid(token), Ok("abc".to_string()));
}

#[test]
fn tokens_without_a_key_id_are_refused() {
    assert_eq!(extract_kid("eyJhbGciOiJIUzI1NiJ9.eyJzdWIiOiJ4In0.c2ln"), Err(Error::ExtractJWKKidError));
    assert_eq!(extract_kid("no-dots-here"), Err(Error::ExtractJWKKidError));
    assert_eq!(extract_kid("!!!.payload"), Err(Error::ExtractJWKKidError));
}

#[test]
fn key_id_or_error() {
    assert_eq!(kid_or_error(Some("k1".to_string())), Ok("k1".to_string()));
    assert_eq!(kid_or_error(None), Err(Error::ExtractJWKKidError));
}

#[test]
fn role_lists_with_other_items_are_not_readable() {
    let mut c = claims(Some(vec!["Viewer"]), Some("u1"));
    assert!(has_readable_roles(&c));
    c.roles.as_mut().unwrap().push(None);
    assert!(!has_readable_roles(&c));
    assert!(has_readable_roles(&claims(None, Some("u1"))));
}

#[test]
fn stored_hashes_the_decoder_cannot_read_never_log_in() {
    assert!(is_decodable_hash("$2b$10$abcdefghijklmnopqrstuv"));
    assert!(!is_decodable_hash("$2b$10$abc\u{1}efghijklmnopqrstuv"));
    assert!(!is_decodable_hash("$2b$10$abc\u{80}efghijklmnopqrstuv"));
    let users = vec![
        user("1", "bob", "$2b$10$abc\u{1}efghijklmnopqrstuvwxyzABCDEFGHIJKLMNOPQRSTUV", "Viewer"),
        user("2", "bob", "$2b$10$abc\u{80}efghijklmnopqrstuvwxyzABCDEFGHIJKLMNOPQRSTUV", "Viewer"),
    ];
    assert_eq!(find_login_user(&users, "bob", "secret"), None);
}

fn key(kid: Option<&str>, json: &str) -> Jwk {
    Jwk { kid: kid.map(|k| k.to_string()), json: json.to_string() }
}

#[test]
fn the_first_key_with_the_id_is_found() {
    let keys = KeySet { keys: vec![key(None, "{}"), key(Some("a"), "{\"n\":1}"), key(Some("a"), "{\"n\":2}")] };
    assert_eq!(find_key(&keys, "a").map(|k| k.json.clone()), Some("{\"n\":1}".to_string()));
    assert!(find_key(&keys, "b").is_none());
}

#[test]
fn tokens_are_refused_at_the_step_that_fails() {
    let rsa = r#"{"kty":"RSA","kid":"abc","alg":"RS256","n":"xjlCRBqkOvmfKCvXE0t2B3vEfAC3dbnvOkTf5gyEPpDzhy6ul6XNrqgLAPqbzLE7GAHGbqTlBAsWaF2jHWFeqFAu4UG2LJ9LDfLBZDa6ufjNnpnM_ugKpYXAt0vHQgCwTtXnpL3WnTbAjFBXd5Y6FdJNkBcrjWpXy9AyRJ9cjlm2-dZBBGd4bmBFRyfUPB4GfwEdSH8EaWTzfRPBnGfUGUH5rPKChr6F5sHT0-O-dLIvxpkl7CNBZE04fHhsCj-q8Y7CGdmLVQVcb6tLUazAWMsP0fRv0HoBD6Tr_-0cAl2DAQ3SIr4TNpJkw9z8rQ4Kxx4uQLPs4aNyDoqPvqa0Q","e":"AQAB"}"#;
    let keys = KeySet { keys: vec![key(Some("abc"), rsa), key(Some("bad"), "not json")] };
    let no_kid = "eyJhbGciOiJIUzI1NiJ9.eyJzdWIiOiJ4In0.c2ln";
    assert_eq!(valid_jwt(no_kid, &keys, "iss", "aud", Role::Viewer), Err(Error::ExtractJWKKidError));
    let other_kid = "eyJhbGciOiJSUzI1NiIsImtpZCI6Inp6eiJ9.eyJzdWIiOiJ4In0.c2ln";
    assert_eq!(valid_jwt(other_kid, &keys, "iss", "aud", Role::Viewer), Err(Error::WrongCredentialsError));
    let bad_signature = "eyJhbGciOiJSUzI1NiIsImtpZCI6ImFiYyJ9.eyJzdWIiOiJ4In0.c2ln";
    assert_eq!(valid_jwt(bad_signature, &keys, "iss", "aud", Role::Viewer), Err(Error::JWTTokenError));
    let bad_key = "eyJhbGciOiJSUzI1NiIsImtpZCI6ImJhZCJ9.eyJzdWIiOiJ4In0.c2ln";
    assert_eq!(valid_jwt(bad_key, &keys, "iss", "aud", Role::Viewer), Err(Error::JWTTokenError));
}

#[test]
fn login_tokens_carry_the_user_and_role() {
    let token = create_jwt("u1", "Bob", &Role::Engineer, 4102444800).unwrap();
    let key = jsonwebtoken::DecodingKey::from_secret(b"openfmbsecrete2@2@");
    let validation = jsonwebtoken::Validation::new(jsonwebtoken::Algorithm::HS512);
    let data = jsonwebtoken::decode::<serde_json::Value>(&token, &key, &validation).unwrap();
    assert_eq!(data.claims["sub"], "u1");
    assert_eq!(data.claims["name"], "Bob");
    assert_eq!(data.claims["role"], "Engineer");
    assert_eq!(data.claims["exp"], 4102444800u64);
    let again = create_jwt("u1", "Bob", &Role::Engineer, 4102444800).unwrap();
    assert_eq!(token, again);
}
