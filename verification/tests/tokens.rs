use onsen_compo::token::Authentication;
use onsen_compo::token::AuthType;
use onsen_compo::token::TokenData;
use onsen_compo::token::TOKEN_AVAILABLE_SECONDS;

#[test]
fn it_builds_fresh_guest_claims() {
    let token = TokenData::new(Some("user-1"));
    assert_eq!(token.get_id(), "user-1");
    assert_eq!(token.iss, "http://yu.xaxxi.net");
    assert_eq!(token.aud, "http://yu.xaxxi.net");
    assert_eq!(token.nbf, token.iat);
    assert_eq!(token.exp, token.iat + TOKEN_AVAILABLE_SECONDS);
    assert!(token.is_guest());
    assert_eq!(token.jti.len(), 36);
}

#[test]
fn it_assigns_a_guest_subject_when_none_is_given() {
    let token = TokenData::new(None);
    assert!(token.get_id().starts_with("g:"));
    assert_eq!(token.get_id().len(), 34);
}

#[test]
fn it_is_available_strictly_after_nbf_and_until_exp() {
    let token = TokenData {
        iss: "i".to_string(),
        sub: "s".to_string(),
        aud: "a".to_string(),
        iat: 100,
        nbf: 100,
        exp: 200,
        jti: "j".to_string(),
        auth_type: AuthType::Guest,
    };
    assert!(!token.is_available_at(99));
    assert!(!token.is_available_at(100));
    assert!(token.is_available_at(101));
    assert!(token.is_available_at(200));
    assert!(!token.is_available_at(201));
}

#[test]
fn it_makes_a_new_guest_identity() {
    match Authentication::guest_new() {
        Authentication::Guest { guestid } => {
            assert!(guestid.starts_with("g:"));
            assert_eq!(guestid.len(), 34);
        }
        Authentication::Signin { .. } => panic!("guest_new made a sign-in"),
    }
}

#[test]
fn it_maps_guest_claims_to_a_guest_authentication() {
    let token = TokenData {
        iss: "i".to_string(),
        sub: "g:1234".to_string(),
        aud: "a".to_string(),
        iat: 0,
        nbf: 0,
        exp: 1,
        jti: "j".to_string(),
        auth_type: AuthType::Guest,
    };
    assert_eq!(
        Authentication::from(token),
        Authentication::Guest { guestid: "g:1234".to_string() }
    );
}

#[test]
fn it_maps_signin_claims_to_a_signin_authentication() {
    let token = TokenData {
        iss: "i".to_string(),
        sub: "u-9".to_string(),
        aud: "a".to_string(),
        iat: 0,
        nbf: 0,
        exp: 1,
        jti: "j".to_string(),
        auth_type: AuthType::Signin,
    };
    assert_eq!(
        Authentication::from(token),
        Authentication::Signin { userid: "u-9".to_string() }
    );
}
