use sprt::cli::{CredCommand, CredMode};
use sprt::credential::{
    credential_url, parse_u128, plan_request, session_plan, CredError, SessionError, SessionPlan,
};

fn opts(mode: CredMode) -> CredCommand {
    CredCommand {
        mode,
        user_name: None,
        password: None,
        confirm_password: None,
        aws_access_key_id: None,
        aws_secret_access_key: None,
        role_arn: None,
        profile: None,
        region: None,
    }
}

fn fields(req: &sprt::credential::CredRequest) -> Vec<(String, String)> {
    req.body.iter().map(|f| (f.key.clone(), f.value.clone())).collect()
}

#[test]
fn register_needs_every_value() {
    let mut o = opts(CredMode::Register);
    o.user_name = Some(String::from("kim"));
    o.password = Some(String::from("pw"));
    assert!(matches!(plan_request(&o, &String::new()), Err(CredError::MissingValues)));
    o.confirm_password = Some(String::from("pw"));
    o.aws_access_key_id = Some(String::from("AK"));
    o.aws_secret_access_key = Some(String::from("SK"));
    let req = plan_request(&o, &String::new()).ok().unwrap();
    assert_eq!(req.endpoint, "register");
    assert_eq!(fields(&req).len(), 5);
    assert_eq!(fields(&req)[3], (String::from("aws_access_key_id"), String::from("AK")));
}

#[test]
fn develop_sends_defaults_and_session() {
    let o = opts(CredMode::Develop);
    let req = plan_request(&o, &String::from("key-1")).ok().unwrap();
    assert_eq!(req.endpoint, "local-dev");
    assert_eq!(
        fields(&req),
        vec![
            (String::from("user_name"), String::new()),
            (String::from("password"), String::new()),
            (String::from("private_key"), String::from("key-1")),
        ]
    );
}

#[test]
fn session_and_revoke_need_a_key() {
    assert!(matches!(plan_request(&opts(CredMode::Revoke), &String::new()), Err(CredError::NoSession)));
    assert!(matches!(plan_request(&opts(CredMode::Session), &String::new()), Err(CredError::NoSession)));
    let req = plan_request(&opts(CredMode::Revoke), &String::from("k")).ok().unwrap();
    assert_eq!(req.endpoint, "revoke");
    assert_eq!(fields(&req), vec![(String::from("private_key"), String::from("k"))]);
    assert!(matches!(plan_request(&opts(CredMode::Session), &String::from("k")), Err(CredError::MissingValues)));
}

#[test]
fn add_profile_sends_region_default() {
    let mut o = opts(CredMode::AddProfile);
    o.user_name = Some(String::from("u"));
    o.password = Some(String::from("p"));
    o.role_arn = Some(String::from("arn:aws:iam::1:role/x"));
    o.profile = Some(String::from("dev"));
    let req = plan_request(&o, &String::new()).ok().unwrap();
    assert_eq!(req.endpoint, "add-profile");
    assert_eq!(fields(&req)[4], (String::from("region"), String::new()));
    o.mode = CredMode::UpdateProfile;
    assert_eq!(plan_request(&o, &String::new()).ok().unwrap().endpoint, "update-profile");
}

#[test]
fn urls_by_environment() {
    assert_eq!(credential_url(false, "aws-cli"), "https://gcs.spartacodingclub.com/credential/aws-cli");
    assert_eq!(credential_url(true, "revoke"), "http://localhost:8080/credential/revoke");
}

#[test]
fn session_plan_cases() {
    let day = 86_400_000u128;
    assert!(matches!(session_plan("", 5), Ok(SessionPlan::Create)));
    assert!(matches!(session_plan("abc 1000\n", 1000 + day), Ok(SessionPlan::Reuse(k)) if k == "abc"));
    assert!(matches!(session_plan("abc 1000\n", 1001 + day), Ok(SessionPlan::Create)));
    assert!(matches!(session_plan("abc 1000\n", 999), Err(SessionError::ClockSkew)));
    assert!(matches!(session_plan("abc\n", 5), Err(SessionError::Malformed)));
    assert!(matches!(session_plan("abc x\n", 5), Ok(SessionPlan::Unkeyed)));
    assert!(matches!(session_plan("old 1\nnew 2000 extra\r\n", 3000), Ok(SessionPlan::Reuse(k)) if k == "new"));
    assert!(matches!(session_plan("\n", 3000), Err(SessionError::Malformed)));
}

#[test]
fn parse_u128_like_std() {
    assert_eq!(parse_u128("0"), Some(0));
    assert_eq!(parse_u128("+42"), Some(42));
    assert_eq!(parse_u128("340282366920938463463374607431768211455"), Some(u128::MAX));
    assert_eq!(parse_u128("340282366920938463463374607431768211456"), None);
    assert_eq!(parse_u128(""), None);
    assert_eq!(parse_u128("+"), None);
    assert_eq!(parse_u128("-1"), None);
    assert_eq!(parse_u128("1x"), None);
    for s in ["7", "+7", "0012", "99999999999", "a", " 1"] {
        assert_eq!(parse_u128(s), s.parse::<u128>().ok());
    }
}

use sprt::credential::resolve_session;

#[test]
fn resolve_session_makes_fresh_key() {
    let s = resolve_session("", 10).ok().unwrap();
    assert!(s.is_new);
    assert_eq!(s.key.len(), 36);
    assert!(s.key.chars().all(|c| c.is_ascii_digit() || ('a'..='f').contains(&c) || c == '-'));
    let t = resolve_session("", 10).ok().unwrap();
    assert_ne!(s.key, t.key);
}

#[test]
fn resolve_session_reuses_or_leaves_unkeyed() {
    let s = resolve_session("k1 100\n", 200).ok().unwrap();
    assert!(!s.is_new);
    assert_eq!(s.key, "k1");
    let u = resolve_session("k1 later\n", 200).ok().unwrap();
    assert!(!u.is_new && u.key.is_empty());
    assert!(matches!(resolve_session("nospace", 1), Err(SessionError::Malformed)));
}
