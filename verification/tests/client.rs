use xbox::cache::CachedToken;
use xbox::client::{
    search_authorization, xsts_cache_entry, xsts_request, xuid_cache_entry, xuid_cache_entry_now,
    RetryStep, SingleRetry, XUID_CACHE_TTL_MICROS,
};
use xbox::error::check_status;
use xbox::models::{DisplayClaims, PeopleSearchResponse, Person, UserToken, XstsToken, XuiItem, Xuid};
use xbox::people::{eq_ignore_ascii_case, find_gamertag, search_url};
use xbox::{RelyingParty, XboxEndpoints, XboxError};

fn ticket(claims: Vec<XuiItem>) -> XstsToken {
    XstsToken {
        token: "fake-xsts-token".to_string(),
        not_after: 1_750_000_000_000_000,
        display_claims: DisplayClaims { xui: claims },
    }
}

fn claim(uhs: &str, gtg: Option<&str>, xid: Option<&str>) -> XuiItem {
    XuiItem {
        uhs: uhs.to_string(),
        gtg: gtg.map(|s| s.to_string()),
        xid: xid.map(|s| s.to_string()),
    }
}

fn people(entries: &[(&str, &str)]) -> PeopleSearchResponse {
    PeopleSearchResponse {
        people: entries
            .iter()
            .map(|(gamertag, xuid)| Person { gamertag: gamertag.to_string(), xuid: xuid.to_string() })
            .collect(),
    }
}

#[test]
fn resolves_gamertag_to_xuid() {
    let payload = people(&[("Some Gamertag", "123456789")]);
    let xuid = find_gamertag(&payload, "Some Gamertag").unwrap();
    assert_eq!(xuid.as_str(), "123456789");
}

#[test]
fn person_not_found_when_no_exact_match() {
    let payload = people(&[("Someone Else", "999")]);
    let err = find_gamertag(&payload, "Some Gamertag").unwrap_err();
    assert!(matches!(err, XboxError::PersonNotFound(gt) if gt == "Some Gamertag"));
}

#[test]
fn gamertag_match_ignores_ascii_case_and_takes_the_first() {
    let payload = people(&[("Some Gamertags", "1"), ("SOME gamertag", "2"), ("some gamertag", "3")]);
    assert_eq!(find_gamertag(&payload, "Some Gamertag").unwrap().as_str(), "2");
    assert!(eq_ignore_ascii_case("Ärger", "Ärger"));
    assert!(!eq_ignore_ascii_case("Ärger", "ärger"));
    assert!(!eq_ignore_ascii_case("a", "ab"));
}

#[test]
fn search_url_encodes_the_discriminator() {
    assert_eq!(
        search_url("https://peoplehub.xboxlive.com", "Some Gamertag#1234"),
        "https://peoplehub.xboxlive.com/users/me/people/search/decoration/detail?q=Some Gamertag%25231234&maxItems=5"
    );
}

#[test]
fn default_endpoints_are_the_real_services() {
    let endpoints = XboxEndpoints::default();
    assert_eq!(endpoints.xsts_authorize_url, "https://xsts.auth.xboxlive.com/xsts/authorize");
    assert_eq!(endpoints.peoplehub_base_url, "https://peoplehub.xboxlive.com");
}

#[test]
fn xsts_ticket_accessors_read_the_first_claim() {
    let t = ticket(vec![claim("fake-uhs", Some("Me"), Some("42")), claim("other", None, None)]);
    assert_eq!(t.user_hash(), Some("fake-uhs"));
    assert_eq!(t.authorization_header().unwrap(), "XBL3.0 x=fake-uhs;fake-xsts-token");
    assert_eq!(t.gamertag(), Some("Me"));
    assert_eq!(t.xuid(), Some(Xuid("42".to_string())));
    let bare = ticket(vec![claim("fake-uhs", None, None)]);
    assert_eq!(bare.gamertag(), None);
    assert_eq!(bare.xuid(), None);
}

#[test]
fn ticket_without_claims_cannot_authorize_a_search() {
    let t = ticket(Vec::new());
    assert_eq!(t.user_hash(), None);
    assert_eq!(t.authorization_header(), None);
    let err = search_authorization(&t, "Some Gamertag").unwrap_err();
    assert!(matches!(err, XboxError::PersonNotFound(gt) if gt == "Some Gamertag"));
    let ok = search_authorization(&ticket(vec![claim("h", None, None)]), "x").unwrap();
    assert_eq!(ok, "XBL3.0 x=h;fake-xsts-token");
}

#[test]
fn cache_entries_expire_as_their_credentials_do() {
    let t = ticket(Vec::new());
    let entry = xsts_cache_entry(t.clone());
    assert_eq!(entry.expires_at, 1_750_000_000_000_000);
    assert_eq!(entry.value.token, "fake-xsts-token");
    let x = xuid_cache_entry(Xuid::from("7".to_string()), 1_000);
    assert_eq!(x.expires_at, 1_000 + 86_400_000_000);
    assert_eq!(x.value.as_str(), "7");
    let now_entry = xuid_cache_entry_now(Xuid::from("8")).unwrap();
    assert!(now_entry.expires_at > XUID_CACHE_TTL_MICROS);
    assert_eq!(now_entry.value.as_str(), "8");
    let user: CachedToken<String> =
        UserToken { token: "fake-user-token".to_string(), not_after: 5 }.into_cached();
    assert_eq!(user.value, "fake-user-token");
    assert_eq!(user.expires_at, 5);
}

#[test]
fn unauthorized_is_retried_exactly_once() {
    let unauthorized: Result<(), XboxError> =
        Err(XboxError::HttpStatus { url: "u".to_string(), status: 401 });
    let mut policy = SingleRetry::new();
    assert_eq!(policy.after_attempt(&unauthorized), RetryStep::InvalidateAndRetry);
    assert_eq!(policy.after_attempt(&unauthorized), RetryStep::Finish);
}

#[test]
fn other_outcomes_are_not_retried() {
    let forbidden: Result<(), XboxError> =
        Err(XboxError::HttpStatus { url: "u".to_string(), status: 403 });
    let ok: Result<(), XboxError> = Ok(());
    let missing: Result<(), XboxError> = Err(XboxError::PersonNotFound("g".to_string()));
    assert_eq!(SingleRetry::new().after_attempt(&forbidden), RetryStep::Finish);
    assert_eq!(SingleRetry::new().after_attempt(&ok), RetryStep::Finish);
    assert_eq!(SingleRetry::new().after_attempt(&missing), RetryStep::Finish);
}

#[test]
fn status_checks() {
    assert!(check_status("https://x", 200).is_ok());
    assert!(check_status("https://x", 299).is_ok());
    let err = check_status("https://x", 401).unwrap_err();
    assert!(err.is_unauthorized());
    assert!(matches!(err, XboxError::HttpStatus { ref url, status: 401 } if url == "https://x"));
    let err = check_status("https://x", 199).unwrap_err();
    assert!(!err.is_unauthorized());
    assert!(check_status("https://x", 300).is_err());
}

#[test]
fn xsts_ticket_is_scoped_per_relying_party() {
    let xbox = RelyingParty::xbox();
    let halo = RelyingParty::new("https://prod.xsts.halowaypoint.com/");
    assert_eq!(xbox.as_str(), "http://xboxlive.com");
    assert_eq!(halo.as_str(), "https://prod.xsts.halowaypoint.com/");
    assert_ne!(xbox, halo);
}

#[test]
fn xuid_from_str_keeps_the_raw_form() {
    assert_eq!(Xuid::from("123456789").as_str(), "123456789");
    assert_eq!(Xuid::from("123456789".to_string()).as_str(), "123456789");
}

#[test]
fn xsts_request_names_the_relying_party_and_user_token() {
    let request = xsts_request("fake-user-token", RelyingParty::xbox());
    assert_eq!(request.relying_party, "http://xboxlive.com");
    assert_eq!(request.token_type, "JWT");
    assert_eq!(request.sandbox_id, "RETAIL");
    assert_eq!(request.user_tokens, vec!["fake-user-token".to_string()]);
}

#[test]
fn relying_parties_compare_by_uri() {
    assert_eq!(RelyingParty::new("http://xboxlive.com"), RelyingParty::xbox());
    let owned = String::from("https://prod.xsts.halowaypoint.com/");
    let leaked: &'static str = Box::leak(owned.into_boxed_str());
    assert_eq!(RelyingParty::new(leaked), RelyingParty::new("https://prod.xsts.halowaypoint.com/"));
    assert_ne!(RelyingParty::new("a"), RelyingParty::new("ab"));
}
