use xbox::auth::legacy_password::{
    capture_post_url, capture_ppft, capture_rps_ticket, parse_login_page, parse_login_redirect,
    rps_ticket_property, user_token_request,
};
use xbox::auth::LegacyPasswordProvider;
use xbox::XboxError;

#[test]
fn test_ppft() {
    let example = r#""sFTTag":"<input type="hidden" name="PPFT" id="i0327" value="-DuVDERK6Xc4y!W6TFISm6lRFQ2fsCIP1vhyC9hyCT62Ecw4SqPht3EGC1KcUx8vNKhwDDO5yJ!bO!ErUA8VhLUtIii6xG6uxTkzaoOdXBV4rMQweK6ii!dOR*mhTdQqzTxCbkf2oBsvQQVTgGR99TWAlHbNFtS3LRwVIGSKJehlgKk9eLVdSTfO1YwTa51qczv!38Lqh*kbBcUfQ4Zfz0a!OqFTdGTl8q*6cm7P9LEeVhs3q0L92uP5Cu*!AV*lNEg$$"/>"#;
    let ppft = capture_ppft(example);
    assert!(ppft.is_some(), "PPFT should be captured");
    let ppft = ppft.unwrap();
    assert!(!ppft.is_empty(), "PPFT should be 1 token");
    assert_eq!(
        ppft,
        "-DuVDERK6Xc4y!W6TFISm6lRFQ2fsCIP1vhyC9hyCT62Ecw4SqPht3EGC1KcUx8vNKhwDDO5yJ!bO!ErUA8VhLUtIii6xG6uxTkzaoOdXBV4rMQweK6ii!dOR*mhTdQqzTxCbkf2oBsvQQVTgGR99TWAlHbNFtS3LRwVIGSKJehlgKk9eLVdSTfO1YwTa51qczv!38Lqh*kbBcUfQ4Zfz0a!OqFTdGTl8q*6cm7P9LEeVhs3q0L92uP5Cu*!AV*lNEg$$"
    );
}

#[test]
fn test_post() {
    let example = r#""urlPost":"https://login.live.com/ppsecure/post.srf?client_id=000000004C12AE6F&contextid=5B318DF9700F9B69&opid=CF610FC6C48CE9DC&bk=1757300168&uaid=01b2c4913fdd4f6bb10d5253ee938646&pid=15216""#;
    let post = capture_post_url(example);
    assert!(post.is_some(), "urlPost should be captured");
    let post = post.unwrap();
    assert!(!post.is_empty(), "urlPost should be 1 token");
    assert_eq!(
        post,
        "https://login.live.com/ppsecure/post.srf?client_id=000000004C12AE6F&contextid=5B318DF9700F9B69&opid=CF610FC6C48CE9DC&bk=1757300168&uaid=01b2c4913fdd4f6bb10d5253ee938646&pid=15216"
    );
}

#[test]
fn test_rps_ticket() {
    let location = "https://login.live.com/oauth20_desktop.srf?access_token=EwAAA...&token_type=bearer&expires_in=3600";
    let captures = capture_rps_ticket(location);
    assert!(captures.is_some());
    assert_eq!(captures.unwrap(), "EwAAA...");
}

#[test]
fn escaped_login_page_markup_is_read() {
    let body = r#"sFTTag:'<input type=\"hidden\" name=\"PPFT\" id=\"i0327\" value=\"abc!def\"/>', \"urlPost\":\"https://login.live.com/post.srf?x=1\""#;
    let (ppft, post) = parse_login_page(body).unwrap();
    assert_eq!(ppft, "abc!def");
    assert_eq!(post, "https://login.live.com/post.srf?x=1");
}

#[test]
fn login_page_without_ppft_is_rejected() {
    let body = r#""urlPost":"https://login.live.com/post.srf""#;
    assert!(matches!(parse_login_page(body), Err(XboxError::PpftNotFound)));
}

#[test]
fn login_page_without_post_url_is_rejected() {
    let body = r#"<input type="hidden" name="PPFT" id="i0327" value="tok"/>"#;
    assert!(matches!(parse_login_page(body), Err(XboxError::PostUrlNotFound)));
}

#[test]
fn login_redirect_carries_the_ticket() {
    let location = "https://login.live.com/oauth20_desktop.srf?access_token=EwB-ticket&token_type=bearer";
    assert_eq!(parse_login_redirect(302, Some(location)).unwrap(), "EwB-ticket");
}

#[test]
fn login_redirect_without_ticket_is_rejected() {
    let location = "https://login.live.com/oauth20_desktop.srf?error=access_denied";
    assert!(matches!(parse_login_redirect(302, Some(location)), Err(XboxError::RpsTicketNotFound)));
}

#[test]
fn redirect_without_location_is_reported() {
    assert!(matches!(parse_login_redirect(302, None), Err(XboxError::MissingRedirectLocation)));
}

#[test]
fn rejected_credentials_are_reported() {
    assert!(matches!(parse_login_redirect(200, None), Err(XboxError::InvalidCredentials)));
}

#[test]
fn login_form_carries_the_credentials() {
    let provider = LegacyPasswordProvider::new("my-username", "my-password");
    let form = provider.login_form("ppft-token".to_string());
    assert_eq!(form.login, "my-username");
    assert_eq!(form.passwd, "my-password");
    assert_eq!(form.ppft, "ppft-token");
    assert_eq!(form.login_options, "3");
}

#[test]
fn rps_ticket_property_prefixes_d() {
    assert_eq!(rps_ticket_property("EwAAA"), "d=EwAAA");
}

#[test]
fn user_token_request_carries_the_ticket() {
    let request = user_token_request("EwAAA");
    assert_eq!(request.relying_party, "http://auth.xboxlive.com");
    assert_eq!(request.token_type, "JWT");
    assert_eq!(request.auth_method, "RPS");
    assert_eq!(request.site_name, "user.auth.xboxlive.com");
    assert_eq!(request.rps_ticket, "d=EwAAA");
}
