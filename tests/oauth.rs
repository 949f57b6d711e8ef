use unielit_server::errors::AppError;
use unielit_server::oauth::{parse_token_response, token_from_form, token_from_json, GitHubAuth, JsonScalar};

fn pairs(p: &[(&str, &str)]) -> Vec<(String, String)> {
    p.iter().map(|(k, v)| (k.to_string(), v.to_string())).collect()
}

#[test]
fn form_body_gives_the_grant() {
    let body = "access_token=ghu_X&expires_in=28800&refresh_token=ghr_Y&refresh_token_expires_in=15897600&scope=repo&token_type=bearer";
    let t = parse_token_response(body).unwrap();
    assert_eq!(t.access_token, "ghu_X");
    assert_eq!(t.expires_in, 28800);
    assert_eq!(t.refresh_token, "ghr_Y");
    assert_eq!(t.refresh_token_expires_in, 15897600);
    assert_eq!(t.scope, "repo");
    assert_eq!(t.token_type, "bearer");
}

#[test]
fn form_values_are_percent_decoded() {
    let body = "access_token=a%2Bb&expires_in=1&refresh_token=r+s&refresh_token_expires_in=2&scope=repo%2Cuser&token_type=bearer";
    let t = parse_token_response(body).unwrap();
    assert_eq!(t.access_token, "a+b");
    assert_eq!(t.refresh_token, "r s");
    assert_eq!(t.scope, "repo,user");
}

#[test]
fn json_body_gives_the_grant() {
    let body = r#"{"access_token":"ghu_X","expires_in":28800,"refresh_token":"ghr_Y","refresh_token_expires_in":15897600,"scope":"repo","token_type":"bearer"}"#;
    let t = parse_token_response(body).unwrap();
    assert_eq!(t.access_token, "ghu_X");
    assert_eq!(t.expires_in, 28800);
    assert_eq!(t.refresh_token_expires_in, 15897600);
    assert_eq!(t.token_type, "bearer");
}

#[test]
fn error_body_is_kept_verbatim() {
    let body = "error=bad_verification_code&error_description=The+code+passed+is+incorrect";
    assert_eq!(parse_token_response(body).unwrap_err(), AppError::GithubAuthError(body.to_string()));
    let json = r#"{"error":"bad_refresh_token"}"#;
    assert_eq!(parse_token_response(json).unwrap_err(), AppError::GithubAuthError(json.to_string()));
    assert_eq!(parse_token_response("").unwrap_err(), AppError::GithubAuthError(String::new()));
}

#[test]
fn out_of_range_number_is_no_grant() {
    let body = "access_token=a&expires_in=2147483648&refresh_token=r&refresh_token_expires_in=2&scope=s&token_type=t";
    assert!(matches!(parse_token_response(body), Err(AppError::GithubAuthError(_))));
}

fn text(s: &str) -> JsonScalar {
    JsonScalar::Text(s.to_string())
}

fn number(s: &str) -> JsonScalar {
    JsonScalar::Number(s.to_string())
}

#[test]
fn fields_in_any_order_and_extra_fields_ignored() {
    let f = pairs(&[("scope", "repo"), ("x", "y"), ("x", "z"), ("token_type", "bearer"), ("refresh_token_expires_in", "-5"),
        ("refresh_token", "r"), ("expires_in", "+7"), ("access_token", "a")]);
    let t = token_from_form(&f).unwrap();
    assert_eq!(t.access_token, "a");
    assert_eq!(t.expires_in, 7);
    assert_eq!(t.refresh_token_expires_in, -5);
}

#[test]
fn repeated_field_is_no_grant() {
    let f = pairs(&[("access_token", "a"), ("expires_in", "1"), ("refresh_token", "r"), ("refresh_token_expires_in", "2"),
        ("scope", "s"), ("token_type", "t"), ("access_token", "second")]);
    assert!(token_from_form(&f).is_none());
    let body = "access_token=a&expires_in=1&expires_in=1&refresh_token=r&refresh_token_expires_in=2&scope=s&token_type=t";
    assert_eq!(parse_token_response(body).unwrap_err(), AppError::GithubAuthError(body.to_string()));
}

#[test]
fn missing_field_is_no_grant() {
    let f = pairs(&[("access_token", "a"), ("expires_in", "1"), ("refresh_token", "r"), ("scope", "s"), ("token_type", "t")]);
    assert!(token_from_form(&f).is_none());
}

fn good_entries() -> Vec<(String, JsonScalar)> {
    vec![
        ("access_token".to_string(), text("a")),
        ("expires_in".to_string(), number("1")),
        ("refresh_token".to_string(), text("r")),
        ("refresh_token_expires_in".to_string(), number("2")),
        ("scope".to_string(), text("s")),
        ("token_type".to_string(), text("t")),
    ]
}

#[test]
fn json_fields_need_the_right_kinds() {
    assert_eq!(token_from_json(&good_entries()).unwrap().access_token, "a");
    let mut quoted_number = good_entries();
    quoted_number[1].1 = text("1");
    assert!(token_from_json(&quoted_number).is_none());
    let mut fraction = good_entries();
    fraction[3].1 = number("2.5");
    assert!(token_from_json(&fraction).is_none());
    let mut null = good_entries();
    null[0].1 = JsonScalar::Other;
    assert!(token_from_json(&null).is_none());
}

#[test]
fn json_strings_come_decoded() {
    let body = r#"{"access_token":"gh\"u","expires_in":1,"refresh_token":"r\u00e9","refresh_token_expires_in":2,"scope":"s","token_type":"t"}"#;
    let t = parse_token_response(body).unwrap();
    assert_eq!(t.access_token, "gh\"u");
    assert_eq!(t.refresh_token, "r\u{e9}");
}

#[test]
fn json_body_after_form_attempt() {
    let body = r#"{"access_token":"ghu_X","expires_in":28800,"refresh_token":"ghr_Y","refresh_token_expires_in":15897600,"scope":"repo","token_type":"bearer","extra":[1,2]}"#;
    assert_eq!(parse_token_response(body).unwrap().refresh_token, "ghr_Y");
}
