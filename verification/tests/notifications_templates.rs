use coupon_api_server::notifications::policy::NotificationPurpose;
use coupon_api_server::notifications::templates::{
    escape, render, substitute, NotificationTemplate, Variables, DEFAULT_LOCALE,
};
use coupon_api_server::notifications::NotificationChannel;

fn template(body: &str, variables: &[&str]) -> NotificationTemplate {
    NotificationTemplate {
        id: 1,
        code: "STAMP_EARNED".to_owned(),
        version_no: 1,
        locale: DEFAULT_LOCALE.to_owned(),
        channel: NotificationChannel::InApp,
        purpose: NotificationPurpose::Transactional,
        provider_template_id: None,
        provider_approval_status: Some("NOT_REQUIRED".to_owned()),
        subject_template: Some("{{store_name}}".to_owned()),
        body_template: body.to_owned(),
        variables: variables.iter().map(|name| (*name).to_owned()).collect(),
        priority: "NORMAL".to_owned(),
        active: true,
    }
}

fn vars(pairs: &[(&str, &str)]) -> Variables {
    let mut v = Variables::new();
    for (key, value) in pairs {
        v.insert(key, value);
    }
    v
}

#[test]
fn allow_listed_variables_are_substituted() {
    let rendered = render(
        &template("{{store_name}}에서 도장 {{quantity}}개", &["store_name", "quantity"]),
        &vars(&[("store_name", "브로트베르크"), ("quantity", "2")]),
    );
    assert_eq!(rendered.body, "브로트베르크에서 도장 2개");
    assert_eq!(rendered.subject, "브로트베르크");
}

#[test]
fn user_supplied_markup_never_survives_into_the_payload() {
    let rendered = render(&template("{{store_name}} 알림", &["store_name"]), &vars(&[("store_name", "<script>alert('x')</script>")]));
    assert!(!rendered.body.contains('<'), "{}", rendered.body);
    assert!(!rendered.body.contains('>'), "{}", rendered.body);
    assert!(rendered.body.contains("&lt;script&gt;"), "{}", rendered.body);
}

#[test]
fn a_variable_the_template_does_not_name_is_not_substitutable() {
    let rendered = render(
        &template("{{store_name}} / {{secret}}", &["store_name"]),
        &vars(&[("store_name", "가게"), ("secret", "내부 메모")]),
    );
    assert_eq!(rendered.body, "가게 / ");
    assert!(!rendered.variables.contains_key("secret"));
}

#[test]
fn a_value_cannot_smuggle_a_second_placeholder() {
    let rendered = render(
        &template("{{store_name}}", &["store_name", "secret"]),
        &vars(&[("store_name", "{{secret}}"), ("secret", "내부 메모")]),
    );
    assert_eq!(rendered.body, "secret");
}

#[test]
fn a_missing_value_renders_empty_rather_than_leaking_the_placeholder() {
    let rendered = render(&template("남은 {{remaining}}개", &["remaining"]), &vars(&[]));
    assert_eq!(rendered.body, "남은 개");
}

#[test]
fn an_unterminated_placeholder_truncates_instead_of_leaking() {
    let rendered = render(&template("안녕 {{store_name", &["store_name"]), &vars(&[]));
    assert_eq!(rendered.body, "안녕 ");
}

#[test]
fn an_unapproved_alimtalk_template_is_not_sendable() {
    let mut alimtalk = template("본문", &[]);
    alimtalk.channel = NotificationChannel::KakaoAlimtalk;
    alimtalk.provider_template_id = None;
    alimtalk.provider_approval_status = Some("PENDING".to_owned());
    assert!(!alimtalk.is_sendable());
    alimtalk.provider_template_id = Some("TPL-1".to_owned());
    assert!(!alimtalk.is_sendable(), "an id without approval is not enough");
    alimtalk.provider_approval_status = Some("APPROVED".to_owned());
    assert!(alimtalk.is_sendable());
}

#[test]
fn an_inactive_template_is_never_sendable() {
    let mut inactive = template("본문", &[]);
    inactive.active = false;
    assert!(!inactive.is_sendable());
}

#[test]
fn escaping_replaces_markup_and_drops_braces() {
    assert_eq!(escape("a<b>&\"c'"), "a&lt;b&gt;&amp;&quot;c&#x27;");
    assert_eq!(escape("{x}"), "x");
    assert_eq!(escape("평문"), "평문");
}

#[test]
fn variables_keep_each_name_once_with_its_latest_value() {
    let mut v = Variables::new();
    v.insert("a", "1");
    v.insert("b", "2");
    v.insert("a", "3");
    assert_eq!(v.len(), 2);
    assert_eq!(v.get("a").as_deref(), Some("3"));
    assert_eq!(v.get("b").as_deref(), Some("2"));
    assert_eq!(v.get("c"), None);
    assert!(v.contains_key("b"));
}

#[test]
fn substitution_is_single_pass_and_ignores_unknown_names() {
    let v = vars(&[("a", "{{b}}"), ("b", "x")]);
    assert_eq!(substitute("[{{a}}]{{c}}", &v), "[{{b}}]");
    assert_eq!(substitute("no placeholders", &v), "no placeholders");
}
