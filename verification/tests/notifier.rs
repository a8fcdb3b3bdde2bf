use healthcheck::notifier::{
    AlertMessage, Config, DeliveryError, Notifier, NotifyError, PostRequest, Setting,
};
use healthcheck::reply::Reply;

fn pair(name: &str, value: &str) -> (String, String) {
    (name.to_string(), value.to_string())
}

#[test]
fn default_configuration_posts_to_the_notifications_channel() {
    let config = Config::with_default_channel(Some("xoxb-1".to_string()));
    assert_eq!(config.token, Some("xoxb-1".to_string()));
    assert_eq!(config.channel, Some("notifications".to_string()));
    let config = Config::with_default_channel(None);
    assert_eq!(config.token, None);
    assert_eq!(config.channel, Some("notifications".to_string()));
}

#[test]
fn prepared_post_carries_credential_channel_and_text() {
    let notifier = Notifier::new(Config::with_default_channel(Some("xoxb-1".to_string())));
    let request = notifier.prepare("db unreachable").expect("a post");
    assert_eq!(request.endpoint, "https://slack.com/api/chat.postMessage");
    assert_eq!(request.content_type, "application/x-www-form-urlencoded");
    assert_eq!(
        request.fields,
        vec![
            pair("token", "xoxb-1"),
            pair("channel", "notifications"),
            pair("text", "db unreachable"),
        ]
    );
}

#[test]
fn prepared_post_leaves_the_text_unencoded_and_whole() {
    let text = "a&b=c d\n\"quoted\" \u{00e9}\u{1F525} %20 +";
    let notifier = Notifier::new(Config {
        token: Some("t&k".to_string()),
        channel: Some("#ops alerts".to_string()),
    });
    let request = notifier.prepare(text).expect("a post");
    assert_eq!(
        request.fields,
        vec![pair("token", "t&k"), pair("channel", "#ops alerts"), pair("text", text)]
    );
}

#[test]
fn prepared_post_of_an_empty_text_has_an_empty_text_field() {
    let notifier = Notifier::new(Config::with_default_channel(Some("xoxb-1".to_string())));
    let request = notifier.prepare("").expect("a post");
    assert_eq!(request.fields[2], pair("text", ""));
    assert_eq!(request.fields.len(), 3);
}

#[test]
fn missing_token_is_a_configuration_error() {
    let notifier = Notifier::new(Config::with_default_channel(None));
    assert_eq!(
        notifier.prepare("db unreachable"),
        Err(NotifyError::Configuration { missing: Setting::Token })
    );
}

#[test]
fn missing_channel_is_a_configuration_error() {
    let notifier = Notifier::new(Config { token: Some("xoxb-1".to_string()), channel: None });
    assert_eq!(
        notifier.prepare("db unreachable"),
        Err(NotifyError::Configuration { missing: Setting::Channel })
    );
    assert_eq!(
        notifier.compose("db unreachable"),
        Err(NotifyError::Configuration { missing: Setting::Channel })
    );
}

#[test]
fn missing_token_is_named_before_a_missing_channel() {
    let notifier = Notifier::new(Config { token: None, channel: None });
    assert_eq!(
        notifier.prepare("x"),
        Err(NotifyError::Configuration { missing: Setting::Token })
    );
}

#[test]
fn empty_token_is_a_token() {
    let notifier = Notifier::new(Config::with_default_channel(Some(String::new())));
    let request = notifier.prepare("x").expect("a post");
    assert_eq!(request.fields[0], pair("token", ""));
}

#[test]
fn composed_alert_has_the_channel_and_the_text() {
    let notifier = Notifier::new(Config { token: None, channel: Some("ops".to_string()) });
    assert_eq!(
        notifier.compose("db unreachable"),
        Ok(AlertMessage { channel: "ops".to_string(), text: "db unreachable".to_string() })
    );
}

#[test]
fn post_for_an_alert_orders_its_fields() {
    let message = AlertMessage { channel: "ops".to_string(), text: "boom".to_string() };
    let request = PostRequest::for_alert("secret".to_string(), message);
    assert_eq!(
        request,
        PostRequest {
            endpoint: "https://slack.com/api/chat.postMessage".to_string(),
            content_type: "application/x-www-form-urlencoded".to_string(),
            fields: vec![pair("token", "secret"), pair("channel", "ops"), pair("text", "boom")],
        }
    );
}

#[test]
fn post_answered_in_the_success_range_is_delivered() {
    for status in [200u16, 201, 204, 299] {
        assert_eq!(Notifier::conclude(Reply::Response { status, body: None }), Ok(()));
    }
}

#[test]
fn negative_acknowledgement_in_the_body_is_not_looked_at() {
    let reply = Reply::Response {
        status: 200,
        body: Some("{\"ok\":false,\"error\":\"channel_not_found\"}".to_string()),
    };
    assert_eq!(Notifier::conclude(reply), Ok(()));
}

#[test]
fn post_answered_outside_the_success_range_is_rejected() {
    for status in [0u16, 199, 300, 302, 400, 401, 404, 429, 500, 503, 600] {
        assert_eq!(
            Notifier::conclude(Reply::Response { status, body: Some("ok".to_string()) }),
            Err(NotifyError::Delivery { failure: DeliveryError::Rejected { status } }),
            "status {status}"
        );
    }
}

#[test]
fn post_without_response_is_a_transport_delivery_failure() {
    let reply = Reply::NoResponse { cause: "dns error".to_string() };
    assert_eq!(
        Notifier::conclude(reply),
        Err(NotifyError::Delivery {
            failure: DeliveryError::Transport { cause: "dns error".to_string() }
        })
    );
}

#[test]
fn prepared_fields_encode_as_a_form_body() {
    let notifier = Notifier::new(Config::with_default_channel(Some("xoxb-1".to_string())));
    let request = notifier.prepare("db unreachable & more").expect("a post");
    let built = reqwest::Client::new()
        .post(request.endpoint.as_str())
        .header(reqwest::header::CONTENT_TYPE, request.content_type.as_str())
        .form(&request.fields)
        .build()
        .expect("a request");
    assert_eq!(built.url().as_str(), "https://slack.com/api/chat.postMessage");
    assert_eq!(built.method().as_str(), "POST");
    assert_eq!(
        built.headers().get(reqwest::header::CONTENT_TYPE).expect("a content type"),
        "application/x-www-form-urlencoded"
    );
    assert_eq!(
        built.body().expect("a body").as_bytes().expect("bytes"),
        b"token=xoxb-1&channel=notifications&text=db+unreachable+%26+more"
    );
}
