use tauri_runtime_cef::cef_helper;
use tauri_runtime_cef::decimal::decimal;
use tauri_runtime_cef::notification::{
    show_message, IpcMessage, NotificationRequest, ScriptArgument, ScriptProperty, ScriptValue, BODY,
    ICON, TAG,
};
use tauri_runtime_cef::notification_hook::{
    show_delivery, Assignment, Delivery, HookParts, HookTarget, HookValue, ObjectValue, Reply,
    Resolution,
};
use tauri_runtime_cef::render_process_handler;
use tauri_runtime_cef::web_origin::{origin_from, origin_from_parts, origin_from_url, UrlParts};

fn text(text: &str) -> ScriptValue {
    ScriptValue {
        is_string: 1,
        string_value: text.to_string(),
    }
}

fn other() -> ScriptValue {
    ScriptValue {
        is_string: 0,
        string_value: String::new(),
    }
}

fn property(value: &str) -> ScriptProperty {
    ScriptProperty {
        has_value: 1,
        value: Some(text(value)),
    }
}

fn absent() -> ScriptProperty {
    ScriptProperty {
        has_value: 0,
        value: None,
    }
}

fn title(value: &str) -> ScriptArgument {
    ScriptArgument {
        value: text(value),
        is_object: 0,
        body: absent(),
        icon: absent(),
        tag: absent(),
    }
}

fn options(body: ScriptProperty, icon: ScriptProperty, tag: ScriptProperty) -> ScriptArgument {
    ScriptArgument {
        value: other(),
        is_object: 1,
        body,
        icon,
        tag,
    }
}

fn fields(request: &NotificationRequest) -> (&str, Option<&str>, Option<&str>, Option<&str>) {
    (
        request.title.as_str(),
        request.body.as_deref(),
        request.icon.as_deref(),
        request.tag.as_deref(),
    )
}

fn parts(message: &IpcMessage) -> (&str, Vec<&str>) {
    (
        message.name,
        message.arguments.iter().map(|a| a.as_str()).collect(),
    )
}

#[test]
fn cut_origin_ends_before_the_path() {
    assert_eq!(origin_from("https://example.com/a/b?c#d"), "https://example.com");
    assert_eq!(origin_from("https://user@example.com:443/"), "https://user@example.com:443");
    assert_eq!(origin_from("http://example.com"), "http://example.com");
    assert_eq!(origin_from("http://example.com?q=1"), "http://example.com?q=1");
    assert_eq!(origin_from("file:///tmp/x"), "file://");
    assert_eq!(origin_from("://host/x"), "://host");
    assert_eq!(origin_from("a/b://c/d://e"), "a/b://c");
    assert_eq!(origin_from("x:////"), "x://");
    assert_eq!(origin_from("\u{e9}://h\u{f6}st\u{1f600}/\u{e9}"), "\u{e9}://h\u{f6}st\u{1f600}");
}

#[test]
fn text_without_separator_has_no_cut_origin() {
    assert_eq!(origin_from(""), "");
    assert_eq!(origin_from("about:blank"), "");
    assert_eq!(origin_from("data:text/plain,x"), "");
    assert_eq!(origin_from("x:/"), "");
    assert_eq!(origin_from(":/ /"), "");
}

#[test]
fn cut_origin_is_its_own_origin() {
    for url in ["https://example.com/a", "file:///tmp", "about:blank", "a/b://c/d"] {
        let origin = origin_from(url);
        assert_eq!(origin_from(&origin), origin);
    }
}

#[test]
fn parsed_origin() {
    assert_eq!(origin_from_url("https://example.com/a/b?c#d"), "https://example.com");
    assert_eq!(origin_from_url("https://user:pw@example.com:443/"), "https://example.com");
    assert_eq!(origin_from_url("HTTP://Example.COM:8080/x"), "http://example.com:8080");
    assert_eq!(origin_from_url("http://[::1]:3000/"), "http://[::1]:3000");
    assert_eq!(origin_from_url("ftp://example.com:21"), "ftp://example.com");
    assert_eq!(origin_from_url("ssh://example.com:22"), "ssh://example.com:22");
}

#[test]
fn parsed_origin_without_host_is_empty() {
    assert_eq!(origin_from_url(""), "");
    assert_eq!(origin_from_url("not a url"), "");
    assert_eq!(origin_from_url("about:blank"), "");
    assert_eq!(origin_from_url("data:text/plain,Stuff"), "");
    assert_eq!(origin_from_url("file:///tmp/foo"), "");
}

#[test]
fn origin_out_of_parts() {
    let full = Some(UrlParts {
        scheme: "ws".to_string(),
        host: Some("h".to_string()),
        port: Some(0),
    });
    assert_eq!(origin_from_parts(&full), "ws://h:0");
    let no_port = Some(UrlParts {
        scheme: "ws".to_string(),
        host: Some("h".to_string()),
        port: None,
    });
    assert_eq!(origin_from_parts(&no_port), "ws://h");
    let no_host = Some(UrlParts {
        scheme: "ws".to_string(),
        host: None,
        port: Some(1),
    });
    assert_eq!(origin_from_parts(&no_host), "");
    assert_eq!(origin_from_parts(&None), "");
}

#[test]
fn decimal_notation() {
    assert_eq!(decimal(0), "0");
    assert_eq!(decimal(9), "9");
    assert_eq!(decimal(10), "10");
    assert_eq!(decimal(1_203), "1203");
    assert_eq!(decimal(65_535), "65535");
    for number in [7u16, 45, 678, 9_876, 54_321] {
        assert_eq!(decimal(number), format!("{}", number));
    }
}

#[test]
fn string_properties() {
    let cases = [
        (absent(), None),
        (property("hi"), Some("hi")),
        (property(""), None),
        (ScriptProperty { has_value: 1, value: None }, None),
        (ScriptProperty { has_value: 1, value: Some(other()) }, None),
        (ScriptProperty { has_value: 0, value: Some(text("hi")) }, None),
    ];
    for (property, expected) in cases {
        assert_eq!(render_process_handler::read_string_key(&property).as_deref(), expected);
        assert_eq!(cef_helper::read_string_prop(&property).as_deref(), expected);
    }
}

#[test]
fn odd_answers_of_the_engine() {
    let odd_has = ScriptProperty { has_value: 2, value: Some(text("hi")) };
    assert_eq!(render_process_handler::read_string_key(&odd_has), None);
    assert_eq!(cef_helper::read_string_prop(&odd_has).as_deref(), Some("hi"));
    let odd_string = ScriptProperty {
        has_value: 1,
        value: Some(ScriptValue { is_string: -1, string_value: "hi".to_string() }),
    };
    assert_eq!(render_process_handler::read_string_key(&odd_string), None);
    assert_eq!(cef_helper::read_string_prop(&odd_string).as_deref(), Some("hi"));
}

#[test]
fn constructor_call_is_read() {
    let call = [
        Some(title("Hello")),
        Some(options(property("World"), absent(), property("t"))),
    ];
    let expected = ("Hello", Some("World"), None, Some("t"));
    assert_eq!(fields(&render_process_handler::notification_request(Some(&call))), expected);
    assert_eq!(fields(&cef_helper::notification_request(Some(&call))), expected);
}

#[test]
fn odd_constructor_calls_are_read() {
    let empty = ("", None, None, None);
    assert_eq!(fields(&render_process_handler::notification_request(None)), empty);
    assert_eq!(fields(&cef_helper::notification_request(None)), empty);
    assert_eq!(fields(&render_process_handler::notification_request(Some(&[]))), empty);
    assert_eq!(fields(&cef_helper::notification_request(Some(&[]))), empty);
    let swapped = [Some(options(property("b"), absent(), absent())), Some(title("Hello"))];
    assert_eq!(fields(&render_process_handler::notification_request(Some(&swapped))), empty);
    assert_eq!(fields(&cef_helper::notification_request(Some(&swapped))), empty);
    let untitled = [None, Some(options(absent(), property("i"), absent())), Some(title("x"))];
    let expected = ("", None, Some("i"), None);
    assert_eq!(fields(&render_process_handler::notification_request(Some(&untitled))), expected);
    assert_eq!(fields(&cef_helper::notification_request(Some(&untitled))), expected);
    let alone = [Some(title("Hello")), None];
    let expected = ("Hello", None, None, None);
    assert_eq!(fields(&render_process_handler::notification_request(Some(&alone))), expected);
    assert_eq!(fields(&cef_helper::notification_request(Some(&alone))), expected);
}

#[test]
fn show_message_has_six_arguments() {
    let request = NotificationRequest {
        title: "T".to_string(),
        body: Some("B".to_string()),
        icon: None,
        tag: Some("G".to_string()),
    };
    assert_eq!(
        parts(&show_message(&request, "https://a.b/c", "https://a.b")),
        (
            "openhuman.notification.show",
            vec!["T", "B", "", "G", "https://a.b/c", "https://a.b"]
        )
    );
}

#[test]
fn notification_goes_out_with_its_frame() {
    let call = [Some(title("T")), Some(options(absent(), property("I"), absent()))];
    let url = "https://a.b:443/c";
    let request = render_process_handler::notification_request(Some(&call));
    let message = render_process_handler::notification_message(&request, Some(url)).unwrap();
    assert_eq!(
        parts(&message),
        ("openhuman.notification.show", vec!["T", "", "I", "", url, "https://a.b"])
    );
    assert!(render_process_handler::notification_message(&request, None).is_none());
    let message = cef_helper::notification_message(&request, Some(url)).unwrap();
    assert_eq!(
        parts(&message),
        ("openhuman.notification.show", vec!["T", "", "I", "", url, "https://a.b:443"])
    );
    assert!(cef_helper::notification_message(&request, None).is_none());
}

#[test]
fn permission_request_goes_out() {
    let message = render_process_handler::permission_message(Some("http://a/x")).unwrap();
    assert_eq!(
        parts(&message),
        ("openhuman.notification.permission_request", vec!["http://a/x", "http://a"])
    );
    assert!(render_process_handler::permission_message(None).is_none());
    let message = cef_helper::permission_message(true).unwrap();
    assert_eq!(parts(&message), ("openhuman.notification.permission_request", vec![]));
    assert!(cef_helper::permission_message(false).is_none());
}

#[test]
fn frame_info_is_empty_outside_a_frame() {
    let info = render_process_handler::current_frame_info(None);
    assert_eq!(info, (String::new(), String::new()));
    let info = render_process_handler::current_frame_info(Some("http://a:81/x"));
    assert_eq!(info, ("http://a:81/x".to_string(), "http://a:81".to_string()));
    let info = render_process_handler::current_frame_info(Some("about:blank"));
    assert_eq!(info, ("about:blank".to_string(), String::new()));
}

#[test]
fn deliveries() {
    assert_eq!(show_delivery(true, true), Delivery::Filled);
    assert_eq!(show_delivery(true, false), Delivery::Nothing);
    assert_eq!(show_delivery(false, true), Delivery::Nothing);
    assert_eq!(render_process_handler::permission_delivery(true, true), Delivery::Filled);
    assert_eq!(render_process_handler::permission_delivery(true, false), Delivery::Bare);
    assert_eq!(render_process_handler::permission_delivery(false, true), Delivery::Nothing);
    assert_eq!(cef_helper::permission_delivery(true), Delivery::Bare);
    assert_eq!(cef_helper::permission_delivery(false), Delivery::Nothing);
}

fn object_of(reply: &Reply) -> Vec<(&str, Option<&str>, bool, bool)> {
    match reply {
        Reply::Object(properties) => properties
            .iter()
            .map(|p| {
                let text = match &p.value {
                    ObjectValue::Text(text) => Some(text.as_str()),
                    ObjectValue::NoOp => None,
                };
                (p.key, text, p.attributes.read_only, p.attributes.dont_delete)
            })
            .collect(),
        _ => panic!("no object"),
    }
}

#[test]
fn constructor_replies() {
    let reply = render_process_handler::notification_reply(true, true, true, true, "Hi");
    assert_eq!(
        object_of(&reply),
        vec![("title", Some("Hi"), false, false), ("close", None, false, false)]
    );
    let reply = render_process_handler::notification_reply(true, true, false, true, "Hi");
    assert_eq!(object_of(&reply), vec![("close", None, false, false)]);
    let reply = render_process_handler::notification_reply(true, true, true, false, "Hi");
    assert_eq!(object_of(&reply), vec![("title", Some("Hi"), false, false)]);
    let reply = render_process_handler::notification_reply(true, true, false, false, "Hi");
    assert_eq!(object_of(&reply), vec![]);
    let reply = render_process_handler::notification_reply(true, false, true, true, "Hi");
    assert!(matches!(reply, Reply::Untouched));
    let reply = render_process_handler::notification_reply(false, true, true, true, "Hi");
    assert!(matches!(reply, Reply::Untouched));
    assert!(matches!(render_process_handler::no_op_reply(), Reply::Untouched));
    assert!(matches!(cef_helper::notification_reply(true), Reply::Undefined));
    assert!(matches!(cef_helper::notification_reply(false), Reply::Untouched));
}

#[test]
fn option_keys() {
    assert_eq!((BODY, ICON, TAG), ("body", "icon", "tag"));
}

#[test]
fn permission_replies() {
    let reply = render_process_handler::permission_reply(true, true, true);
    assert!(matches!(reply, Reply::Promise(Resolution::With(text)) if text == "granted"));
    let reply = render_process_handler::permission_reply(true, true, false);
    assert!(matches!(reply, Reply::Promise(Resolution::Pending)));
    let reply = render_process_handler::permission_reply(true, false, true);
    assert!(matches!(reply, Reply::Untouched));
    let reply = render_process_handler::permission_reply(false, true, true);
    assert!(matches!(reply, Reply::Untouched));
    let reply = cef_helper::permission_reply(true, true, true);
    assert!(matches!(reply, Reply::Promise(Resolution::With(text)) if text == "granted"));
    let reply = cef_helper::permission_reply(true, true, false);
    assert!(matches!(reply, Reply::Promise(Resolution::Empty)));
    let reply = cef_helper::permission_reply(true, false, false);
    assert!(matches!(reply, Reply::Text(text) if text == "granted"));
    let reply = cef_helper::permission_reply(false, true, true);
    assert!(matches!(reply, Reply::Untouched));
}

fn plan_of(plan: &[Assignment]) -> Vec<(HookTarget, &str, HookValue, bool, bool)> {
    plan.iter()
        .map(|a| (a.target, a.key, a.value, a.attributes.read_only, a.attributes.dont_delete))
        .collect()
}

#[test]
fn hook_of_the_runtime() {
    let mut made = HookParts { global: true, constructor: true, granted: true, request: true };
    assert_eq!(
        plan_of(&render_process_handler::install_notification_hook(made)),
        vec![
            (HookTarget::Constructor, "permission", HookValue::Granted, false, false),
            (HookTarget::Constructor, "requestPermission", HookValue::RequestPermission, false, false),
            (HookTarget::Global, "Notification", HookValue::Constructor, false, false),
        ]
    );
    made.granted = false;
    assert_eq!(
        plan_of(&render_process_handler::install_notification_hook(made)),
        vec![
            (HookTarget::Constructor, "requestPermission", HookValue::RequestPermission, false, false),
            (HookTarget::Global, "Notification", HookValue::Constructor, false, false),
        ]
    );
    made.request = false;
    assert_eq!(
        plan_of(&render_process_handler::install_notification_hook(made)),
        vec![(HookTarget::Global, "Notification", HookValue::Constructor, false, false)]
    );
}

#[test]
fn hook_of_the_helper() {
    let mut made = HookParts { global: true, constructor: true, granted: true, request: true };
    assert_eq!(
        plan_of(&cef_helper::install_notification_hook(made)),
        vec![
            (HookTarget::Constructor, "permission", HookValue::Granted, true, true),
            (HookTarget::Constructor, "requestPermission", HookValue::RequestPermission, true, true),
            (HookTarget::Global, "Notification", HookValue::Constructor, true, true),
        ]
    );
    made.granted = false;
    made.request = false;
    assert_eq!(
        plan_of(&cef_helper::install_notification_hook(made)),
        vec![
            (HookTarget::Constructor, "permission", HookValue::Missing, true, true),
            (HookTarget::Constructor, "requestPermission", HookValue::Missing, true, true),
            (HookTarget::Global, "Notification", HookValue::Constructor, true, true),
        ]
    );
}

#[test]
fn hook_needs_global_and_constructor() {
    for (global, constructor) in [(false, true), (true, false), (false, false)] {
        let made = HookParts { global, constructor, granted: true, request: true };
        assert!(render_process_handler::install_notification_hook(made).is_empty());
        assert!(cef_helper::install_notification_hook(made).is_empty());
    }
}
