//! The notification hook of the render process of the runtime: replaces `window.Notification` so
//! that a page never sees a permission prompt and its notifications go to the browser process.
//!
//! The engine answers yes with exactly one.

use crate::notification::{property_text, request_text, show_message, show_text, text_of,
    IpcMessage, MessageText, NotificationRequest, ScriptArgument, ScriptProperty,
    IPC_PERMISSION_REQUEST};
use crate::notification_hook::{assignment_texts, global_assignment, permission_assignment,
    replaces_global_last, request_assignment, sets_on_constructor, Assignment, AssignmentText,
    Delivery, HookParts, HookTarget, HookValue, ObjectProperty, ObjectValue, PropertyAttributes,
    PropertyText, Reply, ReplyText, Resolution, CLOSE, GRANTED, NOTIFICATION, PERMISSION,
    REQUEST_PERMISSION, TITLE};
use crate::web_origin::{origin_from_url, origin_text, parsed_url};
use vstd::prelude::*;

verus! {

/// Which answers of the engine mean yes.
pub open spec fn is_one() -> spec_fn(i32) -> bool {
    |answer: i32| answer == 1
}

/// The string under one key of an object, or `None` where it is missing, is no string or is empty.
pub fn read_string_key(property: &ScriptProperty) -> (text: Option<String>)
    ensures
        text_of(text) == property_text(*property, is_one()),
{
    if property.has_value != 1 {
        return None;
    }
    match &property.value {
        Some(value) => if value.is_string != 1 || value.string_value.as_str().is_empty() {
            None
        } else {
            Some(value.string_value.clone())
        },
        None => None,
    }
}

/// The title that a call gives: its first argument where that is a string.
fn read_title(arguments: Option<&[Option<ScriptArgument>]>) -> (title: String)
    ensures
        title@ == request_text(arguments, is_one()).title,
{
    if let Some(arguments) = arguments {
        if arguments.len() > 0 {
            if let Some(argument) = &arguments[0] {
                if argument.value.is_string == 1 {
                    return argument.value.string_value.clone();
                }
            }
        }
    }
    String::new()
}

/// Reads a `new Notification(title, options)` call.
pub fn notification_request(arguments: Option<&[Option<ScriptArgument>]>) -> (request:
    NotificationRequest)
    ensures
        request@ == request_text(arguments, is_one()),
{
    let title = read_title(arguments);
    if let Some(arguments) = arguments {
        if arguments.len() > 1 {
            if let Some(options) = &arguments[1] {
                if options.is_object == 1 {
                    return NotificationRequest {
                        title,
                        body: read_string_key(&options.body),
                        icon: read_string_key(&options.icon),
                        tag: read_string_key(&options.tag),
                    };
                }
            }
        }
    }
    NotificationRequest { title, body: None, icon: None, tag: None }
}

/// The URL and the origin of the frame that runs the script; both are empty outside a frame.
pub fn current_frame_info(frame_url: Option<&str>) -> (info: (String, String))
    ensures
        match frame_url {
            Some(url) => info.0@ == url@ && info.1@ == origin_text(parsed_url(url@)),
            None => info.0@.len() == 0 && info.1@.len() == 0,
        },
{
    match frame_url {
        Some(url) => (url.to_owned(), origin_from_url(url)),
        None => (String::new(), String::new()),
    }
}

/// The message for a notification that the script in the frame at `frame_url` raised. Outside a
/// frame there is nobody to send it.
pub fn notification_message(request: &NotificationRequest, frame_url: Option<&str>) -> (message:
    Option<IpcMessage>)
    ensures
        message is Some <==> frame_url is Some,
        message matches Some(message) ==> (frame_url matches Some(url) ==> message@ == show_text(
            request@,
            url@,
            origin_text(parsed_url(url@)),
        )),
{
    let (url, origin) = current_frame_info(frame_url);
    if frame_url.is_some() {
        Some(show_message(request, url.as_str(), origin.as_str()))
    } else {
        None
    }
}

/// The message for a permission request of the script in the frame at `frame_url`, which names the
/// frame and its origin.
pub fn permission_message(frame_url: Option<&str>) -> (message: Option<IpcMessage>)
    ensures
        message is Some <==> frame_url is Some,
        message matches Some(message) ==> (frame_url matches Some(url) ==> message@ == (
        MessageText {
            name: IPC_PERMISSION_REQUEST@,
            arguments: seq![url@, origin_text(parsed_url(url@))],
        })),
{
    let (url, origin) = current_frame_info(frame_url);
    if frame_url.is_some() {
        let mut arguments: Vec<String> = Vec::new();
        arguments.push(url);
        arguments.push(origin);
        Some(IpcMessage { name: IPC_PERMISSION_REQUEST, arguments })
    } else {
        None
    }
}

/// How the message for a permission request leaves: where there is no room for arguments it leaves
/// without them.
pub fn permission_delivery(message_created: bool, arguments_created: bool) -> (delivery: Delivery)
    ensures
        delivery == (if !message_created {
            Delivery::Nothing
        } else if arguments_created {
            Delivery::Filled
        } else {
            Delivery::Bare
        }),
{
    if !message_created {
        Delivery::Nothing
    } else if arguments_created {
        Delivery::Filled
    } else {
        Delivery::Bare
    }
}

/// The properties of a notification object, as far as the engine could make their values: its title,
/// and a `close` that does nothing, since the page never has a real platform notification.
pub open spec fn object_texts(
    title: Seq<char>,
    title_created: bool,
    close_created: bool,
) -> Seq<PropertyText> {
    let open = PropertyAttributes { read_only: false, dont_delete: false };
    (if title_created {
        seq![PropertyText { key: TITLE@, text: Some(title), attributes: open }]
    } else {
        Seq::empty()
    }) + (if close_created {
        seq![PropertyText { key: CLOSE@, text: None, attributes: open }]
    } else {
        Seq::empty()
    })
}

/// What `new Notification(title, options)` hands back: a minimal object that shows its title and can
/// be closed, as far as the engine could make it.
pub fn notification_reply(
    wanted: bool,
    object_created: bool,
    title_created: bool,
    close_created: bool,
    title: &str,
) -> (reply: Reply)
    ensures
        reply@ == (if !wanted || !object_created {
            ReplyText::Untouched
        } else {
            ReplyText::Object(object_texts(title@, title_created, close_created))
        }),
{
    if !wanted || !object_created {
        return Reply::Untouched;
    }
    let mut properties: Vec<ObjectProperty> = Vec::new();
    if title_created {
        properties.push(
            ObjectProperty {
                key: TITLE,
                value: ObjectValue::Text(title.to_owned()),
                attributes: attr_none(),
            },
        );
    }
    if close_created {
        properties.push(
            ObjectProperty { key: CLOSE, value: ObjectValue::NoOp, attributes: attr_none() },
        );
    }
    Reply::Object(properties)
}

/// What a method of a notification object that does nothing hands back.
pub fn no_op_reply() -> (reply: Reply)
    ensures
        reply@ == ReplyText::Untouched,
{
    Reply::Untouched
}

/// What `Notification.requestPermission()` hands back, by what the engine could make.
pub open spec fn permission_reply_text(
    wanted: bool,
    promise_created: bool,
    granted_created: bool,
) -> ReplyText {
    if !wanted || !promise_created {
        ReplyText::Untouched
    } else if granted_created {
        ReplyText::ResolvedPromise(GRANTED@)
    } else {
        ReplyText::PendingPromise
    }
}

/// What `Notification.requestPermission()` hands back: a promise that grants the permission.
pub fn permission_reply(wanted: bool, promise_created: bool, granted_created: bool) -> (reply: Reply)
    ensures
        reply@ == permission_reply_text(wanted, promise_created, granted_created),
{
    if !wanted || !promise_created {
        Reply::Untouched
    } else if granted_created {
        Reply::Promise(Resolution::With(GRANTED.to_owned()))
    } else {
        Reply::Promise(Resolution::Pending)
    }
}

/// The properties of the hook are left to the page to change.
pub fn attr_none() -> (attributes: PropertyAttributes)
    ensures
        attributes == (PropertyAttributes { read_only: false, dont_delete: false }),
{
    PropertyAttributes { read_only: false, dont_delete: false }
}

/// The properties that put the hook in place: none without a global object or a constructor, and
/// otherwise those whose value the engine could make, the global last.
pub open spec fn hook_texts(parts: HookParts) -> Seq<AssignmentText> {
    let open = PropertyAttributes { read_only: false, dont_delete: false };
    if !parts.global || !parts.constructor {
        Seq::empty()
    } else {
        (if parts.granted {
            seq![permission_assignment(HookValue::Granted, open)]
        } else {
            Seq::empty()
        }) + (if parts.request {
            seq![request_assignment(HookValue::RequestPermission, open)]
        } else {
            Seq::empty()
        }) + seq![global_assignment(open)]
    }
}

/// Plans the properties that put the hook in place.
pub fn install_notification_hook(parts: HookParts) -> (plan: Vec<Assignment>)
    ensures
        assignment_texts(plan@) == hook_texts(parts),
{
    let mut plan: Vec<Assignment> = Vec::new();
    if !parts.global || !parts.constructor {
        return plan;
    }
    if parts.granted {
        plan.push(
            Assignment {
                target: HookTarget::Constructor,
                key: PERMISSION,
                value: HookValue::Granted,
                attributes: attr_none(),
            },
        );
    }
    if parts.request {
        plan.push(
            Assignment {
                target: HookTarget::Constructor,
                key: REQUEST_PERMISSION,
                value: HookValue::RequestPermission,
                attributes: attr_none(),
            },
        );
    }
    plan.push(
        Assignment {
            target: HookTarget::Global,
            key: NOTIFICATION,
            value: HookValue::Constructor,
            attributes: attr_none(),
        },
    );
    plan
}

/// The global is replaced exactly where there is a global and a constructor, and then last, so that
/// no page sees a constructor that still lacks properties.
pub proof fn hook_replaces_global_last(parts: HookParts)
    ensures
        parts.global && parts.constructor ==> replaces_global_last(hook_texts(parts)),
        !(parts.global && parts.constructor) ==> hook_texts(parts).len() == 0,
{
}

/// A page whose hook is in place finds its permission granted and a function to ask for it, as far
/// as the engine could make them.
pub proof fn hook_grants_permission(parts: HookParts)
    requires
        parts.global,
        parts.constructor,
    ensures
        parts.granted ==> sets_on_constructor(hook_texts(parts), PERMISSION@, HookValue::Granted),
        parts.request ==> sets_on_constructor(
            hook_texts(parts),
            REQUEST_PERMISSION@,
            HookValue::RequestPermission,
        ),
{
    let plan = hook_texts(parts);
    if parts.granted {
        assert(plan[0].key == PERMISSION@);
    }
    if parts.request {
        let at: int = if parts.granted { 1 } else { 0 };
        assert(plan[at].key == REQUEST_PERMISSION@);
    }
}

/// An object that the engine could make in full shows its title and can be closed.
pub proof fn object_shows_title_and_closes(title: Seq<char>)
    ensures
        exists|i: int|
            0 <= i < object_texts(title, true, true).len() && (#[trigger] object_texts(
                title,
                true,
                true,
            )[i]).key == TITLE@ && object_texts(title, true, true)[i].text == Some(title),
        exists|i: int|
            0 <= i < object_texts(title, true, true).len() && (#[trigger] object_texts(
                title,
                true,
                true,
            )[i]).key == CLOSE@ && object_texts(title, true, true)[i].text is None,
{
    assert(object_texts(title, true, true)[0].key == TITLE@);
    assert(object_texts(title, true, true)[1].key == CLOSE@);
}

/// Of the properties of a notification object only the title holds a text; any other is a method that
/// does nothing.
pub proof fn object_shows_title_only(
    title: Seq<char>,
    title_created: bool,
    close_created: bool,
    at: int,
)
    requires
        0 <= at < object_texts(title, title_created, close_created).len(),
    ensures
        object_texts(title, title_created, close_created)[at].text matches Some(text) ==> text
            == title && object_texts(title, title_created, close_created)[at].key == TITLE@,
{
}

/// A page that asks for permission gets it, as far as the engine could make the answer, and no
/// promise that it gets is resolved with anything else.
pub proof fn permission_is_granted(wanted: bool, promise_created: bool, granted_created: bool)
    ensures
        wanted && promise_created && granted_created ==> permission_reply_text(
            wanted,
            promise_created,
            granted_created,
        ) == ReplyText::ResolvedPromise(GRANTED@),
        permission_reply_text(wanted, promise_created, granted_created) matches
            ReplyText::ResolvedPromise(answer) ==> answer == GRANTED@,
{
}

} // verus!
