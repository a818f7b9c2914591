//! The notification hook of the standalone helper process. It does what the hook of the runtime
//! does, with a constructor that hands back no object, properties that the page cannot change, and
//! an origin that is cut out of the URL.
//!
//! The engine answers yes with anything but zero.

use crate::notification::{property_text, request_text, show_message, show_text, text_of,
    IpcMessage, MessageText, NotificationRequest, ScriptArgument, ScriptProperty,
    IPC_PERMISSION_REQUEST};
use crate::notification_hook::{assignment_texts, global_assignment, permission_assignment,
    replaces_global_last, request_assignment, sets_on_constructor, Assignment, AssignmentText,
    Delivery, HookParts, HookTarget, HookValue, PropertyAttributes, Reply, ReplyText, Resolution,
    GRANTED, NOTIFICATION, PERMISSION, REQUEST_PERMISSION};
use crate::web_origin::{cuts_origin, origin_from};
use vstd::prelude::*;

verus! {

/// Which answers of the engine mean yes.
pub open spec fn is_not_zero() -> spec_fn(i32) -> bool {
    |answer: i32| answer != 0
}

/// The string under one key of an object, or `None` where it is missing, is no string or is empty.
pub fn read_string_prop(property: &ScriptProperty) -> (text: Option<String>)
    ensures
        text_of(text) == property_text(*property, is_not_zero()),
{
    if property.has_value == 0 {
        return None;
    }
    match &property.value {
        Some(value) => if value.is_string == 0 || value.string_value.as_str().is_empty() {
            None
        } else {
            Some(value.string_value.clone())
        },
        None => None,
    }
}

/// The title that a call gives: its first argument where that is a string.
fn read_title(arguments: Option<&[Option<ScriptArgument>]>) -> (title: String)
    ensures
        title@ == request_text(arguments, is_not_zero()).title,
{
    if let Some(arguments) = arguments {
        if arguments.len() > 0 {
            if let Some(argument) = &arguments[0] {
                if argument.value.is_string != 0 {
                    return argument.value.string_value.clone();
                }
            }
        }
    }
    String::new()
}

/// Reads a `new Notification(title, options)` call.
pub fn notification_request(arguments: Option<&[Option<ScriptArgument>]>) -> (request:
    NotificationRequest)
    ensures
        request@ == request_text(arguments, is_not_zero()),
{
    let title = read_title(arguments);
    if let Some(arguments) = arguments {
        if arguments.len() > 1 {
            if let Some(options) = &arguments[1] {
                if options.is_object != 0 {
                    return NotificationRequest {
                        title,
                        body: read_string_prop(&options.body),
                        icon: read_string_prop(&options.icon),
                        tag: read_string_prop(&options.tag),
                    };
                }
            }
        }
    }
    NotificationRequest { title, body: None, icon: None, tag: None }
}

/// The message for a notification that the script in the frame at `frame_url` raised. Outside a
/// frame there is nobody to send it.
pub fn notification_message(request: &NotificationRequest, frame_url: Option<&str>) -> (message:
    Option<IpcMessage>)
    ensures
        message is Some <==> frame_url is Some,
        message matches Some(message) ==> (frame_url matches Some(url) ==> exists|origin: Seq<char>|
            #[trigger] cuts_origin(url@, origin) && message@ == show_text(
                request@,
                url@,
                origin,
            )),
{
    match frame_url {
        Some(url) => {
            let origin = origin_from(url);
            let message = show_message(request, url, origin.as_str());
            assert(cuts_origin(url@, origin@));
            Some(message)
        },
        None => None,
    }
}

/// The message for a permission request of the script in a frame. It has no arguments; outside a
/// frame there is none.
pub fn permission_message(in_frame: bool) -> (message: Option<IpcMessage>)
    ensures
        message is Some <==> in_frame,
        message matches Some(message) ==> message@ == (MessageText {
            name: IPC_PERMISSION_REQUEST@,
            arguments: Seq::empty(),
        }),
{
    if in_frame {
        Some(IpcMessage { name: IPC_PERMISSION_REQUEST, arguments: Vec::new() })
    } else {
        None
    }
}

/// How the message for a permission request leaves: as it is, once it could be made.
pub fn permission_delivery(message_created: bool) -> (delivery: Delivery)
    ensures
        delivery == (if message_created {
            Delivery::Bare
        } else {
            Delivery::Nothing
        }),
{
    if message_created {
        Delivery::Bare
    } else {
        Delivery::Nothing
    }
}

/// What `new Notification(title, options)` hands back: nothing that a page could use.
pub fn notification_reply(wanted: bool) -> (reply: Reply)
    ensures
        reply@ == (if wanted {
            ReplyText::Undefined
        } else {
            ReplyText::Untouched
        }),
{
    if wanted {
        Reply::Undefined
    } else {
        Reply::Untouched
    }
}

/// What `Notification.requestPermission()` hands back, by what the engine could make.
pub open spec fn permission_reply_text(
    wanted: bool,
    promise_created: bool,
    granted_created: bool,
) -> ReplyText {
    if !wanted {
        ReplyText::Untouched
    } else if !promise_created {
        ReplyText::Text(GRANTED@)
    } else if granted_created {
        ReplyText::ResolvedPromise(GRANTED@)
    } else {
        ReplyText::EmptyPromise
    }
}

/// What `Notification.requestPermission()` hands back: a promise that grants the permission, or,
/// where the engine could make no promise, the permission itself.
pub fn permission_reply(wanted: bool, promise_created: bool, granted_created: bool) -> (reply: Reply)
    ensures
        reply@ == permission_reply_text(wanted, promise_created, granted_created),
{
    if !wanted {
        Reply::Untouched
    } else if !promise_created {
        Reply::Text(GRANTED.to_owned())
    } else if granted_created {
        Reply::Promise(Resolution::With(GRANTED.to_owned()))
    } else {
        Reply::Promise(Resolution::Empty)
    }
}

/// The properties of the hook are out of reach of the page.
pub fn ro_attrs() -> (attributes: PropertyAttributes)
    ensures
        attributes == (PropertyAttributes { read_only: true, dont_delete: true }),
{
    PropertyAttributes { read_only: true, dont_delete: true }
}

/// `value` where the engine could make it.
pub open spec fn if_made(made: bool, value: HookValue) -> HookValue {
    if made {
        value
    } else {
        HookValue::Missing
    }
}

/// The properties that put the hook in place: none without a global object or a constructor, and
/// otherwise all three, the global last; one whose value the engine could not make is set to none.
pub open spec fn hook_texts(parts: HookParts) -> Seq<AssignmentText> {
    let fixed = PropertyAttributes { read_only: true, dont_delete: true };
    if !parts.global || !parts.constructor {
        Seq::empty()
    } else {
        seq![
            permission_assignment(if_made(parts.granted, HookValue::Granted), fixed),
            request_assignment(if_made(parts.request, HookValue::RequestPermission), fixed),
            global_assignment(fixed),
        ]
    }
}

/// Plans the properties that put the hook in place.
pub fn install_notification_hook(parts: HookParts) -> (plan: Vec<Assignment>)
    ensures
        assignment_texts(plan@) == hook_texts(parts),
{
    let mut plan: Vec<Assignment> = Vec::new();
    if !parts.global || !parts.constructor {
        return plan;
    }
    plan.push(
        Assignment {
            target: HookTarget::Constructor,
            key: PERMISSION,
            value: if parts.granted {
                HookValue::Granted
            } else {
                HookValue::Missing
            },
            attributes: ro_attrs(),
        },
    );
    plan.push(
        Assignment {
            target: HookTarget::Constructor,
            key: REQUEST_PERMISSION,
            value: if parts.request {
                HookValue::RequestPermission
            } else {
                HookValue::Missing
            },
            attributes: ro_attrs(),
        },
    );
    plan.push(
        Assignment {
            target: HookTarget::Global,
            key: NOTIFICATION,
            value: HookValue::Constructor,
            attributes: ro_attrs(),
        },
    );
    plan
}

/// The global is replaced exactly where there is a global and a constructor, and then last, so that
/// no page sees a constructor that still lacks properties.
pub proof fn hook_replaces_global_last(parts: HookParts)
    ensures
        parts.global && parts.constructor ==> replaces_global_last(hook_texts(parts)),
        !(parts.global && parts.constructor) ==> hook_texts(parts).len() == 0,
{
}

/// A page whose hook is in place finds its permission granted and a function to ask for it, as far
/// as the engine could make them.
pub proof fn hook_grants_permission(parts: HookParts)
    requires
        parts.global,
        parts.constructor,
    ensures
        parts.granted ==> sets_on_constructor(hook_texts(parts), PERMISSION@, HookValue::Granted),
        parts.request ==> sets_on_constructor(
            hook_texts(parts),
            REQUEST_PERMISSION@,
            HookValue::RequestPermission,
        ),
{
    let plan = hook_texts(parts);
    assert(plan[0].key == PERMISSION@);
    assert(plan[1].key == REQUEST_PERMISSION@);
}

/// No property of the hook can be changed or deleted by the page.
pub proof fn hook_is_fixed(parts: HookParts, at: int)
    requires
        0 <= at < hook_texts(parts).len(),
    ensures
        hook_texts(parts)[at].attributes.read_only,
        hook_texts(parts)[at].attributes.dont_delete,
{
}

/// A page that asks for permission gets it, as far as the engine could make the answer, and it never
/// gets another text.
pub proof fn permission_is_granted(wanted: bool, promise_created: bool, granted_created: bool)
    ensures
        wanted && promise_created && granted_created ==> permission_reply_text(
            wanted,
            promise_created,
            granted_created,
        ) == ReplyText::ResolvedPromise(GRANTED@),
        permission_reply_text(wanted, promise_created, granted_created) matches
            ReplyText::ResolvedPromise(answer) ==> answer == GRANTED@,
        permission_reply_text(wanted, promise_created, granted_created) matches ReplyText::Text(
            answer,
        ) ==> answer == GRANTED@,
{
}

} // verus!
