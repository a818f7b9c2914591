//! What the notification hook gives for what a page and the script engine hand it, as it shows in the
//! values that go in and come out.

use crate::cef_helper;
use crate::notification::{show_message, IpcMessage, NotificationRequest, ScriptArgument,
    ScriptProperty, BODY, ICON, TAG};
use crate::notification_hook::{assignment_texts, show_delivery, Assignment, Delivery, HookParts,
    HookTarget, HookValue, ObjectProperty, ObjectValue, Reply, Resolution};
use crate::render_process_handler;
use crate::render_process_handler::object_texts;
use crate::web_origin::{origin_text, parsed_url};
use crate::web_origin_laws::{cut_is_start, is_cut_origin, is_parsed_origin,
    parsed_text_is_origin};
use vstd::prelude::*;

verus! {

/// `text` is the string that `property` holds, where `is_there` and `is_text` say whether the engine
/// has the property and takes its value for a string: that string where both do and it is not empty,
/// and nothing otherwise.
pub open spec fn is_text_of(
    property: ScriptProperty,
    is_there: bool,
    is_text: bool,
    text: Option<String>,
) -> bool {
    match text {
        Some(text) => {
            &&& is_there
            &&& is_text
            &&& property.value is Some
            &&& text@ == (property.value->0).string_value@
            &&& text@.len() > 0
        },
        None => !is_there || !is_text || property.value is None
            || (property.value->0).string_value@.len() == 0,
    }
}

/// `text` is what is left of `option` on the wire: the option itself, or the empty text.
pub open spec fn stands_for(text: Seq<char>, option: Option<String>) -> bool {
    match option {
        Some(option) => text == option@,
        None => text.len() == 0,
    }
}

/// `message` asks to show `request`, raised at `frame_url` by a page of `origin`.
pub open spec fn shows(
    message: IpcMessage,
    request: NotificationRequest,
    frame_url: Seq<char>,
    origin: Seq<char>,
) -> bool {
    &&& message.name@ == "openhuman.notification.show"@
    &&& message.arguments@.len() == 6
    &&& message.arguments@[0]@ == request.title@
    &&& stands_for(message.arguments@[1]@, request.body)
    &&& stands_for(message.arguments@[2]@, request.icon)
    &&& stands_for(message.arguments@[3]@, request.tag)
    &&& message.arguments@[4]@ == frame_url
    &&& message.arguments@[5]@ == origin
}

/// The keys under which the options of a call stand.
pub proof fn options_have_their_keys()
    ensures
        BODY@ == "body"@,
        ICON@ == "icon"@,
        TAG@ == "tag"@,
{
}

/// What `read_string_key` gives: the string under the key, where the engine answers one to both
/// questions and the string is not empty.
pub proof fn runtime_reads_property(property: ScriptProperty, text: Option<String>)
    requires
        call_ensures(render_process_handler::read_string_key, (&property,), text),
    ensures
        is_text_of(
            property,
            property.has_value == 1,
            (property.value->0).is_string == 1,
            text,
        ),
{
}

/// What `notification_request` gives for the runtime: the title is the first argument where that is a
/// string, and each option is read on its own out of the second argument where that is an object,
/// whatever the title and the other options are.
pub proof fn runtime_reads_call(
    arguments: Option<&[Option<ScriptArgument>]>,
    request: NotificationRequest,
)
    requires
        call_ensures(render_process_handler::notification_request, (arguments,), request),
    ensures
        match arguments {
            Some(given) => {
                &&& given@.len() > 0 && given@[0] is Some && (given@[0]->0).value.is_string == 1
                    ==> request.title@ == (given@[0]->0).value.string_value@
                &&& given@.len() == 0 || given@[0] is None || !((given@[0]->0).value.is_string == 1)
                    ==> request.title@.len() == 0
                &&& given@.len() > 1 && given@[1] is Some && (given@[1]->0).is_object == 1 ==> {
                    let options = given@[1]->0;
                    &&& is_text_of(
                        options.body,
                        options.body.has_value == 1,
                        (options.body.value->0).is_string == 1,
                        request.body,
                    )
                    &&& is_text_of(
                        options.icon,
                        options.icon.has_value == 1,
                        (options.icon.value->0).is_string == 1,
                        request.icon,
                    )
                    &&& is_text_of(
                        options.tag,
                        options.tag.has_value == 1,
                        (options.tag.value->0).is_string == 1,
                        request.tag,
                    )
                }
                &&& given@.len() < 2 || given@[1] is None || !((given@[1]->0).is_object == 1) ==> {
                    &&& request.body is None
                    &&& request.icon is None
                    &&& request.tag is None
                }
            },
            None => {
                &&& request.title@.len() == 0
                &&& request.body is None
                &&& request.icon is None
                &&& request.tag is None
            },
        },
{
}

/// What `read_string_prop` gives: the string under the key, where the engine answers anything but
/// zero to both questions and the string is not empty.
pub proof fn helper_reads_property(property: ScriptProperty, text: Option<String>)
    requires
        call_ensures(cef_helper::read_string_prop, (&property,), text),
    ensures
        is_text_of(
            property,
            property.has_value != 0,
            (property.value->0).is_string != 0,
            text,
        ),
{
}

/// What `notification_request` gives for the helper: the title is the first argument where that is a
/// string, and each option is read on its own out of the second argument where that is an object,
/// whatever the title and the other options are.
pub proof fn helper_reads_call(
    arguments: Option<&[Option<ScriptArgument>]>,
    request: NotificationRequest,
)
    requires
        call_ensures(cef_helper::notification_request, (arguments,), request),
    ensures
        match arguments {
            Some(given) => {
                &&& given@.len() > 0 && given@[0] is Some && (given@[0]->0).value.is_string != 0
                    ==> request.title@ == (given@[0]->0).value.string_value@
                &&& given@.len() == 0 || given@[0] is None || !((given@[0]->0).value.is_string != 0)
                    ==> request.title@.len() == 0
                &&& given@.len() > 1 && given@[1] is Some && (given@[1]->0).is_object != 0 ==> {
                    let options = given@[1]->0;
                    &&& is_text_of(
                        options.body,
                        options.body.has_value != 0,
                        (options.body.value->0).is_string != 0,
                        request.body,
                    )
                    &&& is_text_of(
                        options.icon,
                        options.icon.has_value != 0,
                        (options.icon.value->0).is_string != 0,
                        request.icon,
                    )
                    &&& is_text_of(
                        options.tag,
                        options.tag.has_value != 0,
                        (options.tag.value->0).is_string != 0,
                        request.tag,
                    )
                }
                &&& given@.len() < 2 || given@[1] is None || !((given@[1]->0).is_object != 0) ==> {
                    &&& request.body is None
                    &&& request.icon is None
                    &&& request.tag is None
                }
            },
            None => {
                &&& request.title@.len() == 0
                &&& request.body is None
                &&& request.icon is None
                &&& request.tag is None
            },
        },
{
}

/// What `show_message` gives: a message with title, options, page and origin, each in its place.
pub proof fn show_message_shows(
    request: NotificationRequest,
    frame_url: &str,
    origin: &str,
    message: IpcMessage,
)
    requires
        call_ensures(show_message, (&request, frame_url, origin), message),
    ensures
        shows(message, request, frame_url@, origin@),
{
    message_holds_texts(message);
}

/// The arguments of a message, one by one.
proof fn message_holds_texts(message: IpcMessage)
    ensures
        message@.name == message.name@,
        message@.arguments.len() == message.arguments@.len(),
        forall|i: int|
            0 <= i < message.arguments@.len() ==> #[trigger] message@.arguments[i]
                == message.arguments@[i]@,
{
}

/// What `current_frame_info` gives: the URL as it is and the origin that the parser finds in it.
pub proof fn frame_info_is_of_frame(frame_url: Option<&str>, info: (String, String))
    requires
        call_ensures(render_process_handler::current_frame_info, (frame_url,), info),
    ensures
        frame_url matches Some(url) ==> info.0@ == url@ && is_parsed_origin(url@, info.1@),
        frame_url is None ==> info.0@.len() == 0 && info.1@.len() == 0,
{
    if let Some(url) = frame_url {
        parsed_text_is_origin(url@);
    }
}

/// What `notification_message` gives for the runtime: in a frame, a message that shows the request
/// with the parsed origin of the frame; outside a frame, none.
pub proof fn runtime_forwards_notification(
    request: NotificationRequest,
    frame_url: Option<&str>,
    message: Option<IpcMessage>,
)
    requires
        call_ensures(
            render_process_handler::notification_message,
            (&request, frame_url),
            message,
        ),
    ensures
        frame_url is None ==> message is None,
        frame_url matches Some(url) ==> (message matches Some(message) && shows(
            message,
            request,
            url@,
            message.arguments@[5]@,
        ) && is_parsed_origin(url@, message.arguments@[5]@)),
{
    if let (Some(url), Some(message)) = (frame_url, message) {
        message_holds_texts(message);
        parsed_text_is_origin(url@);
    }
}

/// What `permission_message` gives for the runtime: in a frame, a message with the page and its
/// parsed origin; outside a frame, none.
pub proof fn runtime_reports_permission_request(
    frame_url: Option<&str>,
    message: Option<IpcMessage>,
)
    requires
        call_ensures(render_process_handler::permission_message, (frame_url,), message),
    ensures
        frame_url is None ==> message is None,
        frame_url matches Some(url) ==> (message matches Some(message) && message.name@
            == "openhuman.notification.permission_request"@ && message.arguments@.len() == 2
            && message.arguments@[0]@ == url@ && is_parsed_origin(
            url@,
            message.arguments@[1]@,
        )),
{
    if let (Some(url), Some(message)) = (frame_url, message) {
        message_holds_texts(message);
        parsed_text_is_origin(url@);
    }
}

/// What `notification_message` gives for the helper: in a frame, a message that shows the request
/// with the origin that is cut out of the URL of the frame; outside a frame, none.
pub proof fn helper_forwards_notification(
    request: NotificationRequest,
    frame_url: Option<&str>,
    message: Option<IpcMessage>,
)
    requires
        call_ensures(cef_helper::notification_message, (&request, frame_url), message),
    ensures
        frame_url is None ==> message is None,
        frame_url matches Some(url) ==> (message matches Some(message) && shows(
            message,
            request,
            url@,
            message.arguments@[5]@,
        ) && is_cut_origin(url@, message.arguments@[5]@)),
{
    if let (Some(url), Some(message)) = (frame_url, message) {
        message_holds_texts(message);
        cut_is_start(url@, message.arguments@[5]@);
    }
}

/// What `permission_message` gives for the helper: in a frame, a message without arguments; outside
/// a frame, none.
pub proof fn helper_reports_permission_request(in_frame: bool, message: Option<IpcMessage>)
    requires
        call_ensures(cef_helper::permission_message, (in_frame,), message),
    ensures
        !in_frame ==> message is None,
        in_frame ==> (message matches Some(message) && message.name@
            == "openhuman.notification.permission_request"@ && message.arguments@.len() == 0),
{
    if let Some(message) = message {
        message_holds_texts(message);
    }
}

/// What the functions that decide on a delivery give: a notification leaves with its arguments or not
/// at all, a permission request leaves whenever its message could be made.
pub proof fn deliveries_follow_what_was_made(
    message_created: bool,
    arguments_created: bool,
    show: Delivery,
    runtime: Delivery,
    helper: Delivery,
)
    requires
        call_ensures(show_delivery, (message_created, arguments_created), show),
        call_ensures(
            render_process_handler::permission_delivery,
            (message_created, arguments_created),
            runtime,
        ),
        call_ensures(cef_helper::permission_delivery, (message_created,), helper),
    ensures
        show == Delivery::Filled <==> message_created && arguments_created,
        show != Delivery::Bare,
        runtime == Delivery::Nothing <==> !message_created,
        runtime == Delivery::Filled <==> message_created && arguments_created,
        helper == Delivery::Nothing <==> !message_created,
        helper != Delivery::Filled,
{
}

/// What `notification_reply` gives for the runtime: an object with the very title of the call, and
/// with a `close` that does nothing, as far as the engine could make each of them, both open to the
/// page.
pub proof fn runtime_constructor_replies(
    wanted: bool,
    object_created: bool,
    title_created: bool,
    close_created: bool,
    title: &str,
    reply: Reply,
)
    requires
        call_ensures(
            render_process_handler::notification_reply,
            (wanted, object_created, title_created, close_created, title),
            reply,
        ),
    ensures
        reply is Untouched <==> !wanted || !object_created,
        wanted && object_created ==> (reply matches Reply::Object(properties) && {
            let count = properties@.len();
            &&& count == (if title_created { 1int } else { 0 }) + (if close_created { 1int } else { 0 })
            &&& title_created ==> properties@[0].key@ == "title"@ && (properties@[0].value matches
                ObjectValue::Text(text) && text@ == title@)
            &&& close_created ==> properties@[count - 1].key@ == "close"@ && properties@[count
                - 1].value is NoOp
            &&& forall|i: int|
                0 <= i < count ==> !(#[trigger] properties@[i]).attributes.read_only
                    && !properties@[i].attributes.dont_delete
        }),
{
    if let Reply::Object(properties) = reply {
        let texts = properties@.map_values(|property: ObjectProperty| property@);
        let count = texts.len() as int;
        assert(texts == object_texts(title@, title_created, close_created));
        if title_created {
            assert(texts[0] == properties@[0]@);
        }
        if close_created {
            assert(texts[count - 1] == properties@[count - 1]@);
        }
        assert forall|i: int| 0 <= i < count implies !(
        #[trigger] properties@[i]).attributes.read_only && !properties@[i].attributes.dont_delete by {
            assert(texts[i] == properties@[i]@);
        }
    }
}

/// What `no_op_reply` gives: it leaves the page alone.
pub proof fn no_op_does_nothing(reply: Reply)
    requires
        call_ensures(render_process_handler::no_op_reply, (), reply),
    ensures
        reply is Untouched,
{
}

/// What `permission_reply` gives for the runtime: a promise, resolved with the granted permission
/// where that could be made.
pub proof fn runtime_permission_replies(
    wanted: bool,
    promise_created: bool,
    granted_created: bool,
    reply: Reply,
)
    requires
        call_ensures(
            render_process_handler::permission_reply,
            (wanted, promise_created, granted_created),
            reply,
        ),
    ensures
        reply is Untouched <==> !wanted || !promise_created,
        wanted && promise_created && granted_created ==> (reply matches Reply::Promise(
            Resolution::With(text),
        ) && text@ == "granted"@),
        wanted && promise_created && !granted_created ==> (reply matches Reply::Promise(
            Resolution::Pending,
        )),
{
}

/// What `notification_reply` and `permission_reply` give for the helper: `undefined`, and a promise
/// that is resolved with the granted permission, or the granted permission itself.
pub proof fn helper_replies(
    wanted: bool,
    promise_created: bool,
    granted_created: bool,
    constructed: Reply,
    reply: Reply,
)
    requires
        call_ensures(cef_helper::notification_reply, (wanted,), constructed),
        call_ensures(
            cef_helper::permission_reply,
            (wanted, promise_created, granted_created),
            reply,
        ),
    ensures
        wanted ==> constructed is Undefined,
        !wanted ==> constructed is Untouched && reply is Untouched,
        wanted && promise_created && granted_created ==> (reply matches Reply::Promise(
            Resolution::With(text),
        ) && text@ == "granted"@),
        wanted && promise_created && !granted_created ==> (reply matches Reply::Promise(
            Resolution::Empty,
        )),
        wanted && !promise_created ==> (reply matches Reply::Text(text) && text@ == "granted"@),
{
}

/// `assignment` sets `key` on `target` to `value`, and `fixed` tells whether the page may change it.
pub open spec fn assigns(
    assignment: Assignment,
    target: HookTarget,
    key: Seq<char>,
    value: HookValue,
    fixed: bool,
) -> bool {
    &&& assignment.target == target
    &&& assignment.key@ == key
    &&& assignment.value == value
    &&& assignment.attributes.read_only == fixed
    &&& assignment.attributes.dont_delete == fixed
}

/// The assignments of a plan, one by one.
proof fn plan_holds_assignments(plan: Vec<Assignment>)
    ensures
        assignment_texts(plan@).len() == plan@.len(),
        forall|i: int|
            0 <= i < plan@.len() ==> #[trigger] assignment_texts(plan@)[i] == plan@[i]@,
{
}

/// What `install_notification_hook` gives for the runtime: without a global object or a constructor
/// nothing; otherwise the permission and the function to ask for it, each where it could be made, and
/// the global last, all open to the page.
pub proof fn runtime_hook_plan(parts: HookParts, plan: Vec<Assignment>)
    requires
        call_ensures(render_process_handler::install_notification_hook, (parts,), plan),
    ensures
        !parts.global || !parts.constructor ==> plan@.len() == 0,
        parts.global && parts.constructor ==> {
            let granted = if parts.granted { 1int } else { 0 };
            let request = if parts.request { 1int } else { 0 };
            &&& plan@.len() == granted + request + 1
            &&& parts.granted ==> assigns(
                plan@[0],
                HookTarget::Constructor,
                "permission"@,
                HookValue::Granted,
                false,
            )
            &&& parts.request ==> assigns(
                plan@[granted],
                HookTarget::Constructor,
                "requestPermission"@,
                HookValue::RequestPermission,
                false,
            )
            &&& assigns(
                plan@[granted + request],
                HookTarget::Global,
                "Notification"@,
                HookValue::Constructor,
                false,
            )
        },
{
    plan_holds_assignments(plan);
    if parts.global && parts.constructor {
        let granted = if parts.granted { 1int } else { 0 };
        let request = if parts.request { 1int } else { 0 };
        let texts = assignment_texts(plan@);
        assert(texts == render_process_handler::hook_texts(parts));
        assert(texts[granted + request] == plan@[granted + request]@);
        if parts.granted {
            assert(texts[0] == plan@[0]@);
        }
        if parts.request {
            assert(texts[granted] == plan@[granted]@);
        }
    }
}

/// What `install_notification_hook` gives for the helper: without a global object or a constructor
/// nothing; otherwise all three properties, the global last, none of which the page can change.
pub proof fn helper_hook_plan(parts: HookParts, plan: Vec<Assignment>)
    requires
        call_ensures(cef_helper::install_notification_hook, (parts,), plan),
    ensures
        !parts.global || !parts.constructor ==> plan@.len() == 0,
        parts.global && parts.constructor ==> {
            &&& plan@.len() == 3
            &&& assigns(
                plan@[0],
                HookTarget::Constructor,
                "permission"@,
                if parts.granted { HookValue::Granted } else { HookValue::Missing },
                true,
            )
            &&& assigns(
                plan@[1],
                HookTarget::Constructor,
                "requestPermission"@,
                if parts.request { HookValue::RequestPermission } else { HookValue::Missing },
                true,
            )
            &&& assigns(
                plan@[2],
                HookTarget::Global,
                "Notification"@,
                HookValue::Constructor,
                true,
            )
        },
{
    plan_holds_assignments(plan);
}

} // verus!
