//! Notifications that a page raises: what is read out of a `new Notification(title, options)` call,
//! and the messages that carry it to the browser process.

use vstd::prelude::*;

verus! {

/// Name of the message that asks the browser process to show a notification.
pub const IPC_NOTIFICATION_SHOW: &'static str = "openhuman.notification.show";

/// Name of the message that reports a permission request of a page.
pub const IPC_PERMISSION_REQUEST: &'static str = "openhuman.notification.permission_request";

/// Key of the option that holds the body of a notification.
pub const BODY: &'static str = "body";

/// Key of the option that holds the icon of a notification.
pub const ICON: &'static str = "icon";

/// Key of the option that holds the tag of a notification.
pub const TAG: &'static str = "tag";

/// What the script engine says of a value when it is asked for a string. `string_value` counts only
/// where `is_string` says so.
pub struct ScriptValue {
    pub is_string: i32,
    pub string_value: String,
}

/// What the script engine says of one property of an object.
pub struct ScriptProperty {
    pub has_value: i32,
    pub value: Option<ScriptValue>,
}

/// What the script engine says of one argument of a call. The properties, those under the keys
/// `BODY`, `ICON` and `TAG`, count only where `is_object` says so.
pub struct ScriptArgument {
    pub value: ScriptValue,
    pub is_object: i32,
    pub body: ScriptProperty,
    pub icon: ScriptProperty,
    pub tag: ScriptProperty,
}

/// A notification as a page asked for it. An option that is missing, is no string or is empty is
/// `None`.
pub struct NotificationRequest {
    pub title: String,
    pub body: Option<String>,
    pub icon: Option<String>,
    pub tag: Option<String>,
}

/// The texts of a notification request.
#[verifier::ext_equal]
pub struct RequestText {
    pub title: Seq<char>,
    pub body: Option<Seq<char>>,
    pub icon: Option<Seq<char>>,
    pub tag: Option<Seq<char>>,
}

/// The characters of a text that may be missing.
pub open spec fn text_of(text: Option<String>) -> Option<Seq<char>> {
    match text {
        Some(text) => Some(text@),
        None => None,
    }
}

impl View for NotificationRequest {
    type V = RequestText;

    open spec fn view(&self) -> RequestText {
        RequestText {
            title: self.title@,
            body: text_of(self.body),
            icon: text_of(self.icon),
            tag: text_of(self.tag),
        }
    }
}

/// The string that a property holds, where `yes` tells which answers of the engine mean yes: there
/// is none where the property is missing, is no string or is empty.
pub open spec fn property_text(property: ScriptProperty, yes: spec_fn(i32) -> bool) -> Option<
    Seq<char>,
> {
    match property.value {
        Some(value) => if yes(property.has_value) && yes(value.is_string)
            && value.string_value@.len() > 0 {
            Some(value.string_value@)
        } else {
            None
        },
        None => None,
    }
}

/// The argument at `index` of a call, if it was given.
pub open spec fn argument_at(
    arguments: Option<&[Option<ScriptArgument>]>,
    index: int,
) -> Option<ScriptArgument> {
    match arguments {
        Some(arguments) => if index < arguments@.len() {
            arguments@[index]
        } else {
            None
        },
        None => None,
    }
}

/// What a call asks for: the first argument is the title where it is a string, the second holds the
/// options where it is an object.
pub open spec fn request_text(
    arguments: Option<&[Option<ScriptArgument>]>,
    yes: spec_fn(i32) -> bool,
) -> RequestText {
    let title = match argument_at(arguments, 0) {
        Some(argument) => if yes(argument.value.is_string) {
            argument.value.string_value@
        } else {
            Seq::empty()
        },
        None => Seq::empty(),
    };
    match argument_at(arguments, 1) {
        Some(options) => if yes(options.is_object) {
            RequestText {
                title,
                body: property_text(options.body, yes),
                icon: property_text(options.icon, yes),
                tag: property_text(options.tag, yes),
            }
        } else {
            RequestText { title, body: None, icon: None, tag: None }
        },
        None => RequestText { title, body: None, icon: None, tag: None },
    }
}

/// A message to the browser process: its name and its list of strings.
pub struct IpcMessage {
    pub name: &'static str,
    pub arguments: Vec<String>,
}

/// The texts of a message.
#[verifier::ext_equal]
pub struct MessageText {
    pub name: Seq<char>,
    pub arguments: Seq<Seq<char>>,
}

impl View for IpcMessage {
    type V = MessageText;

    open spec fn view(&self) -> MessageText {
        MessageText {
            name: self.name@,
            arguments: self.arguments@.map_values(|argument: String| argument@),
        }
    }
}

/// A text that may be missing, with the empty text in its place.
pub open spec fn or_empty(text: Option<Seq<char>>) -> Seq<char> {
    match text {
        Some(text) => text,
        None => Seq::empty(),
    }
}

/// The message that shows a notification: title, body, icon, tag, and where the page that raised it
/// comes from.
pub open spec fn show_text(
    request: RequestText,
    frame_url: Seq<char>,
    origin: Seq<char>,
) -> MessageText {
    MessageText {
        name: IPC_NOTIFICATION_SHOW@,
        arguments: seq![
            request.title,
            or_empty(request.body),
            or_empty(request.icon),
            or_empty(request.tag),
            frame_url,
            origin,
        ],
    }
}

/// The text, or the empty text where it is missing.
fn unwrap_text(text: &Option<String>) -> (unwrapped: String)
    ensures
        unwrapped@ == or_empty(text_of(*text)),
{
    match text {
        Some(text) => text.clone(),
        None => String::new(),
    }
}

/// Builds the message that shows a notification.
pub fn show_message(request: &NotificationRequest, frame_url: &str, origin: &str) -> (message:
    IpcMessage)
    ensures
        message@ == show_text(request@, frame_url@, origin@),
{
    let mut arguments: Vec<String> = Vec::new();
    arguments.push(request.title.clone());
    arguments.push(unwrap_text(&request.body));
    arguments.push(unwrap_text(&request.icon));
    arguments.push(unwrap_text(&request.tag));
    arguments.push(frame_url.to_owned());
    arguments.push(origin.to_owned());
    IpcMessage { name: IPC_NOTIFICATION_SHOW, arguments }
}

/// A text that stands in a message, with the empty text as a missing one.
pub open spec fn if_not_empty(text: Seq<char>) -> Option<Seq<char>> {
    if text.len() == 0 {
        None
    } else {
        Some(text)
    }
}

/// Nothing that a page asked for is lost on the way: title, options, page and origin can all be read
/// back from the message, each from its place.
pub proof fn shown_request_reads_back(
    arguments: Option<&[Option<ScriptArgument>]>,
    yes: spec_fn(i32) -> bool,
    frame_url: Seq<char>,
    origin: Seq<char>,
)
    ensures
        ({
            let request = request_text(arguments, yes);
            let sent = show_text(request, frame_url, origin).arguments;
            &&& sent.len() == 6
            &&& sent[0] == request.title
            &&& if_not_empty(sent[1]) == request.body
            &&& if_not_empty(sent[2]) == request.icon
            &&& if_not_empty(sent[3]) == request.tag
            &&& sent[4] == frame_url
            &&& sent[5] == origin
        }),
{
}

/// A call without arguments, and one whose arguments are neither a string nor an object, asks for an
/// empty notification.
pub proof fn useless_arguments_ask_for_nothing(
    arguments: Option<&[Option<ScriptArgument>]>,
    yes: spec_fn(i32) -> bool,
)
    requires
        argument_at(arguments, 0) matches Some(title) ==> !yes(title.value.is_string),
        argument_at(arguments, 1) matches Some(options) ==> !yes(options.is_object),
    ensures
        request_text(arguments, yes) == (RequestText {
            title: Seq::empty(),
            body: None,
            icon: None,
            tag: None,
        }),
{
}

} // verus!
