//! What the hook that replaces `window.Notification` does to the script engine, as plain data: the
//! replies of its two native functions, the delivery of their messages, and the properties that put
//! it in place.

use vstd::prelude::*;

verus! {

/// Name of the global that the hook replaces, and of its constructor function.
pub const NOTIFICATION: &'static str = "Notification";

/// Name of the property that holds the permission of a page.
pub const PERMISSION: &'static str = "permission";

/// Name of the function that asks for permission.
pub const REQUEST_PERMISSION: &'static str = "requestPermission";

/// The permission that every page has.
pub const GRANTED: &'static str = "granted";

/// Name of the property of a notification object that shows its title.
pub const TITLE: &'static str = "title";

/// Name of the method of a notification object that closes it.
pub const CLOSE: &'static str = "close";

/// How a message leaves for the browser process.
#[derive(Clone, Copy, Debug, PartialEq, Eq, Structural)]
pub enum Delivery {
    /// It does not leave.
    Nothing,
    /// It leaves without arguments.
    Bare,
    /// It leaves with its arguments.
    Filled,
}

/// How the message for a notification leaves: with its arguments or not at all.
pub fn show_delivery(message_created: bool, arguments_created: bool) -> (delivery: Delivery)
    ensures
        delivery == (if message_created && arguments_created {
            Delivery::Filled
        } else {
            Delivery::Nothing
        }),
{
    if message_created && arguments_created {
        Delivery::Filled
    } else {
        Delivery::Nothing
    }
}

/// What a promise is resolved with.
pub enum Resolution {
    /// It is not resolved.
    Pending,
    /// It is resolved without a value.
    Empty,
    /// It is resolved with a string.
    With(String),
}

/// How a property may be changed by the page.
#[derive(Clone, Copy, Debug, PartialEq, Eq, Structural)]
pub struct PropertyAttributes {
    pub read_only: bool,
    pub dont_delete: bool,
}

/// The value of a property of a notification object.
pub enum ObjectValue {
    /// A string.
    Text(String),
    /// A method that does nothing.
    NoOp,
}

/// One property of a notification object.
pub struct ObjectProperty {
    pub key: &'static str,
    pub value: ObjectValue,
    pub attributes: PropertyAttributes,
}

/// The text of a property of a notification object, or `None` for a method that does nothing.
#[verifier::ext_equal]
pub struct PropertyText {
    pub key: Seq<char>,
    pub text: Option<Seq<char>>,
    pub attributes: PropertyAttributes,
}

impl View for ObjectProperty {
    type V = PropertyText;

    open spec fn view(&self) -> PropertyText {
        PropertyText {
            key: self.key@,
            text: match self.value {
                ObjectValue::Text(text) => Some(text@),
                ObjectValue::NoOp => None,
            },
            attributes: self.attributes,
        }
    }
}

/// What a native function hands back to the page.
pub enum Reply {
    /// The caller wants no value, or none could be made.
    Untouched,
    /// The value `undefined`.
    Undefined,
    /// A string.
    Text(String),
    /// An object with these properties, set in this order.
    Object(Vec<ObjectProperty>),
    /// A promise.
    Promise(Resolution),
}

/// What a reply holds, with texts and lists as sequences.
#[verifier::ext_equal]
pub enum ReplyText {
    Untouched,
    Undefined,
    Text(Seq<char>),
    Object(Seq<PropertyText>),
    PendingPromise,
    EmptyPromise,
    ResolvedPromise(Seq<char>),
}

impl View for Reply {
    type V = ReplyText;

    open spec fn view(&self) -> ReplyText {
        match *self {
            Reply::Untouched => ReplyText::Untouched,
            Reply::Undefined => ReplyText::Undefined,
            Reply::Text(text) => ReplyText::Text(text@),
            Reply::Object(properties) => ReplyText::Object(
                properties@.map_values(|property: ObjectProperty| property@),
            ),
            Reply::Promise(Resolution::Pending) => ReplyText::PendingPromise,
            Reply::Promise(Resolution::Empty) => ReplyText::EmptyPromise,
            Reply::Promise(Resolution::With(text)) => ReplyText::ResolvedPromise(text@),
        }
    }
}

/// Which of the values that the hook needs the engine could make.
#[derive(Clone, Copy, Debug, PartialEq, Eq, Structural)]
pub struct HookParts {
    /// The global object of the context.
    pub global: bool,
    /// The constructor function.
    pub constructor: bool,
    /// The string that grants the permission.
    pub granted: bool,
    /// The function that asks for permission.
    pub request: bool,
}

/// The object that a property is set on.
#[derive(Clone, Copy, Debug, PartialEq, Eq, Structural)]
pub enum HookTarget {
    Global,
    Constructor,
}

/// The value that a property is set to.
#[derive(Clone, Copy, Debug, PartialEq, Eq, Structural)]
pub enum HookValue {
    /// No value: the engine could not make it.
    Missing,
    /// The string that grants the permission.
    Granted,
    /// The function that asks for permission.
    RequestPermission,
    /// The constructor function.
    Constructor,
}

/// One property that the hook sets.
pub struct Assignment {
    pub target: HookTarget,
    pub key: &'static str,
    pub value: HookValue,
    pub attributes: PropertyAttributes,
}

/// What an assignment sets, with the key as a sequence.
#[verifier::ext_equal]
pub struct AssignmentText {
    pub target: HookTarget,
    pub key: Seq<char>,
    pub value: HookValue,
    pub attributes: PropertyAttributes,
}

impl View for Assignment {
    type V = AssignmentText;

    open spec fn view(&self) -> AssignmentText {
        AssignmentText {
            target: self.target,
            key: self.key@,
            value: self.value,
            attributes: self.attributes,
        }
    }
}

/// What a list of assignments sets, in order.
pub open spec fn assignment_texts(plan: Seq<Assignment>) -> Seq<AssignmentText> {
    plan.map_values(|assignment: Assignment| assignment@)
}

/// `Notification.permission`.
pub open spec fn permission_assignment(
    value: HookValue,
    attributes: PropertyAttributes,
) -> AssignmentText {
    AssignmentText { target: HookTarget::Constructor, key: PERMISSION@, value, attributes }
}

/// `Notification.requestPermission`.
pub open spec fn request_assignment(
    value: HookValue,
    attributes: PropertyAttributes,
) -> AssignmentText {
    AssignmentText { target: HookTarget::Constructor, key: REQUEST_PERMISSION@, value, attributes }
}

/// The global `Notification` itself.
pub open spec fn global_assignment(attributes: PropertyAttributes) -> AssignmentText {
    AssignmentText {
        target: HookTarget::Global,
        key: NOTIFICATION@,
        value: HookValue::Constructor,
        attributes,
    }
}

/// `plan` puts the constructor in the place of the global, once, and last of all.
pub open spec fn replaces_global_last(plan: Seq<AssignmentText>) -> bool {
    &&& plan.len() > 0
    &&& plan.last().target == HookTarget::Global
    &&& plan.last().key == NOTIFICATION@
    &&& plan.last().value == HookValue::Constructor
    &&& forall|i: int|
        0 <= i < plan.len() - 1 ==> (#[trigger] plan[i]).target == HookTarget::Constructor
}

/// `plan` sets `key` on the constructor to `value`.
pub open spec fn sets_on_constructor(
    plan: Seq<AssignmentText>,
    key: Seq<char>,
    value: HookValue,
) -> bool {
    exists|i: int|
        0 <= i < plan.len() && (#[trigger] plan[i]).target == HookTarget::Constructor && plan[i].key
            == key && plan[i].value == value
}

} // verus!
