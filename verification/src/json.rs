//! Envelopes: the JSON objects that travel over the broker's socket, one to a
//! line.
//!
//! There are three forms. A request has a string `id`, a string `kind` and
//! an object `params`. A response has a string `id`, a string `kind` and
//! either an object `result` or an object `error`. A notification has an `id`
//! that is null, a string `kind` and an object `params`.
//!
//! The text is parsed by `rustc_serialize`. What this module reads of a
//! parsed value is its members' shapes, and only lines within the parser's
//! limits, which the module `limits` draws, are handed to it.

use crate::limits::{parser_safe, within_limits};
use rustc_serialize::json::{Json, Object, ParserError};
use vstd::prelude::*;
use vstd::string::StringExecFns;

verus! {

/// A JSON value of `rustc_serialize`. Nothing inside it is seen here; what
/// is read of it is named by `json_members`.
#[verifier::external_type_specification]
#[verifier::external_body]
pub struct ExJson(Json);

/// The error of the JSON parser of `rustc_serialize`. It is carried, never
/// read.
#[verifier::external_type_specification]
#[verifier::external_body]
pub struct ExParserError(ParserError);

/// What validation reads of a JSON value: whether it is null, a string (and
/// which), an object (and what its members are, each as its shape), or
/// anything else.
pub enum Shape {
    Null,
    String(Seq<char>),
    Object(Map<Seq<char>, Shape>),
    Other,
}

/// A member of a JSON object, as far as validation reads it. A string and an
/// object are the member's own, borrowed.
#[derive(Clone, Copy, Debug)]
pub enum Field<'a> {
    Null,
    String(&'a str),
    Object(&'a Object),
    Other,
}

impl<'a> View for Field<'a> {
    type V = Shape;

    open spec fn view(&self) -> Shape {
        match self {
            Field::Null => Shape::Null,
            Field::String(s) => Shape::String(s@),
            Field::Object(o) => Shape::Object(object_members(**o)),
            Field::Other => Shape::Other,
        }
    }
}

/// The shape of a member that may be missing.
pub open spec fn shape_of(field: Option<Field>) -> Option<Shape> {
    match field {
        Some(f) => Some(f@),
        None => None,
    }
}

/// The member `key` of `members`, if there is one.
pub open spec fn member(members: Map<Seq<char>, Shape>, key: Seq<char>) -> Option<Shape> {
    if members.contains_key(key) {
        Some(members[key])
    } else {
        None
    }
}

/// The members of a JSON object by their keys, each as its shape; the empty
/// map for a value that is no object.
pub uninterp spec fn json_members(json: Json) -> Map<Seq<char>, Shape>;

/// The entries of the map that a JSON object holds, by their keys, each as
/// its shape.
pub uninterp spec fn object_members(object: Object) -> Map<Seq<char>, Shape>;

/// The members of the value that the parser makes of a text, as
/// `json_members` gives them; `None` for a text that the parser rejects.
pub uninterp spec fn json_text(text: Seq<char>) -> Option<Map<Seq<char>, Shape>>;

/// Parses a text with `Json::from_str`. The result is the parser's: a value
/// whose members are those that `json_text` names for the text, or the
/// parser's error where `json_text` names none.
///
/// Asks for a text within the parser's limits. Beyond them `Json::from_str`
/// may not return: it calls itself once for every level of nesting, keeps
/// its place among the keys in 16 bits and among the items of an array in
/// 32, adds up the digits of an exponent unchecked, and behind a comma
/// before the closing brace of a nested object it loses its place and
/// panics.
#[verifier::external_body]
pub(crate) fn parse_text(text: &str) -> (r: Result<Json, ParserError>)
    requires
        parser_safe(text@),
    ensures
        match r {
            Ok(json) => json_text(text@) == Some(json_members(json)),
            Err(_) => json_text(text@) is None,
        },
{
    Json::from_str(text)
}

/// Looks up a member of a JSON object with `Json::find`: `None` where `json`
/// is no object or has no member `key`, else the member, told apart by its
/// variant. A string is the member's own, and an object is the map that the
/// member holds.
#[verifier::external_body]
pub(crate) fn find<'a>(json: &'a Json, key: &str) -> (r: Option<Field<'a>>)
    ensures
        shape_of(r) == member(json_members(*json), key@),
        r matches Some(Field::Object(o)) ==> member(json_members(*json), key@) == Some(
            Shape::Object(object_members(*o)),
        ),
{
    match json.find(key) {
        None => None,
        Some(Json::Null) => Some(Field::Null),
        Some(Json::String(s)) => Some(Field::String(s)),
        Some(Json::Object(o)) => Some(Field::Object(o)),
        Some(_) => Some(Field::Other),
    }
}

/// Writes a parser's error as its `Debug` form.
#[verifier::external_body]
pub(crate) fn parser_error_text(err: &ParserError) -> String {
    format!("{:?}", err)
}

/// Errors that can occur when trying to parse a template.
#[derive(Debug)]
pub enum TemplateError<'a> {
    /// The text is no JSON.
    JsonError(ParserError),
    /// The field of this name is missing.
    MissingField(&'a str),
    /// The field of this name is not of the type named second.
    InvalidType(&'a str, &'a str),
}

/// What a `TemplateError` says, as mathematical values.
pub enum TemplateErrorView {
    JsonError,
    MissingField(Seq<char>),
    InvalidType(Seq<char>, Seq<char>),
}

impl<'a> View for TemplateError<'a> {
    type V = TemplateErrorView;

    open spec fn view(&self) -> TemplateErrorView {
        match self {
            TemplateError::JsonError(_) => TemplateErrorView::JsonError,
            TemplateError::MissingField(field) => TemplateErrorView::MissingField(field@),
            TemplateError::InvalidType(field, typ) => TemplateErrorView::InvalidType(field@, typ@),
        }
    }
}

impl<'a> From<ParserError> for TemplateError<'a> {
    /// The parser's error, as the reason why a line is no envelope.
    fn from(err: ParserError) -> (r: TemplateError<'a>) {
        TemplateError::JsonError(err)
    }
}

impl<'a> vstd::std_specs::convert::FromSpecImpl<ParserError> for TemplateError<'a> {
    open spec fn obeys_from_spec() -> bool {
        true
    }

    open spec fn from_spec(err: ParserError) -> TemplateError<'a> {
        TemplateError::JsonError(err)
    }
}

impl<'a> TemplateError<'a> {
    /// Says in words what is wrong. For a parser's error the words are the
    /// parser's.
    pub fn message(&self) -> (s: String)
        ensures
            match self@ {
                TemplateErrorView::JsonError => true,
                TemplateErrorView::MissingField(field) => s@ == "Field "@ + field
                    + " is required but missing."@,
                TemplateErrorView::InvalidType(field, typ) => s@ == "Field "@ + field
                    + " should be a/an "@ + typ + "."@,
            },
    {
        match self {
            TemplateError::JsonError(err) => parser_error_text(err),
            TemplateError::MissingField(field) => {
                let mut s: String = "Field ".to_owned();
                s.append(field);
                s.append(" is required but missing.");
                s
            },
            TemplateError::InvalidType(field, typ) => {
                let mut s: String = "Field ".to_owned();
                s.append(field);
                s.append(" should be a/an ");
                s.append(typ);
                s.append(".");
                s
            },
        }
    }
}

/// The string in a field that must be a string.
pub open spec fn string_field(field: Option<Shape>, name: Seq<char>) -> Result<
    Seq<char>,
    TemplateErrorView,
> {
    match field {
        None => Err(TemplateErrorView::MissingField(name)),
        Some(Shape::String(s)) => Ok(s),
        Some(_) => Err(TemplateErrorView::InvalidType(name, "string"@)),
    }
}

/// The members of the object in a field that must be an object.
pub open spec fn object_field(field: Option<Shape>, name: Seq<char>) -> Result<
    Map<Seq<char>, Shape>,
    TemplateErrorView,
> {
    match field {
        None => Err(TemplateErrorView::MissingField(name)),
        Some(Shape::Object(members)) => Ok(members),
        Some(_) => Err(TemplateErrorView::InvalidType(name, "object"@)),
    }
}

/// The members of the object in a field that must be an object where it is
/// there at all.
pub open spec fn optional_object_field(field: Option<Shape>, name: Seq<char>) -> Result<
    Option<Map<Seq<char>, Shape>>,
    TemplateErrorView,
> {
    match field {
        None => Ok(None),
        Some(Shape::Object(members)) => Ok(Some(members)),
        Some(_) => Err(TemplateErrorView::InvalidType(name, "object"@)),
    }
}

/// Unwraps a string from a field.
pub fn json_string<'a>(field: Option<Field<'a>>, name: &'static str) -> (r: Result<
    &'a str,
    TemplateError<'static>,
>)
    ensures
        match r {
            Ok(s) => field == Some(Field::String(s)) && string_field(shape_of(field), name@)
                == Ok::<Seq<char>, TemplateErrorView>(s@),
            Err(e) => string_field(shape_of(field), name@) == Err::<Seq<char>, TemplateErrorView>(
                e@,
            ),
        },
{
    match field {
        None => Err(TemplateError::MissingField(name)),
        Some(Field::String(s)) => Ok(s),
        Some(_) => Err(TemplateError::InvalidType(name, "string")),
    }
}

/// Unwraps an object from a field.
pub fn json_object<'a>(field: Option<Field<'a>>, name: &'static str) -> (r: Result<
    &'a Object,
    TemplateError<'static>,
>)
    ensures
        match r {
            Ok(o) => field == Some(Field::Object(o)) && object_field(shape_of(field), name@)
                == Ok::<Map<Seq<char>, Shape>, TemplateErrorView>(object_members(*o)),
            Err(e) => object_field(shape_of(field), name@) == Err::<
                Map<Seq<char>, Shape>,
                TemplateErrorView,
            >(e@),
        },
{
    match field {
        None => Err(TemplateError::MissingField(name)),
        Some(Field::Object(o)) => Ok(o),
        Some(_) => Err(TemplateError::InvalidType(name, "object")),
    }
}

/// The members of an object that may be missing.
pub open spec fn members_of(object: Option<&Object>) -> Option<Map<Seq<char>, Shape>> {
    match object {
        Some(o) => Some(object_members(*o)),
        None => None,
    }
}

/// Unwraps an object from a field that may be missing.
pub fn json_opt_object<'a>(field: Option<Field<'a>>, name: &'static str) -> (r: Result<
    Option<&'a Object>,
    TemplateError<'static>,
>)
    ensures
        match r {
            Ok(object) => {
                &&& optional_object_field(shape_of(field), name@) == Ok::<
                    Option<Map<Seq<char>, Shape>>,
                    TemplateErrorView,
                >(members_of(object))
                &&& match object {
                    Some(o) => field == Some(Field::Object(o)),
                    None => field is None,
                }
            },
            Err(e) => optional_object_field(shape_of(field), name@) == Err::<
                Option<Map<Seq<char>, Shape>>,
                TemplateErrorView,
            >(e@),
        },
{
    match field {
        None => Ok(None),
        Some(Field::Object(o)) => Ok(Some(o)),
        Some(_) => Err(TemplateError::InvalidType(name, "object")),
    }
}

/// Test if a field exists and is an object.
pub fn json_is_field_object(json: &Json, field: &str) -> (r: bool)
    ensures
        r == (member(json_members(*json), field@) matches Some(Shape::Object(_))),
{
    match find(json, field) {
        Some(Field::Object(_)) => true,
        _ => false,
    }
}

/// What a request holds: its id, its kind, and the members of its `params`.
pub struct Request {
    pub id: Seq<char>,
    pub kind: Seq<char>,
    pub params: Map<Seq<char>, Shape>,
}

/// What a response holds: its id, its kind, and the members of its `result`
/// or of its `error`, whichever is there.
pub struct Response {
    pub id: Seq<char>,
    pub kind: Seq<char>,
    pub result: Option<Map<Seq<char>, Shape>>,
    pub error: Option<Map<Seq<char>, Shape>>,
}

/// What a notification holds: its kind and the members of its `params`.
pub struct Notification {
    pub kind: Seq<char>,
    pub params: Map<Seq<char>, Shape>,
}

/// The request with these fields, or what is wrong with the first field
/// that is not as a request needs it: `id`, then `kind`, then `params`.
pub open spec fn request(id: Option<Shape>, kind: Option<Shape>, params: Option<Shape>) -> Result<
    Request,
    TemplateErrorView,
> {
    match string_field(id, "id"@) {
        Err(e) => Err(e),
        Ok(id) => match string_field(kind, "kind"@) {
            Err(e) => Err(e),
            Ok(kind) => match object_field(params, "params"@) {
                Err(e) => Err(e),
                Ok(params) => Ok(Request { id, kind, params }),
            },
        },
    }
}

/// The response with these fields, or what is wrong with them. One of
/// `result` and `error` must be an object; `id` and `kind` must be strings;
/// `error` and then `result` must be an object where it is there; and not
/// both may be there.
pub open spec fn response(
    id: Option<Shape>,
    kind: Option<Shape>,
    result: Option<Shape>,
    error: Option<Shape>,
) -> Result<Response, TemplateErrorView> {
    if !(result matches Some(Shape::Object(_))) && !(error matches Some(Shape::Object(_))) {
        Err(TemplateErrorView::MissingField("result/error"@))
    } else {
        match string_field(id, "id"@) {
            Err(e) => Err(e),
            Ok(id) => match string_field(kind, "kind"@) {
                Err(e) => Err(e),
                Ok(kind) => match optional_object_field(error, "error"@) {
                    Err(e) => Err(e),
                    Ok(error) => match optional_object_field(result, "result"@) {
                        Err(e) => Err(e),
                        Ok(result) => if result is Some && error is Some {
                            Err(TemplateErrorView::MissingField("result/error"@))
                        } else {
                            Ok(Response { id, kind, result, error })
                        },
                    },
                },
            },
        }
    }
}

/// The notification with these fields, or what is wrong with the first
/// field that is not as a notification needs it: `id`, which must be there
/// and null, then `kind`, then `params`.
pub open spec fn notification(
    id: Option<Shape>,
    kind: Option<Shape>,
    params: Option<Shape>,
) -> Result<Notification, TemplateErrorView> {
    match id {
        None => Err(TemplateErrorView::MissingField("id"@)),
        Some(Shape::Null) => match string_field(kind, "kind"@) {
            Err(e) => Err(e),
            Ok(kind) => match object_field(params, "params"@) {
                Err(e) => Err(e),
                Ok(params) => Ok(Notification { kind, params }),
            },
        },
        Some(_) => Err(TemplateErrorView::InvalidType("id"@, "null"@)),
    }
}

/// What `request` makes of the members of a JSON value.
pub open spec fn request_in(members: Map<Seq<char>, Shape>) -> Result<Request, TemplateErrorView> {
    request(member(members, "id"@), member(members, "kind"@), member(members, "params"@))
}

/// What `response` makes of the members of a JSON value.
pub open spec fn response_in(members: Map<Seq<char>, Shape>) -> Result<
    Response,
    TemplateErrorView,
> {
    response(
        member(members, "id"@),
        member(members, "kind"@),
        member(members, "result"@),
        member(members, "error"@),
    )
}

/// What `notification` makes of the members of a JSON value.
pub open spec fn notification_in(members: Map<Seq<char>, Shape>) -> Result<
    Notification,
    TemplateErrorView,
> {
    notification(member(members, "id"@), member(members, "kind"@), member(members, "params"@))
}

/// Represents a Request.
#[derive(Debug)]
pub struct RequestTemplate<'a> {
    pub id: &'a str,
    pub kind: &'a str,
    pub params: &'a Object,
}

impl<'a> View for RequestTemplate<'a> {
    type V = Request;

    open spec fn view(&self) -> Request {
        Request { id: self.id@, kind: self.kind@, params: object_members(*self.params) }
    }
}

impl<'a> RequestTemplate<'a> {
    /// Checks the three fields of a request. What the template holds is the
    /// fields' own.
    pub fn from_fields(
        id: Option<Field<'a>>,
        kind: Option<Field<'a>>,
        params: Option<Field<'a>>,
    ) -> (r: Result<RequestTemplate<'a>, TemplateError<'static>>)
        ensures
            match r {
                Ok(t) => {
                    &&& request(shape_of(id), shape_of(kind), shape_of(params)) == Ok::<
                        Request,
                        TemplateErrorView,
                    >(t@)
                    &&& id == Some(Field::String(t.id))
                    &&& kind == Some(Field::String(t.kind))
                    &&& params == Some(Field::Object(t.params))
                },
                Err(e) => request(shape_of(id), shape_of(kind), shape_of(params)) == Err::<
                    Request,
                    TemplateErrorView,
                >(e@),
            },
    {
        let id: &'a str = match json_string(id, "id") {
            Ok(s) => s,
            Err(e) => return Err(e),
        };
        let kind: &'a str = match json_string(kind, "kind") {
            Ok(s) => s,
            Err(e) => return Err(e),
        };
        let params: &'a Object = match json_object(params, "params") {
            Ok(o) => o,
            Err(e) => return Err(e),
        };
        Ok(RequestTemplate { id, kind, params })
    }

    /// Reads a request out of a JSON value: its id, its kind and its
    /// `params` are those of the value.
    pub fn new(json: &'a Json) -> (r: Result<RequestTemplate<'a>, TemplateError<'static>>)
        ensures
            match r {
                Ok(t) => request_in(json_members(*json)) == Ok::<Request, TemplateErrorView>(t@),
                Err(e) => request_in(json_members(*json)) == Err::<Request, TemplateErrorView>(e@),
            },
    {
        RequestTemplate::from_fields(find(json, "id"), find(json, "kind"), find(json, "params"))
    }
}

/// Represents a Response
#[derive(Debug)]
pub struct ResponseTemplate<'a> {
    pub id: &'a str,
    pub kind: &'a str,
    pub error: Option<&'a Object>,
    pub result: Option<&'a Object>,
}

impl<'a> View for ResponseTemplate<'a> {
    type V = Response;

    open spec fn view(&self) -> Response {
        Response {
            id: self.id@,
            kind: self.kind@,
            result: members_of(self.result),
            error: members_of(self.error),
        }
    }
}

impl<'a> ResponseTemplate<'a> {
    /// Checks the four fields of a response. Of `result` and `error` the
    /// template holds the one that is there; what it holds is the fields'
    /// own.
    pub fn from_fields(
        id: Option<Field<'a>>,
        kind: Option<Field<'a>>,
        result: Option<Field<'a>>,
        error: Option<Field<'a>>,
    ) -> (r: Result<ResponseTemplate<'a>, TemplateError<'static>>)
        ensures
            match r {
                Ok(t) => {
                    &&& response(shape_of(id), shape_of(kind), shape_of(result), shape_of(error))
                        == Ok::<Response, TemplateErrorView>(t@)
                    &&& id == Some(Field::String(t.id))
                    &&& kind == Some(Field::String(t.kind))
                    &&& match t.result {
                        Some(o) => result == Some(Field::Object(o)) && error is None,
                        None => result is None,
                    }
                    &&& match t.error {
                        Some(o) => error == Some(Field::Object(o)) && result is None,
                        None => error is None,
                    }
                },
                Err(e) => response(shape_of(id), shape_of(kind), shape_of(result), shape_of(error))
                    == Err::<Response, TemplateErrorView>(e@),
            },
    {
        let result_is_object: bool = match result {
            Some(Field::Object(_)) => true,
            _ => false,
        };
        let error_is_object: bool = match error {
            Some(Field::Object(_)) => true,
            _ => false,
        };
        if !result_is_object && !error_is_object {
            return Err(TemplateError::MissingField("result/error"));
        }
        let id: &'a str = match json_string(id, "id") {
            Ok(s) => s,
            Err(e) => return Err(e),
        };
        let kind: &'a str = match json_string(kind, "kind") {
            Ok(s) => s,
            Err(e) => return Err(e),
        };
        let error: Option<&'a Object> = match json_opt_object(error, "error") {
            Ok(o) => o,
            Err(e) => return Err(e),
        };
        let result: Option<&'a Object> = match json_opt_object(result, "result") {
            Ok(o) => o,
            Err(e) => return Err(e),
        };
        if error.is_some() && result.is_some() {
            return Err(TemplateError::MissingField("result/error"));
        }
        Ok(ResponseTemplate { id, kind, error, result })
    }

    /// Reads a response out of a JSON value: its id, its kind and its
    /// `result` or `error` are those of the value.
    pub fn new(json: &'a Json) -> (r: Result<ResponseTemplate<'a>, TemplateError<'static>>)
        ensures
            match r {
                Ok(t) => response_in(json_members(*json)) == Ok::<Response, TemplateErrorView>(t@),
                Err(e) => response_in(json_members(*json)) == Err::<Response, TemplateErrorView>(
                    e@,
                ),
            },
    {
        ResponseTemplate::from_fields(
            find(json, "id"),
            find(json, "kind"),
            find(json, "result"),
            find(json, "error"),
        )
    }
}

/// Represents a Notification
#[derive(Debug)]
pub struct NotificationTemplate<'a> {
    pub kind: &'a str,
    pub params: &'a Object,
}

impl<'a> View for NotificationTemplate<'a> {
    type V = Notification;

    open spec fn view(&self) -> Notification {
        Notification { kind: self.kind@, params: object_members(*self.params) }
    }
}

impl<'a> NotificationTemplate<'a> {
    /// Checks the three fields of a notification. What the template holds
    /// is the fields' own.
    pub fn from_fields(
        id: Option<Field<'a>>,
        kind: Option<Field<'a>>,
        params: Option<Field<'a>>,
    ) -> (r: Result<NotificationTemplate<'a>, TemplateError<'static>>)
        ensures
            match r {
                Ok(t) => {
                    &&& notification(shape_of(id), shape_of(kind), shape_of(params)) == Ok::<
                        Notification,
                        TemplateErrorView,
                    >(t@)
                    &&& kind == Some(Field::String(t.kind))
                    &&& params == Some(Field::Object(t.params))
                },
                Err(e) => notification(shape_of(id), shape_of(kind), shape_of(params)) == Err::<
                    Notification,
                    TemplateErrorView,
                >(e@),
            },
    {
        // Ensure id is present and null.
        match id {
            None => return Err(TemplateError::MissingField("id")),
            Some(Field::Null) => {},
            Some(_) => return Err(TemplateError::InvalidType("id", "null")),
        }
        let kind: &'a str = match json_string(kind, "kind") {
            Ok(s) => s,
            Err(e) => return Err(e),
        };
        let params: &'a Object = match json_object(params, "params") {
            Ok(o) => o,
            Err(e) => return Err(e),
        };
        Ok(NotificationTemplate { kind, params })
    }

    /// Reads a notification out of a JSON value: its kind and its `params`
    /// are those of the value.
    pub fn new(json: &'a Json) -> (r: Result<NotificationTemplate<'a>, TemplateError<'static>>)
        ensures
            match r {
                Ok(t) => notification_in(json_members(*json)) == Ok::<
                    Notification,
                    TemplateErrorView,
                >(t@),
                Err(e) => notification_in(json_members(*json)) == Err::<
                    Notification,
                    TemplateErrorView,
                >(e@),
            },
    {
        NotificationTemplate::from_fields(
            find(json, "id"),
            find(json, "kind"),
            find(json, "params"),
        )
    }
}

/// The three forms of envelope.
#[derive(Clone, Copy, Debug, PartialEq, Eq)]
pub enum Form {
    Request,
    Response,
    Notification,
}

/// What an envelope says of itself: its form, its id (a notification has
/// none) and its kind, the topic by which it is routed.
pub struct EnvelopeView {
    pub form: Form,
    pub id: Option<Seq<char>>,
    pub kind: Seq<char>,
}

/// The form by whose rules a line is read. A line whose `id` is null is
/// read as a notification; any other line with a member `result` or `error`
/// as a response; the rest as requests.
pub open spec fn form_of(id: Option<Shape>, result: Option<Shape>, error: Option<Shape>) -> Form {
    if id == Some(Shape::Null) {
        Form::Notification
    } else if result is Some || error is Some {
        Form::Response
    } else {
        Form::Request
    }
}

/// The envelope that a JSON value with these members is, or what is wrong
/// with it by the rules of its form.
pub open spec fn envelope(members: Map<Seq<char>, Shape>) -> Result<
    EnvelopeView,
    TemplateErrorView,
> {
    match form_of(member(members, "id"@), member(members, "result"@), member(members, "error"@)) {
        Form::Notification => match notification_in(members) {
            Ok(n) => Ok(EnvelopeView { form: Form::Notification, id: None, kind: n.kind }),
            Err(e) => Err(e),
        },
        Form::Response => match response_in(members) {
            Ok(h) => Ok(EnvelopeView { form: Form::Response, id: Some(h.id), kind: h.kind }),
            Err(e) => Err(e),
        },
        Form::Request => match request_in(members) {
            Ok(h) => Ok(EnvelopeView { form: Form::Request, id: Some(h.id), kind: h.kind }),
            Err(e) => Err(e),
        },
    }
}

/// The envelope that a line of text is, or what is wrong with it: a text
/// that the parser rejects is no JSON, and what it accepts is read by
/// `envelope`.
pub open spec fn parsed(text: Seq<char>) -> Result<EnvelopeView, TemplateErrorView> {
    match json_text(text) {
        None => Err(TemplateErrorView::JsonError),
        Some(members) => envelope(members),
    }
}

/// Tells the form of a line by three of its fields.
pub fn classify(id: Option<Field>, result: Option<Field>, error: Option<Field>) -> (form: Form)
    ensures
        form == form_of(shape_of(id), shape_of(result), shape_of(error)),
{
    match id {
        Some(Field::Null) => Form::Notification,
        _ => if result.is_some() || error.is_some() {
            Form::Response
        } else {
            Form::Request
        },
    }
}

/// One parsed line of wire traffic: a request, a response or a
/// notification, with the JSON value that it was read from.
#[derive(Debug)]
pub struct Envelope {
    form: Form,
    id: Option<String>,
    kind: String,
    json: Json,
}

impl View for Envelope {
    type V = EnvelopeView;

    closed spec fn view(&self) -> EnvelopeView {
        EnvelopeView {
            form: self.form,
            id: match self.id {
                Some(s) => Some(s@),
                None => None,
            },
            kind: self.kind@,
        }
    }
}

/// What came of reading an envelope, as mathematical values.
pub open spec fn outcome(r: Result<Envelope, TemplateError>) -> Result<
    EnvelopeView,
    TemplateErrorView,
> {
    match r {
        Ok(envelope) => Ok(envelope@),
        Err(e) => Err(e@),
    }
}

impl Envelope {
    /// The members of the JSON value that the envelope was read from.
    pub closed spec fn members(&self) -> Map<Seq<char>, Shape> {
        json_members(self.json)
    }

    /// The envelope's form.
    pub fn form(&self) -> (form: Form)
        ensures
            form == self@.form,
    {
        self.form
    }

    /// The envelope's id; a notification has none.
    pub fn id(&self) -> (id: Option<&str>)
        ensures
            match id {
                Some(s) => self@.id == Some(s@),
                None => self@.id is None,
            },
    {
        match &self.id {
            Some(s) => Some(s.as_str()),
            None => None,
        }
    }

    /// The envelope's kind: the topic by which it is routed.
    pub fn kind(&self) -> (kind: &str)
        ensures
            kind@ == self@.kind,
    {
        self.kind.as_str()
    }

    /// The JSON value that the envelope was read from, with its payload.
    pub fn document(&self) -> (json: &Json)
        ensures
            json_members(*json) == self.members(),
    {
        &self.json
    }

    /// Reads an envelope out of a JSON value, by the rules of the form that
    /// `form_of` tells.
    pub fn new(json: Json) -> (r: Result<Envelope, TemplateError<'static>>)
        ensures
            outcome(r) == envelope(json_members(json)),
            r matches Ok(e) ==> e.members() == json_members(json),
    {
        let form: Form = classify(find(&json, "id"), find(&json, "result"), find(&json, "error"));
        let id: Option<String>;
        let kind: String;
        match form {
            Form::Notification => match NotificationTemplate::new(&json) {
                Ok(t) => {
                    id = None;
                    kind = t.kind.to_owned();
                },
                Err(e) => {
                    return Err(e);
                },
            },
            Form::Response => match ResponseTemplate::new(&json) {
                Ok(t) => {
                    id = Some(t.id.to_owned());
                    kind = t.kind.to_owned();
                },
                Err(e) => {
                    return Err(e);
                },
            },
            Form::Request => match RequestTemplate::new(&json) {
                Ok(t) => {
                    id = Some(t.id.to_owned());
                    kind = t.kind.to_owned();
                },
                Err(e) => {
                    return Err(e);
                },
            },
        }
        Ok(Envelope { form, id, kind, json })
    }
}

/// Parses one line of wire traffic that is within the parser's limits.
pub fn parse(line: &str) -> (r: Result<Envelope, TemplateError<'static>>)
    requires
        parser_safe(line@),
    ensures
        outcome(r) == parsed(line@),
{
    match parse_text(line) {
        Ok(json) => Envelope::new(json),
        Err(err) => Err(TemplateError::from(err)),
    }
}

/// Parses one line of wire traffic. A line beyond the parser's limits is not
/// parsed: the answer is `None`.
pub fn try_parse(line: &str) -> (r: Option<Result<Envelope, TemplateError<'static>>>)
    ensures
        match r {
            Some(result) => parser_safe(line@) && outcome(result) == parsed(line@),
            None => !parser_safe(line@),
        },
{
    if within_limits(line) {
        Some(parse(line))
    } else {
        None
    }
}

} // verus!
