//! The listener: what the broker does with the connections that plugins
//! make to its socket.
//!
//! The socket itself, the threads and the channel are the caller's. Here are
//! the decisions: which path the socket gets, which id a new connection
//! gets, and which message goes to the hub for what a connection brings.
//! The type `S` stands for the connection's writable end.

use crate::json::{find, json_members, member, shape_of, Field, Shape};
use rustc_serialize::json::Json;
use uuid::Uuid;
use vstd::prelude::*;
use vstd::string::StringExecFns;

verus! {

/// Events are the "actual" payload of the Messages.
#[derive(Debug)]
pub enum Event<S> {
    /// A client sent one line of text.
    Line(String),
    /// A new client connected; this is the writable end of its connection.
    Stream(S),
}

/// Messages are sent through channels. They are envelopes around Events.
#[derive(Debug)]
pub struct Message<S> {
    pub client_id: u32,
    pub event: Event<S>,
}

/// Handy class to generate messages.
#[derive(Debug)]
pub struct Builder {
    client_id: u32,
}

impl View for Builder {
    type V = u32;

    /// The id of the client whose messages the builder makes.
    closed spec fn view(&self) -> u32 {
        self.client_id
    }
}

impl Builder {
    /// A builder for the messages of client `client_id`.
    pub fn new(client_id: u32) -> (b: Builder)
        ensures
            b@ == client_id,
    {
        Builder { client_id }
    }

    /// The id of the client whose messages the builder makes.
    pub fn client_id(&self) -> (id: u32)
        ensures
            id == self@,
    {
        self.client_id
    }

    /// Wraps an event into a message of this client.
    pub fn message<S>(&self, event: Event<S>) -> (m: Message<S>)
        ensures
            m == (Message { client_id: self@, event }),
    {
        Message { client_id: self.client_id, event }
    }

    /// The message for a line that this client sent.
    pub fn line<S>(&self, line: String) -> (m: Message<S>)
        ensures
            m == (Message::<S> { client_id: self@, event: Event::Line(line) }),
    {
        self.message(Event::Line(line))
    }

    /// The message for the connection of this client.
    pub fn stream<S>(&self, stream: S) -> (m: Message<S>)
        ensures
            m == (Message { client_id: self@, event: Event::Stream(stream) }),
    {
        self.message(Event::Stream(stream))
    }
}

/// The first message of a plugin on a new connection: who it is and what it
/// asks for.
#[derive(Debug)]
pub struct Template<'a> {
    pub id: &'a str,
    pub kind: &'a str,
    pub params: Field<'a>,
}

/// What `Template::from_fields` makes of three fields: the id and the kind,
/// where both are strings and `params` is there.
pub open spec fn template(id: Option<Shape>, kind: Option<Shape>, params: Option<Shape>) -> Option<
    (Seq<char>, Seq<char>, Shape),
> {
    match (id, kind, params) {
        (Some(Shape::String(id)), Some(Shape::String(kind)), Some(params)) => Some(
            (id, kind, params),
        ),
        _ => None,
    }
}

impl<'a> Template<'a> {
    /// What the template holds, as mathematical values.
    pub open spec fn parts(self) -> (Seq<char>, Seq<char>, Shape) {
        (self.id@, self.kind@, self.params@)
    }

    /// Makes a template of the fields `id`, `kind` and `params`: there is
    /// one where the first two are strings and the third is there.
    pub fn from_fields(
        id: Option<Field<'a>>,
        kind: Option<Field<'a>>,
        params: Option<Field<'a>>,
    ) -> (r: Option<Template<'a>>)
        ensures
            match r {
                Some(t) => {
                    &&& template(shape_of(id), shape_of(kind), shape_of(params)) == Some(t.parts())
                    &&& id == Some(Field::String(t.id))
                    &&& kind == Some(Field::String(t.kind))
                    &&& params == Some(t.params)
                },
                None => template(shape_of(id), shape_of(kind), shape_of(params)) is None,
            },
    {
        let id: &'a str = match id {
            Some(Field::String(id)) => id,
            _ => return None,
        };
        let kind: &'a str = match kind {
            Some(Field::String(kind)) => kind,
            _ => return None,
        };
        let params: Field<'a> = match params {
            Some(params) => params,
            None => return None,
        };
        Some(Template { id, kind, params })
    }

    /// Reads a template out of a JSON value.
    pub fn from_json(json: &'a Json) -> (r: Option<Template<'a>>)
        ensures
            match r {
                Some(t) => template_in(json_members(*json)) == Some(t.parts()),
                None => template_in(json_members(*json)) is None,
            },
    {
        Template::from_fields(find(json, "id"), find(json, "kind"), find(json, "params"))
    }
}

/// What `template` makes of the members of a JSON value.
pub open spec fn template_in(members: Map<Seq<char>, Shape>) -> Option<
    (Seq<char>, Seq<char>, Shape),
> {
    template(member(members, "id"@), member(members, "kind"@), member(members, "params"@))
}

/// Handles what a connection brings: an event, or `None` when the
/// connection has failed or come to its end. Returns the message to send to
/// the hub in the name of client `id`; `None` ends the connection's loop,
/// and nothing more is sent for this id.
pub fn handle<S>(id: u32, event: Option<Event<S>>) -> (r: Option<Message<S>>)
    ensures
        match event {
            Some(e) => r == Some(Message { client_id: id, event: e }),
            None => r is None,
        },
{
    let builder = Builder::new(id);
    match event {
        Some(e) => Some(builder.message(e)),
        None => None,
    }
}

/// Gives each accepted connection its client id: 0 for the first, then one
/// more for each, and never an id twice.
#[derive(Debug)]
pub struct Acceptor {
    next: Option<u32>,
}

impl View for Acceptor {
    type V = nat;

    /// How many connections have got an id.
    closed spec fn view(&self) -> nat {
        match self.next {
            Some(n) => n as nat,
            None => 0x1_0000_0000,
        }
    }
}

impl Acceptor {
    /// The number of ids there are.
    pub open spec fn capacity() -> nat {
        0x1_0000_0000
    }

    /// An acceptor that has given out no id yet.
    pub fn new() -> (a: Acceptor)
        ensures
            a@ == 0,
    {
        Acceptor { next: Some(0) }
    }

    /// Accepts a connection: returns the builder for its messages, whose
    /// client id is the number of connections accepted before. Once every
    /// id has been given out, no connection is accepted.
    pub fn accept(&mut self) -> (r: Option<Builder>)
        ensures
            match r {
                Some(b) => old(self)@ < Acceptor::capacity() && b@ == old(self)@ && final(self)@
                    == old(self)@ + 1,
                None => old(self)@ == Acceptor::capacity() && final(self)@ == old(self)@,
            },
    {
        match self.next {
            Some(id) => {
                self.next = if id < u32::MAX {
                    Some(id + 1)
                } else {
                    None
                };
                Some(Builder::new(id))
            },
            None => None,
        }
    }
}

/// Whether `c` is a digit of lower-case hexadecimal.
pub open spec fn is_lower_hex(c: char) -> bool {
    '0' <= c <= '9' || 'a' <= c <= 'f'
}

/// Whether `name` has the form of a UUID written without hyphens: 32 digits
/// of lower-case hexadecimal.
pub open spec fn is_simple_uuid(name: Seq<char>) -> bool {
    name.len() == 32 && forall|i: int| 0 <= i < name.len() ==> is_lower_hex(#[trigger] name[i])
}

/// The path of the socket that is called `name`.
pub open spec fn socket_path_of(name: Seq<char>) -> Seq<char> {
    "/tmp/"@ + name + ".sock"@
}

/// Draws a random UUID with `Uuid::new_v4` and writes it in its simple form.
/// Whatever is drawn, that form is 32 digits of lower-case hexadecimal. The
/// draw fails, and does not return, where the operating system has no
/// random bytes to give.
#[verifier::external_body]
pub(crate) fn random_name() -> (name: String)
    ensures
        is_simple_uuid(name@),
{
    Uuid::new_v4().simple().to_string()
}

/// The path of the socket that is called `name`: a file of that name, with
/// the ending `.sock`, in `/tmp`.
pub fn socket_path(name: &str) -> (path: String)
    ensures
        path@ == socket_path_of(name@),
{
    let mut path: String = "/tmp/".to_owned();
    path.append(name);
    path.append(".sock");
    path
}

/// Create a listener: picks the path for its socket, under a fresh random
/// name.
pub fn create() -> (path: String)
    ensures
        exists|name: Seq<char>| is_simple_uuid(name) && path@ == socket_path_of(name),
{
    let name: String = random_name();
    socket_path(name.as_str())
}

} // verus!
