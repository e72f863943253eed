//! The hub: who is connected, and who gets which line.
//!
//! The hub keeps its clients by their ids. A line that is a valid envelope
//! goes to every other client whose filter takes the envelope's kind; the
//! sender never gets its own line back. The hub decides and the caller
//! writes: `dispatch` answers with the ids of the clients to write the line
//! to, in no particular order, and `writer_mut` hands out their connections.

use crate::glob::{matches_any, Filter, GlobSet};
use crate::json::{parsed, try_parse};
use crate::limits::parser_safe;
use crate::listener::{Event, Message};
use crate::text::chars_of;
use std::collections::HashMap;
use vstd::prelude::*;

verus! {

broadcast use vstd::std_specs::hash::group_hash_axioms;

/// A client as the hub's rules see it: its id, the filter for the kinds it
/// wants, and the writable end of its connection.
pub struct Registered<S> {
    pub id: u32,
    pub filter: Seq<Filter>,
    pub writer: S,
}

/// Represents a remotely connected client.
#[derive(Debug)]
pub struct Client<S> {
    client_id: u32,
    writer: S,
    filter: GlobSet,
}

impl<S> View for Client<S> {
    type V = Registered<S>;

    closed spec fn view(&self) -> Registered<S> {
        Registered { id: self.client_id, filter: self.filter@, writer: self.writer }
    }
}

impl<S> Client<S> {
    /// A client that wants every kind of message.
    pub fn new(client_id: u32, stream: S) -> (c: Client<S>)
        ensures
            c@ == (Registered { id: client_id, filter: seq![Filter::All], writer: stream }),
    {
        Client { client_id, writer: stream, filter: GlobSet::all() }
    }

    /// The client's id.
    pub fn client_id(&self) -> (id: u32)
        ensures
            id == self@.id,
    {
        self.client_id
    }
}

/// Whether client `id` gets a message of kind `kind` from `sender`: it is
/// registered, it is not the sender, and its filter takes the kind.
pub open spec fn gets<S>(
    clients: Map<u32, Registered<S>>,
    sender: u32,
    kind: Seq<char>,
    id: u32,
) -> bool {
    clients.contains_key(id) && id != sender && matches_any(clients[id].filter, kind)
}

/// Whether `ids` lists the clients that get a message of kind `kind` from
/// `sender`: each of them once, and nobody else.
pub open spec fn lists<S>(
    ids: Seq<u32>,
    clients: Map<u32, Registered<S>>,
    sender: u32,
    kind: Seq<char>,
) -> bool {
    &&& ids.no_duplicates()
    &&& forall|id: u32| ids.contains(id) <==> gets(clients, sender, kind, id)
}

/// The kind by which a line is routed: that of the envelope it holds. A
/// line that is beyond the parser's limits, or no JSON, or no envelope, is
/// not routed.
pub open spec fn routed(line: Seq<char>) -> Option<Seq<char>> {
    if parser_safe(line) {
        match parsed(line) {
            Ok(envelope) => Some(envelope.kind),
            Err(_) => None,
        }
    } else {
        None
    }
}

/// A line to write, and the clients to write it to.
#[derive(Debug)]
pub struct Broadcast {
    pub recipients: Vec<u32>,
    pub line: String,
}

/// One line written to one client.
#[derive(Debug, PartialEq, Eq)]
pub struct Delivery {
    pub client_id: u32,
    pub line: String,
}

impl View for Delivery {
    type V = (u32, Seq<char>);

    open spec fn view(&self) -> (u32, Seq<char>) {
        (self.client_id, self.line@)
    }
}

/// Looks a client up with `HashMap::get_mut`: a mutable reference to the
/// value that stands under the key, or `None` where nothing stands under
/// it. What is written through the reference stands in the map under the
/// same key; nothing else in the map changes.
#[verifier::external_body]
fn client_mut<'a, S>(clients: &'a mut HashMap<u32, Client<S>>, id: u32) -> (r: Option<
    &'a mut Client<S>,
>)
    ensures
        match r {
            Some(client) => old(clients)@.contains_key(id) && *client == old(clients)@[id]
                && final(clients)@ == old(clients)@.insert(id, *final(client)),
            None => !old(clients)@.contains_key(id) && final(clients)@ == old(clients)@,
        },
{
    clients.get_mut(&id)
}

/// The hub's registry of clients.
#[derive(Debug)]
pub struct Hub<S> {
    clients: HashMap<u32, Client<S>>,
}

impl<S> View for Hub<S> {
    type V = Map<u32, Registered<S>>;

    /// The clients by the ids under which they are registered.
    closed spec fn view(&self) -> Map<u32, Registered<S>> {
        Map::new(
            |id: u32| self.clients@.contains_key(id),
            |id: u32|
                Registered {
                    id,
                    filter: self.clients@[id].filter@,
                    writer: self.clients@[id].writer,
                },
        )
    }
}

impl<S> Hub<S> {
    /// A hub without clients.
    pub fn new() -> (hub: Hub<S>)
        ensures
            hub@ == Map::<u32, Registered<S>>::empty(),
    {
        let hub = Hub { clients: HashMap::new() };
        assert(hub@ =~= Map::<u32, Registered<S>>::empty());
        hub
    }

    /// Whether a client with this id is registered.
    pub fn is_registered(&self, client_id: u32) -> (r: bool)
        ensures
            r == self@.contains_key(client_id),
    {
        self.clients.contains_key(&client_id)
    }

    /// How many clients are registered.
    pub fn len(&self) -> (n: usize)
        ensures
            n == self@.dom().len(),
    {
        assert(self@.dom() =~= self.clients@.dom());
        self.clients.len()
    }

    /// Registers a client under its id. A client that has the id of one in
    /// the registry takes its place.
    pub fn register(&mut self, client: Client<S>)
        ensures
            final(self)@ == old(self)@.insert(client@.id, client@),
    {
        self.clients.insert(client.client_id, client);
        assert(self@ =~= old(self)@.insert(client@.id, client@));
    }

    /// Sets the filter of a registered client. Returns whether there is such
    /// a client; if there is none, nothing changes.
    pub fn subscribe(&mut self, client_id: u32, filter: GlobSet) -> (r: bool)
        ensures
            r == old(self)@.contains_key(client_id),
            final(self)@ == if r {
                old(self)@.insert(
                    client_id,
                    Registered { filter: filter@, ..old(self)@[client_id] },
                )
            } else {
                old(self)@
            },
    {
        let found: bool = match client_mut(&mut self.clients, client_id) {
            Some(client) => {
                client.filter = filter;
                true
            },
            None => false,
        };
        proof {
            if found {
                assert(self@ =~= old(self)@.insert(
                    client_id,
                    Registered { filter: filter@, ..old(self)@[client_id] },
                ));
            } else {
                assert(self@ =~= old(self)@);
            }
        }
        found
    }

    /// The clients that get a message of kind `kind` from `sender`, each
    /// once, in no particular order.
    pub fn recipients(&self, sender: u32, kind: &str) -> (ids: Vec<u32>)
        ensures
            lists(ids@, self@, sender, kind@),
    {
        let text: Vec<char> = chars_of(kind);
        let mut ids: Vec<u32> = Vec::new();
        for key in it: self.clients.keys()
            invariant
                text@ == kind@,
                it.seq().no_duplicates(),
                it.seq().unref().to_set() == self.clients@.dom(),
                ids@.no_duplicates(),
                forall|id: u32|
                    ids@.contains(id) <==> (exists|j: int|
                        0 <= j < it.index() && *(#[trigger] it.seq()[j]) == id && gets(
                            self@,
                            sender,
                            kind@,
                            id,
                        )),
                it.index() == it.seq().len() ==> lists(ids@, self@, sender, kind@),
        {
            let ghost k = it.index() as int;
            let ghost before = ids@;
            assert(it.seq().unref()[k] == *key);
            assert(it.seq().unref().to_set().contains(*key));
            let wanted: bool = match self.clients.get(key) {
                Some(client) => *key != sender && client.filter.match_chars(&text),
                None => false,
            };
            if wanted {
                ids.push(*key);
            }
            proof {
                assert(wanted == gets(self@, sender, kind@, *key));
                if wanted {
                    assert(!before.contains(*key)) by {
                        if before.contains(*key) {
                            let j = choose|j: int| 0 <= j < k && *(#[trigger] it.seq()[j]) == *key;
                            assert(it.seq()[j] == it.seq()[k]);
                        }
                    }
                }
                assert forall|id: u32| ids@.contains(id) implies (exists|j: int|
                    0 <= j < k + 1 && *(#[trigger] it.seq()[j]) == id && gets(
                        self@,
                        sender,
                        kind@,
                        id,
                    )) by {
                    let n = choose|n: int| 0 <= n < ids@.len() && ids@[n] == id;
                    if n < before.len() {
                        assert(before[n] == id);
                        assert(before.contains(id));
                    } else {
                        assert(*it.seq()[k] == id);
                    }
                }
                assert forall|id: u32|
                    (exists|j: int|
                        0 <= j < k + 1 && *(#[trigger] it.seq()[j]) == id && gets(
                            self@,
                            sender,
                            kind@,
                            id,
                        )) implies ids@.contains(id) by {
                    let j = choose|j: int|
                        0 <= j < k + 1 && *(#[trigger] it.seq()[j]) == id && gets(
                            self@,
                            sender,
                            kind@,
                            id,
                        );
                    if j < k {
                        assert(before.contains(id));
                        let n = choose|n: int| 0 <= n < before.len() && before[n] == id;
                        assert(ids@[n] == id);
                    } else {
                        assert(ids@[ids@.len() - 1] == id);
                    }
                }
                assert forall|id: u32| k + 1 == it.seq().len() implies (ids@.contains(id) <==> gets(
                    self@,
                    sender,
                    kind@,
                    id,
                )) by {
                    if gets(self@, sender, kind@, id) {
                        assert(it.seq().unref().to_set().contains(id));
                        let j = choose|j: int|
                            0 <= j < it.seq().unref().len() && it.seq().unref()[j] == id;
                        assert(*it.seq()[j] == id);
                    }
                }
            }
        }
        ids
    }

    /// Takes one message off the queue. A connection is registered under
    /// the id of its client. A line is held against the rules for
    /// envelopes: one that is routed comes back with the clients to write
    /// it to; any other is dropped.
    pub fn dispatch(&mut self, message: Message<S>) -> (r: Option<Broadcast>)
        ensures
            match message.event {
                Event::Stream(stream) => r is None && final(self)@ == old(self)@.insert(
                    message.client_id,
                    Registered { id: message.client_id, filter: seq![Filter::All], writer: stream },
                ),
                Event::Line(line) => final(self)@ == old(self)@ && match routed(line@) {
                    Some(kind) => r matches Some(b) && b.line == line && lists(
                        b.recipients@,
                        old(self)@,
                        message.client_id,
                        kind,
                    ),
                    None => r is None,
                },
            },
    {
        match message.event {
            Event::Stream(stream) => {
                self.register(Client::new(message.client_id, stream));
                None
            },
            Event::Line(line) => {
                let recipients: Vec<u32> = match try_parse(line.as_str()) {
                    Some(Ok(envelope)) => self.recipients(message.client_id, envelope.kind()),
                    _ => {
                        return None;
                    },
                };
                Some(Broadcast { recipients, line })
            },
        }
    }

    /// Takes a client out of the registry, as when its connection has
    /// failed or closed. Returns its connection, or `None` where no such
    /// client is registered.
    pub fn remove(&mut self, client_id: u32) -> (r: Option<S>)
        ensures
            match r {
                Some(writer) => old(self)@.contains_key(client_id) && writer == old(
                    self,
                )@[client_id].writer,
                None => !old(self)@.contains_key(client_id),
            },
            final(self)@ == old(self)@.remove(client_id),
    {
        let removed: Option<Client<S>> = self.clients.remove(&client_id);
        assert(self@ =~= old(self)@.remove(client_id));
        match removed {
            Some(client) => Some(client.writer),
            None => None,
        }
    }

    /// The connection of a registered client, to write to.
    pub fn writer_mut(&mut self, client_id: u32) -> (r: Option<&mut S>)
        ensures
            match r {
                Some(writer) => old(self)@.contains_key(client_id) && *writer == old(
                    self,
                )@[client_id].writer && final(self)@ == old(self)@.insert(
                    client_id,
                    Registered { writer: *final(writer), ..old(self)@[client_id] },
                ),
                None => !old(self)@.contains_key(client_id) && final(self)@ == old(self)@,
            },
    {
        match client_mut(&mut self.clients, client_id) {
            Some(client) => Some(&mut client.writer),
            None => None,
        }
    }
}

/// The registry after a run of messages, for a hub that started without
/// clients: every connection stands under its client's id, a later one in
/// the place of an earlier one, and wants every kind.
pub open spec fn registry<S>(messages: Seq<Message<S>>) -> Map<u32, Registered<S>>
    decreases messages.len(),
{
    if messages.len() == 0 {
        Map::empty()
    } else {
        let before = registry(messages.drop_last());
        let last = messages.last();
        match last.event {
            Event::Stream(stream) => before.insert(
                last.client_id,
                Registered { id: last.client_id, filter: seq![Filter::All], writer: stream },
            ),
            Event::Line(_) => before,
        }
    }
}

/// One copy of `line` for each of `ids`.
pub open spec fn copies(ids: Seq<u32>, line: Seq<char>) -> Seq<(u32, Seq<char>)> {
    Seq::new(ids.len(), |i: int| (ids[i], line))
}

/// Whether `ids` are the clients that the line of `sender` is written to:
/// for a line that is routed those who get it, each once, else nobody.
pub open spec fn addressed<S>(
    ids: Seq<u32>,
    clients: Map<u32, Registered<S>>,
    sender: u32,
    line: Seq<char>,
) -> bool {
    match routed(line) {
        Some(kind) => lists(ids, clients, sender, kind),
        None => ids.len() == 0,
    }
}

/// Whether `out` is what a hub that starts without clients writes for a run
/// of messages: nothing for a connection, and for a line one copy to each
/// client that is registered by then and gets it, the lines in the order of
/// the messages.
pub open spec fn delivered<S>(messages: Seq<Message<S>>, out: Seq<(u32, Seq<char>)>) -> bool
    decreases messages.len(),
{
    if messages.len() == 0 {
        out.len() == 0
    } else {
        let before = messages.drop_last();
        let last = messages.last();
        match last.event {
            Event::Stream(_) => delivered(before, out),
            Event::Line(line) => exists|ids: Seq<u32>|
                {
                    &&& #[trigger] addressed(ids, registry(before), last.client_id, line@)
                    &&& ids.len() <= out.len()
                    &&& out.skip(out.len() - ids.len()) == copies(ids, line@)
                    &&& delivered(before, out.take(out.len() - ids.len()))
                },
        }
    }
}

/// What a run of deliveries holds, as mathematical values.
pub open spec fn written(out: Seq<Delivery>) -> Seq<(u32, Seq<char>)> {
    out.map_values(|d: Delivery| d@)
}

/// Manage and broadcast events: runs a hub that starts without clients over
/// `messages`, in their order, and returns what it writes, line by line.
pub fn broadcast<S>(messages: Vec<Message<S>>) -> (out: Vec<Delivery>)
    ensures
        delivered(messages@, written(out@)),
{
    // List of clients.
    let mut hub: Hub<S> = Hub::new();
    let mut out: Vec<Delivery> = Vec::new();
    let ghost all = messages@;
    assert(written(out@) =~= Seq::<(u32, Seq<char>)>::empty());
    assert(all.take(0) =~= Seq::<Message<S>>::empty());
    for message in it: messages.into_iter()
        invariant
            it.seq() == all,
            hub@ == registry(all.take(it.index() as int)),
            delivered(all.take(it.index() as int), written(out@)),
    {
        let ghost k = it.index() as int;
        let ghost before = written(out@);
        let ghost m = message;
        proof {
            assert(all.take(k + 1).drop_last() =~= all.take(k));
            assert(all.take(k + 1).last() == m);
        }
        match hub.dispatch(message) {
            Some(b) => {
                let mut j: usize = 0;
                while j < b.recipients.len()
                    invariant
                        j <= b.recipients@.len(),
                        written(out@) == before + copies(b.recipients@.take(j as int), b.line@),
                    decreases b.recipients@.len() - j,
                {
                    let ghost so_far = out@;
                    let line: String = b.line.clone();
                    out.push(Delivery { client_id: b.recipients[j], line });
                    proof {
                        let ids = b.recipients@;
                        assert(copies(ids.take(j + 1), b.line@) =~= copies(
                            ids.take(j as int),
                            b.line@,
                        ).push((ids[j as int], b.line@)));
                        assert(written(out@) =~= written(so_far).push((ids[j as int], b.line@)));
                        assert(written(out@) =~= before + copies(ids.take(j + 1), b.line@));
                    }
                    j += 1;
                }
                proof {
                    let ids = b.recipients@;
                    let now = written(out@);
                    assert(ids.take(j as int) =~= ids);
                    assert(now.skip(now.len() - ids.len()) =~= copies(ids, b.line@));
                    assert(now.take(now.len() - ids.len()) =~= before);
                    assert(addressed(ids, registry(all.take(k)), m.client_id, b.line@));
                }
            },
            None => {
                proof {
                    if let Event::Line(line) = m.event {
                        let ids = Seq::<u32>::empty();
                        let now = written(out@);
                        assert(now.skip(now.len() - ids.len()) =~= copies(ids, line@));
                        assert(now.take(now.len() - ids.len()) =~= now);
                        assert(addressed(ids, registry(all.take(k)), m.client_id, line@));
                    }
                }
            },
        }
    }
    assert(all.take(all.len() as int) =~= all);
    out
}

/// The sender is never among those who get its message, and a client whose
/// filter takes every kind gets the message of every other client.
pub proof fn lemma_gets<S>(clients: Map<u32, Registered<S>>, sender: u32, kind: Seq<char>, id: u32)
    ensures
        !gets(clients, sender, kind, sender),
        clients.contains_key(id) && clients[id].filter == seq![Filter::All] ==> (gets(
            clients,
            sender,
            kind,
            id,
        ) <==> id != sender),
{
    assert(seq![Filter::All][0].matches(kind));
}

/// Broadcast exclusion, for one line: where `ids` lists those who get a
/// line that is routed, the sender is not among them, everybody among them
/// is registered, and every other registered client whose filter takes the
/// line's kind is among them, once.
pub proof fn lemma_broadcast_exclusion<S>(
    clients: Map<u32, Registered<S>>,
    sender: u32,
    line: Seq<char>,
    ids: Seq<u32>,
)
    requires
        routed(line) is Some,
        addressed(ids, clients, sender, line),
    ensures
        !ids.contains(sender),
        ids.no_duplicates(),
        forall|id: u32| ids.contains(id) ==> clients.contains_key(id),
        forall|id: u32|
            clients.contains_key(id) && id != sender && matches_any(
                clients[id].filter,
                routed(line)->0,
            ) ==> ids.contains(id),
{
}

/// A run of connections registers each of them under its id with a filter
/// that takes every kind, registers nobody else, and writes nothing.
pub proof fn lemma_connections<S>(streams: Seq<Message<S>>, out: Seq<(u32, Seq<char>)>)
    requires
        forall|i: int| 0 <= i < streams.len() ==> (#[trigger] streams[i]).event is Stream,
    ensures
        forall|id: u32|
            registry(streams).contains_key(id) <==> exists|i: int|
                0 <= i < streams.len() && (#[trigger] streams[i]).client_id == id,
        forall|id: u32|
            registry(streams).contains_key(id) ==> (#[trigger] registry(streams)[id]).filter
                == seq![Filter::All],
        delivered(streams, out) ==> out.len() == 0,
    decreases streams.len(),
{
    if streams.len() > 0 {
        let before = streams.drop_last();
        let last = streams.last();
        let n = streams.len() - 1;
        assert(streams[n].event is Stream);
        assert(streams[n] == last);
        assert forall|i: int| 0 <= i < before.len() implies (#[trigger] before[i]).event
            is Stream by {
            assert(before[i] == streams[i]);
            assert(streams[i].event is Stream);
        }
        lemma_connections(before, out);
        let stream = last.event->Stream_0;
        assert(registry(streams) == registry(before).insert(
            last.client_id,
            Registered { id: last.client_id, filter: seq![Filter::All], writer: stream },
        ));
        assert(delivered(streams, out) == delivered(before, out));
        assert forall|id: u32| registry(streams).contains_key(id) implies exists|i: int|
            0 <= i < streams.len() && (#[trigger] streams[i]).client_id == id by {
            if id == last.client_id {
                assert(streams[n].client_id == id);
            } else {
                assert(registry(before).contains_key(id));
                let i = choose|i: int|
                    0 <= i < before.len() && (#[trigger] before[i]).client_id == id;
                assert(streams[i] == before[i]);
                assert(streams[i].client_id == id);
            }
        }
        assert forall|id: u32|
            (exists|i: int|
                0 <= i < streams.len() && (#[trigger] streams[i]).client_id
                    == id) implies registry(streams).contains_key(id) by {
            let i = choose|i: int|
                0 <= i < streams.len() && (#[trigger] streams[i]).client_id == id;
            if i < before.len() {
                assert(before[i] == streams[i]);
                assert(before[i].client_id == id);
                assert(registry(before).contains_key(id));
            }
        }
        assert forall|id: u32| registry(streams).contains_key(id) implies (#[trigger] registry(
            streams,
        )[id]).filter == seq![Filter::All] by {
            if id != last.client_id {
                assert(registry(before).contains_key(id));
                assert(registry(before)[id].filter == seq![Filter::All]);
            }
        }
    }
}

/// Broadcast exclusion, from the queue: after any run of connections, a
/// line that is routed is written once to every client that has connected,
/// but not to the one that sent it, and nothing else is written.
pub proof fn lemma_broadcast_to_all_others<S>(
    streams: Seq<Message<S>>,
    sender: u32,
    line: String,
    out: Seq<(u32, Seq<char>)>,
)
    requires
        forall|i: int| 0 <= i < streams.len() ==> (#[trigger] streams[i]).event is Stream,
        routed(line@) is Some,
        delivered(streams.push(Message { client_id: sender, event: Event::Line(line) }), out),
    ensures
        out.no_duplicates(),
        forall|j: int| 0 <= j < out.len() ==> (#[trigger] out[j]).1 == line@,
        forall|id: u32|
            out.contains((id, line@)) <==> id != sender && exists|i: int|
                0 <= i < streams.len() && (#[trigger] streams[i]).client_id == id,
{
    let message = Message { client_id: sender, event: Event::Line(line) };
    let run = streams.push(message);
    assert(run.drop_last() =~= streams);
    assert(run.last() == message);
    let ids = choose|ids: Seq<u32>|
        {
            &&& #[trigger] addressed(ids, registry(streams), sender, line@)
            &&& ids.len() <= out.len()
            &&& out.skip(out.len() - ids.len()) == copies(ids, line@)
            &&& delivered(streams, out.take(out.len() - ids.len()))
        };
    lemma_connections(streams, out.take(out.len() - ids.len()));
    assert(out.take(out.len() - ids.len()).len() == 0);
    assert(out =~= copies(ids, line@));
    let kind = routed(line@)->0;
    assert forall|id: u32| ids.contains(id) <==> (id != sender && registry(streams).contains_key(
        id,
    )) by {
        lemma_gets(registry(streams), sender, kind, id);
    }
    assert forall|id: u32| out.contains((id, line@)) <==> ids.contains(id) by {
        if out.contains((id, line@)) {
            let j = choose|j: int| 0 <= j < out.len() && out[j] == (id, line@);
            assert(ids[j] == id);
        }
        if ids.contains(id) {
            let j = choose|j: int| 0 <= j < ids.len() && ids[j] == id;
            assert(out[j] == (id, line@));
        }
    }
    assert forall|i: int, j: int| 0 <= i < out.len() && 0 <= j < out.len() && i != j implies out[i]
        != out[j] by {
        assert(ids[i] != ids[j]);
    }
    assert forall|id: u32|
        out.contains((id, line@)) <==> id != sender && exists|i: int|
            0 <= i < streams.len() && (#[trigger] streams[i]).client_id == id by {
        assert(out.contains((id, line@)) <==> ids.contains(id));
        assert(ids.contains(id) <==> (id != sender && registry(streams).contains_key(id)));
        assert(registry(streams).contains_key(id) <==> exists|i: int|
            0 <= i < streams.len() && (#[trigger] streams[i]).client_id == id);
    }
}

} // verus!
