//! The `$init` message: pipe path, schema of methods and events, protocol
//! version, written as one line of compact JSON-RPC.

use vstd::prelude::*;

use crate::control::json_text::{json_quote, json_quoted};
use crate::name_table::NameTable;
use crate::numtext::{decimal, u32_decimal};

verus! {

/// Response type of a method.
#[derive(Debug, Clone, Copy, PartialEq, Eq, Structural)]
pub enum ResponseType {
    /// Returns a single result.
    Result,
    /// Returns a stream of chunks.
    Stream,
    /// Returns only an acknowledgment.
    Ack,
    /// Fire-and-forget, no response.
    NoResponse,
}

/// The lower-case name a response type has in the schema.
pub open spec fn response_type_name(r: ResponseType) -> Seq<char> {
    match r {
        ResponseType::Result => "result"@,
        ResponseType::Stream => "stream"@,
        ResponseType::Ack => "ack"@,
        ResponseType::NoResponse => "none"@,
    }
}

impl ResponseType {
    /// The lower-case name of the response type in the schema.
    pub fn name(&self) -> (r: &'static str)
        ensures
            r@ == response_type_name(*self),
    {
        match self {
            ResponseType::Result => "result",
            ResponseType::Stream => "stream",
            ResponseType::Ack => "ack",
            ResponseType::NoResponse => "none",
        }
    }
}

/// Method definition with ID and response type.
#[derive(Debug, Clone, Copy, PartialEq, Eq, Structural)]
pub struct MethodSchema {
    /// Assigned method ID (1-65534).
    pub id: u16,
    /// Expected response type.
    pub response: ResponseType,
}

/// Event definition with ID.
#[derive(Debug, Clone, Copy, PartialEq, Eq, Structural)]
pub struct EventSchema {
    /// Assigned event ID (1-65534).
    pub id: u16,
}

/// Schema describing the methods and events a worker supports.
#[derive(Debug, Clone)]
pub struct InitSchema {
    /// Method names and their definitions.
    pub methods: NameTable<MethodSchema>,
    /// Event names and their definitions.
    pub events: NameTable<EventSchema>,
}

impl InitSchema {
    /// Both tables are well formed.
    pub open spec fn wf(&self) -> bool {
        self.methods.wf() && self.events.wf()
    }

    /// What `get_method` finds under `name`.
    pub open spec fn method_lookup(&self, name: Seq<char>) -> Option<MethodSchema> {
        if self.methods.as_map().contains_key(name) {
            Some(self.methods.as_map()[name])
        } else {
            None
        }
    }

    /// What `get_event` finds under `name`.
    pub open spec fn event_lookup(&self, name: Seq<char>) -> Option<EventSchema> {
        if self.events.as_map().contains_key(name) {
            Some(self.events.as_map()[name])
        } else {
            None
        }
    }

    /// `after` is `self` with `method` added under `name` (what `add_method`
    /// does): the methods map `name` to `method`, the events are unchanged.
    pub open spec fn method_added(&self, after: Self, name: Seq<char>, method: MethodSchema) -> bool {
        &&& after.methods.as_map() == self.methods.as_map().insert(name, method)
        &&& after.events == self.events
    }

    /// `after` is `self` with `event` added under `name` (what `add_event`
    /// does): the events map `name` to `event`, the methods are unchanged.
    pub open spec fn event_added(&self, after: Self, name: Seq<char>, event: EventSchema) -> bool {
        &&& after.events.as_map() == self.events.as_map().insert(name, event)
        &&& after.methods == self.methods
    }

    /// An empty schema.
    pub fn new() -> (r: Self)
        ensures
            r.wf(),
            r.methods.as_map() == Map::<Seq<char>, MethodSchema>::empty(),
            r.events.as_map() == Map::<Seq<char>, EventSchema>::empty(),
    {
        InitSchema { methods: NameTable::new(), events: NameTable::new() }
    }

    /// Add a method (or replace the definition under that name).
    pub fn add_method(&mut self, name: &str, id: u16, response: ResponseType)
        requires
            old(self).wf(),
        ensures
            final(self).wf(),
            old(self).method_added(*final(self), name@, MethodSchema { id, response }),
    {
        self.methods.insert(name, MethodSchema { id, response });
    }

    /// Add an event (or replace the definition under that name).
    pub fn add_event(&mut self, name: &str, id: u16)
        requires
            old(self).wf(),
        ensures
            final(self).wf(),
            old(self).event_added(*final(self), name@, EventSchema { id }),
    {
        self.events.insert(name, EventSchema { id });
    }

    /// The method defined under `name`, if any.
    pub fn get_method(&self, name: &str) -> (r: Option<&MethodSchema>)
        requires
            self.wf(),
        ensures
            match r {
                Some(m) => self.method_lookup(name@) == Some(*m),
                None => self.method_lookup(name@) is None,
            },
    {
        self.methods.get(name)
    }

    /// The event defined under `name`, if any.
    pub fn get_event(&self, name: &str) -> (r: Option<&EventSchema>)
        requires
            self.wf(),
        ensures
            match r {
                Some(e) => self.event_lookup(name@) == Some(*e),
                None => self.event_lookup(name@) is None,
            },
    {
        self.events.get(name)
    }

    /// Whether the schema defines no method and no event.
    pub fn is_empty(&self) -> (r: bool)
        ensures
            r == (self.methods.as_map().dom() == Set::<Seq<char>>::empty()
                && self.events.as_map().dom() == Set::<Seq<char>>::empty()),
    {
        self.methods.is_empty() && self.events.is_empty()
    }
}

impl Default for InitSchema {
    fn default() -> (r: Self)
        ensures
            r.wf(),
            r.methods.as_map() == Map::<Seq<char>, MethodSchema>::empty(),
            r.events.as_map() == Map::<Seq<char>, EventSchema>::empty(),
    {
        Self::new()
    }
}

/// Law (read after write): after `add_method(name, ..)`, `get_method(name)`
/// finds the definition just added and every other name finds what it found
/// before, as do all events.
pub proof fn law_schema_read_after_add(
    before: InitSchema,
    after: InitSchema,
    name: Seq<char>,
    other: Seq<char>,
    method: MethodSchema,
)
    requires
        before.method_added(after, name, method),
        other != name,
    ensures
        after.method_lookup(name) == Some(method),
        after.method_lookup(other) == before.method_lookup(other),
        after.event_lookup(other) == before.event_lookup(other),
        after.event_lookup(name) == before.event_lookup(name),
{
}

/// Law (read after write, events): after `add_event(name, ..)`,
/// `get_event(name)` finds the event just added and every other name finds
/// what it found before, as do all methods.
pub proof fn law_schema_event_read_after_add(
    before: InitSchema,
    after: InitSchema,
    name: Seq<char>,
    other: Seq<char>,
    event: EventSchema,
)
    requires
        before.event_added(after, name, event),
        other != name,
    ensures
        after.event_lookup(name) == Some(event),
        after.event_lookup(other) == before.event_lookup(other),
        after.method_lookup(other) == before.method_lookup(other),
        after.method_lookup(name) == before.method_lookup(name),
{
}

/// Protocol version string.
pub const PROTOCOL_VERSION: &'static str = "2.0.0";

/// `items` joined with commas.
pub open spec fn comma_joined(items: Seq<Seq<char>>) -> Seq<char>
    decreases items.len(),
{
    if items.len() == 0 {
        Seq::empty()
    } else if items.len() == 1 {
        items[0]
    } else {
        comma_joined(items.drop_last()) + ","@ + items.last()
    }
}

/// `"name":{"id":N,"response":"R"}`
pub open spec fn method_member(name: Seq<char>, m: MethodSchema) -> Seq<char> {
    json_quoted(name) + ":{\"id\":"@ + decimal(m.id as nat) + ",\"response\":\""@
        + response_type_name(m.response) + "\"}"@
}

/// `"name":{"id":N}`
pub open spec fn event_member(name: Seq<char>, e: EventSchema) -> Seq<char> {
    json_quoted(name) + ":{\"id\":"@ + decimal(e.id as nat) + "}"@
}

/// The members of the methods object, in table order.
pub open spec fn method_members(names: Seq<Seq<char>>, values: Seq<MethodSchema>) -> Seq<Seq<char>> {
    Seq::new(names.len(), |i: int| method_member(names[i], values[i]))
}

/// The members of the events object, in table order.
pub open spec fn event_members(names: Seq<Seq<char>>, values: Seq<EventSchema>) -> Seq<Seq<char>> {
    Seq::new(names.len(), |i: int| event_member(names[i], values[i]))
}

/// The text before the pipe path.
pub open spec fn init_head() -> Seq<char> {
    "{\"jsonrpc\":\"2.0\",\"method\":\"$init\",\"params\":{\"pipe\":"@
}

/// The compact JSON text of the `$init` message. Object members appear in
/// the byte order of their keys (the order serde_json's maps keep), so the
/// tables, sorted by name, are written in table order.
pub open spec fn init_message_text(pipe: Seq<char>, schema: InitSchema) -> Seq<char> {
    init_head() + json_quoted(pipe) + ",\"schema\":{\"events\":{"@ + comma_joined(
        event_members(schema.events.names(), schema.events.values()),
    ) + "},\"methods\":{"@ + comma_joined(
        method_members(schema.methods.names(), schema.methods.values()),
    ) + "}},\"version\":\""@ + PROTOCOL_VERSION@ + "\"}}"@
}

proof fn lemma_comma_joined_step(items: Seq<Seq<char>>, i: int)
    requires
        0 <= i < items.len(),
    ensures
        comma_joined(items.take(i + 1)) == (if i == 0 {
            items[0]
        } else {
            comma_joined(items.take(i)) + ","@ + items[i]
        }),
{
    let t = items.take(i + 1);
    if i > 0 {
        assert(t.drop_last() =~= items.take(i));
    }
}

/// Append the members of the events object to `out`.
fn append_event_members(out: &mut String, events: &NameTable<EventSchema>)
    ensures
        final(out)@ == old(out)@ + comma_joined(event_members(events.names(), events.values())),
{
    let ghost start = out@;
    let ghost items = event_members(events.names(), events.values());
    let n = events.len();
    let mut i: usize = 0;
    assert(items.take(0) =~= Seq::<Seq<char>>::empty());
    while i < n
        invariant
            n == events.names().len(),
            items == event_members(events.names(), events.values()),
            items.len() == n,
            i <= n,
            out@ == start + comma_joined(items.take(i as int)),
        decreases n - i,
    {
        proof {
            lemma_comma_joined_step(items, i as int);
        }
        if i > 0 {
            out.append(",");
        }
        let (name, e) = events.entry(i);
        let q = json_quote(name);
        out.append(q.as_str());
        out.append(":{\"id\":");
        let digits = u32_decimal(e.id as u32);
        out.append(digits.as_str());
        out.append("}");
        assert(items[i as int] == event_member(events.names()[i as int], events.values()[i as int]));
        assert(out@ =~= start + comma_joined(items.take(i as int + 1)));
        i = i + 1;
    }
    assert(items.take(n as int) =~= items);
}

/// Append the members of the methods object to `out`.
fn append_method_members(out: &mut String, methods: &NameTable<MethodSchema>)
    ensures
        final(out)@ == old(out)@ + comma_joined(method_members(methods.names(), methods.values())),
{
    let ghost start = out@;
    let ghost items = method_members(methods.names(), methods.values());
    let n = methods.len();
    let mut i: usize = 0;
    assert(items.take(0) =~= Seq::<Seq<char>>::empty());
    while i < n
        invariant
            n == methods.names().len(),
            items == method_members(methods.names(), methods.values()),
            items.len() == n,
            i <= n,
            out@ == start + comma_joined(items.take(i as int)),
        decreases n - i,
    {
        proof {
            lemma_comma_joined_step(items, i as int);
        }
        if i > 0 {
            out.append(",");
        }
        let (name, m) = methods.entry(i);
        let q = json_quote(name);
        out.append(q.as_str());
        out.append(":{\"id\":");
        let digits = u32_decimal(m.id as u32);
        out.append(digits.as_str());
        out.append(",\"response\":\"");
        out.append(m.response.name());
        out.append("\"}");
        assert(items[i as int] == method_member(methods.names()[i as int], methods.values()[i as int]));
        assert(out@ =~= start + comma_joined(items.take(i as int + 1)));
        i = i + 1;
    }
    assert(items.take(n as int) =~= items);
}

/// Build the `$init` JSON-RPC message for `pipe_path` and `schema`.
pub fn build_init_message(pipe_path: &str, schema: &InitSchema) -> (r: String)
    ensures
        r@ == init_message_text(pipe_path@, *schema),
{
    let mut s = String::from_str("{\"jsonrpc\":\"2.0\",\"method\":\"$init\",\"params\":{\"pipe\":");
    let pipe = json_quote(pipe_path);
    s.append(pipe.as_str());
    s.append(",\"schema\":{\"events\":{");
    append_event_members(&mut s, &schema.events);
    s.append("},\"methods\":{");
    append_method_members(&mut s, &schema.methods);
    s.append("}},\"version\":\"");
    s.append(PROTOCOL_VERSION);
    s.append("\"}}");
    s
}

/// Method definition of the older schema shape.
#[derive(Debug, Clone, Copy, PartialEq, Eq, Structural)]
pub struct MethodDef {
    /// Assigned method ID.
    pub id: u16,
}

/// Event definition of the older schema shape.
#[derive(Debug, Clone, Copy, PartialEq, Eq, Structural)]
pub struct EventDef {
    /// Assigned event ID.
    pub id: u16,
}

/// Schema of the older `$init` shape.
#[derive(Debug, Clone)]
pub struct Schema {
    /// Method names and their definitions.
    pub methods: NameTable<MethodDef>,
    /// Event names and their definitions.
    pub events: NameTable<EventDef>,
}

impl Default for Schema {
    fn default() -> (r: Self)
        ensures
            r.methods.wf(),
            r.events.wf(),
            r.methods.as_map() == Map::<Seq<char>, MethodDef>::empty(),
            r.events.as_map() == Map::<Seq<char>, EventDef>::empty(),
    {
        Schema { methods: NameTable::new(), events: NameTable::new() }
    }
}

/// Parameters of the older `$init` shape.
#[derive(Debug, Clone)]
pub struct InitParams {
    /// Path to the named pipe or Unix socket.
    pub pipe_path: String,
    /// Schema describing available methods and events.
    pub schema: Schema,
}

/// The `$init` message in its older shape.
#[derive(Debug, Clone)]
pub struct InitMessage {
    jsonrpc: &'static str,
    method: &'static str,
    params: InitParams,
}

impl InitMessage {
    /// The `jsonrpc` member.
    pub closed spec fn jsonrpc_text(&self) -> Seq<char> {
        self.jsonrpc@
    }

    /// The `method` member.
    pub closed spec fn method_text(&self) -> Seq<char> {
        self.method@
    }

    /// The `params` member.
    pub closed spec fn params(&self) -> InitParams {
        self.params
    }

    /// A `$init` message (JSON-RPC 2.0) for `pipe_path` and `schema`.
    pub fn new(pipe_path: String, schema: Schema) -> (r: Self)
        ensures
            r.jsonrpc_text() == "2.0"@,
            r.method_text() == "$init"@,
            r.params() == (InitParams { pipe_path, schema }),
    {
        InitMessage { jsonrpc: "2.0", method: "$init", params: InitParams { pipe_path, schema } }
    }

    /// The `jsonrpc` member.
    pub fn jsonrpc(&self) -> (r: &str)
        ensures
            r@ == self.jsonrpc_text(),
    {
        self.jsonrpc
    }

    /// The `method` member.
    pub fn method(&self) -> (r: &str)
        ensures
            r@ == self.method_text(),
    {
        self.method
    }

    /// The `params` member.
    pub fn params_ref(&self) -> (r: &InitParams)
        ensures
            *r == self.params(),
    {
        &self.params
    }
}

} // verus!
