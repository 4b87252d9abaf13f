//! Registry of methods and events. Method and event IDs are assigned in
//! registration order, starting from 1 (0 is reserved); a request carries
//! the method ID, and dispatch finds the handler through it.

use vstd::prelude::*;

use crate::control::init::{EventSchema, InitSchema, MethodSchema, ResponseType};
use crate::error::ProcwireError;
use crate::name_table::NameTable;

verus! {

/// Registry mapping method names to handlers of type `H`, and event names to
/// event IDs.
pub struct HandlerRegistry<H> {
    /// Latest definition registered under each method name.
    methods: NameTable<MethodSchema>,
    /// The handler registered with method ID `i + 1`.
    handlers: Vec<H>,
    /// The name registered with method ID `i + 1`.
    id_to_name: Vec<String>,
    /// Event IDs by name.
    events: NameTable<EventSchema>,
    /// Next method ID to assign.
    next_method_id: u16,
    /// Next event ID to assign.
    next_event_id: u16,
}

impl<H> HandlerRegistry<H> {
    /// Method definitions by name (the latest registration of each name).
    pub closed spec fn method_map(&self) -> Map<Seq<char>, MethodSchema> {
        self.methods.as_map()
    }

    /// Event definitions by name.
    pub closed spec fn event_map(&self) -> Map<Seq<char>, EventSchema> {
        self.events.as_map()
    }

    /// The name registered with method ID `i + 1`, for each assigned ID.
    pub closed spec fn id_names(&self) -> Seq<Seq<char>> {
        self.id_to_name@.map_values(|s: String| s@)
    }

    /// The handler registered with method ID `i + 1`, for each assigned ID.
    pub closed spec fn handler_seq(&self) -> Seq<H> {
        self.handlers@
    }

    /// The ID the next method registration gets.
    pub closed spec fn next_method_id(&self) -> u16 {
        self.next_method_id
    }

    /// The ID the next event registration gets.
    pub closed spec fn next_event_id(&self) -> u16 {
        self.next_event_id
    }

    /// Internal consistency: one name and one handler per assigned method ID,
    /// every method name points at an assigned ID registered under that name,
    /// every event ID is an assigned one.
    pub closed spec fn wf(&self) -> bool {
        &&& self.methods.wf()
        &&& self.events.wf()
        &&& self.handlers@.len() == self.id_to_name@.len()
        &&& self.id_to_name@.len() + 1 == self.next_method_id
        &&& 1 <= self.next_event_id
        &&& forall|i: int|
            0 <= i < self.id_to_name@.len() ==> self.methods.as_map().contains_key(
                #[trigger] self.id_to_name@[i]@,
            )
        &&& forall|k: Seq<char>| #[trigger]
            self.methods.as_map().contains_key(k) ==> {
                &&& 1 <= self.methods.as_map()[k].id < self.next_method_id
                &&& self.id_to_name@[self.methods.as_map()[k].id - 1]@ == k
            }
        &&& forall|k: Seq<char>| #[trigger]
            self.events.as_map().contains_key(k) ==> 1 <= self.events.as_map()[k].id
                < self.next_event_id
    }

    /// The handler a request for method ID `id` is dispatched to: the
    /// latest handler registered under the name that `id` was assigned to.
    pub open spec fn handler_for_id(&self, id: u16) -> Option<H> {
        if 1 <= id < self.next_method_id() {
            let name = self.id_names()[id - 1];
            Some(self.handler_seq()[self.method_map()[name].id - 1])
        } else {
            None
        }
    }

    /// `after` is `self` with `handler` registered for method `name`: the
    /// name now maps to the next method ID and `response`, the ID leads back
    /// to the name and the handler, the events stay as they were.
    pub open spec fn method_registered(
        &self,
        after: Self,
        name: Seq<char>,
        response: ResponseType,
        handler: H,
    ) -> bool {
        &&& after.method_map() == self.method_map().insert(
            name,
            MethodSchema { id: self.next_method_id(), response },
        )
        &&& after.id_names() == self.id_names().push(name)
        &&& after.handler_seq() == self.handler_seq().push(handler)
        &&& after.next_method_id() == self.next_method_id() + 1
        &&& after.event_map() == self.event_map()
        &&& after.next_event_id() == self.next_event_id()
    }

    /// `after` is `self` with event `name` registered under the next event
    /// ID, the methods staying as they were.
    pub open spec fn event_registered(&self, after: Self, name: Seq<char>) -> bool {
        &&& after.event_map() == self.event_map().insert(
            name,
            EventSchema { id: self.next_event_id() },
        )
        &&& after.next_event_id() == self.next_event_id() + 1
        &&& after.method_map() == self.method_map()
        &&& after.id_names() == self.id_names()
        &&& after.handler_seq() == self.handler_seq()
        &&& after.next_method_id() == self.next_method_id()
    }

    /// An empty registry; the first method and the first event get ID 1.
    pub fn new() -> (r: Self)
        ensures
            r.wf(),
            r.method_map() == Map::<Seq<char>, MethodSchema>::empty(),
            r.event_map() == Map::<Seq<char>, EventSchema>::empty(),
            r.id_names() == Seq::<Seq<char>>::empty(),
            r.handler_seq() == Seq::<H>::empty(),
            r.next_method_id() == 1,
            r.next_event_id() == 1,
    {
        let r = HandlerRegistry {
            methods: NameTable::new(),
            handlers: Vec::new(),
            id_to_name: Vec::new(),
            events: NameTable::new(),
            next_method_id: 1,
            next_event_id: 1,
        };
        assert(r.id_names() =~= Seq::<Seq<char>>::empty());
        r
    }

    /// Register `handler` for method `name`; it gets the next method ID.
    /// A name registered again keeps answering, through the new ID as
    /// through the old one, with the latest handler.
    pub fn register(&mut self, name: &str, response_type: ResponseType, handler: H)
        requires
            old(self).wf(),
            old(self).next_method_id() < u16::MAX,
        ensures
            final(self).wf(),
            old(self).method_registered(*final(self), name@, response_type, handler),
    {
        let ghost before = *self;
        let id = self.next_method_id;
        self.next_method_id = id + 1;
        self.methods.insert(name, MethodSchema { id, response: response_type });
        self.handlers.push(handler);
        self.id_to_name.push(String::from_str(name));
        proof {
            assert(self.id_names() =~= before.id_names().push(name@));
            let m = self.methods.as_map();
            assert forall|i: int| 0 <= i < self.id_to_name@.len() implies m.contains_key(
                #[trigger] self.id_to_name@[i]@,
            ) by {
                if i < before.id_to_name@.len() {
                    assert(before.methods.as_map().contains_key(before.id_to_name@[i]@));
                }
            }
            assert forall|k: Seq<char>| #[trigger] m.contains_key(k) implies {
                &&& 1 <= m[k].id < self.next_method_id
                &&& self.id_to_name@[m[k].id - 1]@ == k
            } by {
                if k != name@ {
                    assert(before.methods.as_map().contains_key(k));
                }
            }
        }
    }

    /// Register event `name`; it gets the next event ID.
    pub fn register_event(&mut self, name: &str)
        requires
            old(self).wf(),
            old(self).next_event_id() < u16::MAX,
        ensures
            final(self).wf(),
            old(self).event_registered(*final(self), name@),
    {
        let ghost before = *self;
        let id = self.next_event_id;
        self.next_event_id = id + 1;
        self.events.insert(name, EventSchema { id });
        proof {
            let m = self.events.as_map();
            assert forall|k: Seq<char>| #[trigger] m.contains_key(k) implies 1 <= m[k].id
                < self.next_event_id by {
                if k != name@ {
                    assert(before.events.as_map().contains_key(k));
                }
            }
        }
    }

    /// The ID the next method registration gets.
    pub fn method_id_to_assign(&self) -> (r: u16)
        ensures
            r == self.next_method_id(),
    {
        self.next_method_id
    }

    /// The ID the next event registration gets.
    pub fn event_id_to_assign(&self) -> (r: u16)
        ensures
            r == self.next_event_id(),
    {
        self.next_event_id
    }

    /// The handler of method `name`, if it is registered.
    pub fn get_handler(&self, name: &str) -> (r: Option<&H>)
        requires
            self.wf(),
        ensures
            r is Some == self.method_map().contains_key(name@),
            r matches Some(h) ==> *h == self.handler_seq()[self.method_map()[name@].id - 1],
    {
        match self.methods.get(name) {
            Some(m) => Some(&self.handlers[(m.id - 1) as usize]),
            None => None,
        }
    }

    /// The handler a request for method ID `id` goes to, if `id` was
    /// assigned.
    pub fn get_handler_by_id(&self, id: u16) -> (r: Option<&H>)
        requires
            self.wf(),
        ensures
            match r {
                Some(h) => self.handler_for_id(id) == Some(*h),
                None => self.handler_for_id(id) is None,
            },
    {
        if id == 0 || id >= self.next_method_id {
            return None;
        }
        let name = self.id_to_name[(id - 1) as usize].as_str();
        proof {
            assert(self.id_names()[id - 1] == name@);
            assert(self.methods.as_map().contains_key(self.id_to_name@[id - 1]@));
        }
        match self.methods.get(name) {
            Some(m) => Some(&self.handlers[(m.id - 1) as usize]),
            None => None,
        }
    }

    /// The name method ID `id` was assigned to, if it was assigned.
    pub fn get_method_name(&self, id: u16) -> (r: Option<&str>)
        requires
            self.wf(),
        ensures
            r is Some == (1 <= id < self.next_method_id()),
            r matches Some(n) ==> n@ == self.id_names()[id - 1],
    {
        if id == 0 || id >= self.next_method_id {
            return None;
        }
        Some(self.id_to_name[(id - 1) as usize].as_str())
    }

    /// The ID of method `name`, if it is registered.
    pub fn get_method_id(&self, name: &str) -> (r: Option<u16>)
        requires
            self.wf(),
        ensures
            r is Some == self.method_map().contains_key(name@),
            r matches Some(id) ==> id == self.method_map()[name@].id,
    {
        match self.methods.get(name) {
            Some(m) => Some(m.id),
            None => None,
        }
    }

    /// The ID of event `name`, if it is registered.
    pub fn get_event_id(&self, name: &str) -> (r: Option<u16>)
        requires
            self.wf(),
        ensures
            r is Some == self.event_map().contains_key(name@),
            r matches Some(id) ==> id == self.event_map()[name@].id,
    {
        match self.events.get(name) {
            Some(e) => Some(e.id),
            None => None,
        }
    }

    /// The response type of method `name`, if it is registered.
    pub fn get_response_type(&self, name: &str) -> (r: Option<ResponseType>)
        requires
            self.wf(),
        ensures
            r is Some == self.method_map().contains_key(name@),
            r matches Some(t) ==> t == self.method_map()[name@].response,
    {
        match self.methods.get(name) {
            Some(m) => Some(m.response),
            None => None,
        }
    }

    /// The response type a request for method ID `method_id` is answered
    /// with: that of the latest registration under the name the ID was
    /// assigned to; `Result` for an ID never assigned.
    pub fn response_type_for_id(&self, method_id: u16) -> (r: ResponseType)
        requires
            self.wf(),
        ensures
            r == (if 1 <= method_id < self.next_method_id() {
                self.method_map()[self.id_names()[method_id - 1]].response
            } else {
                ResponseType::Result
            }),
    {
        match self.get_method_name(method_id) {
            Some(name) => match self.get_response_type(name) {
                Some(t) => t,
                None => ResponseType::Result,
            },
            None => ResponseType::Result,
        }
    }

    /// The schema announcing every registered method and event with its ID.
    pub fn build_schema(&self) -> (r: InitSchema)
        requires
            self.wf(),
        ensures
            r.wf(),
            r.methods.as_map() == self.method_map(),
            r.events.as_map() == self.event_map(),
    {
        InitSchema { methods: self.methods.duplicate(), events: self.events.duplicate() }
    }

    /// Where a request for method ID `method_id` goes: its handler, or
    /// `HandlerNotFound` when the ID was never assigned.
    pub fn dispatch_target(&self, method_id: u16) -> (r: Result<&H, ProcwireError>)
        requires
            self.wf(),
        ensures
            match r {
                Ok(h) => self.handler_for_id(method_id) == Some(*h),
                Err(e) => self.handler_for_id(method_id) is None && e == ProcwireError::HandlerNotFound(
                    method_id,
                ),
            },
    {
        match self.get_handler_by_id(method_id) {
            Some(h) => Ok(h),
            None => Err(ProcwireError::HandlerNotFound(method_id)),
        }
    }

    /// Method IDs are handed out one per registration, counting from 1:
    /// the next ID is one more than the number of registrations, every
    /// registered name holds an ID already handed out (never the reserved
    /// 0), distinct names hold distinct IDs, and each ID leads back to its
    /// name.
    pub proof fn lemma_method_ids_distinct(&self, a: Seq<char>, b: Seq<char>)
        requires
            self.wf(),
            self.method_map().contains_key(a),
            self.method_map().contains_key(b),
            a != b,
        ensures
            self.next_method_id() == self.id_names().len() + 1,
            self.method_map()[a].id != self.method_map()[b].id,
            1 <= self.method_map()[a].id < self.next_method_id(),
            self.id_names()[self.method_map()[a].id - 1] == a,
    {
    }
}

impl<H> Default for HandlerRegistry<H> {
    fn default() -> (r: Self)
        ensures
            r.wf(),
            r.method_map() == Map::<Seq<char>, MethodSchema>::empty(),
            r.event_map() == Map::<Seq<char>, EventSchema>::empty(),
            r.next_method_id() == 1,
            r.next_event_id() == 1,
    {
        Self::new()
    }
}

} // verus!
