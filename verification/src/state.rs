//! The records held in the durable key-value store, and the store itself.

use vstd::prelude::*;

verus! {

/// An opaque, comparable caller/owner address.
pub struct Addr(pub String);

impl View for Addr {
    type V = Seq<char>;

    open spec fn view(&self) -> Seq<char> {
        self.0@
    }
}

impl Addr {
    pub fn new(s: String) -> (r: Addr)
        ensures
            r@ == s@,
    {
        Addr(s)
    }
}

impl Clone for Addr {
    fn clone(&self) -> (r: Self)
        ensures
            r == *self,
    {
        Addr(self.0.clone())
    }
}

impl PartialEq for Addr {
    fn eq(&self, other: &Addr) -> bool {
        self.0 == other.0
    }
}

impl vstd::std_specs::cmp::PartialEqSpecImpl for Addr {
    open spec fn obeys_eq_spec() -> bool {
        true
    }

    open spec fn eq_spec(&self, other: &Addr) -> bool {
        self@ == other@
    }
}

/// The counter record: a count and the owner that may reset it.
/// The owner is fixed when the record is created and never changes afterwards.
pub struct State {
    pub count: i32,
    pub owner: Addr,
}

/// An optional configuration record; no current operation reads or writes it.
pub struct Config {
    pub owner: Addr,
}

/// An optional list item, held for forward extension; no current operation
/// reads or writes entries.
pub struct Entry {
    pub id: u64,
    pub description: String,
    pub status: Status,
    pub priority: Priority,
}

#[derive(Clone, Copy, Debug, PartialEq, Eq, Structural)]
pub enum Status {
    ToDo,
    InProgress,
    Done,
    Cancelled,
}

#[derive(Clone, Copy, Debug, PartialEq, Eq, Structural)]
pub enum Priority {
    Unset,
    Low,
    Medium,
    High,
}

/// The four named slots of the durable store: counter state, configuration,
/// the entry sequence counter, and the entry collection. The host persists
/// this store between invocations; each operation receives it explicitly.
pub struct Store {
    pub state: Option<State>,
    pub config: Option<Config>,
    pub entry_seq: Option<u64>,
    pub entries: Vec<Entry>,
}

impl Store {
    /// A store with every slot empty: the uninitialized instance.
    pub fn new() -> (r: Store)
        ensures
            r.state is None,
            r.config is None,
            r.entry_seq is None,
            r.entries@ == Seq::<Entry>::empty(),
    {
        Store { state: None, config: None, entry_seq: None, entries: Vec::new() }
    }
}

} // verus!
