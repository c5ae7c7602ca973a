use crate::strutil::str_eq;
use vstd::prelude::*;
use vstd::string::StringExecFns;

verus! {

/// A log event, modelled as what a condition can read of it:
/// named string fields, in insertion order.
#[derive(Debug, Clone)]
pub struct Event {
    pub fields: Vec<(String, String)>,
}

/// The fields of an event as key/value pairs.
pub type EventView = Seq<(Seq<char>, Seq<char>)>;

impl View for Event {
    type V = EventView;

    open spec fn view(&self) -> EventView {
        self.fields@.map_values(|p: (String, String)| (p.0@, p.1@))
    }
}

/// The value under the first occurrence of a field name, if any.
pub open spec fn event_get(e: EventView, k: Seq<char>) -> Option<Seq<char>>
    decreases e.len(),
{
    if e.len() == 0 {
        None
    } else if e[0].0 == k {
        Some(e[0].1)
    } else {
        event_get(e.skip(1), k)
    }
}

impl Event {
    pub fn new() -> (r: Event)
        ensures
            r@ =~= Seq::<(Seq<char>, Seq<char>)>::empty(),
    {
        Event { fields: Vec::new() }
    }

    /// Adds a field after the existing ones.
    pub fn insert(&mut self, key: String, value: String)
        ensures
            final(self)@ =~= old(self)@.push((key@, value@)),
    {
        self.fields.push((key, value));
    }

    /// Linear scan for the first field with the given name.
    pub fn get<'a>(&'a self, key: &str) -> (r: Option<&'a String>)
        ensures
            match r {
                Some(v) => event_get(self@, key@) == Some(v@),
                None => event_get(self@, key@) is None,
            },
    {
        let n = self.fields.len();
        let mut i: usize = 0;
        proof {
            assert(self@.skip(0) =~= self@);
        }
        while i < n
            invariant
                i <= n,
                n == self.fields.len(),
                event_get(self@, key@) == event_get(self@.skip(i as int), key@),
            decreases n - i,
        {
            proof {
                assert(self@.skip(i as int)[0] == self@[i as int]);
                assert(self@[i as int] == (self.fields@[i as int].0@, self.fields@[i as int].1@));
            }
            if str_eq(self.fields[i].0.as_str(), key) {
                return Some(&self.fields[i].1);
            }
            proof {
                assert(self@.skip(i as int).skip(1) =~= self@.skip(i as int + 1));
            }
            i += 1;
        }
        None
    }
}

impl From<String> for Event {
    /// An event holding the given text as its `message` field.
    fn from(message: String) -> (r: Event) {
        let mut e = Event::new();
        e.insert(String::from_str("message"), message);
        e
    }
}

impl vstd::std_specs::convert::FromSpecImpl<String> for Event {
    open spec fn obeys_from_spec() -> bool {
        false
    }

    open spec fn from_spec(v: String) -> Event {
        arbitrary()
    }
}

} // verus!
