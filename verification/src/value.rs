use crate::strutil::str_eq;
use vstd::prelude::*;

verus! {

/// A scalar field value inside a configuration block.
#[derive(Debug, Clone, PartialEq, Eq)]
pub enum ConfigValue {
    Str(String),
    Bool(bool),
    Int(i64),
}

/// The mathematical shape of a `ConfigValue`.
pub enum ValueView {
    Str(Seq<char>),
    Bool(bool),
    Int(int),
}

impl View for ConfigValue {
    type V = ValueView;

    open spec fn view(&self) -> ValueView {
        match self {
            ConfigValue::Str(s) => ValueView::Str(s@),
            ConfigValue::Bool(b) => ValueView::Bool(*b),
            ConfigValue::Int(i) => ValueView::Int(*i as int),
        }
    }
}

impl ConfigValue {
    /// An exact copy; unlike the derived `Clone`, its effect is stated.
    pub fn duplicate(&self) -> (r: ConfigValue)
        ensures
            r@ == self@,
    {
        match self {
            ConfigValue::Str(s) => ConfigValue::Str(s.clone()),
            ConfigValue::Bool(b) => ConfigValue::Bool(*b),
            ConfigValue::Int(i) => ConfigValue::Int(*i),
        }
    }
}

/// A configuration block as a sequence of key/value pairs, in document order.
pub type TableView = Seq<(Seq<char>, ValueView)>;

/// One configuration block: ordered fields, string key to scalar value.
#[derive(Debug, Clone, PartialEq, Eq)]
pub struct ConfigTable {
    pub entries: Vec<(String, ConfigValue)>,
}

impl View for ConfigTable {
    type V = TableView;

    open spec fn view(&self) -> TableView {
        self.entries@.map_values(|p: (String, ConfigValue)| (p.0@, p.1@))
    }
}

/// The value under the first occurrence of a key, if any.
pub open spec fn table_get(t: TableView, k: Seq<char>) -> Option<ValueView>
    decreases t.len(),
{
    if t.len() == 0 {
        None
    } else if t[0].0 == k {
        Some(t[0].1)
    } else {
        table_get(t.skip(1), k)
    }
}

/// The table with every entry under the given key removed, order otherwise kept.
pub open spec fn remove_key(t: TableView, k: Seq<char>) -> TableView
    decreases t.len(),
{
    if t.len() == 0 {
        Seq::empty()
    } else if t[0].0 == k {
        remove_key(t.skip(1), k)
    } else {
        seq![t[0]] + remove_key(t.skip(1), k)
    }
}

impl ConfigTable {
    pub fn new() -> (r: ConfigTable)
        ensures
            r@ =~= Seq::<(Seq<char>, ValueView)>::empty(),
    {
        ConfigTable { entries: Vec::new() }
    }

    /// Appends a field at the end of the block.
    pub fn push(&mut self, key: String, value: ConfigValue)
        ensures
            final(self)@ =~= old(self)@.push((key@, value@)),
    {
        self.entries.push((key, value));
    }

    /// Linear scan for the first field with the given key.
    pub fn get<'a>(&'a self, key: &str) -> (r: Option<&'a ConfigValue>)
        ensures
            match r {
                Some(v) => table_get(self@, key@) == Some(v@),
                None => table_get(self@, key@) is None,
            },
    {
        let n = self.entries.len();
        let mut i: usize = 0;
        proof {
            assert(self@.skip(0) =~= self@);
        }
        while i < n
            invariant
                i <= n,
                n == self.entries.len(),
                table_get(self@, key@) == table_get(self@.skip(i as int), key@),
            decreases n - i,
        {
            proof {
                assert(self@.skip(i as int)[0] == self@[i as int]);
                assert(self@[i as int] == (self.entries@[i as int].0@, self.entries@[i as int].1@));
            }
            if str_eq(self.entries[i].0.as_str(), key) {
                return Some(&self.entries[i].1);
            }
            proof {
                assert(self@.skip(i as int).skip(1) =~= self@.skip(i as int + 1));
            }
            i += 1;
        }
        None
    }

    /// An exact copy; unlike the derived `Clone`, its effect is stated.
    pub fn duplicate(&self) -> (r: ConfigTable)
        ensures
            r@ == self@,
    {
        let mut entries: Vec<(String, ConfigValue)> = Vec::new();
        let n = self.entries.len();
        let mut i: usize = 0;
        while i < n
            invariant
                i <= n,
                n == self.entries.len(),
                entries@.len() == i as int,
                forall|k: int|
                    0 <= k < i ==> entries@[k].0 == self.entries@[k].0 && entries@[k].1@
                        == self.entries@[k].1@,
            decreases n - i,
        {
            let key = self.entries[i].0.clone();
            let value = self.entries[i].1.duplicate();
            entries.push((key, value));
            i += 1;
        }
        let r = ConfigTable { entries };
        proof {
            assert(r@ =~= self@);
        }
        r
    }

    /// A copy of the block without any field under the given key.
    pub fn remove_all(&self, key: &str) -> (r: ConfigTable)
        ensures
            r@ == remove_key(self@, key@),
    {
        let mut entries: Vec<(String, ConfigValue)> = Vec::new();
        let n = self.entries.len();
        let mut i: usize = 0;
        proof {
            assert(self@.skip(0) =~= self@);
            assert(entries@.map_values(|p: (String, ConfigValue)| (p.0@, p.1@)) =~= Seq::<
                (Seq<char>, ValueView),
            >::empty());
        }
        while i < n
            invariant
                i <= n,
                n == self.entries.len(),
                remove_key(self@, key@) =~= entries@.map_values(
                    |p: (String, ConfigValue)| (p.0@, p.1@),
                ) + remove_key(self@.skip(i as int), key@),
            decreases n - i,
        {
            proof {
                assert(self@.skip(i as int)[0] == self@[i as int]);
                assert(self@.skip(i as int).skip(1) =~= self@.skip(i as int + 1));
                assert(self@[i as int] == (self.entries@[i as int].0@, self.entries@[i as int].1@));
            }
            let ghost prev = entries@;
            if !str_eq(self.entries[i].0.as_str(), key) {
                let k = self.entries[i].0.clone();
                let v = self.entries[i].1.duplicate();
                entries.push((k, v));
                proof {
                    assert(entries@.map_values(|p: (String, ConfigValue)| (p.0@, p.1@))
                        =~= prev.map_values(|p: (String, ConfigValue)| (p.0@, p.1@)) + seq![
                        self@[i as int],
                    ]);
                    assert(prev.map_values(|p: (String, ConfigValue)| (p.0@, p.1@)) + (seq![
                        self@[i as int],
                    ] + remove_key(self@.skip(i as int + 1), key@)) =~= entries@.map_values(
                        |p: (String, ConfigValue)| (p.0@, p.1@),
                    ) + remove_key(self@.skip(i as int + 1), key@));
                }
            }
            i += 1;
        }
        proof {
            assert(self@.skip(n as int) =~= Seq::<(Seq<char>, ValueView)>::empty());
            assert(remove_key(self@, key@) =~= entries@.map_values(
                |p: (String, ConfigValue)| (p.0@, p.1@),
            ));
        }
        ConfigTable { entries }
    }
}

} // verus!
