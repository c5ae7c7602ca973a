use crate::conditions::Condition;
use crate::event::Event;
use crate::strutil::{concat3, str_eq};
use crate::value::{ConfigTable, ConfigValue, TableView, ValueView};
use vstd::prelude::*;
use vstd::string::StringExecFns;

verus! {

/// A condition with a fixed answer: it returns the configured boolean for
/// every event.
#[derive(Debug, Clone)]
pub struct StaticConfig {
    value: bool,
}

impl View for StaticConfig {
    type V = bool;

    closed spec fn view(&self) -> bool {
        self.value
    }
}

/// Closed-field validation, one field at a time in document order: the only
/// known field is `value`, a required boolean.
pub open spec fn parse_loop(t: TableView, value: Option<bool>) -> Result<bool, Seq<char>>
    decreases t.len(),
{
    if t.len() == 0 {
        match value {
            Option::Some(b) => Result::Ok(b),
            Option::None => Result::Err("missing field `value`"@),
        }
    } else if t[0].0 == "value"@ {
        if value is Some {
            Result::Err("duplicate field `value`"@)
        } else {
            match t[0].1 {
                ValueView::Bool(b) => parse_loop(t.skip(1), Option::Some(b)),
                _ => Result::Err("invalid type for field `value`, expected a boolean"@),
            }
        }
    } else {
        Result::Err("unknown field `"@ + t[0].0 + "`, expected `value`"@)
    }
}

/// What parsing a nested block as a `static` condition yields.
pub open spec fn parse_spec(t: TableView) -> Result<bool, Seq<char>> {
    parse_loop(t, Option::None)
}

impl StaticConfig {
    /// Parses the nested fields of a block, rejecting unknown fields and
    /// requiring the boolean `value`.
    pub fn from_table(t: &ConfigTable) -> (r: Result<StaticConfig, String>)
        ensures
            match r {
                Ok(c) => parse_spec(t@) == Ok::<bool, Seq<char>>(c@),
                Err(m) => parse_spec(t@) == Err::<bool, Seq<char>>(m@),
            },
    {
        let mut value: Option<bool> = Option::None;
        let n = t.entries.len();
        let mut i: usize = 0;
        proof {
            assert(t@.skip(0) =~= t@);
        }
        while i < n
            invariant
                i <= n,
                n == t.entries.len(),
                parse_spec(t@) == parse_loop(t@.skip(i as int), value),
            decreases n - i,
        {
            proof {
                assert(t@.skip(i as int)[0] == t@[i as int]);
                assert(t@[i as int] == (t.entries@[i as int].0@, t.entries@[i as int].1@));
                assert(t@.skip(i as int).skip(1) =~= t@.skip(i as int + 1));
            }
            if str_eq(t.entries[i].0.as_str(), "value") {
                if value.is_some() {
                    return Err(String::from_str("duplicate field `value`"));
                }
                match &t.entries[i].1 {
                    ConfigValue::Bool(b) => {
                        value = Option::Some(*b);
                    },
                    _ => {
                        return Err(
                            String::from_str("invalid type for field `value`, expected a boolean"),
                        );
                    },
                }
            } else {
                return Err(concat3("unknown field `", t.entries[i].0.as_str(), "`, expected `value`"));
            }
            i += 1;
        }
        match value {
            Option::Some(b) => Ok(StaticConfig { value: b }),
            Option::None => Err(String::from_str("missing field `value`")),
        }
    }
}

impl Condition for StaticConfig {
    /// The configured answer, for every event.
    open spec fn check_spec(&self, e: &Event) -> Result<bool, Seq<char>> {
        Result::Ok(self@)
    }

    fn check(&self, _event: &Event) -> (r: Result<bool, String>) {
        Ok(self.value)
    }
}

} // verus!
