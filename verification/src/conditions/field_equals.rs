use crate::conditions::Condition;
use crate::event::{event_get, Event};
use crate::strutil::{concat3, str_eq};
use crate::value::{table_get, ConfigTable, ConfigValue, TableView, ValueView};
use vstd::prelude::*;
use vstd::string::StringExecFns;

verus! {

/// Checks whether a named event field equals a given text. The field name is
/// optional in configuration and defaults to `message`; the compared text is
/// required.
#[derive(Debug, Clone)]
pub struct FieldEqualsConfig {
    field: String,
    value: String,
}

/// The mathematical shape of a `FieldEqualsConfig`.
pub struct FieldEqualsView {
    pub field: Seq<char>,
    pub value: Seq<char>,
}

impl View for FieldEqualsConfig {
    type V = FieldEqualsView;

    closed spec fn view(&self) -> FieldEqualsView {
        FieldEqualsView { field: self.field@, value: self.value@ }
    }
}

/// Closed-field validation, one field at a time in document order, with the
/// partial reads carried along: unknown fields, duplicates and wrong types
/// are rejected; an absent `field` falls back to `message`; `value` is owed.
pub open spec fn parse_loop(
    t: TableView,
    field: Option<Seq<char>>,
    value: Option<Seq<char>>,
) -> Result<FieldEqualsView, Seq<char>>
    decreases t.len(),
{
    if t.len() == 0 {
        match value {
            Option::Some(v) => Result::Ok(
                FieldEqualsView {
                    field: match field {
                        Option::Some(f) => f,
                        Option::None => "message"@,
                    },
                    value: v,
                },
            ),
            Option::None => Result::Err("missing field `value`"@),
        }
    } else if t[0].0 == "field"@ {
        if field is Some {
            Result::Err("duplicate field `field`"@)
        } else {
            match t[0].1 {
                ValueView::Str(s) => parse_loop(t.skip(1), Option::Some(s), value),
                _ => Result::Err("invalid type for field `field`, expected a string"@),
            }
        }
    } else if t[0].0 == "value"@ {
        if value is Some {
            Result::Err("duplicate field `value`"@)
        } else {
            match t[0].1 {
                ValueView::Str(s) => parse_loop(t.skip(1), field, Option::Some(s)),
                _ => Result::Err("invalid type for field `value`, expected a string"@),
            }
        }
    } else {
        Result::Err("unknown field `"@ + t[0].0 + "`, expected `field` or `value`"@)
    }
}

/// What parsing a nested block as a `field_equals` condition yields.
pub open spec fn parse_spec(t: TableView) -> Result<FieldEqualsView, Seq<char>> {
    parse_loop(t, Option::None, Option::None)
}

/// The canonical echo: every field explicit, in declaration order.
pub open spec fn canonical_spec(v: FieldEqualsView) -> TableView {
    seq![("field"@, ValueView::Str(v.field)), ("value"@, ValueView::Str(v.value))]
}

pub open spec fn opt_str_view(o: Option<String>) -> Option<Seq<char>> {
    match o {
        Option::Some(s) => Option::Some(s@),
        Option::None => Option::None,
    }
}

/// What a successful parse reads from the block: a field given explicitly is
/// taken unchanged, an omitted `field` falls back to `message`, and `value`
/// comes from the block's own `value` entry.
pub proof fn lemma_parse_loop_fields(t: TableView, field: Option<Seq<char>>, value: Option<
    Seq<char>,
>)
    requires
        parse_loop(t, field, value) is Ok,
    ensures
        ({
            let v = parse_loop(t, field, value)->Ok_0;
            &&& (match field {
                Option::Some(f) => v.field == f,
                Option::None => match table_get(t, "field"@) {
                    Option::Some(ValueView::Str(f)) => v.field == f,
                    Option::Some(_) => false,
                    Option::None => v.field == "message"@,
                },
            })
            &&& (match value {
                Option::Some(x) => v.value == x,
                Option::None => table_get(t, "value"@) == Option::Some(
                    ValueView::Str(v.value),
                ),
            })
        }),
    decreases t.len(),
{
    reveal_strlit("field");
    reveal_strlit("value");
    assert("field"@[0] != "value"@[0]);
    if t.len() == 0 {
    } else if t[0].0 == "field"@ {
        if field is None {
            match t[0].1 {
                ValueView::Str(s) => {
                    lemma_parse_loop_fields(t.skip(1), Option::Some(s), value);
                    assert(table_get(t, "field"@) == Option::Some(t[0].1));
                    assert(t[0].0 != "value"@);
                    assert(table_get(t, "value"@) == table_get(t.skip(1), "value"@));
                },
                _ => {
                },
            }
        }
    } else if t[0].0 == "value"@ {
        if value is None {
            match t[0].1 {
                ValueView::Str(s) => {
                    lemma_parse_loop_fields(t.skip(1), field, Option::Some(s));
                    assert(table_get(t, "value"@) == Option::Some(t[0].1));
                    assert(table_get(t, "field"@) == table_get(t.skip(1), "field"@));
                },
                _ => {
                },
            }
        }
    }
}

impl FieldEqualsConfig {
    /// Parses the nested fields of a block, rejecting unknown fields and
    /// filling the documented default for an omitted `field`.
    pub fn from_table(t: &ConfigTable) -> (r: Result<FieldEqualsConfig, String>)
        ensures
            match r {
                Ok(c) => parse_spec(t@) == Ok::<FieldEqualsView, Seq<char>>(c@),
                Err(m) => parse_spec(t@) == Err::<FieldEqualsView, Seq<char>>(m@),
            },
    {
        let mut field: Option<String> = Option::None;
        let mut value: Option<String> = Option::None;
        let n = t.entries.len();
        let mut i: usize = 0;
        proof {
            assert(t@.skip(0) =~= t@);
        }
        while i < n
            invariant
                i <= n,
                n == t.entries.len(),
                parse_spec(t@) == parse_loop(
                    t@.skip(i as int),
                    opt_str_view(field),
                    opt_str_view(value),
                ),
            decreases n - i,
        {
            proof {
                assert(t@.skip(i as int)[0] == t@[i as int]);
                assert(t@[i as int] == (t.entries@[i as int].0@, t.entries@[i as int].1@));
                assert(t@.skip(i as int).skip(1) =~= t@.skip(i as int + 1));
            }
            if str_eq(t.entries[i].0.as_str(), "field") {
                if field.is_some() {
                    return Err(String::from_str("duplicate field `field`"));
                }
                match &t.entries[i].1 {
                    ConfigValue::Str(s) => {
                        field = Option::Some(s.clone());
                    },
                    _ => {
                        return Err(
                            String::from_str("invalid type for field `field`, expected a string"),
                        );
                    },
                }
            } else if str_eq(t.entries[i].0.as_str(), "value") {
                if value.is_some() {
                    return Err(String::from_str("duplicate field `value`"));
                }
                match &t.entries[i].1 {
                    ConfigValue::Str(s) => {
                        value = Option::Some(s.clone());
                    },
                    _ => {
                        return Err(
                            String::from_str("invalid type for field `value`, expected a string"),
                        );
                    },
                }
            } else {
                return Err(
                    concat3("unknown field `", t.entries[i].0.as_str(), "`, expected `field` or `value`"),
                );
            }
            i += 1;
        }
        match value {
            Option::Some(v) => {
                let f = match field {
                    Option::Some(f) => f,
                    Option::None => String::from_str("message"),
                };
                Ok(FieldEqualsConfig { field: f, value: v })
            },
            Option::None => Err(String::from_str("missing field `value`")),
        }
    }

    /// Re-serializes this condition with every field explicit, defaults
    /// included.
    pub fn to_table(&self) -> (r: ConfigTable)
        ensures
            r@ == canonical_spec(self@),
    {
        let mut out = ConfigTable::new();
        out.push(String::from_str("field"), ConfigValue::Str(self.field.clone()));
        out.push(String::from_str("value"), ConfigValue::Str(self.value.clone()));
        proof {
            assert(out@ =~= canonical_spec(self@));
        }
        out
    }
}

impl Condition for FieldEqualsConfig {
    /// True exactly when the named field is present and equals the text;
    /// a missing field is a per-event error naming the field.
    open spec fn check_spec(&self, e: &Event) -> Result<bool, Seq<char>> {
        match event_get(e@, self@.field) {
            Option::Some(v) => Result::Ok(v == self@.value),
            Option::None => Result::Err("field '"@ + self@.field + "' not found"@),
        }
    }

    fn check(&self, event: &Event) -> (r: Result<bool, String>) {
        match event.get(self.field.as_str()) {
            Option::Some(v) => Ok(str_eq(v.as_str(), self.value.as_str())),
            Option::None => Err(concat3("field '", self.field.as_str(), "' not found")),
        }
    }
}

} // verus!
