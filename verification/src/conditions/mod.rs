pub mod field_equals;
pub mod static_value;

use crate::component::{
    deserialize_spec, serialize_spec, split_spec, BuildError, ComponentBuilder, ComponentConfig,
};
use crate::event::Event;
use crate::strutil::{lex_le, lex_lt, names_sorted, names_view, str_eq};
use crate::value::{table_get, ConfigTable, TableView, ValueView};
use field_equals::FieldEqualsConfig;
use field_equals::FieldEqualsView;
use static_value::StaticConfig;
use vstd::prelude::*;
use vstd::string::StringExecFns;

verus! {

/// The capability every condition plugin implements: a pure check of one
/// event, yielding a boolean answer or a descriptive per-event error.
pub trait Condition {
    /// What the check returns, as a function of condition and event.
    spec fn check_spec(&self, e: &Event) -> Result<bool, Seq<char>>;

    /// Evaluates this condition against one event.
    fn check(&self, e: &Event) -> (r: Result<bool, String>)
        ensures
            match r {
                Result::Ok(b) => self.check_spec(e) == Result::Ok::<bool, Seq<char>>(b),
                Result::Err(m) => self.check_spec(e) == Result::Err::<bool, Seq<char>>(m@),
            },
    ;
}

/// A constructed condition, one variant per registered plugin type. The
/// conversion into this enum is the only place type information is discarded:
/// all validation happens on the concrete type first.
#[derive(Debug, Clone)]
pub enum ConditionPlugin {
    FieldEquals(FieldEqualsConfig),
    Static(StaticConfig),
}

/// The mathematical shape of a constructed condition.
pub enum ConditionPluginView {
    FieldEquals(FieldEqualsView),
    Static(bool),
}

impl View for ConditionPlugin {
    type V = ConditionPluginView;

    open spec fn view(&self) -> ConditionPluginView {
        match self {
            ConditionPlugin::FieldEquals(c) => ConditionPluginView::FieldEquals(c@),
            ConditionPlugin::Static(c) => ConditionPluginView::Static(c@),
        }
    }
}

impl Condition for ConditionPlugin {
    open spec fn check_spec(&self, e: &Event) -> Result<bool, Seq<char>> {
        match self {
            ConditionPlugin::FieldEquals(c) => c.check_spec(e),
            ConditionPlugin::Static(c) => c.check_spec(e),
        }
    }

    fn check(&self, e: &Event) -> (r: Result<bool, String>) {
        match self {
            ConditionPlugin::FieldEquals(c) => c.check(e),
            ConditionPlugin::Static(c) => c.check(e),
        }
    }
}

/// Provides the jump from a concrete plugin type to the erased capability.
#[derive(Debug, Clone)]
pub struct BoxCondition {
    pub inner: ConditionPlugin,
}

impl View for BoxCondition {
    type V = ConditionPluginView;

    open spec fn view(&self) -> ConditionPluginView {
        self.inner@
    }
}

impl From<FieldEqualsConfig> for BoxCondition {
    fn from(inner: FieldEqualsConfig) -> (r: BoxCondition) {
        BoxCondition { inner: ConditionPlugin::FieldEquals(inner) }
    }
}

impl vstd::std_specs::convert::FromSpecImpl<FieldEqualsConfig> for BoxCondition {
    open spec fn obeys_from_spec() -> bool {
        true
    }

    open spec fn from_spec(v: FieldEqualsConfig) -> BoxCondition {
        BoxCondition { inner: ConditionPlugin::FieldEquals(v) }
    }
}

impl From<StaticConfig> for BoxCondition {
    fn from(inner: StaticConfig) -> (r: BoxCondition) {
        BoxCondition { inner: ConditionPlugin::Static(inner) }
    }
}

impl vstd::std_specs::convert::FromSpecImpl<StaticConfig> for BoxCondition {
    open spec fn obeys_from_spec() -> bool {
        true
    }

    open spec fn from_spec(v: StaticConfig) -> BoxCondition {
        BoxCondition { inner: ConditionPlugin::Static(v) }
    }
}

/// The condition capability's registry. The set of plugin types is fixed at
/// build time; each module's descriptor is listed here, name first, and the
/// listing order stands for the (irrelevant) registration order.
impl ComponentBuilder for BoxCondition {
    open spec fn reg_names() -> Seq<Seq<char>> {
        seq!["field_equals"@, "static"@]
    }

    open spec fn build_spec(type_str: Seq<char>, nested: TableView) -> Result<
        (ConditionPluginView, Option<TableView>),
        Seq<char>,
    > {
        if type_str == "field_equals"@ {
            match field_equals::parse_spec(nested) {
                Result::Ok(v) => Result::Ok(
                    (
                        ConditionPluginView::FieldEquals(v),
                        Option::Some(field_equals::canonical_spec(v)),
                    ),
                ),
                Result::Err(d) => Result::Err(d),
            }
        } else if type_str == "static"@ {
            match static_value::parse_spec(nested) {
                Result::Ok(b) => Result::Ok((ConditionPluginView::Static(b), Option::None)),
                Result::Err(d) => Result::Err(d),
            }
        } else {
            arbitrary()
        }
    }

    fn type_names() -> (r: Vec<String>) {
        let mut r: Vec<String> = Vec::new();
        r.push(String::from_str("field_equals"));
        r.push(String::from_str("static"));
        proof {
            assert(names_view(r@) =~= Self::reg_names());
        }
        r
    }

    fn build(type_str: &String, nested: &ConfigTable) -> (r: Result<
        (BoxCondition, Option<ConfigTable>),
        BuildError,
    >) {
        if str_eq(type_str.as_str(), "field_equals") {
            proof {
                assert(Self::reg_names()[0] == "field_equals"@);
                assert(Self::reg_names().contains(type_str@));
            }
            match FieldEqualsConfig::from_table(nested) {
                Ok(c) => {
                    let echo = c.to_table();
                    Ok((BoxCondition::from(c), Option::Some(echo)))
                },
                Err(d) => Err(BuildError::Plugin(d)),
            }
        } else if str_eq(type_str.as_str(), "static") {
            proof {
                assert(Self::reg_names()[1] == "static"@);
                assert(Self::reg_names().contains(type_str@));
            }
            match StaticConfig::from_table(nested) {
                Ok(c) => Ok((BoxCondition::from(c), Option::None)),
                Err(d) => Err(BuildError::Plugin(d)),
            }
        } else {
            proof {
                assert forall|k: int| 0 <= k < Self::reg_names().len() implies Self::reg_names()[k]
                    != type_str@ by {
                    assert(Self::reg_names()[0] == "field_equals"@);
                    assert(Self::reg_names()[1] == "static"@);
                }
                assert(!Self::reg_names().contains(type_str@));
            }
            Err(BuildError::UnknownType)
        }
    }
}

/// The user-facing parse target for conditions.
pub type ConditionConfig = ComponentConfig<BoxCondition>;

/// Round trip without defaults: a block that parses as a `static` condition
/// has no optional fields, registers without a canonical echo, and so
/// re-serializes to the discriminator followed by the block's own fields,
/// unchanged.
pub proof fn lemma_static_round_trip(doc: TableView)
    requires
        split_spec(doc) is Ok,
        split_spec(doc)->Ok_0.type_str == "static"@,
        static_value::parse_spec(split_spec(doc)->Ok_0.nested) is Ok,
    ensures
        deserialize_spec::<BoxCondition>(doc) is Ok,
        serialize_spec(deserialize_spec::<BoxCondition>(doc)->Ok_0) == seq![
            ("type"@, ValueView::Str("static"@)),
        ] + split_spec(doc)->Ok_0.nested,
{
    let sw = split_spec(doc)->Ok_0;
    assert(BoxCondition::reg_names()[1] == "static"@);
    assert(BoxCondition::reg_names().contains(sw.type_str));
    reveal_strlit("field_equals");
    reveal_strlit("static");
    assert("static"@.len() != "field_equals"@.len());
}

/// The type listing for the condition capability is sorted and complete:
/// any alphabetical listing that holds exactly the registered names — as
/// `ConditionConfig::types` promises of its result — is precisely
/// `field_equals` then `static`.
pub proof fn lemma_condition_types_exact(names: Seq<Seq<char>>)
    requires
        names_sorted(names),
        names.to_multiset() == BoxCondition::reg_names().to_multiset(),
    ensures
        names =~= seq!["field_equals"@, "static"@],
{
    broadcast use vstd::seq_lib::group_to_multiset_ensures;

    reveal_strlit("field_equals");
    reveal_strlit("static");
    let fe = "field_equals"@;
    let st = "static"@;
    assert(fe.len() == 12);
    assert(st.len() == 6);
    let reg = BoxCondition::reg_names();
    assert(reg.len() == 2);
    assert(reg.to_multiset().len() == reg.len());
    assert(names.to_multiset().len() == names.len());
    assert(names.len() == 2);
    assert(reg[0] == fe);
    assert(reg[1] == st);
    assert(reg.contains(fe));
    assert(reg.contains(st));
    assert(names.to_multiset().count(fe) > 0);
    assert(names.to_multiset().count(st) > 0);
    assert(names.contains(fe));
    assert(names.contains(st));
    let i = choose|i: int| 0 <= i < names.len() && names[i] == fe;
    let j = choose|j: int| 0 <= j < names.len() && names[j] == st;
    assert(i != j);
    if names[0] == st {
        assert(names[1] == fe);
        assert(lex_le(names[0], names[1]));
        assert(!lex_lt(st, fe)) by {
            assert(st[0] == 's');
            assert(fe[0] == 'f');
        }
        assert(false);
    }
    assert(names[0] == fe);
    assert(names[1] == st);
}

/// Round trip with defaults: a block that parses as a `field_equals`
/// condition re-serializes with every plugin field explicit — `value`
/// preserved as the block gave it, `field` preserved when given, and at its
/// documented default `message` when omitted.
pub proof fn lemma_round_trip_with_defaults(doc: TableView)
    requires
        split_spec(doc) is Ok,
        split_spec(doc)->Ok_0.type_str == "field_equals"@,
        field_equals::parse_spec(split_spec(doc)->Ok_0.nested) is Ok,
    ensures
        deserialize_spec::<BoxCondition>(doc) is Ok,
        ({
            let sw = split_spec(doc)->Ok_0;
            let v = field_equals::parse_spec(sw.nested)->Ok_0;
            let c = deserialize_spec::<BoxCondition>(doc)->Ok_0;
            &&& serialize_spec(c) == seq![
                ("type"@, ValueView::Str("field_equals"@)),
                ("field"@, ValueView::Str(v.field)),
                ("value"@, ValueView::Str(v.value)),
            ]
            &&& (match table_get(sw.nested, "field"@) {
                Option::Some(ValueView::Str(f)) => v.field == f,
                Option::Some(_) => false,
                Option::None => v.field == "message"@,
            })
            &&& table_get(sw.nested, "value"@) == Option::Some(ValueView::Str(v.value))
        }),
{
    let sw = split_spec(doc)->Ok_0;
    let v = field_equals::parse_spec(sw.nested)->Ok_0;
    assert(BoxCondition::reg_names()[0] == "field_equals"@);
    assert(BoxCondition::reg_names().contains(sw.type_str));
    field_equals::lemma_parse_loop_fields(sw.nested, Option::None, Option::None);
    let c = deserialize_spec::<BoxCondition>(doc)->Ok_0;
    assert(serialize_spec(c) =~= seq![
        ("type"@, ValueView::Str("field_equals"@)),
        ("field"@, ValueView::Str(v.field)),
        ("value"@, ValueView::Str(v.value)),
    ]);
}

} // verus!
