use crate::strutil::{concat3, concat4, names_sorted, names_view, sort_names};
use crate::value::{remove_key, table_get, ConfigTable, ConfigValue, TableView, ValueView};
use vstd::prelude::*;
use vstd::string::StringExecFns;

verus! {

/// Why a configuration block was rejected at parse time.
#[derive(Debug)]
pub enum ParseError {
    /// The block has no `type` field.
    MissingDiscriminator,
    /// The block has a `type` field, but it is not a string.
    WrongDiscriminatorType,
    /// The discriminator names no registered plugin type.
    UnrecognizedType(String),
    /// The named builder rejected the block's remaining fields.
    PluginParseError { type_str: String, detail: String },
    /// The document could not be read as a configuration block at all.
    InvalidDocument,
}

/// The mathematical shape of a `ParseError`.
pub enum ErrorView {
    MissingDiscriminator,
    WrongDiscriminatorType,
    UnrecognizedType(Seq<char>),
    PluginParseError { type_str: Seq<char>, detail: Seq<char> },
    InvalidDocument,
}

impl View for ParseError {
    type V = ErrorView;

    open spec fn view(&self) -> ErrorView {
        match self {
            ParseError::MissingDiscriminator => ErrorView::MissingDiscriminator,
            ParseError::WrongDiscriminatorType => ErrorView::WrongDiscriminatorType,
            ParseError::UnrecognizedType(t) => ErrorView::UnrecognizedType(t@),
            ParseError::PluginParseError { type_str, detail } => ErrorView::PluginParseError {
                type_str: type_str@,
                detail: detail@,
            },
            ParseError::InvalidDocument => ErrorView::InvalidDocument,
        }
    }
}

/// The message each error prints.
pub open spec fn error_message(e: ErrorView) -> Seq<char> {
    match e {
        ErrorView::MissingDiscriminator => "missing field `type`"@,
        ErrorView::WrongDiscriminatorType => "invalid type for field `type`, expected a string"@,
        ErrorView::UnrecognizedType(t) => "unrecognized type '"@ + t + "'"@,
        ErrorView::PluginParseError { type_str, detail } => "failed to parse type `"@ + type_str
            + "`: "@ + detail,
        ErrorView::InvalidDocument => "invalid configuration document"@,
    }
}

impl ParseError {
    /// The human-readable account of this error.
    pub fn message(&self) -> (r: String)
        ensures
            r@ == error_message(self@),
    {
        match self {
            ParseError::MissingDiscriminator => String::from_str("missing field `type`"),
            ParseError::WrongDiscriminatorType => String::from_str(
                "invalid type for field `type`, expected a string",
            ),
            ParseError::UnrecognizedType(t) => concat3("unrecognized type '", t.as_str(), "'"),
            ParseError::PluginParseError { type_str, detail } => concat4(
                "failed to parse type `",
                type_str.as_str(),
                "`: ",
                detail.as_str(),
            ),
            ParseError::InvalidDocument => String::from_str("invalid configuration document"),
        }
    }
}

/// Combines a type field and a nested plugin config to form one table.
#[derive(Debug)]
pub struct ConfigSwapOut {
    pub type_str: String,
    pub nested: ConfigTable,
}

/// The mathematical shape of a `ConfigSwapOut`.
pub struct SwapOutView {
    pub type_str: Seq<char>,
    pub nested: TableView,
}

impl View for ConfigSwapOut {
    type V = SwapOutView;

    open spec fn view(&self) -> SwapOutView {
        SwapOutView { type_str: self.type_str@, nested: self.nested@ }
    }
}

/// What splitting a block yields: the string under `type`, and the remaining
/// fields in their order; or the envelope error.
pub open spec fn split_spec(doc: TableView) -> Result<SwapOutView, ErrorView> {
    match table_get(doc, "type"@) {
        Option::None => Result::Err(ErrorView::MissingDiscriminator),
        Option::Some(v) => match v {
            ValueView::Str(t) => Result::Ok(
                SwapOutView { type_str: t, nested: remove_key(doc, "type"@) },
            ),
            _ => Result::Err(ErrorView::WrongDiscriminatorType),
        },
    }
}

/// Flattening an envelope back into one table: the discriminator first.
pub open spec fn flatten_spec(s: SwapOutView) -> TableView {
    seq![("type"@, ValueView::Str(s.type_str))] + s.nested
}

impl ConfigSwapOut {
    /// Splits a block into discriminator and remaining fields.
    pub fn from_table(doc: &ConfigTable) -> (r: Result<ConfigSwapOut, ParseError>)
        ensures
            match r {
                Ok(s) => split_spec(doc@) == Ok::<SwapOutView, ErrorView>(s@),
                Err(e) => split_spec(doc@) == Err::<SwapOutView, ErrorView>(e@),
            },
    {
        match doc.get("type") {
            Option::None => Err(ParseError::MissingDiscriminator),
            Option::Some(v) => match v {
                ConfigValue::Str(t) => {
                    let type_str = t.clone();
                    let nested = doc.remove_all("type");
                    Ok(ConfigSwapOut { type_str, nested })
                },
                _ => Err(ParseError::WrongDiscriminatorType),
            },
        }
    }

    /// Re-flattens the envelope into one table, the discriminator first.
    pub fn to_table(&self) -> (r: ConfigTable)
        ensures
            r@ == flatten_spec(self@),
    {
        let mut out = ConfigTable::new();
        out.push(String::from_str("type"), ConfigValue::Str(self.type_str.clone()));
        let n = self.nested.entries.len();
        let mut i: usize = 0;
        proof {
            assert(out@ =~= seq![("type"@, ValueView::Str(self.type_str@))] + self.nested@.take(0));
        }
        while i < n
            invariant
                i <= n,
                n == self.nested.entries.len(),
                out@ =~= seq![("type"@, ValueView::Str(self.type_str@))] + self.nested@.take(
                    i as int,
                ),
            decreases n - i,
        {
            let key = self.nested.entries[i].0.clone();
            let value = self.nested.entries[i].1.duplicate();
            out.push(key, value);
            proof {
                assert(self.nested@[i as int] == (
                    self.nested.entries@[i as int].0@,
                    self.nested.entries@[i as int].1@,
                ));
                assert(out@ =~= seq![("type"@, ValueView::Str(self.type_str@))]
                    + self.nested@.take(i as int + 1));
            }
            i += 1;
        }
        proof {
            assert(self.nested@.take(n as int) =~= self.nested@);
            assert(out@ =~= flatten_spec(self@));
        }
        out
    }
}

/// The outcome a registry reports for one block.
#[derive(Debug)]
pub enum BuildError {
    /// The discriminator names no registered plugin type.
    UnknownType,
    /// A builder matched but rejected its fields; the plugin's own message.
    Plugin(String),
}

/// The canonical echo, if the builder supplied one.
pub open spec fn opt_table_view(o: Option<ConfigTable>) -> Option<TableView> {
    match o {
        Option::Some(t) => Option::Some(t@),
        Option::None => Option::None,
    }
}

/// A capability's process-wide registry of named builders. Each erased
/// component type `Self` carries the descriptors of every plugin type that
/// registered for it: a set of names, and for each name a conversion from a
/// nested config block to a constructed instance, optionally with a canonical
/// echo reflecting applied defaults. Registration happens once, at build time;
/// the registry is read-only thereafter.
pub trait ComponentBuilder: View + Sized {
    /// The registered names, in registration order.
    spec fn reg_names() -> Seq<Seq<char>>;

    /// What building from a nested block yields, for a registered name: the
    /// constructed component and the optional canonical echo, or the plugin's
    /// own error message.
    spec fn build_spec(type_str: Seq<char>, nested: TableView) -> Result<
        (Self::V, Option<TableView>),
        Seq<char>,
    >;

    /// The registered names, as values, in registration order.
    fn type_names() -> (r: Vec<String>)
        ensures
            names_view(r@) == Self::reg_names(),
    ;

    /// Resolves the discriminator and invokes the matching builder.
    fn build(type_str: &String, nested: &ConfigTable) -> (r: Result<
        (Self, Option<ConfigTable>),
        BuildError,
    >)
        ensures
            (r matches Err(BuildError::UnknownType) <==> !Self::reg_names().contains(type_str@)),
            (match r {
                Result::Ok((c, echo)) => Self::build_spec(type_str@, nested@) == Result::Ok::<
                    (Self::V, Option<TableView>),
                    Seq<char>,
                >((c@, opt_table_view(echo))),
                Result::Err(BuildError::Plugin(d)) => Self::build_spec(type_str@, nested@)
                    == Result::Err::<(Self::V, Option<TableView>), Seq<char>>(d@),
                Result::Err(BuildError::UnknownType) => true,
            }),
    ;
}

/// What resolving an envelope to a bare component yields: the registry
/// lookup, then the builder's own outcome; any echo is dropped.
pub open spec fn try_into_spec<T: ComponentBuilder>(s: SwapOutView) -> Result<T::V, ErrorView> {
    if !T::reg_names().contains(s.type_str) {
        Result::Err(ErrorView::UnrecognizedType(s.type_str))
    } else {
        match T::build_spec(s.type_str, s.nested) {
            Result::Ok((c, echo)) => Result::Ok(c),
            Result::Err(d) => Result::Err(
                ErrorView::PluginParseError { type_str: s.type_str, detail: d },
            ),
        }
    }
}

/// A bare-component result, seen mathematically.
pub open spec fn component_result_view<T: View>(r: Result<T, ParseError>) -> Result<
    T::V,
    ErrorView,
> {
    match r {
        Result::Ok(c) => Result::Ok(c@),
        Result::Err(e) => Result::Err(e@),
    }
}

impl ConfigSwapOut {
    /// Resolves this envelope against `T`'s registry and constructs the bare
    /// component, without keeping the envelope for echo-back.
    pub fn try_into<T: ComponentBuilder>(self) -> (r: Result<T, ParseError>)
        ensures
            component_result_view(r) == try_into_spec::<T>(self@),
    {
        match T::build(&self.type_str, &self.nested) {
            Err(BuildError::UnknownType) => Err(ParseError::UnrecognizedType(self.type_str)),
            Err(BuildError::Plugin(d)) => Err(
                ParseError::PluginParseError { type_str: self.type_str, detail: d },
            ),
            Ok((component, _echo)) => Ok(component),
        }
    }
}

/// Stores both a constructed plugin instance and the `ConfigSwapOut` used to
/// create it; this allows the configuration of a component to be echoed back.
#[derive(Debug)]
pub struct ComponentConfig<T> {
    swap_out: ConfigSwapOut,
    pub component: T,
}

/// The mathematical shape of a `ComponentConfig`.
pub struct ComponentConfigView<CV> {
    pub type_str: Seq<char>,
    pub nested: TableView,
    pub component: CV,
}

impl<T: View> View for ComponentConfig<T> {
    type V = ComponentConfigView<T::V>;

    closed spec fn view(&self) -> ComponentConfigView<T::V> {
        ComponentConfigView {
            type_str: self.swap_out.type_str@,
            nested: self.swap_out.nested@,
            component: self.component@,
        }
    }
}

/// What parsing a block yields: envelope errors first, then the registry
/// lookup, then the builder's own outcome; a canonical echo replaces the
/// nested fields when the builder supplies one.
pub open spec fn deserialize_spec<T: ComponentBuilder>(doc: TableView) -> Result<
    ComponentConfigView<T::V>,
    ErrorView,
> {
    match split_spec(doc) {
        Result::Err(e) => Result::Err(e),
        Result::Ok(sw) => if !T::reg_names().contains(sw.type_str) {
            Result::Err(ErrorView::UnrecognizedType(sw.type_str))
        } else {
            match T::build_spec(sw.type_str, sw.nested) {
                Result::Err(d) => Result::Err(
                    ErrorView::PluginParseError { type_str: sw.type_str, detail: d },
                ),
                Result::Ok((c, echo)) => Result::Ok(
                    ComponentConfigView {
                        type_str: sw.type_str,
                        nested: match echo {
                            Option::Some(t) => t,
                            Option::None => sw.nested,
                        },
                        component: c,
                    },
                ),
            }
        },
    }
}

/// What serializing a resolved configuration yields: the envelope verbatim.
pub open spec fn serialize_spec<CV>(c: ComponentConfigView<CV>) -> TableView {
    seq![("type"@, ValueView::Str(c.type_str))] + c.nested
}

/// A parse result, seen mathematically.
pub open spec fn config_result_view<T: View>(r: Result<ComponentConfig<T>, ParseError>) -> Result<
    ComponentConfigView<T::V>,
    ErrorView,
> {
    match r {
        Result::Ok(c) => Result::Ok(c@),
        Result::Err(e) => Result::Err(e@),
    }
}

impl<T: ComponentBuilder> ComponentConfig<T> {
    /// Returns a sorted list of all plugin names registered for this capability.
    pub fn types() -> (r: Vec<String>)
        ensures
            names_sorted(names_view(r@)),
            names_view(r@).to_multiset() == T::reg_names().to_multiset(),
    {
        let names = T::type_names();
        sort_names(&names)
    }

    /// Parses one configuration block.
    pub fn deserialize(doc: &ConfigTable) -> (r: Result<ComponentConfig<T>, ParseError>)
        ensures
            config_result_view(r) == deserialize_spec::<T>(doc@),
    {
        let sw = match ConfigSwapOut::from_table(doc) {
            Ok(s) => s,
            Err(e) => {
                return Err(e);
            },
        };
        match T::build(&sw.type_str, &sw.nested) {
            Err(BuildError::UnknownType) => Err(ParseError::UnrecognizedType(sw.type_str)),
            Err(BuildError::Plugin(d)) => Err(
                ParseError::PluginParseError { type_str: sw.type_str, detail: d },
            ),
            Ok((component, echo)) => {
                let nested = match echo {
                    Option::Some(t) => t,
                    Option::None => sw.nested,
                };
                Ok(
                    ComponentConfig {
                        swap_out: ConfigSwapOut { type_str: sw.type_str, nested },
                        component,
                    },
                )
            },
        }
    }

    /// Emits the resolved configuration: the discriminator first, then the
    /// nested fields, canonical echo included.
    pub fn serialize(&self) -> (r: ConfigTable)
        ensures
            r@ == serialize_spec(self@),
    {
        self.swap_out.to_table()
    }
}

/// Re-serialization is idempotent: any two serializations of one resolved
/// configuration are the same document; nothing is mutated between them.
pub proof fn lemma_reserialize_identical<CV>(c: ComponentConfigView<CV>, r1: TableView, r2: TableView)
    requires
        r1 == serialize_spec(c),
        r2 == serialize_spec(c),
    ensures
        r1 == r2,
{
}

} // verus!
