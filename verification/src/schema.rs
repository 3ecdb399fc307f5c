//! Declarative descriptions of commands: their names, and for each option its
//! type, whether it is required, its default and the values it admits.

use crate::text::holds_text;
use vstd::prelude::*;

verus! {

/// The type an option is declared with.
#[derive(Debug, Clone, Copy, PartialEq, Eq, Structural)]
pub enum OptionType {
    String,
    Integer,
    Boolean,
}

/// One argument's value, tagged with its type.
#[derive(Debug, PartialEq, Eq)]
pub enum OptionValue {
    String(String),
    Integer(i64),
    Boolean(bool),
}

/// The mathematical content of an [`OptionValue`].
pub enum ValueView {
    String(Seq<char>),
    Integer(int),
    Boolean(bool),
}

impl ValueView {
    /// The type this value is of.
    pub open spec fn tag(self) -> OptionType {
        match self {
            ValueView::String(_) => OptionType::String,
            ValueView::Integer(_) => OptionType::Integer,
            ValueView::Boolean(_) => OptionType::Boolean,
        }
    }
}

impl View for OptionValue {
    type V = ValueView;

    open spec fn view(&self) -> ValueView {
        match *self {
            OptionValue::String(text) => ValueView::String(text@),
            OptionValue::Integer(number) => ValueView::Integer(number as int),
            OptionValue::Boolean(flag) => ValueView::Boolean(flag),
        }
    }
}

impl DeepView for OptionValue {
    type V = ValueView;

    open spec fn deep_view(&self) -> ValueView {
        self@
    }
}

impl OptionValue {
    /// A string value holding `text`.
    pub fn text(text: &str) -> (v: OptionValue)
        ensures
            v@ == ValueView::String(text@),
    {
        OptionValue::String(String::from_str(text))
    }

    /// The type this value is of.
    pub fn kind(&self) -> (t: OptionType)
        ensures
            t == self@.tag(),
    {
        match self {
            OptionValue::String(_) => OptionType::String,
            OptionValue::Integer(_) => OptionType::Integer,
            OptionValue::Boolean(_) => OptionType::Boolean,
        }
    }

    /// A copy with the same content.
    pub fn duplicate(&self) -> (v: OptionValue)
        ensures
            v@ == self@,
    {
        match self {
            OptionValue::String(text) => OptionValue::String(text.clone()),
            OptionValue::Integer(number) => OptionValue::Integer(*number),
            OptionValue::Boolean(flag) => OptionValue::Boolean(*flag),
        }
    }
}

/// What is known of one parameter of a command.
#[derive(Debug, PartialEq, Eq)]
pub struct OptionSchema {
    pub name: String,
    pub description: String,
    pub kind: OptionType,
    pub required: bool,
    /// The value taken when the caller supplies none.
    pub default: Option<OptionValue>,
    /// For a string option, the only texts it admits.
    pub allowed_values: Option<Vec<String>>,
    /// For an integer option, the least and the greatest number it admits.
    pub allowed_range: Option<(i64, i64)>,
}

/// The mathematical content of an [`OptionSchema`].
pub struct OptionSchemaView {
    pub name: Seq<char>,
    pub description: Seq<char>,
    pub kind: OptionType,
    pub required: bool,
    pub default: Option<ValueView>,
    pub allowed_values: Option<Seq<Seq<char>>>,
    pub allowed_range: Option<(int, int)>,
}

impl OptionSchemaView {
    /// Whether `v` lies in the enumerated set, where there is one and `v` is a
    /// string.
    pub open spec fn in_allowed_set(self, v: ValueView) -> bool {
        match (v, self.allowed_values) {
            (ValueView::String(text), Some(choices)) => choices.contains(text),
            _ => true,
        }
    }

    /// Whether `v` lies in the range, where there is one and `v` is an integer.
    pub open spec fn in_allowed_range(self, v: ValueView) -> bool {
        match (v, self.allowed_range) {
            (ValueView::Integer(number), Some((least, greatest))) => least <= number <= greatest,
            _ => true,
        }
    }

    /// Whether `v` is a value this option accepts.
    pub open spec fn admits(self, v: ValueView) -> bool {
        &&& v.tag() == self.kind
        &&& self.in_allowed_set(v)
        &&& self.in_allowed_range(v)
    }

    /// The invariant of an option's description: its default, if any, is a
    /// value the option itself accepts.
    pub open spec fn well_formed(self) -> bool {
        self.default matches Some(d) ==> self.admits(d)
    }
}

impl View for OptionSchema {
    type V = OptionSchemaView;

    open spec fn view(&self) -> OptionSchemaView {
        OptionSchemaView {
            name: self.name@,
            description: self.description@,
            kind: self.kind,
            required: self.required,
            default: self.default.deep_view(),
            allowed_values: self.allowed_values.deep_view(),
            allowed_range: match self.allowed_range {
                Some((least, greatest)) => Some((least as int, greatest as int)),
                None => None,
            },
        }
    }
}

impl DeepView for OptionSchema {
    type V = OptionSchemaView;

    open spec fn deep_view(&self) -> OptionSchemaView {
        self@
    }
}

impl OptionSchema {
    /// An optional option of the given name, description and type, with no
    /// default and no constraint on its values.
    pub fn new(name: &str, description: &str, kind: OptionType) -> (s: OptionSchema)
        ensures
            s@ == (OptionSchemaView {
                name: name@,
                description: description@,
                kind,
                required: false,
                default: None,
                allowed_values: None,
                allowed_range: None,
            }),
    {
        OptionSchema {
            name: String::from_str(name),
            description: String::from_str(description),
            kind,
            required: false,
            default: None,
            allowed_values: None,
            allowed_range: None,
        }
    }

    /// The same option, required or not as `required` says.
    pub fn required(self, required: bool) -> (s: OptionSchema)
        ensures
            s@ == (OptionSchemaView { required, ..self@ }),
    {
        OptionSchema { required, ..self }
    }

    /// The same option with `value` as its default.
    pub fn with_default(self, value: OptionValue) -> (s: OptionSchema)
        ensures
            s@ == (OptionSchemaView { default: Some(value@), ..self@ }),
    {
        OptionSchema { default: Some(value), ..self }
    }

    /// The same option, admitting only the texts in `choices`.
    pub fn with_choices(self, choices: Vec<String>) -> (s: OptionSchema)
        ensures
            s@ == (OptionSchemaView { allowed_values: Some(choices.deep_view()), ..self@ }),
    {
        OptionSchema { allowed_values: Some(choices), ..self }
    }

    /// The same option, admitting only the numbers from `least` to `greatest`,
    /// both included.
    pub fn with_range(self, least: i64, greatest: i64) -> (s: OptionSchema)
        ensures
            s@ == (OptionSchemaView {
                allowed_range: Some((least as int, greatest as int)),
                ..self@
            }),
    {
        OptionSchema { allowed_range: Some((least, greatest)), ..self }
    }

    /// Whether `value` lies in the enumerated set of this option, where it has
    /// one and `value` is a string.
    pub fn in_allowed_set(&self, value: &OptionValue) -> (r: bool)
        ensures
            r == self@.in_allowed_set(value@),
    {
        match (value, &self.allowed_values) {
            (OptionValue::String(text), Some(choices)) => holds_text(choices, text.as_str()),
            _ => true,
        }
    }

    /// Whether `value` lies in the range of this option, where it has one and
    /// `value` is an integer.
    pub fn in_allowed_range(&self, value: &OptionValue) -> (r: bool)
        ensures
            r == self@.in_allowed_range(value@),
    {
        match (value, &self.allowed_range) {
            (OptionValue::Integer(number), Some((least, greatest))) => *least <= *number
                && *number <= *greatest,
            _ => true,
        }
    }
}

/// One sub-command of a command: a name of its own and its own options.
#[derive(Debug, PartialEq, Eq)]
pub struct SubcommandSchema {
    pub name: String,
    pub description: String,
    pub options: Vec<OptionSchema>,
}

/// The mathematical content of a [`SubcommandSchema`].
pub struct SubcommandSchemaView {
    pub name: Seq<char>,
    pub description: Seq<char>,
    pub options: Seq<OptionSchemaView>,
}

impl View for SubcommandSchema {
    type V = SubcommandSchemaView;

    open spec fn view(&self) -> SubcommandSchemaView {
        SubcommandSchemaView {
            name: self.name@,
            description: self.description@,
            options: self.options.deep_view(),
        }
    }
}

impl DeepView for SubcommandSchema {
    type V = SubcommandSchemaView;

    open spec fn deep_view(&self) -> SubcommandSchemaView {
        self@
    }
}

/// A command as it is declared: its name, what it is for, and either its
/// options in the order in which their values arrive, or its sub-commands.
#[derive(Debug, PartialEq, Eq)]
pub struct CommandSchema {
    pub name: String,
    pub description: String,
    pub options: Vec<OptionSchema>,
    pub subcommands: Vec<SubcommandSchema>,
}

/// The mathematical content of a [`CommandSchema`].
pub struct CommandSchemaView {
    pub name: Seq<char>,
    pub description: Seq<char>,
    pub options: Seq<OptionSchemaView>,
    pub subcommands: Seq<SubcommandSchemaView>,
}

/// Whether every option of the list is well formed.
pub open spec fn all_well_formed(options: Seq<OptionSchemaView>) -> bool {
    forall|i: int| 0 <= i < options.len() ==> (#[trigger] options[i]).well_formed()
}

impl CommandSchemaView {
    /// The invariant of a command's description: each of its options, and
    /// each option of each of its sub-commands, is well formed.
    pub open spec fn well_formed(self) -> bool {
        &&& all_well_formed(self.options)
        &&& forall|k: int|
            0 <= k < self.subcommands.len() ==> all_well_formed(
                (#[trigger] self.subcommands[k]).options,
            )
    }
}

impl View for CommandSchema {
    type V = CommandSchemaView;

    open spec fn view(&self) -> CommandSchemaView {
        CommandSchemaView {
            name: self.name@,
            description: self.description@,
            options: self.options.deep_view(),
            subcommands: self.subcommands.deep_view(),
        }
    }
}

impl DeepView for CommandSchema {
    type V = CommandSchemaView;

    open spec fn deep_view(&self) -> CommandSchemaView {
        self@
    }
}

impl CommandSchema {
    /// A command of the given name and description that takes no option.
    pub fn new(name: &str, description: &str) -> (s: CommandSchema)
        ensures
            s@ == (CommandSchemaView {
                name: name@,
                description: description@,
                options: Seq::empty(),
                subcommands: Seq::empty(),
            }),
    {
        let s = CommandSchema {
            name: String::from_str(name),
            description: String::from_str(description),
            options: Vec::new(),
            subcommands: Vec::new(),
        };
        assert(s.options.deep_view() =~= Seq::empty());
        assert(s.subcommands.deep_view() =~= Seq::empty());
        s
    }

    /// The same command with `option` added behind its other options.
    pub fn option(self, option: OptionSchema) -> (s: CommandSchema)
        ensures
            s@ == (CommandSchemaView { options: self@.options.push(option@), ..self@ }),
    {
        let mut s = self;
        s.options.push(option);
        assert(s.options.deep_view() =~= self.options.deep_view().push(option@));
        s
    }

    /// The same command with a sub-command of the given name, description and
    /// options added behind its other sub-commands.
    pub fn subcommand(self, name: &str, description: &str, options: Vec<OptionSchema>) -> (s:
        CommandSchema)
        ensures
            s@ == (CommandSchemaView {
                subcommands: self@.subcommands.push(
                    SubcommandSchemaView {
                        name: name@,
                        description: description@,
                        options: options.deep_view(),
                    },
                ),
                ..self@
            }),
    {
        let mut s = self;
        let sub = SubcommandSchema {
            name: String::from_str(name),
            description: String::from_str(description),
            options,
        };
        s.subcommands.push(sub);
        assert(s.subcommands.deep_view() =~= self.subcommands.deep_view().push(sub@));
        s
    }
}

} // verus!
