//! The registry: which commands there are, each with its schema and the
//! handler that carries it out. Names are unique; a second command under a
//! name that is taken is refused when it is registered.

use crate::commands;
use crate::schema::{all_well_formed, CommandSchema, CommandSchemaView};
use crate::text::same_text;
use vstd::prelude::*;

verus! {

/// The handlers there are, one for each command.
#[derive(Debug, Clone, Copy, PartialEq, Eq, Structural)]
pub enum Handler {
    Connect,
    Devices,
    Info,
    List,
    Pause,
    Play,
    Queue,
    Refresh,
    Resume,
    Search,
    Settings,
    Skip,
    Status,
}

/// A registered command: its schema and its handler.
#[derive(Debug, PartialEq, Eq)]
pub struct Entry {
    pub schema: CommandSchema,
    pub handler: Handler,
}

/// The mathematical content of an [`Entry`].
pub struct EntryView {
    pub schema: CommandSchemaView,
    pub handler: Handler,
}

impl View for Entry {
    type V = EntryView;

    open spec fn view(&self) -> EntryView {
        EntryView { schema: self.schema@, handler: self.handler }
    }
}

impl DeepView for Entry {
    type V = EntryView;

    open spec fn deep_view(&self) -> EntryView {
        self@
    }
}

/// Why a command could not be registered.
#[derive(Debug, PartialEq, Eq)]
pub enum RegistryError {
    /// A command of this name is registered already.
    Duplicate(String),
}

/// The position of the first entry at or behind `from` whose command is
/// called `name`.
pub open spec fn position(entries: Seq<EntryView>, name: Seq<char>, from: nat) -> Option<nat>
    decreases entries.len() - from,
{
    if from >= entries.len() {
        None
    } else if entries[from as int].schema.name == name {
        Some(from)
    } else {
        position(entries, name, from + 1)
    }
}

/// The entry of the command called `name`, if there is one.
pub open spec fn found(entries: Seq<EntryView>, name: Seq<char>) -> Option<EntryView> {
    match position(entries, name, 0) {
        Some(at) => Some(entries[at as int]),
        None => None,
    }
}

/// Whether no two entries go by the same name.
pub open spec fn unique_names(entries: Seq<EntryView>) -> bool {
    forall|i: int, j: int|
        0 <= i < j < entries.len() ==> (#[trigger] entries[i]).schema.name != (
        #[trigger] entries[j]).schema.name
}

/// What `position` finds: a position in the list whose entry has the name,
/// with no entry of that name before it; and nothing only where no entry
/// from `from` on has the name.
pub proof fn position_is_first(entries: Seq<EntryView>, name: Seq<char>, from: nat)
    ensures
        position(entries, name, from) matches Some(at) ==> from <= at < entries.len()
            && entries[at as int].schema.name == name && forall|j: int|
            from <= j < at ==> (#[trigger] entries[j]).schema.name != name,
        position(entries, name, from) is None ==> forall|j: int|
            from <= j < entries.len() ==> (#[trigger] entries[j]).schema.name != name,
    decreases entries.len() - from,
{
    if from < entries.len() && entries[from as int].schema.name != name {
        position_is_first(entries, name, from + 1);
    }
}

/// With unique names a lookup finds the one entry of that name: every entry
/// is found under its own name.
pub proof fn each_entry_is_found(entries: Seq<EntryView>, i: int)
    requires
        unique_names(entries),
        0 <= i < entries.len(),
    ensures
        found(entries, entries[i].schema.name) == Some(entries[i]),
{
    position_is_first(entries, entries[i].schema.name, 0);
    let at = position(entries, entries[i].schema.name, 0);
    assert(at is Some);
    if at->0 < i {
        assert(entries[at->0 as int].schema.name != entries[i].schema.name);
    }
}

/// The twelve commands that are offered, each with its handler.
pub open spec fn standard_entries() -> Seq<EntryView> {
    seq![
        EntryView { schema: commands::search::declared(), handler: Handler::Search },
        EntryView { schema: commands::play::declared(), handler: Handler::Play },
        EntryView { schema: commands::queue::declared(), handler: Handler::Queue },
        EntryView { schema: commands::set::declared(), handler: Handler::Settings },
        EntryView { schema: commands::skip::declared(), handler: Handler::Skip },
        EntryView { schema: commands::list::declared(), handler: Handler::List },
        EntryView { schema: commands::pause::declared(), handler: Handler::Pause },
        EntryView { schema: commands::resume::declared(), handler: Handler::Resume },
        EntryView { schema: commands::connect::declared(), handler: Handler::Connect },
        EntryView { schema: commands::status::declared(), handler: Handler::Status },
        EntryView { schema: commands::info::declared(), handler: Handler::Info },
        EntryView { schema: commands::devices::declared(), handler: Handler::Devices },
    ]
}

/// The twelve commands that are offered go by twelve different names.
pub proof fn standard_names_differ()
    ensures
        unique_names(standard_entries()),
{
    reveal_strlit("search");
    reveal_strlit("play");
    reveal_strlit("queue");
    reveal_strlit("set");
    reveal_strlit("skip");
    reveal_strlit("list");
    reveal_strlit("pause");
    reveal_strlit("resume");
    reveal_strlit("connect");
    reveal_strlit("status");
    reveal_strlit("info");
    reveal_strlit("devices");
    let names = Seq::new(12, |i: int| standard_entries()[i].schema.name);
    assert(names[0][0] == 's' && names[0][1] == 'e' && names[0].len() == 6);
    assert(names[1][0] == 'p' && names[1].len() == 4);
    assert(names[2][0] == 'q' && names[2].len() == 5);
    assert(names[3].len() == 3);
    assert(names[4][0] == 's' && names[4].len() == 4);
    assert(names[5][0] == 'l' && names[5].len() == 4);
    assert(names[6][0] == 'p' && names[6].len() == 5);
    assert(names[7][0] == 'r' && names[7].len() == 6);
    assert(names[8][0] == 'c' && names[8].len() == 7);
    assert(names[9][0] == 's' && names[9][1] == 't' && names[9].len() == 6);
    assert(names[10][0] == 'i' && names[10].len() == 4);
    assert(names[11][0] == 'd' && names[11].len() == 7);
    assert forall|i: int, j: int| 0 <= i < j < 12 implies names[i] != names[j] by {
        if names[i] == names[j] {
            assert(names[i].len() == names[j].len());
            assert(names[i][0] == names[j][0]);
            assert(names[i][1] == names[j][1]);
        }
    }
    assert forall|i: int, j: int| 0 <= i < j < standard_entries().len() implies (
    #[trigger] standard_entries()[i]).schema.name != (
    #[trigger] standard_entries()[j]).schema.name by {
        assert(names[i] != names[j]);
    }
}

/// Each of the twelve commands that are offered is well formed: where an
/// option has a default, the option itself accepts it.
pub proof fn standard_schemas_are_well_formed()
    ensures
        forall|i: int|
            0 <= i < standard_entries().len() ==> (
            #[trigger] standard_entries()[i]).schema.well_formed(),
{
    let choices = commands::play::categories();
    assert(choices[0] == "track"@);
    assert(choices.contains("track"@));
    assert(all_well_formed(commands::search::declared_options())) by {
        assert forall|k: int|
            0 <= k < commands::search::declared_options().len() implies (
        #[trigger] commands::search::declared_options()[k]).well_formed() by {
            if k == 1 {
                assert(commands::search::declared_options()[1].allowed_values == Some(choices));
            }
        }
    }
    assert forall|i: int| 0 <= i < standard_entries().len() implies (
    #[trigger] standard_entries()[i]).schema.well_formed() by {
        let schema = standard_entries()[i].schema;
        assert forall|k: int| 0 <= k < schema.options.len() implies (
        #[trigger] schema.options[k]).well_formed() by {
            if i == 0 {
                assert(schema.options == commands::search::declared_options());
            }
        }
        assert forall|k: int| 0 <= k < schema.subcommands.len() implies all_well_formed(
            (#[trigger] schema.subcommands[k]).options,
        ) by {
            assert(i == 3);
            assert(schema.subcommands == commands::set::declared_subcommands());
            assert forall|o: int| 0 <= o < schema.subcommands[k].options.len() implies (
            #[trigger] schema.subcommands[k].options[o]).well_formed() by {
                assert(schema.subcommands[k].options[o].default is None);
            }
        }
    }
}

/// Each of the twelve commands finds its name free among those before it.
proof fn next_name_is_free(k: int)
    requires
        0 <= k < 12,
    ensures
        found(standard_entries().take(k), standard_entries()[k].schema.name) is None,
{
    standard_names_differ();
    let before = standard_entries().take(k);
    let name = standard_entries()[k].schema.name;
    position_is_first(before, name, 0);
    if position(before, name, 0) is Some {
        let at = position(before, name, 0)->0 as int;
        assert(before[at] == standard_entries()[at]);
    }
}

/// The commands that are registered.
pub struct Registry {
    entries: Vec<Entry>,
}

impl View for Registry {
    type V = Seq<EntryView>;

    closed spec fn view(&self) -> Seq<EntryView> {
        self.entries.deep_view()
    }
}

impl Registry {
    /// The invariant of a registry: no two of its commands go by the same
    /// name.
    pub open spec fn well_formed(&self) -> bool {
        unique_names(self@)
    }

    /// The registry without any command.
    pub fn new() -> (registry: Registry)
        ensures
            registry@ == Seq::<EntryView>::empty(),
            registry.well_formed(),
    {
        let registry = Registry { entries: Vec::new() };
        assert(registry@ =~= Seq::<EntryView>::empty());
        registry
    }

    /// How many commands are registered.
    pub fn len(&self) -> (n: usize)
        ensures
            n == self@.len(),
    {
        self.entries.len()
    }

    /// The entry at position `i`, in the order of registration, if there
    /// are that many.
    pub fn get(&self, i: usize) -> (r: Option<&Entry>)
        ensures
            i < self@.len() ==> r.deep_view() == Some(self@[i as int]),
            i >= self@.len() ==> r is None,
    {
        if i < self.entries.len() {
            Some(&self.entries[i])
        } else {
            None
        }
    }

    fn find(&self, name: &str) -> (at: Option<usize>)
        ensures
            at matches Some(i) ==> position(self@, name@, 0) == Some(i as nat) && i
                < self.entries.len(),
            at is None ==> position(self@, name@, 0) is None,
    {
        let mut i: usize = 0;
        while i < self.entries.len()
            invariant
                i <= self.entries.len(),
                position(self@, name@, 0) == position(self@, name@, i as nat),
            decreases self.entries.len() - i,
        {
            if same_text(self.entries[i].schema.name.as_str(), name) {
                return Some(i);
            }
            i += 1;
        }
        None
    }

    /// Registers a command. A name that is taken is refused and the registry
    /// stays as it is; else the command is added behind the others. Unique
    /// names stay unique.
    pub fn register(&mut self, schema: CommandSchema, handler: Handler) -> (r: Result<
        (),
        RegistryError,
    >)
        ensures
            found(old(self)@, schema@.name) is Some ==> r is Err && final(self)@ == old(self)@,
            found(old(self)@, schema@.name) is None ==> r is Ok && final(self)@ == old(self)@.push(
                EntryView { schema: schema@, handler },
            ),
            r matches Err(RegistryError::Duplicate(name)) ==> name@ == schema@.name,
            old(self).well_formed() ==> final(self).well_formed(),
    {
        match self.find(schema.name.as_str()) {
            Some(_) => Err(RegistryError::Duplicate(schema.name)),
            None => {
                proof {
                    position_is_first(self@, schema@.name, 0);
                }
                let ghost before = self@;
                let entry = Entry { schema, handler };
                self.entries.push(entry);
                assert(self@ =~= before.push(entry@));
                Ok(())
            },
        }
    }

    /// The registry of the twelve commands that are offered, in the order in
    /// which they are declared to the chat platform.
    pub fn standard() -> (registry: Registry)
        ensures
            registry@ == standard_entries(),
            registry.well_formed(),
    {
        let mut registry = Registry::new();
        assert(registry@ =~= standard_entries().take(0));
        proof {
            next_name_is_free(0);
        }
        let _ = registry.register(commands::search::register(), Handler::Search);
        assert(registry@ =~= standard_entries().take(1));
        proof {
            next_name_is_free(1);
        }
        let _ = registry.register(commands::play::register(), Handler::Play);
        assert(registry@ =~= standard_entries().take(2));
        proof {
            next_name_is_free(2);
        }
        let _ = registry.register(commands::queue::register(), Handler::Queue);
        assert(registry@ =~= standard_entries().take(3));
        proof {
            next_name_is_free(3);
        }
        let _ = registry.register(commands::set::register(), Handler::Settings);
        assert(registry@ =~= standard_entries().take(4));
        proof {
            next_name_is_free(4);
        }
        let _ = registry.register(commands::skip::register(), Handler::Skip);
        assert(registry@ =~= standard_entries().take(5));
        proof {
            next_name_is_free(5);
        }
        let _ = registry.register(commands::list::register(), Handler::List);
        assert(registry@ =~= standard_entries().take(6));
        proof {
            next_name_is_free(6);
        }
        let _ = registry.register(commands::pause::register(), Handler::Pause);
        assert(registry@ =~= standard_entries().take(7));
        proof {
            next_name_is_free(7);
        }
        let _ = registry.register(commands::resume::register(), Handler::Resume);
        assert(registry@ =~= standard_entries().take(8));
        proof {
            next_name_is_free(8);
        }
        let _ = registry.register(commands::connect::register(), Handler::Connect);
        assert(registry@ =~= standard_entries().take(9));
        proof {
            next_name_is_free(9);
        }
        let _ = registry.register(commands::status::register(), Handler::Status);
        assert(registry@ =~= standard_entries().take(10));
        proof {
            next_name_is_free(10);
        }
        let _ = registry.register(commands::info::register(), Handler::Info);
        assert(registry@ =~= standard_entries().take(11));
        proof {
            next_name_is_free(11);
        }
        let _ = registry.register(commands::devices::register(), Handler::Devices);
        assert(registry@ =~= standard_entries().take(12));
        assert(standard_entries().take(12) =~= standard_entries());
        proof {
            standard_names_differ();
        }
        registry
    }

    /// Looks a command up by its name.
    pub fn lookup(&self, name: &str) -> (r: Option<&Entry>)
        ensures
            r.deep_view() == found(self@, name@),
    {
        match self.find(name) {
            Some(at) => Some(&self.entries[at]),
            None => None,
        }
    }
}

} // verus!
