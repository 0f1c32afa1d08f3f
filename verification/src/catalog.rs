//! What can be run: the commands of the registered sites, and the external programs.
use vstd::prelude::*;
use vstd::string::*;
use crate::json::{opt_json, Json};
use crate::text::{opt_text, same_text, texts};

verus! {

/// An argument that a site command takes.
pub struct ArgDef {
    pub name: String,
    pub positional: bool,
    pub description: Option<String>,
    pub required: bool,
    pub default: Option<serde_json::Value>,
}

/// What an [`ArgDef`] says.
pub struct ArgDefView {
    pub name: Seq<char>,
    pub positional: bool,
    pub description: Option<Seq<char>>,
    pub required: bool,
    pub default: Option<Json>,
}

impl View for ArgDef {
    type V = ArgDefView;

    open spec fn view(&self) -> ArgDefView {
        ArgDefView {
            name: self.name@,
            positional: self.positional,
            description: opt_text(self.description),
            required: self.required,
            default: opt_json(self.default),
        }
    }
}

/// A command of a site.
pub struct CliCommand {
    pub name: String,
    /// The name under which the command is reported, which tells its site too.
    pub full_name: String,
    pub description: String,
    pub args: Vec<ArgDef>,
    /// The columns of its output; none means all of them.
    pub columns: Vec<String>,
    /// The domain that the browser visits before the command runs.
    pub domain: Option<String>,
    pub timeout_seconds: Option<u64>,
    pub needs_browser: bool,
    /// Whether the command has a pipeline; one without steps is a pipeline too.
    pub has_pipeline: bool,
    /// Whether the command has a function.
    pub has_func: bool,
}

/// What a [`CliCommand`] says.
pub struct CliCommandView {
    pub name: Seq<char>,
    pub full_name: Seq<char>,
    pub description: Seq<char>,
    pub args: Seq<ArgDefView>,
    pub columns: Seq<Seq<char>>,
    pub domain: Option<Seq<char>>,
    pub timeout_seconds: Option<u64>,
    pub needs_browser: bool,
    pub has_pipeline: bool,
    pub has_func: bool,
}

impl View for CliCommand {
    type V = CliCommandView;

    open spec fn view(&self) -> CliCommandView {
        CliCommandView {
            name: self.name@,
            full_name: self.full_name@,
            description: self.description@,
            args: self.args@.map_values(|a: ArgDef| a@),
            columns: texts(self.columns@),
            domain: opt_text(self.domain),
            timeout_seconds: self.timeout_seconds,
            needs_browser: self.needs_browser,
            has_pipeline: self.has_pipeline,
            has_func: self.has_func,
        }
    }
}

/// A site and its commands.
pub struct Site {
    pub name: String,
    pub commands: Vec<CliCommand>,
}

/// What a [`Site`] says.
pub struct SiteView {
    pub name: Seq<char>,
    pub commands: Seq<CliCommandView>,
}

impl View for Site {
    type V = SiteView;

    open spec fn view(&self) -> SiteView {
        SiteView { name: self.name@, commands: self.commands@.map_values(|c: CliCommand| c@) }
    }
}

/// The sites that adapters were found for, in the order in which they are offered.
pub struct Registry {
    pub sites: Vec<Site>,
}

impl View for Registry {
    type V = Seq<SiteView>;

    open spec fn view(&self) -> Seq<SiteView> {
        self.sites@.map_values(|s: Site| s@)
    }
}

/// A program outside that is run under its name.
pub struct ExternalCli {
    pub name: String,
    pub description: String,
    pub binary: String,
}

/// What an [`ExternalCli`] says.
pub struct ExternalCliView {
    pub name: Seq<char>,
    pub description: Seq<char>,
    pub binary: Seq<char>,
}

impl View for ExternalCli {
    type V = ExternalCliView;

    open spec fn view(&self) -> ExternalCliView {
        ExternalCliView {
            name: self.name@,
            description: self.description@,
            binary: self.binary@,
        }
    }
}

/// What a list of external programs says.
pub open spec fn external_views(list: Seq<ExternalCli>) -> Seq<ExternalCliView> {
    list.map_values(|e: ExternalCli| e@)
}

/// The first external program with the given name.
pub open spec fn external_named(list: Seq<ExternalCliView>, name: Seq<char>) -> Option<
    ExternalCliView,
>
    decreases list.len(),
{
    if list.len() == 0 {
        None
    } else if list[0].name == name {
        Some(list[0])
    } else {
        external_named(list.drop_first(), name)
    }
}

/// What an optional reference to an external program says.
pub open spec fn opt_external(r: Option<&ExternalCli>) -> Option<ExternalCliView> {
    match r {
        Some(e) => Some(e@),
        None => None,
    }
}

/// The first external program with the given name.
pub fn find_external<'a>(list: &'a Vec<ExternalCli>, name: &str) -> (r: Option<&'a ExternalCli>)
    ensures
        opt_external(r) == external_named(external_views(list@), name@),
        match r {
            Some(e) => exists|i: int|
                0 <= i < list.len() && #[trigger] list[i] == *e && e.name@ == name@ && (forall|j:
                    int| 0 <= j < i ==> (#[trigger] list[j]).name@ != name@),
            None => forall|i: int| 0 <= i < list.len() ==> (#[trigger] list[i]).name@ != name@,
        },
{
    let ghost all = external_views(list@);
    assert(all.skip(0) =~= all);
    for i in 0..list.len()
        invariant
            all == external_views(list@),
            external_named(all, name@) == external_named(all.skip(i as int), name@),
            forall|j: int| 0 <= j < i ==> (#[trigger] list[j]).name@ != name@,
    {
        assert(all.skip(i as int)[0] == list[i as int]@);
        if same_text(list[i].name.as_str(), name) {
            return Some(&list[i]);
        }
        assert(all.skip(i as int).drop_first() =~= all.skip(i + 1));
    }
    None
}

/// The first command with the given name.
pub open spec fn command_in(commands: Seq<CliCommandView>, name: Seq<char>) -> Option<
    CliCommandView,
>
    decreases commands.len(),
{
    if commands.len() == 0 {
        None
    } else if commands[0].name == name {
        Some(commands[0])
    } else {
        command_in(commands.drop_first(), name)
    }
}

/// The first command with the given name in a site with the given name.
pub open spec fn command_named(sites: Seq<SiteView>, site: Seq<char>, name: Seq<char>) -> Option<
    CliCommandView,
>
    decreases sites.len(),
{
    if sites.len() == 0 {
        None
    } else if sites[0].name == site && command_in(sites[0].commands, name) is Some {
        command_in(sites[0].commands, name)
    } else {
        command_named(sites.drop_first(), site, name)
    }
}

/// What an optional reference to a command says.
pub open spec fn opt_command(r: Option<&CliCommand>) -> Option<CliCommandView> {
    match r {
        Some(c) => Some(c@),
        None => None,
    }
}

impl Site {
    /// The first command of the site with the given name.
    pub fn command(&self, name: &str) -> (r: Option<&CliCommand>)
        ensures
            opt_command(r) == command_in(self@.commands, name@),
            match r {
                Some(c) => exists|i: int|
                    0 <= i < self.commands.len() && #[trigger] self.commands[i] == *c && c.name@
                        == name@ && (forall|j: int|
                        0 <= j < i ==> (#[trigger] self.commands[j]).name@ != name@),
                None => forall|i: int|
                    0 <= i < self.commands.len() ==> (#[trigger] self.commands[i]).name@ != name@,
            },
    {
        let ghost all = self@.commands;
        assert(all.skip(0) =~= all);
        for i in 0..self.commands.len()
            invariant
                all == self@.commands,
                command_in(all, name@) == command_in(all.skip(i as int), name@),
                forall|j: int| 0 <= j < i ==> (#[trigger] self.commands[j]).name@ != name@,
        {
            assert(all.skip(i as int)[0] == self.commands[i as int]@);
            if same_text(self.commands[i].name.as_str(), name) {
                return Some(&self.commands[i]);
            }
            assert(all.skip(i as int).drop_first() =~= all.skip(i + 1));
        }
        None
    }
}

impl Registry {
    /// The first command with the given name in a site with the given name.
    pub fn get(&self, site: &str, name: &str) -> (r: Option<&CliCommand>)
        ensures
            opt_command(r) == command_named(self@, site@, name@),
            match r {
                Some(c) => command_named(self@, site@, name@) == Some(c@),
                None => command_named(self@, site@, name@) is None,
            },
            r matches Some(c) ==> c.name@ == name@ && exists|i: int, j: int|
                0 <= i < self.sites.len() && 0 <= j < self.sites[i].commands.len()
                    && self.sites[i].name@ == site@ && #[trigger] self.sites[i].commands[j] == *c,
    {
        let ghost all = self@;
        assert(all.skip(0) =~= all);
        for i in 0..self.sites.len()
            invariant
                all == self@,
                command_named(all, site@, name@) == command_named(
                    all.skip(i as int),
                    site@,
                    name@,
                ),
        {
            assert(all.skip(i as int)[0] == self.sites[i as int]@);
            if same_text(self.sites[i].name.as_str(), site) {
                let found = self.sites[i].command(name);
                if found.is_some() {
                    proof {
                        let c = found->0;
                        let j = choose|j: int|
                            0 <= j < self.sites[i as int].commands.len()
                                && #[trigger] self.sites[i as int].commands[j] == *c;
                        assert(self.sites[i as int].commands[j] == *c);
                    }
                    return found;
                }
            }
            assert(all.skip(i as int).drop_first() =~= all.skip(i + 1));
        }
        None
    }
}

/// The views hold every field, and the views of lists every element in its place.
pub proof fn law_views_hold_every_field(
    def: ArgDef,
    command: CliCommand,
    site: Site,
    registry: Registry,
    external: ExternalCli,
    externals: Seq<ExternalCli>,
)
    ensures
        def@.name == def.name@,
        def@.positional == def.positional,
        def@.description is Some <==> def.description is Some,
        def.description is Some ==> def@.description->0 == (def.description->0)@,
        def@.required == def.required,
        def@.default is Some <==> def.default is Some,
        def.default is Some ==> def@.default->0 == crate::json::json_view(def.default->0),
        command@.name == command.name@,
        command@.full_name == command.full_name@,
        command@.description == command.description@,
        command@.args.len() == command.args.len(),
        forall|k: int|
            0 <= k < command.args.len() ==> #[trigger] command@.args[k] == command.args[k]@,
        command@.columns.len() == command.columns.len(),
        forall|k: int|
            0 <= k < command.columns.len() ==> #[trigger] command@.columns[k]
                == command.columns[k]@,
        command@.domain is Some <==> command.domain is Some,
        command.domain is Some ==> command@.domain->0 == (command.domain->0)@,
        command@.timeout_seconds == command.timeout_seconds,
        command@.needs_browser == command.needs_browser,
        command@.has_pipeline == command.has_pipeline,
        command@.has_func == command.has_func,
        site@.name == site.name@,
        site@.commands.len() == site.commands.len(),
        forall|k: int|
            0 <= k < site.commands.len() ==> #[trigger] site@.commands[k] == site.commands[k]@,
        registry@.len() == registry.sites.len(),
        forall|k: int| 0 <= k < registry.sites.len() ==> #[trigger] registry@[k] == registry.sites[k]@,
        external@.name == external.name@,
        external@.description == external.description@,
        external@.binary == external.binary@,
        external_views(externals).len() == externals.len(),
        forall|k: int|
            0 <= k < externals.len() ==> #[trigger] external_views(externals)[k] == externals[k]@,
{
}

/// Of the external programs of a name, the first is found, and nothing where there is
/// none.
pub proof fn law_the_first_program_of_a_name_is_found(list: Seq<ExternalCliView>, name: Seq<char>)
    ensures
        match external_named(list, name) {
            Some(e) => exists|i: int|
                0 <= i < list.len() && #[trigger] list[i] == e && e.name == name && (forall|j: int|
                    0 <= j < i ==> (#[trigger] list[j]).name != name),
            None => forall|i: int| 0 <= i < list.len() ==> (#[trigger] list[i]).name != name,
        },
    decreases list.len(),
{
    if list.len() > 0 {
        let rest = list.drop_first();
        if list[0].name == name {
            assert(list[0] == external_named(list, name)->0);
        } else {
            law_the_first_program_of_a_name_is_found(rest, name);
            match external_named(rest, name) {
                Some(e) => {
                    let i = choose|i: int|
                        0 <= i < rest.len() && #[trigger] rest[i] == e && e.name == name && (forall|
                            j: int,
                        |
                            0 <= j < i ==> (#[trigger] rest[j]).name != name);
                    assert(list[i + 1] == e);
                    assert forall|j: int| 0 <= j < i + 1 implies (#[trigger] list[j]).name
                        != name by {
                        if j > 0 {
                            assert(rest[j - 1] == list[j]);
                        }
                    }
                },
                None => {
                    assert forall|i: int| 0 <= i < list.len() implies (#[trigger] list[i]).name
                        != name by {
                        if i > 0 {
                            assert(rest[i - 1] == list[i]);
                        }
                    }
                },
            }
        }
    }
}

/// Of the commands of a name, the first is found, and nothing where there is none.
pub proof fn law_the_first_command_of_a_name_is_found(
    commands: Seq<CliCommandView>,
    name: Seq<char>,
)
    ensures
        match command_in(commands, name) {
            Some(c) => exists|i: int|
                0 <= i < commands.len() && #[trigger] commands[i] == c && c.name == name && (forall|
                    j: int,
                |
                    0 <= j < i ==> (#[trigger] commands[j]).name != name),
            None => forall|i: int| 0 <= i < commands.len() ==> (#[trigger] commands[i]).name != name,
        },
    decreases commands.len(),
{
    if commands.len() > 0 {
        let rest = commands.drop_first();
        if commands[0].name == name {
            assert(commands[0] == command_in(commands, name)->0);
        } else {
            law_the_first_command_of_a_name_is_found(rest, name);
            match command_in(rest, name) {
                Some(c) => {
                    let i = choose|i: int|
                        0 <= i < rest.len() && #[trigger] rest[i] == c && c.name == name && (forall|
                            j: int,
                        |
                            0 <= j < i ==> (#[trigger] rest[j]).name != name);
                    assert(commands[i + 1] == c);
                    assert forall|j: int| 0 <= j < i + 1 implies (#[trigger] commands[j]).name
                        != name by {
                        if j > 0 {
                            assert(rest[j - 1] == commands[j]);
                        }
                    }
                },
                None => {
                    assert forall|i: int| 0 <= i < commands.len() implies (
                    #[trigger] commands[i]).name != name by {
                        if i > 0 {
                            assert(rest[i - 1] == commands[i]);
                        }
                    }
                },
            }
        }
    }
}

/// A command is looked for in the first site of that name that has one of its name: a
/// site of another name, or without such a command, makes no difference.
pub proof fn law_the_first_site_that_has_the_command_gives_it(
    sites: Seq<SiteView>,
    first: SiteView,
    site: Seq<char>,
    name: Seq<char>,
)
    ensures
        command_named(Seq::empty(), site, name) is None,
        first.name != site ==> command_named(seq![first] + sites, site, name) == command_named(
            sites,
            site,
            name,
        ),
        (forall|k: int| 0 <= k < first.commands.len() ==> (#[trigger] first.commands[k]).name
            != name) ==> command_named(seq![first] + sites, site, name) == command_named(
            sites,
            site,
            name,
        ),
        forall|k: int|
            0 <= k < first.commands.len() && first.name == site && (
            #[trigger] first.commands[k]).name == name && (forall|j: int|
                0 <= j < k ==> (#[trigger] first.commands[j]).name != name) ==> command_named(
                seq![first] + sites,
                site,
                name,
            ) == Some(first.commands[k]),
{
    let all = seq![first] + sites;
    assert(all.drop_first() =~= sites);
    assert(all[0] == first);
    law_the_first_command_of_a_name_is_found(first.commands, name);
}

proof fn lemma_command_in(commands: Seq<CliCommandView>, name: Seq<char>)
    ensures
        match command_in(commands, name) {
            Some(c) => c.name == name && commands.contains(c),
            None => forall|k: int| 0 <= k < commands.len() ==> (#[trigger] commands[k]).name != name,
        },
    decreases commands.len(),
{
    if commands.len() > 0 && commands[0].name != name {
        let rest = commands.drop_first();
        lemma_command_in(rest, name);
        match command_in(rest, name) {
            Some(c) => {
                let k = choose|k: int| 0 <= k < rest.len() && rest[k] == c;
                assert(commands[k + 1] == c);
            },
            None => {
                assert forall|k: int| 0 <= k < commands.len() implies (
                #[trigger] commands[k]).name != name by {
                    if k > 0 {
                        assert(commands[k] == rest[k - 1]);
                    }
                }
            },
        }
    } else if commands.len() > 0 {
        assert(commands[0].name == name);
    }
}

/// A lookup finds a command exactly where a site of that name has a command of that
/// name, and what it finds is such a command.
pub proof fn law_lookup_finds_registered_commands(
    sites: Seq<SiteView>,
    site: Seq<char>,
    name: Seq<char>,
)
    ensures
        match command_named(sites, site, name) {
            Some(c) => c.name == name && exists|i: int|
                0 <= i < sites.len() && (#[trigger] sites[i]).name == site
                    && sites[i].commands.contains(c),
            None => forall|i: int, j: int|
                0 <= i < sites.len() && 0 <= j < sites[i].commands.len() && sites[i].name == site
                    ==> (#[trigger] sites[i].commands[j]).name != name,
        },
    decreases sites.len(),
{
    if sites.len() > 0 {
        lemma_command_in(sites[0].commands, name);
        if sites[0].name == site && command_in(sites[0].commands, name) is Some {
            assert(sites[0].commands.contains(command_in(sites[0].commands, name)->0));
        } else {
            let rest = sites.drop_first();
            law_lookup_finds_registered_commands(rest, site, name);
            match command_named(rest, site, name) {
                Some(c) => {
                    let i = choose|i: int|
                        0 <= i < rest.len() && (#[trigger] rest[i]).name == site
                            && rest[i].commands.contains(c);
                    assert(sites[i + 1] == rest[i]);
                },
                None => {
                    assert forall|i: int, j: int|
                        0 <= i < sites.len() && 0 <= j < sites[i].commands.len() && sites[i].name
                            == site implies (#[trigger] sites[i].commands[j]).name != name by {
                        if i > 0 {
                            assert(rest[i - 1].commands[j] == sites[i].commands[j]);
                        }
                    }
                },
            }
        }
    }
}

} // verus!
