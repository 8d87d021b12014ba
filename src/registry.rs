//! The list of registered commands, and the lookup that routes an invocation
//! to its handler. The list is built once, explicitly, and is read-only after.
use vstd::prelude::*;

use crate::command::{
    Command, CommandLayout, CommandStep, CommandStepView, OptionLayoutView, PlatformEvent,
    PlatformEventView,
};
use crate::ping::Ping;
use crate::purge::Purge;
use crate::request::Request;

verus! {

/// The registered commands, in registration order.
pub struct Registry<C: Command> {
    commands: Vec<C>,
}

impl<C: Command> View for Registry<C> {
    type V = Seq<C>;

    closed spec fn view(&self) -> Seq<C> {
        self.commands@
    }
}

/// The names of `commands`, in order.
pub open spec fn names_of<C: Command>(commands: Seq<C>) -> Seq<Seq<char>> {
    commands.map_values(|c: C| c.spec_name())
}

/// `r` is what a lookup of `name` among `names` gives: the first position that
/// holds `name`, or `None` when no position does.
pub open spec fn is_lookup_of(names: Seq<Seq<char>>, name: Seq<char>, r: Option<usize>) -> bool {
    match r {
        Some(i) => {
            &&& i < names.len()
            &&& names[i as int] == name
            &&& forall|j: int| 0 <= j < i ==> names[j] != name
        },
        None => forall|j: int| 0 <= j < names.len() ==> names[j] != name,
    }
}

impl<C: Command> Registry<C> {
    pub fn new(commands: Vec<C>) -> (r: Registry<C>)
        ensures
            r@ == commands@,
    {
        Registry { commands }
    }

    pub fn len(&self) -> (r: usize)
        ensures
            r == self@.len(),
    {
        self.commands.len()
    }

    pub fn get(&self, i: usize) -> (r: &C)
        requires
            i < self@.len(),
        ensures
            *r == self@[i as int],
    {
        &self.commands[i]
    }

    /// The position of the handler for the command `name`: the first one
    /// registered under that name, or `None` when there is none.
    pub fn dispatch(&self, name: &str) -> (r: Option<usize>)
        ensures
            is_lookup_of(names_of(self@), name@, r),
    {
        let target = String::from_str(name);
        let mut i: usize = 0;
        while i < self.commands.len()
            invariant
                i <= self@.len(),
                target@ == name@,
                forall|j: int| 0 <= j < i ==> names_of(self@)[j] != name@,
            decreases self@.len() - i,
        {
            let n = self.commands[i].name();
            if n == target {
                return Some(i);
            }
            i = i + 1;
        }
        None
    }

    /// The declarations of all commands, in registration order, to be
    /// submitted to the platform as one set.
    pub fn layouts(&self) -> (r: Vec<CommandLayout>)
        ensures
            r@.len() == self@.len(),
            forall|i: int|
                0 <= i < r@.len() ==> {
                    &&& (#[trigger] r@[i]).name@ == self@[i].spec_name()
                    &&& r@[i].description@ == self@[i].spec_description()
                    &&& r@[i].option_views() == self@[i].spec_options()
                },
    {
        let mut r: Vec<CommandLayout> = Vec::new();
        let mut i: usize = 0;
        while i < self.commands.len()
            invariant
                i <= self@.len(),
                r@.len() == i,
                forall|k: int|
                    0 <= k < i ==> {
                        &&& (#[trigger] r@[k]).name@ == self@[k].spec_name()
                        &&& r@[k].description@ == self@[k].spec_description()
                        &&& r@[k].option_views() == self@[k].spec_options()
                    },
            decreases self@.len() - i,
        {
            r.push(self.commands[i].layout());
            i = i + 1;
        }
        r
    }
}

/// Two lookups of the same name in the same registry resolve to the same
/// handler.
pub proof fn lemma_dispatch_same_handler<C: Command>(
    reg: Registry<C>,
    first: Seq<char>,
    second: Seq<char>,
    r1: Option<usize>,
    r2: Option<usize>,
)
    requires
        first == second,
        is_lookup_of(names_of(reg@), first, r1),
        is_lookup_of(names_of(reg@), second, r2),
    ensures
        r1 == r2,
{
    let names = names_of(reg@);
    match (r1, r2) {
        (Some(i), Some(j)) => {
            if i < j {
                assert(names[i as int] == second);
            } else if j < i {
                assert(names[j as int] == first);
            }
        },
        (Some(i), None) => {
            assert(names[i as int] == second);
        },
        (None, Some(j)) => {
            assert(names[j as int] == first);
        },
        (None, None) => {},
    }
}

/// The commands this bot ships with.
#[derive(Clone, Copy, Debug)]
pub enum BuiltinCommand {
    Ping(Ping),
    Purge(Purge),
}

impl Command for BuiltinCommand {
    open spec fn spec_name(&self) -> Seq<char> {
        match self {
            BuiltinCommand::Ping(c) => c.spec_name(),
            BuiltinCommand::Purge(c) => c.spec_name(),
        }
    }

    open spec fn spec_description(&self) -> Seq<char> {
        match self {
            BuiltinCommand::Ping(c) => c.spec_description(),
            BuiltinCommand::Purge(c) => c.spec_description(),
        }
    }

    open spec fn spec_options(&self) -> Seq<OptionLayoutView> {
        match self {
            BuiltinCommand::Ping(c) => c.spec_options(),
            BuiltinCommand::Purge(c) => c.spec_options(),
        }
    }

    open spec fn spec_run(&self, req: Request) -> CommandStepView {
        match self {
            BuiltinCommand::Ping(c) => c.spec_run(req),
            BuiltinCommand::Purge(c) => c.spec_run(req),
        }
    }

    open spec fn spec_resume(&self, req: Request, event: PlatformEventView) -> CommandStepView {
        match self {
            BuiltinCommand::Ping(c) => c.spec_resume(req, event),
            BuiltinCommand::Purge(c) => c.spec_resume(req, event),
        }
    }

    fn name(&self) -> (r: String) {
        match self {
            BuiltinCommand::Ping(c) => c.name(),
            BuiltinCommand::Purge(c) => c.name(),
        }
    }

    fn description(&self) -> (r: String) {
        match self {
            BuiltinCommand::Ping(c) => c.description(),
            BuiltinCommand::Purge(c) => c.description(),
        }
    }

    fn layout(&self) -> (r: CommandLayout) {
        match self {
            BuiltinCommand::Ping(c) => c.layout(),
            BuiltinCommand::Purge(c) => c.layout(),
        }
    }

    fn run(&self, req: &Request) -> (r: CommandStep) {
        match self {
            BuiltinCommand::Ping(c) => c.run(req),
            BuiltinCommand::Purge(c) => c.run(req),
        }
    }

    fn resume(&self, req: &Request, event: PlatformEvent) -> (r: CommandStep) {
        match self {
            BuiltinCommand::Ping(c) => c.resume(req, event),
            BuiltinCommand::Purge(c) => c.resume(req, event),
        }
    }
}

/// The registry of the built-in commands: `ping`, then `purge`.
pub fn builtin_registry() -> (r: Registry<BuiltinCommand>)
    ensures
        r@ == seq![BuiltinCommand::Ping(Ping), BuiltinCommand::Purge(Purge)],
{
    let mut commands: Vec<BuiltinCommand> = Vec::new();
    commands.push(BuiltinCommand::Ping(Ping));
    commands.push(BuiltinCommand::Purge(Purge));
    assert(commands@ =~= seq![BuiltinCommand::Ping(Ping), BuiltinCommand::Purge(Purge)]);
    Registry::new(commands)
}

} // verus!
