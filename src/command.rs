//! The contract every command handler meets: its identity, its registration
//! layout, and its execution as a sequence of steps. A handler never performs
//! platform I/O itself: it names the next call, and the transport hands the
//! answer back as an event.
use vstd::prelude::*;

use crate::message::Message;
use crate::request::{OptionKind, Request};

verus! {

/// A valid command name: lower case (no upper-case ASCII letter) and no space.
pub open spec fn is_command_name(name: Seq<char>) -> bool {
    forall|i: int| 0 <= i < name.len() ==> !('A' <= #[trigger] name[i] <= 'Z') && name[i] != ' '
}

/// Declaration of one option of a command.
#[derive(Debug)]
pub struct OptionLayout {
    pub name: String,
    pub description: String,
    pub kind: OptionKind,
    pub min_int_value: Option<i64>,
    pub max_int_value: Option<i64>,
    pub required: bool,
}

/// The mathematical value of an [`OptionLayout`].
pub struct OptionLayoutView {
    pub name: Seq<char>,
    pub description: Seq<char>,
    pub kind: OptionKind,
    pub min_int_value: Option<i64>,
    pub max_int_value: Option<i64>,
    pub required: bool,
}

impl View for OptionLayout {
    type V = OptionLayoutView;

    open spec fn view(&self) -> OptionLayoutView {
        OptionLayoutView {
            name: self.name@,
            description: self.description@,
            kind: self.kind,
            min_int_value: self.min_int_value,
            max_int_value: self.max_int_value,
            required: self.required,
        }
    }
}

/// Declaration of a command, as it is registered with the platform.
#[derive(Debug)]
pub struct CommandLayout {
    pub name: String,
    pub description: String,
    pub options: Vec<OptionLayout>,
}

impl CommandLayout {
    /// The views of the declared options, in order.
    pub open spec fn option_views(&self) -> Seq<OptionLayoutView> {
        self.options@.map_values(|o: OptionLayout| o@)
    }
}

/// The layout that declares a name and a description and no option.
pub fn default_layout(name: String, description: String) -> (r: CommandLayout)
    ensures
        r.name@ == name@,
        r.description@ == description@,
        r.options@.len() == 0,
{
    CommandLayout { name, description, options: Vec::new() }
}

/// What a running command asks the transport to do next.
pub enum CommandStep {
    /// Reply through the invocation's response.
    Reply { message: Message, ephemeral: bool },
    /// List up to `limit` of the most recent messages of the request's channel.
    FetchMessages { limit: u64 },
    /// Delete these messages of the request's channel at once.
    DeleteMessages { ids: Vec<u64> },
    /// The command is over.
    Finish,
}

/// The mathematical value of a [`CommandStep`].
pub enum CommandStepView {
    Reply { content: Seq<char>, ephemeral: bool },
    FetchMessages { limit: u64 },
    DeleteMessages { ids: Seq<u64> },
    Finish,
}

impl View for CommandStep {
    type V = CommandStepView;

    open spec fn view(&self) -> CommandStepView {
        match self {
            CommandStep::Reply { message, ephemeral } => CommandStepView::Reply {
                content: message@,
                ephemeral: *ephemeral,
            },
            CommandStep::FetchMessages { limit } => CommandStepView::FetchMessages {
                limit: *limit,
            },
            CommandStep::DeleteMessages { ids } => CommandStepView::DeleteMessages { ids: ids@ },
            CommandStep::Finish => CommandStepView::Finish,
        }
    }
}

/// How the transport answered the last step.
pub enum PlatformEvent {
    /// The reply was handed to the response.
    Replied,
    /// The listed messages, most recent first, by identifier.
    MessagesFetched { ids: Vec<u64> },
    /// The channel's messages could not be listed.
    FetchFailed,
    MessagesDeleted,
    /// The deletion was refused.
    DeleteFailed,
}

/// The mathematical value of a [`PlatformEvent`].
pub enum PlatformEventView {
    Replied,
    MessagesFetched { ids: Seq<u64> },
    FetchFailed,
    MessagesDeleted,
    DeleteFailed,
}

impl View for PlatformEvent {
    type V = PlatformEventView;

    open spec fn view(&self) -> PlatformEventView {
        match self {
            PlatformEvent::Replied => PlatformEventView::Replied,
            PlatformEvent::MessagesFetched { ids } => PlatformEventView::MessagesFetched {
                ids: ids@,
            },
            PlatformEvent::FetchFailed => PlatformEventView::FetchFailed,
            PlatformEvent::MessagesDeleted => PlatformEventView::MessagesDeleted,
            PlatformEvent::DeleteFailed => PlatformEventView::DeleteFailed,
        }
    }
}

/// A command handler. Each one is built once and never changes, so its name,
/// description and layout are fixed values, and each step it takes depends
/// only on the request and on the transport's last answer.
pub trait Command {
    spec fn spec_name(&self) -> Seq<char>;

    spec fn spec_description(&self) -> Seq<char>;

    spec fn spec_options(&self) -> Seq<OptionLayoutView>;

    /// The first step for `req`.
    spec fn spec_run(&self, req: Request) -> CommandStepView;

    /// The step after `event`, the answer to the previous step.
    spec fn spec_resume(&self, req: Request, event: PlatformEventView) -> CommandStepView;

    /// The name the command is registered and invoked under.
    fn name(&self) -> (r: String)
        ensures
            r@ == self.spec_name(),
            is_command_name(r@),
    ;

    /// What the platform shows about the command.
    fn description(&self) -> (r: String)
        ensures
            r@ == self.spec_description(),
    ;

    /// The command's declaration for registration.
    fn layout(&self) -> (r: CommandLayout)
        ensures
            r.name@ == self.spec_name(),
            r.description@ == self.spec_description(),
            r.option_views() == self.spec_options(),
    ;

    /// Starts the command on `req`.
    fn run(&self, req: &Request) -> (r: CommandStep)
        ensures
            r@ == self.spec_run(*req),
    ;

    /// Continues the command once the transport answered the previous step.
    fn resume(&self, req: &Request, event: PlatformEvent) -> (r: CommandStep)
        ensures
            r@ == self.spec_resume(*req, event@),
    ;
}

} // verus!
