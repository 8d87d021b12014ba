//! Bulk deletion of the most recent messages of a channel. The command takes
//! one required integer option, `number`, between 0 and 100; every outcome is
//! told to the invoking user alone.
use vstd::prelude::*;

use crate::command::{
    default_layout, Command, CommandLayout, CommandStep, CommandStepView, OptionLayout,
    OptionLayoutView, PlatformEvent, PlatformEventView,
};
use crate::decimal::{decimal, decimal_of};
use crate::message::Message;
use crate::request::{OptionKind, OptionValue, Request};

verus! {

/// The largest number of messages one invocation deletes.
pub const PURGE_MAX: i64 = 100;

#[derive(Clone, Copy, Debug)]
pub struct Purge;

/// The number of messages asked for: the first option, when it is an integer
/// between 0 and the maximum. `None` for any other request.
pub open spec fn requested_number(req: Request) -> Option<u64> {
    let opts = req.command.spec_options();
    if opts.len() > 0 {
        match opts[0].resolved {
            Some(OptionValue::Integer(i)) => if 0 <= i <= PURGE_MAX {
                Some(i as u64)
            } else {
                None
            },
            _ => None,
        }
    } else {
        None
    }
}

/// The reply once `n` messages were deleted.
pub open spec fn deleted_reply(n: u64) -> Seq<char> {
    decimal_of(n as nat) + " messages deleted successfully!"@
}

/// The reply when the channel's messages cannot be listed.
pub open spec fn cannot_view_reply() -> Seq<char> {
    "Cannot view current channel!"@
}

/// The reply when the channel holds nothing to delete.
pub open spec fn nothing_to_delete_reply() -> Seq<char> {
    "Nothing left to delete."@
}

/// The reply when the deletion was refused.
pub open spec fn permission_reply() -> Seq<char> {
    "I don't have enough permissions to bulk delete messages, please, enable `Manage Messages` permission and execute the command again."@
}

impl Purge {
    /// Reads the number of messages asked for.
    pub fn requested_number(req: &Request) -> (r: Option<u64>)
        ensures
            r == requested_number(*req),
    {
        let options = req.command.options();
        if options.len() > 0 {
            match &options[0].resolved {
                Some(OptionValue::Integer(i)) => if 0 <= *i && *i <= PURGE_MAX {
                    Some(*i as u64)
                } else {
                    None
                },
                _ => None,
            }
        } else {
            None
        }
    }
}

impl Command for Purge {
    open spec fn spec_name(&self) -> Seq<char> {
        "purge"@
    }

    open spec fn spec_description(&self) -> Seq<char> {
        "Bulk delete up to 100 messages"@
    }

    open spec fn spec_options(&self) -> Seq<OptionLayoutView> {
        seq![
            OptionLayoutView {
                name: "number"@,
                description: "Number of messages to delete"@,
                kind: OptionKind::Integer,
                min_int_value: Some(0),
                max_int_value: Some(PURGE_MAX),
                required: true,
            },
        ]
    }

    /// Lists as many recent messages as were asked for; a request without a
    /// valid number ends at once.
    open spec fn spec_run(&self, req: Request) -> CommandStepView {
        match requested_number(req) {
            Some(n) => CommandStepView::FetchMessages { limit: n },
            None => CommandStepView::Finish,
        }
    }

    /// Deletes what was listed, then tells the user how it went, in one
    /// ephemeral reply.
    open spec fn spec_resume(&self, req: Request, event: PlatformEventView) -> CommandStepView {
        match event {
            PlatformEventView::Replied => CommandStepView::Finish,
            PlatformEventView::FetchFailed => CommandStepView::Reply {
                content: cannot_view_reply(),
                ephemeral: true,
            },
            PlatformEventView::MessagesFetched { ids } => if ids.len() == 0 {
                CommandStepView::Reply { content: nothing_to_delete_reply(), ephemeral: true }
            } else {
                CommandStepView::DeleteMessages { ids }
            },
            PlatformEventView::MessagesDeleted => match requested_number(req) {
                Some(n) => CommandStepView::Reply { content: deleted_reply(n), ephemeral: true },
                None => CommandStepView::Finish,
            },
            PlatformEventView::DeleteFailed => CommandStepView::Reply {
                content: permission_reply(),
                ephemeral: true,
            },
        }
    }

    fn name(&self) -> (r: String) {
        proof {
            reveal_strlit("purge");
        }
        String::from_str("purge")
    }

    fn description(&self) -> (r: String) {
        String::from_str("Bulk delete up to 100 messages")
    }

    fn layout(&self) -> (r: CommandLayout) {
        let mut r = default_layout(self.name(), self.description());
        let number = OptionLayout {
            name: String::from_str("number"),
            description: String::from_str("Number of messages to delete"),
            kind: OptionKind::Integer,
            min_int_value: Some(0),
            max_int_value: Some(PURGE_MAX),
            required: true,
        };
        r.options.push(number);
        assert(r.option_views() =~= self.spec_options());
        r
    }

    fn run(&self, req: &Request) -> (r: CommandStep) {
        match Purge::requested_number(req) {
            Some(n) => CommandStep::FetchMessages { limit: n },
            None => CommandStep::Finish,
        }
    }

    fn resume(&self, req: &Request, event: PlatformEvent) -> (r: CommandStep) {
        match event {
            PlatformEvent::Replied => CommandStep::Finish,
            PlatformEvent::FetchFailed => CommandStep::Reply {
                message: Message::new("Cannot view current channel!"),
                ephemeral: true,
            },
            PlatformEvent::MessagesFetched { ids } => if ids.len() == 0 {
                CommandStep::Reply { message: Message::new("Nothing left to delete."), ephemeral: true }
            } else {
                CommandStep::DeleteMessages { ids }
            },
            PlatformEvent::MessagesDeleted => match Purge::requested_number(req) {
                Some(n) => {
                    let text = decimal(n).concat(" messages deleted successfully!");
                    CommandStep::Reply { message: Message::from_string(text), ephemeral: true }
                },
                None => CommandStep::Finish,
            },
            PlatformEvent::DeleteFailed => CommandStep::Reply {
                message: Message::new(
                    "I don't have enough permissions to bulk delete messages, please, enable `Manage Messages` permission and execute the command again.",
                ),
                ephemeral: true,
            },
        }
    }
}

/// How a purge ends. Asked for 0 messages, it lists 0, and an empty listing
/// gets the "nothing to delete" reply with no deletion. A non-empty listing is
/// deleted as listed, and a successful deletion gets a reply that starts with
/// the number asked for, in decimal. A refused deletion gets the permission
/// notice, whatever the number.
pub proof fn lemma_purge_outcomes(p: Purge, req: Request, fetched: Seq<u64>)
    ensures
        requested_number(req) == Some(0u64) ==> p.spec_run(req) == (CommandStepView::FetchMessages {
            limit: 0,
        }),
        p.spec_resume(req, PlatformEventView::MessagesFetched { ids: Seq::empty() }) == (
        CommandStepView::Reply { content: nothing_to_delete_reply(), ephemeral: true }),
        fetched.len() > 0 ==> p.spec_resume(req, PlatformEventView::MessagesFetched { ids: fetched })
            == (CommandStepView::DeleteMessages { ids: fetched }),
        requested_number(req) is Some ==> {
            let n = requested_number(req)->Some_0;
            &&& p.spec_resume(req, PlatformEventView::MessagesDeleted) == (CommandStepView::Reply {
                content: deleted_reply(n),
                ephemeral: true,
            })
            &&& deleted_reply(n).subrange(0, decimal_of(n as nat).len() as int) == decimal_of(
                n as nat,
            )
        },
        p.spec_resume(req, PlatformEventView::DeleteFailed) == (CommandStepView::Reply {
            content: permission_reply(),
            ephemeral: true,
        }),
{
    if requested_number(req) is Some {
        let n = requested_number(req)->Some_0;
        let d = decimal_of(n as nat);
        assert(deleted_reply(n).subrange(0, d.len() as int) =~= d);
    }
}

} // verus!
