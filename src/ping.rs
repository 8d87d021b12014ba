//! The smallest command: it answers "Pong!" to the invoking user alone.
use vstd::prelude::*;

use crate::command::{
    default_layout, Command, CommandLayout, CommandStep, CommandStepView,
    OptionLayoutView, PlatformEvent, PlatformEventView,
};
use crate::message::Message;
use crate::request::Request;

verus! {

#[derive(Clone, Copy, Debug)]
pub struct Ping;

impl Command for Ping {
    open spec fn spec_name(&self) -> Seq<char> {
        "ping"@
    }

    open spec fn spec_description(&self) -> Seq<char> {
        "Ping? Pong!"@
    }

    open spec fn spec_options(&self) -> Seq<OptionLayoutView> {
        Seq::empty()
    }

    /// One ephemeral reply, "Pong!", whatever the request.
    open spec fn spec_run(&self, req: Request) -> CommandStepView {
        CommandStepView::Reply { content: "Pong!"@, ephemeral: true }
    }

    /// Nothing follows the reply.
    open spec fn spec_resume(&self, req: Request, event: PlatformEventView) -> CommandStepView {
        CommandStepView::Finish
    }

    fn name(&self) -> (r: String) {
        proof {
            reveal_strlit("ping");
        }
        String::from_str("ping")
    }

    fn description(&self) -> (r: String) {
        String::from_str("Ping? Pong!")
    }

    fn layout(&self) -> (r: CommandLayout) {
        let r = default_layout(self.name(), self.description());
        assert(r.option_views() =~= Seq::<OptionLayoutView>::empty());
        r
    }

    fn run(&self, req: &Request) -> (r: CommandStep) {
        CommandStep::Reply { message: Message::new("Pong!"), ephemeral: true }
    }

    fn resume(&self, req: &Request, event: PlatformEvent) -> (r: CommandStep) {
        CommandStep::Finish
    }
}

/// A ping sends exactly one reply, ephemeral and reading "Pong!", whatever
/// the request, and nothing after it.
pub proof fn lemma_ping_single_reply(p: Ping, req: Request, event: PlatformEventView)
    ensures
        p.spec_run(req) == (CommandStepView::Reply { content: "Pong!"@, ephemeral: true }),
        p.spec_resume(req, event) == CommandStepView::Finish,
{
}

} // verus!
