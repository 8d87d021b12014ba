//! The reply side of an invocation and its protocol: the first reply of an
//! interaction acknowledges it; when the platform answers that the interaction
//! was already acknowledged, the same content goes out as a follow-up message.
use vstd::prelude::*;

use crate::message::Message;

verus! {

/// Error code by which the platform reports that an interaction has already
/// been acknowledged.
pub const ALREADY_ACKNOWLEDGED_CODE: i64 = 40060;

/// Where an invocation came from, and so how it is answered. The origin is
/// fixed when the value is built.
#[derive(Clone, Copy, Debug, PartialEq, Eq, Structural)]
pub enum Response {
    /// A slash-command interaction, by its identifier.
    InteractionCommand { command: u64 },
    /// An ordinary message, by its identifier. Replies to it are not sent.
    Message { message: u64 },
}

/// How the platform answered an acknowledgement.
#[derive(Clone, Copy, Debug, PartialEq, Eq, Structural)]
pub enum AcknowledgeOutcome {
    Delivered,
    /// The interaction had already been acknowledged.
    AlreadyAcknowledged,
    /// Any other failure.
    Failed,
}

/// What the transport has to do next for a reply.
pub enum ReplyAction {
    /// Acknowledge the interaction with a message.
    Acknowledge { content: String, ephemeral: bool },
    /// Send a follow-up message to the interaction.
    FollowUp { content: String },
    /// Log that the acknowledgement of this interaction failed.
    ReportAcknowledgeFailure { interaction: u64 },
    /// Log that the follow-up message to this interaction failed.
    ReportFollowUpFailure { interaction: u64 },
    /// Nothing more to do.
    Done,
}

/// The mathematical value of a [`ReplyAction`].
pub enum ReplyStep {
    Acknowledge { content: Seq<char>, ephemeral: bool },
    FollowUp { content: Seq<char> },
    ReportAcknowledgeFailure { interaction: u64 },
    ReportFollowUpFailure { interaction: u64 },
    Done,
}

impl View for ReplyAction {
    type V = ReplyStep;

    open spec fn view(&self) -> ReplyStep {
        match self {
            ReplyAction::Acknowledge { content, ephemeral } => ReplyStep::Acknowledge {
                content: content@,
                ephemeral: *ephemeral,
            },
            ReplyAction::FollowUp { content } => ReplyStep::FollowUp { content: content@ },
            ReplyAction::ReportAcknowledgeFailure { interaction } => {
                ReplyStep::ReportAcknowledgeFailure { interaction: *interaction }
            },
            ReplyAction::ReportFollowUpFailure { interaction } => {
                ReplyStep::ReportFollowUpFailure { interaction: *interaction }
            },
            ReplyAction::Done => ReplyStep::Done,
        }
    }
}

/// Whether a step is a message sent to the platform.
pub open spec fn is_platform_call(s: ReplyStep) -> bool {
    s is Acknowledge || s is FollowUp
}

/// The outcome that an acknowledgement failure with this error code stands for;
/// `None` is a failure that carries no platform code.
pub open spec fn outcome_of_code(code: Option<i64>) -> AcknowledgeOutcome {
    if code == Some(ALREADY_ACKNOWLEDGED_CODE) {
        AcknowledgeOutcome::AlreadyAcknowledged
    } else {
        AcknowledgeOutcome::Failed
    }
}

/// The first step of a reply with `content`.
pub open spec fn first_step(r: Response, content: Seq<char>, ephemeral: bool) -> ReplyStep {
    match r {
        Response::InteractionCommand { .. } => ReplyStep::Acknowledge { content, ephemeral },
        Response::Message { .. } => ReplyStep::Done,
    }
}

/// The step after the platform answered the acknowledgement.
pub open spec fn step_after_acknowledge(
    r: Response,
    content: Seq<char>,
    outcome: AcknowledgeOutcome,
) -> ReplyStep {
    match r {
        Response::InteractionCommand { command } => match outcome {
            AcknowledgeOutcome::Delivered => ReplyStep::Done,
            AcknowledgeOutcome::AlreadyAcknowledged => ReplyStep::FollowUp { content },
            AcknowledgeOutcome::Failed => ReplyStep::ReportAcknowledgeFailure {
                interaction: command,
            },
        },
        Response::Message { .. } => ReplyStep::Done,
    }
}

/// The step after the platform answered the follow-up message.
pub open spec fn step_after_follow_up(r: Response, delivered: bool) -> ReplyStep {
    match r {
        Response::InteractionCommand { command } => if delivered {
            ReplyStep::Done
        } else {
            ReplyStep::ReportFollowUpFailure { interaction: command }
        },
        Response::Message { .. } => ReplyStep::Done,
    }
}

/// The messages sent to the platform for one reply, given how the
/// acknowledgement was answered.
pub open spec fn platform_calls(
    r: Response,
    content: Seq<char>,
    ephemeral: bool,
    outcome: AcknowledgeOutcome,
) -> Seq<ReplyStep> {
    let first = first_step(r, content, ephemeral);
    if !is_platform_call(first) {
        Seq::empty()
    } else {
        let second = step_after_acknowledge(r, content, outcome);
        if is_platform_call(second) {
            seq![first, second]
        } else {
            seq![first]
        }
    }
}

impl AcknowledgeOutcome {
    /// Classifies a failed acknowledgement by the platform's error code.
    pub fn from_error_code(code: Option<i64>) -> (r: AcknowledgeOutcome)
        ensures
            r == outcome_of_code(code),
    {
        match code {
            Some(c) => if c == ALREADY_ACKNOWLEDGED_CODE {
                AcknowledgeOutcome::AlreadyAcknowledged
            } else {
                AcknowledgeOutcome::Failed
            },
            None => AcknowledgeOutcome::Failed,
        }
    }
}

impl Response {
    pub fn from_interaction_command(interaction_command: u64) -> (r: Response)
        ensures
            r == (Response::InteractionCommand { command: interaction_command }),
    {
        Response::InteractionCommand { command: interaction_command }
    }

    pub fn from_message(message: u64) -> (r: Response)
        ensures
            r == (Response::Message { message }),
    {
        Response::Message { message }
    }

    /// First step of a reply that everyone in the channel sees.
    pub fn send_message(&self, message: Message) -> (r: ReplyAction)
        ensures
            r@ == first_step(*self, message@, false),
    {
        self.send_ephemeral_message(message, false)
    }

    /// First step of a reply; an ephemeral one is seen only by the invoking user.
    pub fn send_ephemeral_message(&self, message: Message, ephemeral: bool) -> (r: ReplyAction)
        ensures
            r@ == first_step(*self, message@, ephemeral),
    {
        match self {
            Response::InteractionCommand { .. } => ReplyAction::Acknowledge {
                content: message.get_content(),
                ephemeral,
            },
            Response::Message { .. } => ReplyAction::Done,
        }
    }

    /// Next step once the platform answered the acknowledgement of `message`.
    pub fn after_acknowledge(&self, message: &Message, outcome: AcknowledgeOutcome) -> (r:
        ReplyAction)
        ensures
            r@ == step_after_acknowledge(*self, message@, outcome),
    {
        match self {
            Response::InteractionCommand { command } => match outcome {
                AcknowledgeOutcome::Delivered => ReplyAction::Done,
                AcknowledgeOutcome::AlreadyAcknowledged => ReplyAction::FollowUp {
                    content: message.get_content(),
                },
                AcknowledgeOutcome::Failed => ReplyAction::ReportAcknowledgeFailure {
                    interaction: *command,
                },
            },
            Response::Message { .. } => ReplyAction::Done,
        }
    }

    /// Next step once the platform answered the follow-up message.
    pub fn after_follow_up(&self, delivered: bool) -> (r: ReplyAction)
        ensures
            r@ == step_after_follow_up(*self, delivered),
    {
        match self {
            Response::InteractionCommand { command } => if delivered {
                ReplyAction::Done
            } else {
                ReplyAction::ReportFollowUpFailure { interaction: *command }
            },
            Response::Message { .. } => ReplyAction::Done,
        }
    }

    /// Whether the command was issued as an interaction.
    pub fn is_interaction_command(&self) -> (r: bool)
        ensures
            r == (*self is InteractionCommand),
    {
        match self {
            Response::InteractionCommand { .. } => true,
            Response::Message { .. } => false,
        }
    }

    /// Whether the command was issued from an ordinary message.
    pub fn is_message_command(&self) -> (r: bool)
        ensures
            r == (*self is Message),
    {
        !self.is_interaction_command()
    }

    /// The interaction identifier, for an interaction origin.
    pub fn to_application_command_interaction(self) -> (r: Option<u64>)
        ensures
            r == (match self {
                Response::InteractionCommand { command } => Some(command),
                Response::Message { .. } => None,
            }),
    {
        match self {
            Response::InteractionCommand { command } => Some(command),
            Response::Message { .. } => None,
        }
    }

    /// The message identifier, for a message origin.
    pub fn to_message(self) -> (r: Option<u64>)
        ensures
            r == (match self {
                Response::Message { message } => Some(message),
                Response::InteractionCommand { .. } => None,
            }),
    {
        match self {
            Response::Message { message } => Some(message),
            Response::InteractionCommand { .. } => None,
        }
    }
}

/// For an interaction, a reply makes one or two platform calls: the
/// acknowledgement first, and a follow-up exactly when the platform reports the
/// interaction as already acknowledged. So at most one of them is delivered,
/// and after the follow-up's answer nothing more is sent. A reply to a message
/// makes no call.
pub proof fn lemma_reply_sends_at_most_once(
    r: Response,
    content: Seq<char>,
    ephemeral: bool,
    outcome: AcknowledgeOutcome,
    follow_up_delivered: bool,
)
    ensures
        r is InteractionCommand ==> {
            let calls = platform_calls(r, content, ephemeral, outcome);
            &&& 1 <= calls.len() <= 2
            &&& calls[0] == (ReplyStep::Acknowledge { content, ephemeral })
            &&& (calls.len() == 2) == (outcome == AcknowledgeOutcome::AlreadyAcknowledged)
            &&& calls.len() == 2 ==> calls[1] == (ReplyStep::FollowUp { content })
            &&& step_after_acknowledge(r, content, outcome) is FollowUp <==> outcome
                == AcknowledgeOutcome::AlreadyAcknowledged
            &&& !is_platform_call(step_after_follow_up(r, follow_up_delivered))
        },
        r is Message ==> platform_calls(r, content, ephemeral, outcome).len() == 0,
{
}

} // verus!
