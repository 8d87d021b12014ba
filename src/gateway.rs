//! The gateway intents the bot subscribes to.
use vstd::prelude::*;

use crate::config::Intents;

verus! {

/// A set of gateway intents, restricted to those this bot can ask for.
#[derive(Clone, Copy, Debug, PartialEq, Eq, Structural)]
pub struct GatewayIntentSet {
    pub guild_messages: bool,
    pub direct_messages: bool,
    pub message_content: bool,
    pub guild_presences: bool,
    pub guild_members: bool,
}

impl GatewayIntentSet {
    pub fn empty() -> (r: GatewayIntentSet)
        ensures
            !r.guild_messages && !r.direct_messages && !r.message_content && !r.guild_presences
                && !r.guild_members,
    {
        GatewayIntentSet {
            guild_messages: false,
            direct_messages: false,
            message_content: false,
            guild_presences: false,
            guild_members: false,
        }
    }
}

/// The intents to connect with: guild and direct messages always, plus the
/// privileged ones the configuration switches on.
pub fn requested_intents(config: &Intents) -> (r: GatewayIntentSet)
    ensures
        r == (GatewayIntentSet {
            guild_messages: true,
            direct_messages: true,
            message_content: config.message_content,
            guild_presences: config.presence,
            guild_members: config.server_members,
        }),
{
    let mut intents = GatewayIntentSet::empty();
    intents.guild_messages = true;
    intents.direct_messages = true;
    if config.message_content {
        intents.message_content = true;
    }
    if config.presence {
        intents.guild_presences = true;
    }
    if config.server_members {
        intents.guild_members = true;
    }
    intents
}

/// The privileged intents among `intents`: message content, presences and
/// members.
pub fn get_privileged_intents(intents: GatewayIntentSet) -> (r: GatewayIntentSet)
    ensures
        r == (GatewayIntentSet {
            guild_messages: false,
            direct_messages: false,
            message_content: intents.message_content,
            guild_presences: intents.guild_presences,
            guild_members: intents.guild_members,
        }),
{
    let mut privileged = GatewayIntentSet::empty();
    if intents.message_content {
        privileged.message_content = true;
    }
    if intents.guild_presences {
        privileged.guild_presences = true;
    }
    if intents.guild_members {
        privileged.guild_members = true;
    }
    privileged
}

} // verus!
