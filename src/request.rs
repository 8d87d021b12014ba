//! The normalised form of one command invocation, whatever transport it came
//! by: the command's name, its options in the order the caller gave them, and
//! where it was issued.
use vstd::prelude::*;

verus! {

/// The declared type of a command option.
#[derive(Clone, Copy, Debug, PartialEq, Eq, Structural)]
pub enum OptionKind {
    SubCommand,
    SubCommandGroup,
    String,
    Integer,
    Boolean,
    User,
    Channel,
    Role,
    Mentionable,
    Number,
    Attachment,
    Unknown,
}

/// The resolved value of an option. Users, channels, roles and attachments
/// are given by identifier; a value this library does not read is `Unsupported`.
#[derive(Debug)]
pub enum OptionValue {
    Integer(i64),
    String(String),
    Boolean(bool),
    User(u64),
    Channel(u64),
    Role(u64),
    Attachment(u64),
    Unsupported,
}

impl Clone for OptionValue {
    fn clone(&self) -> (r: OptionValue)
        ensures
            r == *self,
    {
        match self {
            OptionValue::Integer(i) => OptionValue::Integer(*i),
            OptionValue::String(s) => OptionValue::String(s.clone()),
            OptionValue::Boolean(b) => OptionValue::Boolean(*b),
            OptionValue::User(id) => OptionValue::User(*id),
            OptionValue::Channel(id) => OptionValue::Channel(*id),
            OptionValue::Role(id) => OptionValue::Role(*id),
            OptionValue::Attachment(id) => OptionValue::Attachment(*id),
            OptionValue::Unsupported => OptionValue::Unsupported,
        }
    }
}

/// One option of an invocation.
#[derive(Debug)]
pub struct RequestOption {
    pub name: String,
    pub kind: OptionKind,
    pub resolved: Option<OptionValue>,
}

impl Clone for RequestOption {
    fn clone(&self) -> (r: RequestOption)
        ensures
            r == *self,
    {
        let resolved = match &self.resolved {
            Some(v) => Some(v.clone()),
            None => None,
        };
        RequestOption { name: self.name.clone(), kind: self.kind, resolved }
    }
}

/// Clones a list of options element by element.
fn clone_options(options: &Vec<RequestOption>) -> (r: Vec<RequestOption>)
    ensures
        r@ == options@,
{
    let mut r: Vec<RequestOption> = Vec::new();
    let mut i: usize = 0;
    while i < options.len()
        invariant
            i <= options@.len(),
            r@ == options@.subrange(0, i as int),
        decreases options@.len() - i,
    {
        r.push(options[i].clone());
        i = i + 1;
    }
    assert(r@ =~= options@);
    r
}

/// The invoked command: its name and its options.
#[derive(Debug)]
pub struct Command {
    name: String,
    options: Vec<RequestOption>,
}

impl Clone for Command {
    fn clone(&self) -> (r: Command)
        ensures
            r.spec_name() == self.spec_name(),
            r.spec_options() == self.spec_options(),
    {
        Command { name: self.name.clone(), options: clone_options(&self.options) }
    }
}

impl Command {
    pub closed spec fn spec_name(&self) -> Seq<char> {
        self.name@
    }

    pub closed spec fn spec_options(&self) -> Seq<RequestOption> {
        self.options@
    }

    pub fn name(&self) -> (r: String)
        ensures
            r@ == self.spec_name(),
    {
        self.name.clone()
    }

    pub fn options(&self) -> (r: Vec<RequestOption>)
        ensures
            r@ == self.spec_options(),
    {
        clone_options(&self.options)
    }
}

/// One invocation: the command, the channel it was issued in, and the guild,
/// absent for a direct message.
#[derive(Debug)]
pub struct Request {
    pub command: Command,
    pub guild: Option<u64>,
    pub channel: u64,
}

impl Request {
    /// Builds the request for the command `name` with `options`, issued in
    /// `channel` of `guild`.
    pub fn from_command_data_option_slice(
        channel: u64,
        guild: Option<u64>,
        name: &str,
        options: Vec<RequestOption>,
    ) -> (r: Request)
        ensures
            r.command.spec_name() == name@,
            r.command.spec_options() == options@,
            r.channel == channel,
            r.guild == guild,
    {
        Request { command: Command { name: String::from_str(name), options }, guild, channel }
    }

    pub fn command(&self) -> (r: Command)
        ensures
            r.spec_name() == self.command.spec_name(),
            r.spec_options() == self.command.spec_options(),
    {
        self.command.clone()
    }
}

} // verus!
