use crate::fault::Fault;
use vstd::prelude::*;

verus! {

/// What the host's command envelope holds under one of its field names. `R` is
/// the host's handle to a readable frame stream, `W` its handle to a writable
/// one; the worker passes both on and never looks into them.
#[derive(Clone, Debug, PartialEq, Eq)]
pub enum FieldValue<R, W> {
    /// The envelope has no such field.
    Absent,
    /// A string.
    Text(String),
    /// A binary buffer.
    Binary(Vec<u8>),
    /// A readable frame stream.
    Readable(R),
    /// A writable frame stream.
    Writable(W),
    /// A value of any other shape.
    Other,
}

/// A command as the host sent it: the fields that the worker reads, each as it
/// was found. `kind` is the field `type`, `key_pkg` the field `keyPkg`, `input`
/// the field `in`, `output` the field `out`.
#[derive(Clone, Debug, PartialEq, Eq)]
pub struct CommandEnvelope<R, W> {
    pub kind: FieldValue<R, W>,
    pub id: FieldValue<R, W>,
    pub key_pkg: FieldValue<R, W>,
    pub input: FieldValue<R, W>,
    pub output: FieldValue<R, W>,
}

/// The five commands, without their fields.
#[derive(Clone, Copy, Debug, PartialEq, Eq, Structural)]
pub enum CommandKind {
    Initialize,
    InitializeAndCreateGroup,
    UserJoined,
    EncryptStream,
    DecryptStream,
}

/// A decoded command.
#[derive(Clone, Debug, PartialEq, Eq)]
pub enum Command<R, W> {
    /// Create a fresh local identity bound to `id`.
    InitializeIdentity { id: String },
    /// Create the identity, then start a group with it as the sole member.
    InitializeIdentityAndGroup { id: String },
    /// Admit the member whose key package these bytes are.
    AdmitMember { key_package_bytes: Vec<u8> },
    /// Encrypt the frames of `input` into `output`.
    EncryptStream { input: R, output: W },
    /// Decrypt the frames of `input` into `output`.
    DecryptStream { input: R, output: W },
}

impl CommandKind {
    /// The name by which the host calls a command of this kind.
    pub open spec fn wire_name(self) -> Seq<char> {
        match self {
            CommandKind::Initialize => "initialize"@,
            CommandKind::InitializeAndCreateGroup => "initializeAndCreateGroup"@,
            CommandKind::UserJoined => "userJoined"@,
            CommandKind::EncryptStream => "encryptStream"@,
            CommandKind::DecryptStream => "decryptStream"@,
        }
    }

    /// The kind that the host calls `name`, if there is one.
    pub open spec fn named(name: Seq<char>) -> Option<CommandKind> {
        if name == "initialize"@ {
            Some(CommandKind::Initialize)
        } else if name == "initializeAndCreateGroup"@ {
            Some(CommandKind::InitializeAndCreateGroup)
        } else if name == "userJoined"@ {
            Some(CommandKind::UserJoined)
        } else if name == "encryptStream"@ {
            Some(CommandKind::EncryptStream)
        } else if name == "decryptStream"@ {
            Some(CommandKind::DecryptStream)
        } else {
            None
        }
    }

    /// The name by which the host calls a command of this kind.
    pub fn name(self) -> (name: String)
        ensures
            name@ == self.wire_name(),
    {
        match self {
            CommandKind::Initialize => "initialize".to_owned(),
            CommandKind::InitializeAndCreateGroup => "initializeAndCreateGroup".to_owned(),
            CommandKind::UserJoined => "userJoined".to_owned(),
            CommandKind::EncryptStream => "encryptStream".to_owned(),
            CommandKind::DecryptStream => "decryptStream".to_owned(),
        }
    }

    /// The kind that the host calls `name`; `None` where it is no command's name.
    pub fn parse(name: &String) -> (kind: Option<CommandKind>)
        ensures
            kind == CommandKind::named(name@),
    {
        if *name == CommandKind::Initialize.name() {
            Some(CommandKind::Initialize)
        } else if *name == CommandKind::InitializeAndCreateGroup.name() {
            Some(CommandKind::InitializeAndCreateGroup)
        } else if *name == CommandKind::UserJoined.name() {
            Some(CommandKind::UserJoined)
        } else if *name == CommandKind::EncryptStream.name() {
            Some(CommandKind::EncryptStream)
        } else if *name == CommandKind::DecryptStream.name() {
            Some(CommandKind::DecryptStream)
        } else {
            None
        }
    }
}

impl<R, W> Command<R, W> {
    /// The kind of this command.
    pub open spec fn kind_of(self) -> CommandKind {
        match self {
            Command::InitializeIdentity { .. } => CommandKind::Initialize,
            Command::InitializeIdentityAndGroup { .. } => CommandKind::InitializeAndCreateGroup,
            Command::AdmitMember { .. } => CommandKind::UserJoined,
            Command::EncryptStream { .. } => CommandKind::EncryptStream,
            Command::DecryptStream { .. } => CommandKind::DecryptStream,
        }
    }

    /// The kind of this command, as the dispatcher logs it.
    pub fn kind(&self) -> (kind: CommandKind)
        ensures
            kind == self.kind_of(),
    {
        match self {
            Command::InitializeIdentity { .. } => CommandKind::Initialize,
            Command::InitializeIdentityAndGroup { .. } => CommandKind::InitializeAndCreateGroup,
            Command::AdmitMember { .. } => CommandKind::UserJoined,
            Command::EncryptStream { .. } => CommandKind::EncryptStream,
            Command::DecryptStream { .. } => CommandKind::DecryptStream,
        }
    }
}

/// The command that an envelope stands for, or the fault that it is rejected
/// with.
///
/// The field `type` must be a string, and each field that the named command
/// requires must be there in its shape: `id` a string, `keyPkg` a binary
/// buffer, `in` a readable and `out` a writable stream. Where one of these
/// fails the envelope is malformed. A `type` that is a string but no command's
/// name is an unknown command, whatever else the envelope holds. Fields that
/// the command does not require are not looked at.
pub open spec fn decoded<R, W>(envelope: CommandEnvelope<R, W>) -> Result<Command<R, W>, Fault> {
    match envelope.kind {
        FieldValue::Text(name) => match CommandKind::named(name@) {
            None => Err(Fault::UnknownCommand),
            Some(CommandKind::Initialize) => match envelope.id {
                FieldValue::Text(id) => Ok(Command::InitializeIdentity { id }),
                _ => Err(Fault::MalformedEvent),
            },
            Some(CommandKind::InitializeAndCreateGroup) => match envelope.id {
                FieldValue::Text(id) => Ok(Command::InitializeIdentityAndGroup { id }),
                _ => Err(Fault::MalformedEvent),
            },
            Some(CommandKind::UserJoined) => match envelope.key_pkg {
                FieldValue::Binary(key_package_bytes) => Ok(
                    Command::AdmitMember { key_package_bytes },
                ),
                _ => Err(Fault::MalformedEvent),
            },
            Some(CommandKind::EncryptStream) => match (envelope.input, envelope.output) {
                (FieldValue::Readable(input), FieldValue::Writable(output)) => Ok(
                    Command::EncryptStream { input, output },
                ),
                _ => Err(Fault::MalformedEvent),
            },
            Some(CommandKind::DecryptStream) => match (envelope.input, envelope.output) {
                (FieldValue::Readable(input), FieldValue::Writable(output)) => Ok(
                    Command::DecryptStream { input, output },
                ),
                _ => Err(Fault::MalformedEvent),
            },
        },
        _ => Err(Fault::MalformedEvent),
    }
}

/// Decodes a command envelope: `decoded` says what comes back.
pub fn decode_command<R, W>(envelope: CommandEnvelope<R, W>) -> (command: Result<
    Command<R, W>,
    Fault,
>)
    ensures
        command == decoded(envelope),
{
    let CommandEnvelope { kind, id, key_pkg, input, output } = envelope;
    let name = match kind {
        FieldValue::Text(name) => name,
        _ => {
            return Err(Fault::MalformedEvent);
        },
    };
    match CommandKind::parse(&name) {
        None => Err(Fault::UnknownCommand),
        Some(CommandKind::Initialize) => match id {
            FieldValue::Text(id) => Ok(Command::InitializeIdentity { id }),
            _ => Err(Fault::MalformedEvent),
        },
        Some(CommandKind::InitializeAndCreateGroup) => match id {
            FieldValue::Text(id) => Ok(Command::InitializeIdentityAndGroup { id }),
            _ => Err(Fault::MalformedEvent),
        },
        Some(CommandKind::UserJoined) => match key_pkg {
            FieldValue::Binary(key_package_bytes) => Ok(Command::AdmitMember { key_package_bytes }),
            _ => Err(Fault::MalformedEvent),
        },
        Some(CommandKind::EncryptStream) => match (input, output) {
            (FieldValue::Readable(input), FieldValue::Writable(output)) => Ok(
                Command::EncryptStream { input, output },
            ),
            _ => Err(Fault::MalformedEvent),
        },
        Some(CommandKind::DecryptStream) => match (input, output) {
            (FieldValue::Readable(input), FieldValue::Writable(output)) => Ok(
                Command::DecryptStream { input, output },
            ),
            _ => Err(Fault::MalformedEvent),
        },
    }
}

/// The two directions of the frame transform.
#[derive(Clone, Copy, Debug, PartialEq, Eq, Structural)]
pub enum Transform {
    Encrypt,
    Decrypt,
}

/// A one-shot call into the group engine.
#[derive(Clone, Debug, PartialEq, Eq)]
pub enum EngineCall {
    /// Create a fresh local identity bound to `id`.
    NewState { id: String },
    /// Create the identity, then start a group with it as the sole member.
    NewStateAndStartGroup { id: String },
    /// Decode the key package and admit its owner to the group.
    AddUser { key_package_bytes: Vec<u8> },
}

/// Where the dispatcher sends a command.
#[derive(Clone, Debug, PartialEq, Eq)]
pub enum Dispatch<R, W> {
    /// To the group engine, for one call whose result is marshaled at once.
    Lifecycle(EngineCall),
    /// To the frame pipeline, bound to `input` and `output` with the engine's
    /// operation `transform`; there is no reply before `input` has ended.
    Stream { transform: Transform, input: R, output: W },
}

/// Where a command is sent: the three lifecycle commands to the group engine,
/// each as the call of its name; the two stream commands to the pipeline, with
/// the transform of their name and their two streams.
pub open spec fn routed<R, W>(command: Command<R, W>) -> Dispatch<R, W> {
    match command {
        Command::InitializeIdentity { id } => Dispatch::Lifecycle(EngineCall::NewState { id }),
        Command::InitializeIdentityAndGroup { id } => Dispatch::Lifecycle(
            EngineCall::NewStateAndStartGroup { id },
        ),
        Command::AdmitMember { key_package_bytes } => Dispatch::Lifecycle(
            EngineCall::AddUser { key_package_bytes },
        ),
        Command::EncryptStream { input, output } => Dispatch::Stream {
            transform: Transform::Encrypt,
            input,
            output,
        },
        Command::DecryptStream { input, output } => Dispatch::Stream {
            transform: Transform::Decrypt,
            input,
            output,
        },
    }
}

impl<R, W> Command<R, W> {
    /// Routes the command: `routed` says where to.
    pub fn route(self) -> (dispatch: Dispatch<R, W>)
        ensures
            dispatch == routed(self),
    {
        match self {
            Command::InitializeIdentity { id } => Dispatch::Lifecycle(EngineCall::NewState { id }),
            Command::InitializeIdentityAndGroup { id } => Dispatch::Lifecycle(
                EngineCall::NewStateAndStartGroup { id },
            ),
            Command::AdmitMember { key_package_bytes } => Dispatch::Lifecycle(
                EngineCall::AddUser { key_package_bytes },
            ),
            Command::EncryptStream { input, output } => Dispatch::Stream {
                transform: Transform::Encrypt,
                input,
                output,
            },
            Command::DecryptStream { input, output } => Dispatch::Stream {
                transform: Transform::Decrypt,
                input,
                output,
            },
        }
    }
}

impl<R, W> Dispatch<R, W> {
    /// The kind of the command that was sent here.
    pub open spec fn kind_of(self) -> CommandKind {
        match self {
            Dispatch::Lifecycle(EngineCall::NewState { .. }) => CommandKind::Initialize,
            Dispatch::Lifecycle(EngineCall::NewStateAndStartGroup { .. }) => {
                CommandKind::InitializeAndCreateGroup
            },
            Dispatch::Lifecycle(EngineCall::AddUser { .. }) => CommandKind::UserJoined,
            Dispatch::Stream { transform: Transform::Encrypt, .. } => CommandKind::EncryptStream,
            Dispatch::Stream { transform: Transform::Decrypt, .. } => CommandKind::DecryptStream,
        }
    }

    /// The kind of the command that was sent here, as the dispatcher logs it.
    pub fn kind(&self) -> (kind: CommandKind)
        ensures
            kind == self.kind_of(),
    {
        match self {
            Dispatch::Lifecycle(EngineCall::NewState { .. }) => CommandKind::Initialize,
            Dispatch::Lifecycle(EngineCall::NewStateAndStartGroup { .. }) => {
                CommandKind::InitializeAndCreateGroup
            },
            Dispatch::Lifecycle(EngineCall::AddUser { .. }) => CommandKind::UserJoined,
            Dispatch::Stream { transform: Transform::Encrypt, .. } => CommandKind::EncryptStream,
            Dispatch::Stream { transform: Transform::Decrypt, .. } => CommandKind::DecryptStream,
        }
    }
}

/// What the dispatcher answers to an envelope: where the command that it
/// stands for is sent, or the fault that it is rejected with.
pub open spec fn dispatched<R, W>(event: CommandEnvelope<R, W>) -> Result<Dispatch<R, W>, Fault> {
    match decoded(event) {
        Ok(command) => Ok(routed(command)),
        Err(fault) => Err(fault),
    }
}

/// The dispatcher's entry point: decodes the command envelope and routes the
/// command. A rejected envelope is not handled in any part: the fault is all
/// that comes back.
#[allow(non_snake_case)]
pub fn processEvent<R, W>(event: CommandEnvelope<R, W>) -> (dispatch: Result<Dispatch<R, W>, Fault>)
    ensures
        dispatch == dispatched(event),
{
    match decode_command(event) {
        Ok(command) => Ok(command.route()),
        Err(fault) => Err(fault),
    }
}

/// Whether the envelope holds, in their shape, the fields that a command of
/// this kind requires.
pub open spec fn has_fields_for<R, W>(envelope: CommandEnvelope<R, W>, kind: CommandKind) -> bool {
    match kind {
        CommandKind::Initialize | CommandKind::InitializeAndCreateGroup => envelope.id is Text,
        CommandKind::UserJoined => envelope.key_pkg is Binary,
        CommandKind::EncryptStream | CommandKind::DecryptStream => envelope.input is Readable
            && envelope.output is Writable,
    }
}

/// The five names are five different strings: each names its own kind.
pub proof fn lemma_wire_name_names_its_kind(kind: CommandKind)
    ensures
        CommandKind::named(kind.wire_name()) == Some(kind),
{
    reveal_strlit("initialize");
    reveal_strlit("initializeAndCreateGroup");
    reveal_strlit("userJoined");
    reveal_strlit("encryptStream");
    reveal_strlit("decryptStream");
    assert("initialize"@.len() == 10 && "initializeAndCreateGroup"@.len() == 24);
    assert("userJoined"@.len() == 10);
    assert("encryptStream"@.len() == 13 && "decryptStream"@.len() == 13);
    assert("initialize"@[0] == 'i' && "userJoined"@[0] == 'u');
    assert("encryptStream"@[0] == 'e' && "decryptStream"@[0] == 'd');
}

/// A name that names a kind is that kind's name.
pub proof fn lemma_named_is_wire_name(name: Seq<char>)
    ensures
        CommandKind::named(name) matches Some(kind) ==> name == kind.wire_name(),
{
}

/// An envelope whose `type` is the name of one of the five commands, and which
/// holds the fields of that command in their shape, is decoded to a command of
/// that kind: it is rejected neither as malformed nor as unknown.
pub proof fn lemma_complete_envelope_is_decoded<R, W>(
    envelope: CommandEnvelope<R, W>,
    kind: CommandKind,
)
    requires
        envelope.kind matches FieldValue::Text(name) && name@ == kind.wire_name(),
        has_fields_for(envelope, kind),
    ensures
        decoded(envelope) is Ok,
        decoded(envelope)->Ok_0.kind_of() == kind,
        dispatched(envelope) is Ok,
        dispatched(envelope)->Ok_0.kind_of() == kind,
{
    lemma_wire_name_names_its_kind(kind);
}

/// Routing keeps the kind: a command is sent where commands of its kind go.
pub proof fn lemma_route_keeps_kind<R, W>(command: Command<R, W>)
    ensures
        routed(command).kind_of() == command.kind_of(),
{
}

/// An envelope is decoded if and only if its `type` names a command and the
/// fields of that command are there in their shape.
pub proof fn lemma_decoded_iff_complete<R, W>(envelope: CommandEnvelope<R, W>)
    ensures
        decoded(envelope) is Ok <==> (envelope.kind matches FieldValue::Text(name)
            && CommandKind::named(name@) matches Some(kind) && has_fields_for(envelope, kind)),
{
}

/// An envelope whose `type` is a string that names none of the five commands
/// is rejected as an unknown command, whatever its other fields hold.
pub proof fn lemma_unrecognized_name_is_unknown_command<R, W>(envelope: CommandEnvelope<R, W>)
    requires
        envelope.kind matches FieldValue::Text(name) && CommandKind::named(name@) is None,
    ensures
        decoded(envelope) == Err::<Command<R, W>, Fault>(Fault::UnknownCommand),
        dispatched(envelope) == Err::<Dispatch<R, W>, Fault>(Fault::UnknownCommand),
{
}

/// An envelope without a `type`, or with one that is no string, is rejected as
/// malformed.
pub proof fn lemma_missing_kind_is_malformed<R, W>(envelope: CommandEnvelope<R, W>)
    requires
        !(envelope.kind is Text),
    ensures
        decoded(envelope) == Err::<Command<R, W>, Fault>(Fault::MalformedEvent),
        dispatched(envelope) == Err::<Dispatch<R, W>, Fault>(Fault::MalformedEvent),
{
}

} // verus!
