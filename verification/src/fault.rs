use vstd::prelude::*;

verus! {

/// The ways in which one call into the worker can fail. Every fault ends the
/// call it arose in; none leaves a partial result behind.
#[derive(Clone, Copy, Debug, PartialEq, Eq, Structural)]
pub enum Fault {
    /// The command envelope lacks its discriminator or a field that its
    /// command requires, or holds a value of the wrong shape there.
    MalformedEvent,
    /// The discriminator names none of the known commands.
    UnknownCommand,
    /// A frame is neither an audio nor a video frame.
    UnrecognizedFrameType,
    /// A field of a reply could not be serialized.
    Serialization,
}

impl Fault {
    /// What the fault says to a reader.
    pub open spec fn text(self) -> Seq<char> {
        match self {
            Fault::MalformedEvent => "malformed event: a required field is missing or of the wrong shape"@,
            Fault::UnknownCommand => "unknown message type from main thread"@,
            Fault::UnrecognizedFrameType => "frame value of unknown type"@,
            Fault::Serialization => "response field could not be serialized"@,
        }
    }

    /// What the fault says to a reader, as a string.
    pub fn message(&self) -> (message: String)
        ensures
            message@ == self.text(),
    {
        match self {
            Fault::MalformedEvent => {
                "malformed event: a required field is missing or of the wrong shape".to_owned()
            },
            Fault::UnknownCommand => "unknown message type from main thread".to_owned(),
            Fault::UnrecognizedFrameType => "frame value of unknown type".to_owned(),
            Fault::Serialization => "response field could not be serialized".to_owned(),
        }
    }
}

} // verus!
