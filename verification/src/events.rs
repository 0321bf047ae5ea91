use vstd::prelude::*;

verus! {

/// The identifier of a line in the string table. The text itself is the
/// host's business; the machine only ever hands the identifier out.
#[derive(Debug, Clone, Copy, PartialEq, Eq, Structural, Hash)]
pub struct LineId(pub u32);

/// A line of dialogue, sent from the machine to the host: an identifier
/// only, to be resolved against a string table elsewhere.
#[derive(Debug, Clone, Copy, PartialEq, Eq, Structural)]
pub struct Line {
    /// The ID of the line in the string table.
    pub id: LineId,
}

/// Identifies one option within the batch of options most recently offered.
#[derive(Debug, Clone, Copy, PartialEq, Eq, Structural, Hash)]
pub struct OptionId(pub usize);

/// One selectable branch offered to the user.
#[derive(Debug, Clone, Copy, PartialEq, Eq, Structural)]
pub struct DialogueOption {
    /// The line shown for this option.
    pub line: Line,
    /// The position of this option within its batch; stable only until the
    /// next batch is produced.
    pub id: OptionId,
    /// The index of the instruction to jump to when this option is taken.
    pub destination_node: u32,
    /// Whether the option's attached condition passed (true when it had none).
    pub is_available: bool,
}

/// A command for the host, with any substitutions already spliced in.
#[derive(Debug, Clone, PartialEq)]
pub struct Command(pub String);

/// An event encountered while the machine runs. The host is expected to
/// handle these and act accordingly.
#[derive(Debug, Clone, PartialEq)]
pub enum DialogueEvent {
    /// A line should be presented to the user.
    Line(Line),
    /// A batch of options should be presented; the user must pick one and the
    /// host must report the choice back before continuing.
    Options(Vec<DialogueOption>),
    /// A command should be executed by the host.
    Command(Command),
    /// The node with the given name was completed.
    NodeComplete(String),
    /// The node with the given name was entered.
    NodeStart(String),
    /// The dialogue was completed.
    DialogueComplete,
}

/// The ghost image of a `DialogueEvent`: strings become character sequences.
pub enum EventV {
    /// A line should be presented.
    Line(Line),
    /// A batch of options should be presented.
    Options(Seq<DialogueOption>),
    /// A command should be executed.
    Command(Seq<char>),
    /// A node was completed.
    NodeComplete(Seq<char>),
    /// A node was entered.
    NodeStart(Seq<char>),
    /// The dialogue was completed.
    DialogueComplete,
}

impl View for DialogueEvent {
    type V = EventV;

    open spec fn view(&self) -> EventV {
        match self {
            DialogueEvent::Line(l) => EventV::Line(*l),
            DialogueEvent::Options(v) => EventV::Options(v@),
            DialogueEvent::Command(c) => EventV::Command(c.0@),
            DialogueEvent::NodeComplete(s) => EventV::NodeComplete(s@),
            DialogueEvent::NodeStart(s) => EventV::NodeStart(s@),
            DialogueEvent::DialogueComplete => EventV::DialogueComplete,
        }
    }
}

/// The ghost images of a batch of events, in order.
pub open spec fn events_view(s: Seq<DialogueEvent>) -> Seq<EventV> {
    s.map_values(|e: DialogueEvent| e@)
}

/// Appending an event appends its image.
pub proof fn lemma_events_view_push(s: Seq<DialogueEvent>, e: DialogueEvent)
    ensures
        events_view(s.push(e)) == events_view(s).push(e@),
{
    assert(events_view(s.push(e)) =~= events_view(s).push(e@));
}

} // verus!
