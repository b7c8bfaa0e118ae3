//! Trace messages as delivered by the trace reader.
//!
//! A message carries the kind that the reader reported for it; the typed
//! wrappers below are the result of classifying a message by that kind.
use vstd::prelude::*;

verus! {

/// The kind of a trace message.
#[derive(Debug, Clone, Copy, PartialEq, Eq, Structural)]
pub enum BtMessageType {
    StreamBeginning,
    StreamEnd,
    Event,
    PacketBeginning,
    PacketEnd,
    DiscardedEvents,
    DiscardedPackets,
    MessageIteratorInactivity,
}

/// The raw code that the trace reader uses for each message kind
/// (one bit per kind).
pub open spec fn raw_code_of(t: BtMessageType) -> u32 {
    match t {
        BtMessageType::StreamBeginning => 1,
        BtMessageType::StreamEnd => 2,
        BtMessageType::Event => 4,
        BtMessageType::PacketBeginning => 8,
        BtMessageType::PacketEnd => 16,
        BtMessageType::DiscardedEvents => 32,
        BtMessageType::DiscardedPackets => 64,
        BtMessageType::MessageIteratorInactivity => 128,
    }
}

/// The message kinds in the order in which they are declared (and in which
/// babeltrace2 numbers them).
pub open spec fn declared_kinds() -> Seq<BtMessageType> {
    seq![
        BtMessageType::StreamBeginning,
        BtMessageType::StreamEnd,
        BtMessageType::Event,
        BtMessageType::PacketBeginning,
        BtMessageType::PacketEnd,
        BtMessageType::DiscardedEvents,
        BtMessageType::DiscardedPackets,
        BtMessageType::MessageIteratorInactivity,
    ]
}

/// The raw codes are successive bits in the order of declaration: the
/// first kind has code one and each next kind twice the code of the one
/// before; so no two kinds share a code, and a code names one kind.
pub proof fn law_raw_codes_are_successive_bits()
    ensures
        declared_kinds().len() == 8,
        forall|t: BtMessageType| declared_kinds().contains(t),
        raw_code_of(declared_kinds()[0]) == 1,
        forall|i: int|
            0 <= i < 7 ==> raw_code_of(#[trigger] declared_kinds()[i + 1]) == 2 * raw_code_of(
                declared_kinds()[i],
            ),
        forall|a: BtMessageType, b: BtMessageType| raw_code_of(a) == raw_code_of(b) ==> a == b,
{
    let k = declared_kinds();
    assert forall|t: BtMessageType| declared_kinds().contains(t) by {
        match t {
            BtMessageType::StreamBeginning => assert(k[0] == t),
            BtMessageType::StreamEnd => assert(k[1] == t),
            BtMessageType::Event => assert(k[2] == t),
            BtMessageType::PacketBeginning => assert(k[3] == t),
            BtMessageType::PacketEnd => assert(k[4] == t),
            BtMessageType::DiscardedEvents => assert(k[5] == t),
            BtMessageType::DiscardedPackets => assert(k[6] == t),
            BtMessageType::MessageIteratorInactivity => assert(k[7] == t),
        }
    }
    assert forall|i: int| 0 <= i < 7 implies raw_code_of(#[trigger] declared_kinds()[i + 1]) == 2
        * raw_code_of(declared_kinds()[i]) by {
        if i == 0 {
        } else if i == 1 {
        } else if i == 2 {
        } else if i == 3 {
        } else if i == 4 {
        } else if i == 5 {
        } else {
        }
    }
}

/// Whether `code` is the raw code of some message kind.
pub open spec fn is_known_raw_code(code: u32) -> bool {
    exists|t: BtMessageType| raw_code_of(t) == code
}

impl BtMessageType {
    /// Classifies a raw message-kind code.
    pub fn from(code: u32) -> (t: BtMessageType)
        requires
            is_known_raw_code(code),
        ensures
            raw_code_of(t) == code,
    {
        if code == 1 {
            BtMessageType::StreamBeginning
        } else if code == 2 {
            BtMessageType::StreamEnd
        } else if code == 4 {
            BtMessageType::Event
        } else if code == 8 {
            BtMessageType::PacketBeginning
        } else if code == 16 {
            BtMessageType::PacketEnd
        } else if code == 32 {
            BtMessageType::DiscardedEvents
        } else if code == 64 {
            BtMessageType::DiscardedPackets
        } else {
            BtMessageType::MessageIteratorInactivity
        }
    }
}

/// A message of the trace, identified by the kind the reader reported for it.
pub struct BtMessageConst {
    msg_type: BtMessageType,
}

/// A message classified by its kind.
pub enum BtMessageConstCast {
    StreamBeginning(BtStreamBeginningMessageConst),
    StreamEnd(BtStreamEndMessageConst),
    Event(BtEventMessageConst),
    PacketBeginning(BtPacketBeginningMessageConst),
    PacketEnd(BtPacketEndMessageConst),
    DiscardedEvents(BtDiscardedEventsMessageConst),
    DiscardedPackets(BtDiscardedPacketsMessageConst),
    MessageIteratorInactivity(BtMessageIteratorInactivityMessageConst),
}

pub struct BtStreamBeginningMessageConst(pub BtMessageConst);

pub struct BtStreamEndMessageConst(pub BtMessageConst);

pub struct BtEventMessageConst(pub BtMessageConst);

pub struct BtPacketBeginningMessageConst(pub BtMessageConst);

pub struct BtPacketEndMessageConst(pub BtMessageConst);

pub struct BtDiscardedEventsMessageConst(pub BtMessageConst);

pub struct BtDiscardedPacketsMessageConst(pub BtMessageConst);

pub struct BtMessageIteratorInactivityMessageConst(pub BtMessageConst);

impl BtMessageConst {
    /// The kind of this message.
    pub closed spec fn spec_type(&self) -> BtMessageType {
        self.msg_type
    }

    /// A message of the given kind.
    pub fn new(msg_type: BtMessageType) -> (m: BtMessageConst)
        ensures
            m.spec_type() == msg_type,
    {
        BtMessageConst { msg_type }
    }

    /// The kind of this message.
    pub fn get_type(&self) -> (t: BtMessageType)
        ensures
            t == self.spec_type(),
    {
        self.msg_type
    }

    /// Classifies this message by its kind; the message itself is kept.
    pub fn cast(self) -> (c: BtMessageConstCast)
        ensures
            c.kind() == self.spec_type(),
            c.message() == self,
    {
        match self.get_type() {
            BtMessageType::StreamBeginning => BtMessageConstCast::StreamBeginning(
                BtStreamBeginningMessageConst(self),
            ),
            BtMessageType::StreamEnd => BtMessageConstCast::StreamEnd(BtStreamEndMessageConst(self)),
            BtMessageType::Event => BtMessageConstCast::Event(BtEventMessageConst(self)),
            BtMessageType::PacketBeginning => BtMessageConstCast::PacketBeginning(
                BtPacketBeginningMessageConst(self),
            ),
            BtMessageType::PacketEnd => BtMessageConstCast::PacketEnd(BtPacketEndMessageConst(self)),
            BtMessageType::DiscardedEvents => BtMessageConstCast::DiscardedEvents(
                BtDiscardedEventsMessageConst(self),
            ),
            BtMessageType::DiscardedPackets => BtMessageConstCast::DiscardedPackets(
                BtDiscardedPacketsMessageConst(self),
            ),
            BtMessageType::MessageIteratorInactivity => BtMessageConstCast::MessageIteratorInactivity(
                BtMessageIteratorInactivityMessageConst(self),
            ),
        }
    }

    /// This message as an event message. Only event messages are accepted.
    pub fn into_event_msg(self) -> (e: BtEventMessageConst)
        requires
            self.spec_type() == BtMessageType::Event,
        ensures
            e.0 == self,
    {
        match self.cast() {
            BtMessageConstCast::Event(event) => event,
            _ => vstd::pervasive::unreached(),
        }
    }
}

impl BtMessageConstCast {
    /// The kind that the classification names.
    pub open spec fn kind(&self) -> BtMessageType {
        match self {
            BtMessageConstCast::StreamBeginning(_) => BtMessageType::StreamBeginning,
            BtMessageConstCast::StreamEnd(_) => BtMessageType::StreamEnd,
            BtMessageConstCast::Event(_) => BtMessageType::Event,
            BtMessageConstCast::PacketBeginning(_) => BtMessageType::PacketBeginning,
            BtMessageConstCast::PacketEnd(_) => BtMessageType::PacketEnd,
            BtMessageConstCast::DiscardedEvents(_) => BtMessageType::DiscardedEvents,
            BtMessageConstCast::DiscardedPackets(_) => BtMessageType::DiscardedPackets,
            BtMessageConstCast::MessageIteratorInactivity(_) => BtMessageType::MessageIteratorInactivity,
        }
    }

    /// The message that was classified.
    pub open spec fn message(&self) -> BtMessageConst {
        match self {
            BtMessageConstCast::StreamBeginning(m) => m.0,
            BtMessageConstCast::StreamEnd(m) => m.0,
            BtMessageConstCast::Event(m) => m.0,
            BtMessageConstCast::PacketBeginning(m) => m.0,
            BtMessageConstCast::PacketEnd(m) => m.0,
            BtMessageConstCast::DiscardedEvents(m) => m.0,
            BtMessageConstCast::DiscardedPackets(m) => m.0,
            BtMessageConstCast::MessageIteratorInactivity(m) => m.0,
        }
    }
}

} // verus!
