//! The closed set of engine event kinds, named properties, and the mapping of
//! each kind to its native event-id integer.

use vstd::prelude::*;

use crate::data::{Data, DataV};

verus! {

/// Verbosity levels of engine log messages, from silence to full tracing.
#[derive(Clone, Copy, Debug, PartialEq, Eq, Structural)]
pub enum LogLevel {
    NoLog,
    Fatal,
    Error,
    Warn,
    Info,
    V,
    Debug,
    Trace,
}

/// The keyword the native log-message request expects for a level.
pub open spec fn log_level_str(l: LogLevel) -> Seq<char> {
    match l {
        LogLevel::NoLog => "no"@,
        LogLevel::Fatal => "fatal"@,
        LogLevel::Error => "error"@,
        LogLevel::Warn => "warn"@,
        LogLevel::Info => "info"@,
        LogLevel::V => "v"@,
        LogLevel::Debug => "debug"@,
        LogLevel::Trace => "trace"@,
    }
}

impl LogLevel {
    /// The keyword the native log-message request expects for this level.
    pub fn as_str(&self) -> (r: &'static str)
        ensures
            r@ == log_level_str(*self),
    {
        match self {
            LogLevel::NoLog => "no",
            LogLevel::Fatal => "fatal",
            LogLevel::Error => "error",
            LogLevel::Warn => "warn",
            LogLevel::Info => "info",
            LogLevel::V => "v",
            LogLevel::Debug => "debug",
            LogLevel::Trace => "trace",
        }
    }
}

/// Why a file stopped playing.
#[derive(Clone, Copy, Debug, PartialEq, Eq, Structural)]
pub enum EndFileReason {
    Eof,
    Stop,
    Quit,
    Error,
    Redirect,
}

/// Mathematical model of a [`Property`].
#[verifier::ext_equal]
pub ghost struct PropertyV {
    pub name: Seq<char>,
    pub data: DataV,
}

/// A named property: observation identity is the name alone, the value rides
/// along as payload.
#[derive(Clone, Debug, PartialEq)]
pub struct Property {
    pub name: String,
    pub data: Data,
}

impl View for Property {
    type V = PropertyV;

    open spec fn view(&self) -> PropertyV {
        PropertyV { name: self.name@, data: self.data@ }
    }
}

impl Property {
    /// Create a `Property` with the given name and value.
    pub fn new(name: &str, data: Data) -> (p: Property)
        ensures
            p@ == (PropertyV { name: name@, data: data@ }),
    {
        Property { name: name.to_owned(), data }
    }

    /// An exact copy, spelled out so that its view is known to equal the
    /// source value's.
    pub fn duplicate(&self) -> (r: Property)
        ensures
            r@ == self@,
    {
        Property { name: self.name.clone(), data: self.data.duplicate() }
    }
}

/// Mathematical model of an [`Event`].
#[verifier::ext_equal]
pub ghost enum EventV {
    LogMessage(LogLevel),
    StartFile,
    EndFile(Option<EndFileReason>),
    FileLoaded,
    Idle,
    ClientMessage,
    VideoReconfig,
    AudioReconfig,
    Seek,
    PlaybackRestart,
    PropertyChange(PropertyV),
}

/// One kind of engine-level occurrence.
///
/// A value doubles as a subscription request: `LogMessage` carries the minimum
/// level to deliver, `PropertyChange` the property whose changes are wanted.
#[derive(Clone, Debug, PartialEq)]
pub enum Event {
    LogMessage(LogLevel),
    StartFile,
    EndFile(Option<EndFileReason>),
    FileLoaded,
    Idle,
    ClientMessage,
    VideoReconfig,
    AudioReconfig,
    Seek,
    PlaybackRestart,
    PropertyChange(Property),
}

impl View for Event {
    type V = EventV;

    open spec fn view(&self) -> EventV {
        match self {
            Event::LogMessage(l) => EventV::LogMessage(*l),
            Event::StartFile => EventV::StartFile,
            Event::EndFile(r) => EventV::EndFile(*r),
            Event::FileLoaded => EventV::FileLoaded,
            Event::Idle => EventV::Idle,
            Event::ClientMessage => EventV::ClientMessage,
            Event::VideoReconfig => EventV::VideoReconfig,
            Event::AudioReconfig => EventV::AudioReconfig,
            Event::Seek => EventV::Seek,
            Event::PlaybackRestart => EventV::PlaybackRestart,
            Event::PropertyChange(p) => EventV::PropertyChange(p@),
        }
    }
}

/// The native event-id integer of an event kind; determined by the variant
/// alone, never by the payload.
pub open spec fn event_id(e: EventV) -> u32 {
    match e {
        EventV::LogMessage(_) => 2,
        EventV::StartFile => 6,
        EventV::EndFile(_) => 7,
        EventV::FileLoaded => 8,
        EventV::Idle => 11,
        EventV::ClientMessage => 16,
        EventV::VideoReconfig => 17,
        EventV::AudioReconfig => 18,
        EventV::Seek => 20,
        EventV::PlaybackRestart => 21,
        EventV::PropertyChange(_) => 22,
    }
}

/// Whether an event kind is a property-change subscription, whose observation
/// identity is the property name rather than the event id.
pub open spec fn is_property_change(e: EventV) -> bool {
    e is PropertyChange
}

/// The property name a property-change event is about.
pub open spec fn event_prop_name(e: EventV) -> Seq<char>
    recommends
        is_property_change(e),
{
    e->PropertyChange_0.name
}

impl Event {
    /// The native event-id integer of this kind.
    pub fn as_id(&self) -> (id: u32)
        ensures
            id == event_id(self@),
    {
        match self {
            Event::LogMessage(_) => 2,
            Event::StartFile => 6,
            Event::EndFile(_) => 7,
            Event::FileLoaded => 8,
            Event::Idle => 11,
            Event::ClientMessage => 16,
            Event::VideoReconfig => 17,
            Event::AudioReconfig => 18,
            Event::Seek => 20,
            Event::PlaybackRestart => 21,
            Event::PropertyChange(_) => 22,
        }
    }

    /// An exact copy, spelled out so that its view is known to equal the
    /// source value's.
    pub fn duplicate(&self) -> (r: Event)
        ensures
            r@ == self@,
    {
        match self {
            Event::LogMessage(l) => Event::LogMessage(*l),
            Event::StartFile => Event::StartFile,
            Event::EndFile(r) => Event::EndFile(*r),
            Event::FileLoaded => Event::FileLoaded,
            Event::Idle => Event::Idle,
            Event::ClientMessage => Event::ClientMessage,
            Event::VideoReconfig => Event::VideoReconfig,
            Event::AudioReconfig => Event::AudioReconfig,
            Event::Seek => Event::Seek,
            Event::PlaybackRestart => Event::PlaybackRestart,
            Event::PropertyChange(p) => Event::PropertyChange(p.duplicate()),
        }
    }
}

/// The event ids an instance constructed without events asks the engine to
/// stop delivering, in the order the requests are made.
pub open spec fn disabled_event_ids() -> Seq<u32> {
    seq![2u32, 3u32, 4u32, 5u32, 6u32, 7u32, 8u32, 11u32, 16u32, 17u32, 18u32, 20u32, 21u32, 22u32, 24u32]
}

/// The event ids to ask the engine to stop delivering when an instance is
/// created without events.
pub fn events_to_disable() -> (ids: Vec<u32>)
    ensures
        ids@ == disabled_event_ids(),
{
    let ids: Vec<u32> = vec![2, 3, 4, 5, 6, 7, 8, 11, 16, 17, 18, 20, 21, 22, 24];
    proof {
        assert(ids@ =~= disabled_event_ids());
    }
    ids
}

} // verus!
