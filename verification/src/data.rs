//! Scalar property values and the few fixed vocabularies the engine speaks:
//! value formats and playlist insertion modes.

use vstd::prelude::*;

verus! {

/// Mathematical model of a [`Data`] value: the same tagged alternatives with
/// text as a sequence of characters.
#[verifier::ext_equal]
pub ghost enum DataV {
    Str(Seq<char>),
    OsdStr(Seq<char>),
    Flag(bool),
    Int64(i64),
    DoubleBits(u64),
}

/// A scalar value a property can hold.
///
/// The variant decides the wire format (see [`Data::format`]). A double is
/// carried as its IEEE-754 bit pattern so that the value stays a plain
/// integer here; the embedding converts from and to the machine float at the
/// native boundary.
#[derive(Clone, Debug, PartialEq)]
pub enum Data {
    String(String),
    OsdString(String),
    Flag(bool),
    Int64(i64),
    DoubleBits(u64),
}

impl View for Data {
    type V = DataV;

    open spec fn view(&self) -> DataV {
        match self {
            Data::String(s) => DataV::Str(s@),
            Data::OsdString(s) => DataV::OsdStr(s@),
            Data::Flag(b) => DataV::Flag(*b),
            Data::Int64(i) => DataV::Int64(*i),
            Data::DoubleBits(b) => DataV::DoubleBits(*b),
        }
    }
}

/// Value formats of the native property interface, including the "no value"
/// format the engine uses for bare notifications.
#[derive(Clone, Copy, Debug, PartialEq, Eq, Structural)]
pub enum MpvFormat {
    NoValue,
    String,
    OsdString,
    Flag,
    Int64,
    Double,
}

/// The native integer code of a format.
pub open spec fn mpv_format_val(f: MpvFormat) -> i32 {
    match f {
        MpvFormat::NoValue => 0,
        MpvFormat::String => 1,
        MpvFormat::OsdString => 2,
        MpvFormat::Flag => 3,
        MpvFormat::Int64 => 4,
        MpvFormat::Double => 5,
    }
}

impl MpvFormat {
    /// The integer the native API uses for this format.
    pub fn as_val(self) -> (v: i32)
        ensures
            v == mpv_format_val(self),
    {
        match self {
            MpvFormat::NoValue => 0,
            MpvFormat::String => 1,
            MpvFormat::OsdString => 2,
            MpvFormat::Flag => 3,
            MpvFormat::Int64 => 4,
            MpvFormat::Double => 5,
        }
    }
}

/// The format tag of a data value, as a spec-level function of its model.
pub open spec fn data_format(d: DataV) -> MpvFormat {
    match d {
        DataV::Str(_) => MpvFormat::String,
        DataV::OsdStr(_) => MpvFormat::OsdString,
        DataV::Flag(_) => MpvFormat::Flag,
        DataV::Int64(_) => MpvFormat::Int64,
        DataV::DoubleBits(_) => MpvFormat::Double,
    }
}

impl Data {
    /// Create a `Data` from anything that converts into one.
    pub fn new<T: Into<Data>>(val: T) -> (d: Data)
        ensures
            <T as vstd::std_specs::convert::IntoSpec<Data>>::obeys_into_spec() ==> d == <T as vstd::std_specs::convert::IntoSpec<Data>>::into_spec(val),
    {
        val.into()
    }

    /// The wire format implied by the populated variant.
    pub fn format(&self) -> (f: MpvFormat)
        ensures
            f == data_format(self@),
    {
        match self {
            Data::String(_) => MpvFormat::String,
            Data::OsdString(_) => MpvFormat::OsdString,
            Data::Flag(_) => MpvFormat::Flag,
            Data::Int64(_) => MpvFormat::Int64,
            Data::DoubleBits(_) => MpvFormat::Double,
        }
    }

    /// An exact copy, spelled out so that its view is known to equal the
    /// source value's.
    pub fn duplicate(&self) -> (r: Data)
        ensures
            r@ == self@,
    {
        match self {
            Data::String(s) => Data::String(s.clone()),
            Data::OsdString(s) => Data::OsdString(s.clone()),
            Data::Flag(b) => Data::Flag(*b),
            Data::Int64(i) => Data::Int64(*i),
            Data::DoubleBits(b) => Data::DoubleBits(*b),
        }
    }
}

impl From<String> for Data {
    fn from(other: String) -> (d: Data)
        ensures
            d@ == DataV::Str(other@),
    {
        Data::String(other)
    }
}

impl vstd::std_specs::convert::FromSpecImpl<String> for Data {
    open spec fn obeys_from_spec() -> bool {
        true
    }

    open spec fn from_spec(other: String) -> Data {
        Data::String(other)
    }
}

impl<'a> From<&'a str> for Data {
    fn from(other: &'a str) -> (d: Data)
        ensures
            d@ == DataV::Str(other@),
    {
        Data::String(other.to_owned())
    }
}

impl<'a> vstd::std_specs::convert::FromSpecImpl<&'a str> for Data {
    // A spec-level `String` cannot be built from a borrowed `&str` here, so
    // this conversion promises nothing through the trait; the impl above
    // still states what it returns.
    open spec fn obeys_from_spec() -> bool {
        false
    }

    open spec fn from_spec(other: &'a str) -> Data {
        Data::Flag(false)
    }
}

impl From<bool> for Data {
    fn from(other: bool) -> (d: Data)
        ensures
            d@ == DataV::Flag(other),
    {
        Data::Flag(other)
    }
}

impl vstd::std_specs::convert::FromSpecImpl<bool> for Data {
    open spec fn obeys_from_spec() -> bool {
        true
    }

    open spec fn from_spec(other: bool) -> Data {
        Data::Flag(other)
    }
}

impl From<i64> for Data {
    fn from(other: i64) -> (d: Data)
        ensures
            d@ == DataV::Int64(other),
    {
        Data::Int64(other)
    }
}

impl vstd::std_specs::convert::FromSpecImpl<i64> for Data {
    open spec fn obeys_from_spec() -> bool {
        true
    }

    open spec fn from_spec(other: i64) -> Data {
        Data::Int64(other)
    }
}

impl From<i32> for Data {
    fn from(other: i32) -> (d: Data)
        ensures
            d@ == DataV::Int64(other as i64),
    {
        Data::Int64(other as i64)
    }
}

impl vstd::std_specs::convert::FromSpecImpl<i32> for Data {
    open spec fn obeys_from_spec() -> bool {
        true
    }

    open spec fn from_spec(other: i32) -> Data {
        Data::Int64(other as i64)
    }
}

impl From<u32> for Data {
    fn from(other: u32) -> (d: Data)
        ensures
            d@ == DataV::Int64(other as i64),
    {
        Data::Int64(other as i64)
    }
}

impl vstd::std_specs::convert::FromSpecImpl<u32> for Data {
    open spec fn obeys_from_spec() -> bool {
        true
    }

    open spec fn from_spec(other: u32) -> Data {
        Data::Int64(other as i64)
    }
}

/// The value formats a caller can ask a property in: the subset of
/// [`MpvFormat`] that carries a value.
#[derive(Clone, Copy, Debug, PartialEq, Eq, Structural)]
pub enum Format {
    String,
    OsdString,
    Flag,
    Int64,
    Double,
}

/// The native format a requested format maps to.
pub open spec fn format_as_mpv(f: Format) -> MpvFormat {
    match f {
        Format::String => MpvFormat::String,
        Format::OsdString => MpvFormat::OsdString,
        Format::Flag => MpvFormat::Flag,
        Format::Int64 => MpvFormat::Int64,
        Format::Double => MpvFormat::Double,
    }
}

impl Format {
    /// The native format this request maps to.
    pub fn as_mpv_format(&self) -> (m: MpvFormat)
        ensures
            m == format_as_mpv(*self),
    {
        match self {
            Format::String => MpvFormat::String,
            Format::OsdString => MpvFormat::OsdString,
            Format::Flag => MpvFormat::Flag,
            Format::Int64 => MpvFormat::Int64,
            Format::Double => MpvFormat::Double,
        }
    }
}

/// Wrap text the engine handed back for a textual property request into the
/// variant the request asked for.
pub fn text_data(format: Format, text: String) -> (d: Data)
    requires
        format == Format::String || format == Format::OsdString,
    ensures
        format == Format::String ==> d@ == DataV::Str(text@),
        format == Format::OsdString ==> d@ == DataV::OsdStr(text@),
{
    match format {
        Format::String => Data::String(text),
        _ => Data::OsdString(text),
    }
}

impl Data {
    /// The value of a raw flag reply: any non-zero word is true.
    pub fn from_raw_flag(v: i64) -> (d: Data)
        ensures
            d@ == DataV::Flag(v != 0),
    {
        Data::Flag(v != 0)
    }

    /// The value of a raw integer reply.
    pub fn from_raw_int(v: i64) -> (d: Data)
        ensures
            d@ == DataV::Int64(v),
    {
        Data::Int64(v)
    }

    /// The value of a raw double reply, carried as its bit pattern.
    pub fn from_raw_double_bits(b: u64) -> (d: Data)
        ensures
            d@ == DataV::DoubleBits(b),
    {
        Data::DoubleBits(b)
    }
}

/// How a file joins the playlist on a batched load.
#[derive(Clone, Copy, Debug, PartialEq, Eq, Structural)]
pub enum FileState {
    /// Replace the current track.
    Replace,
    /// Append to the current playlist.
    Append,
    /// If the current playlist is empty: play, otherwise append.
    AppendPlay,
}

/// The command-channel keyword of a playlist insertion mode.
pub open spec fn file_state_str(s: FileState) -> Seq<char> {
    match s {
        FileState::Replace => "replace"@,
        FileState::Append => "append"@,
        FileState::AppendPlay => "append-play"@,
    }
}

impl FileState {
    /// The keyword the command channel expects for this mode.
    pub fn val(&self) -> (r: &'static str)
        ensures
            r@ == file_state_str(*self),
    {
        match self {
            FileState::Replace => "replace",
            FileState::Append => "append",
            FileState::AppendPlay => "append-play",
        }
    }
}

} // verus!
