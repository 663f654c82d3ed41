use vstd::prelude::*;

verus! {

/// Error codes reported by libsoundio.
#[derive(Clone, Copy, Debug, PartialEq, Eq, Structural)]
pub enum SioError {
    NoError,
    NoMem,
    InitAudioBackend,
    SystemResources,
    OpeningDevice,
    NoSuchDevice,
    Invalid,
    BackendUnavailable,
    Streaming,
    IncompatibleDevice,
    NoSuchClient,
    IncompatibleBackend,
    BackendDisconnected,
    Interrupted,
    Underflow,
    EncodingString,
}

impl SioError {
    /// The integer libsoundio uses for this error.
    pub open spec fn spec_code(self) -> i32 {
        match self {
            SioError::NoError => 0,
            SioError::NoMem => 1,
            SioError::InitAudioBackend => 2,
            SioError::SystemResources => 3,
            SioError::OpeningDevice => 4,
            SioError::NoSuchDevice => 5,
            SioError::Invalid => 6,
            SioError::BackendUnavailable => 7,
            SioError::Streaming => 8,
            SioError::IncompatibleDevice => 9,
            SioError::NoSuchClient => 10,
            SioError::IncompatibleBackend => 11,
            SioError::BackendDisconnected => 12,
            SioError::Interrupted => 13,
            SioError::Underflow => 14,
            SioError::EncodingString => 15,
        }
    }

    /// The error that libsoundio means by `code`, if any.
    pub open spec fn spec_from_code(code: i32) -> Option<SioError> {
        if code == 0 {
            Some(SioError::NoError)
        } else if code == 1 {
            Some(SioError::NoMem)
        } else if code == 2 {
            Some(SioError::InitAudioBackend)
        } else if code == 3 {
            Some(SioError::SystemResources)
        } else if code == 4 {
            Some(SioError::OpeningDevice)
        } else if code == 5 {
            Some(SioError::NoSuchDevice)
        } else if code == 6 {
            Some(SioError::Invalid)
        } else if code == 7 {
            Some(SioError::BackendUnavailable)
        } else if code == 8 {
            Some(SioError::Streaming)
        } else if code == 9 {
            Some(SioError::IncompatibleDevice)
        } else if code == 10 {
            Some(SioError::NoSuchClient)
        } else if code == 11 {
            Some(SioError::IncompatibleBackend)
        } else if code == 12 {
            Some(SioError::BackendDisconnected)
        } else if code == 13 {
            Some(SioError::Interrupted)
        } else if code == 14 {
            Some(SioError::Underflow)
        } else if code == 15 {
            Some(SioError::EncodingString)
        } else {
            None
        }
    }

    /// Returns the integer libsoundio uses for this error.
    pub fn code(&self) -> (c: i32)
        ensures
            c == self.spec_code(),
    {
        match self {
            SioError::NoError => 0,
            SioError::NoMem => 1,
            SioError::InitAudioBackend => 2,
            SioError::SystemResources => 3,
            SioError::OpeningDevice => 4,
            SioError::NoSuchDevice => 5,
            SioError::Invalid => 6,
            SioError::BackendUnavailable => 7,
            SioError::Streaming => 8,
            SioError::IncompatibleDevice => 9,
            SioError::NoSuchClient => 10,
            SioError::IncompatibleBackend => 11,
            SioError::BackendDisconnected => 12,
            SioError::Interrupted => 13,
            SioError::Underflow => 14,
            SioError::EncodingString => 15,
        }
    }

    /// Decodes a error code passed by libsoundio; `None` for a code
    /// that names no error.
    pub fn from_code(code: i32) -> (r: Option<SioError>)
        ensures
            r == SioError::spec_from_code(code),
            r is Some <==> 0 <= code < 16,
    {
        match code {
            0 => Some(SioError::NoError),
            1 => Some(SioError::NoMem),
            2 => Some(SioError::InitAudioBackend),
            3 => Some(SioError::SystemResources),
            4 => Some(SioError::OpeningDevice),
            5 => Some(SioError::NoSuchDevice),
            6 => Some(SioError::Invalid),
            7 => Some(SioError::BackendUnavailable),
            8 => Some(SioError::Streaming),
            9 => Some(SioError::IncompatibleDevice),
            10 => Some(SioError::NoSuchClient),
            11 => Some(SioError::IncompatibleBackend),
            12 => Some(SioError::BackendDisconnected),
            13 => Some(SioError::Interrupted),
            14 => Some(SioError::Underflow),
            15 => Some(SioError::EncodingString),
            _ => None,
        }
    }
}

/// Decoding the code of a error gives back that error.
pub proof fn lemma_error_code_roundtrip(x: SioError)
    ensures
        SioError::spec_from_code(x.spec_code()) == Some(x),
{
}

/// A code that decodes to a error is the code of that error.
pub proof fn lemma_error_code_unique(code: i32, x: SioError)
    requires
        SioError::spec_from_code(code) == Some(x),
    ensures
        x.spec_code() == code,
{
}

/// The audio backends libsoundio can connect to.
#[derive(Clone, Copy, Debug, PartialEq, Eq, Structural)]
pub enum SioBackend {
    NoBackend,
    Jack,
    PulseAudio,
    Alsa,
    CoreAudio,
    Wasapi,
    Dummy,
}

impl SioBackend {
    /// The integer libsoundio uses for this backend.
    pub open spec fn spec_code(self) -> i32 {
        match self {
            SioBackend::NoBackend => 0,
            SioBackend::Jack => 1,
            SioBackend::PulseAudio => 2,
            SioBackend::Alsa => 3,
            SioBackend::CoreAudio => 4,
            SioBackend::Wasapi => 5,
            SioBackend::Dummy => 6,
        }
    }

    /// The backend that libsoundio means by `code`, if any.
    pub open spec fn spec_from_code(code: i32) -> Option<SioBackend> {
        if code == 0 {
            Some(SioBackend::NoBackend)
        } else if code == 1 {
            Some(SioBackend::Jack)
        } else if code == 2 {
            Some(SioBackend::PulseAudio)
        } else if code == 3 {
            Some(SioBackend::Alsa)
        } else if code == 4 {
            Some(SioBackend::CoreAudio)
        } else if code == 5 {
            Some(SioBackend::Wasapi)
        } else if code == 6 {
            Some(SioBackend::Dummy)
        } else {
            None
        }
    }

    /// Returns the integer libsoundio uses for this backend.
    pub fn code(&self) -> (c: i32)
        ensures
            c == self.spec_code(),
    {
        match self {
            SioBackend::NoBackend => 0,
            SioBackend::Jack => 1,
            SioBackend::PulseAudio => 2,
            SioBackend::Alsa => 3,
            SioBackend::CoreAudio => 4,
            SioBackend::Wasapi => 5,
            SioBackend::Dummy => 6,
        }
    }

    /// Decodes a backend code passed by libsoundio; `None` for a code
    /// that names no backend.
    pub fn from_code(code: i32) -> (r: Option<SioBackend>)
        ensures
            r == SioBackend::spec_from_code(code),
            r is Some <==> 0 <= code < 7,
    {
        match code {
            0 => Some(SioBackend::NoBackend),
            1 => Some(SioBackend::Jack),
            2 => Some(SioBackend::PulseAudio),
            3 => Some(SioBackend::Alsa),
            4 => Some(SioBackend::CoreAudio),
            5 => Some(SioBackend::Wasapi),
            6 => Some(SioBackend::Dummy),
            _ => None,
        }
    }
}

/// Decoding the code of a backend gives back that backend.
pub proof fn lemma_backend_code_roundtrip(x: SioBackend)
    ensures
        SioBackend::spec_from_code(x.spec_code()) == Some(x),
{
}

/// A code that decodes to a backend is the code of that backend.
pub proof fn lemma_backend_code_unique(code: i32, x: SioBackend)
    requires
        SioBackend::spec_from_code(code) == Some(x),
    ensures
        x.spec_code() == code,
{
}

/// Sample formats; `LE` and `BE` stand for little and big endian.
#[derive(Clone, Copy, Debug, PartialEq, Eq, Structural)]
pub enum SioFormat {
    Invalid,
    S8,
    U8,
    S16LE,
    S16BE,
    U16LE,
    U16BE,
    S24LE,
    S24BE,
    U24LE,
    U24BE,
    S32LE,
    S32BE,
    U32LE,
    U32BE,
    Float32LE,
    Float32BE,
    Float64LE,
    Float64BE,
}

impl SioFormat {
    /// The integer libsoundio uses for this format.
    pub open spec fn spec_code(self) -> i32 {
        match self {
            SioFormat::Invalid => 0,
            SioFormat::S8 => 1,
            SioFormat::U8 => 2,
            SioFormat::S16LE => 3,
            SioFormat::S16BE => 4,
            SioFormat::U16LE => 5,
            SioFormat::U16BE => 6,
            SioFormat::S24LE => 7,
            SioFormat::S24BE => 8,
            SioFormat::U24LE => 9,
            SioFormat::U24BE => 10,
            SioFormat::S32LE => 11,
            SioFormat::S32BE => 12,
            SioFormat::U32LE => 13,
            SioFormat::U32BE => 14,
            SioFormat::Float32LE => 15,
            SioFormat::Float32BE => 16,
            SioFormat::Float64LE => 17,
            SioFormat::Float64BE => 18,
        }
    }

    /// The format that libsoundio means by `code`, if any.
    pub open spec fn spec_from_code(code: i32) -> Option<SioFormat> {
        if code == 0 {
            Some(SioFormat::Invalid)
        } else if code == 1 {
            Some(SioFormat::S8)
        } else if code == 2 {
            Some(SioFormat::U8)
        } else if code == 3 {
            Some(SioFormat::S16LE)
        } else if code == 4 {
            Some(SioFormat::S16BE)
        } else if code == 5 {
            Some(SioFormat::U16LE)
        } else if code == 6 {
            Some(SioFormat::U16BE)
        } else if code == 7 {
            Some(SioFormat::S24LE)
        } else if code == 8 {
            Some(SioFormat::S24BE)
        } else if code == 9 {
            Some(SioFormat::U24LE)
        } else if code == 10 {
            Some(SioFormat::U24BE)
        } else if code == 11 {
            Some(SioFormat::S32LE)
        } else if code == 12 {
            Some(SioFormat::S32BE)
        } else if code == 13 {
            Some(SioFormat::U32LE)
        } else if code == 14 {
            Some(SioFormat::U32BE)
        } else if code == 15 {
            Some(SioFormat::Float32LE)
        } else if code == 16 {
            Some(SioFormat::Float32BE)
        } else if code == 17 {
            Some(SioFormat::Float64LE)
        } else if code == 18 {
            Some(SioFormat::Float64BE)
        } else {
            None
        }
    }

    /// Returns the integer libsoundio uses for this format.
    pub fn code(&self) -> (c: i32)
        ensures
            c == self.spec_code(),
    {
        match self {
            SioFormat::Invalid => 0,
            SioFormat::S8 => 1,
            SioFormat::U8 => 2,
            SioFormat::S16LE => 3,
            SioFormat::S16BE => 4,
            SioFormat::U16LE => 5,
            SioFormat::U16BE => 6,
            SioFormat::S24LE => 7,
            SioFormat::S24BE => 8,
            SioFormat::U24LE => 9,
            SioFormat::U24BE => 10,
            SioFormat::S32LE => 11,
            SioFormat::S32BE => 12,
            SioFormat::U32LE => 13,
            SioFormat::U32BE => 14,
            SioFormat::Float32LE => 15,
            SioFormat::Float32BE => 16,
            SioFormat::Float64LE => 17,
            SioFormat::Float64BE => 18,
        }
    }

    /// Decodes a format code passed by libsoundio; `None` for a code
    /// that names no format.
    pub fn from_code(code: i32) -> (r: Option<SioFormat>)
        ensures
            r == SioFormat::spec_from_code(code),
            r is Some <==> 0 <= code < 19,
    {
        match code {
            0 => Some(SioFormat::Invalid),
            1 => Some(SioFormat::S8),
            2 => Some(SioFormat::U8),
            3 => Some(SioFormat::S16LE),
            4 => Some(SioFormat::S16BE),
            5 => Some(SioFormat::U16LE),
            6 => Some(SioFormat::U16BE),
            7 => Some(SioFormat::S24LE),
            8 => Some(SioFormat::S24BE),
            9 => Some(SioFormat::U24LE),
            10 => Some(SioFormat::U24BE),
            11 => Some(SioFormat::S32LE),
            12 => Some(SioFormat::S32BE),
            13 => Some(SioFormat::U32LE),
            14 => Some(SioFormat::U32BE),
            15 => Some(SioFormat::Float32LE),
            16 => Some(SioFormat::Float32BE),
            17 => Some(SioFormat::Float64LE),
            18 => Some(SioFormat::Float64BE),
            _ => None,
        }
    }
}

/// Decoding the code of a format gives back that format.
pub proof fn lemma_format_code_roundtrip(x: SioFormat)
    ensures
        SioFormat::spec_from_code(x.spec_code()) == Some(x),
{
}

/// A code that decodes to a format is the code of that format.
pub proof fn lemma_format_code_unique(code: i32, x: SioFormat)
    requires
        SioFormat::spec_from_code(code) == Some(x),
    ensures
        x.spec_code() == code,
{
}

/// Identifiers of the channels of a channel layout.
#[derive(Clone, Copy, Debug, PartialEq, Eq, Structural)]
pub enum SioChannelId {
    Invalid,
    FrontLeft,
    FrontRight,
    FrontCenter,
    Lfe,
    BackLeft,
    BackRight,
    FrontLeftCenter,
    FrontRightCenter,
    BackCenter,
    SideLeft,
    SideRight,
    TopCenter,
    TopFrontLeft,
    TopFrontCenter,
    TopFrontRight,
    TopBackLeft,
    TopBackCenter,
    TopBackRight,
    BackLeftCenter,
    BackRightCenter,
    FrontLeftWide,
    FrontRightWide,
    FrontLeftHigh,
    FrontCenterHigh,
    FrontRightHigh,
    TopFrontLeftCenter,
    TopFrontRightCenter,
    TopSideLeft,
    TopSideRight,
    LeftLfe,
    RightLfe,
    Lfe2,
    BottomCenter,
    BottomLeftCenter,
    BottomRightCenter,
    MsMid,
    MsSide,
    AmbisonicW,
    AmbisonicX,
    AmbisonicY,
    AmbisonicZ,
    XyX,
    XyY,
    HeadphonesLeft,
    HeadphonesRight,
    ClickTrack,
    ForeignLanguage,
    HearingImpaired,
    Narration,
    Haptic,
    DialogCentricMix,
    Aux,
    Aux0,
    Aux1,
    Aux2,
    Aux3,
    Aux4,
    Aux5,
    Aux6,
    Aux7,
    Aux8,
    Aux9,
    Aux10,
    Aux11,
    Aux12,
    Aux13,
    Aux14,
    Aux15,
}

impl SioChannelId {
    /// The integer libsoundio uses for this channel id.
    pub open spec fn spec_code(self) -> i32 {
        match self {
            SioChannelId::Invalid => 0,
            SioChannelId::FrontLeft => 1,
            SioChannelId::FrontRight => 2,
            SioChannelId::FrontCenter => 3,
            SioChannelId::Lfe => 4,
            SioChannelId::BackLeft => 5,
            SioChannelId::BackRight => 6,
            SioChannelId::FrontLeftCenter => 7,
            SioChannelId::FrontRightCenter => 8,
            SioChannelId::BackCenter => 9,
            SioChannelId::SideLeft => 10,
            SioChannelId::SideRight => 11,
            SioChannelId::TopCenter => 12,
            SioChannelId::TopFrontLeft => 13,
            SioChannelId::TopFrontCenter => 14,
            SioChannelId::TopFrontRight => 15,
            SioChannelId::TopBackLeft => 16,
            SioChannelId::TopBackCenter => 17,
            SioChannelId::TopBackRight => 18,
            SioChannelId::BackLeftCenter => 19,
            SioChannelId::BackRightCenter => 20,
            SioChannelId::FrontLeftWide => 21,
            SioChannelId::FrontRightWide => 22,
            SioChannelId::FrontLeftHigh => 23,
            SioChannelId::FrontCenterHigh => 24,
            SioChannelId::FrontRightHigh => 25,
            SioChannelId::TopFrontLeftCenter => 26,
            SioChannelId::TopFrontRightCenter => 27,
            SioChannelId::TopSideLeft => 28,
            SioChannelId::TopSideRight => 29,
            SioChannelId::LeftLfe => 30,
            SioChannelId::RightLfe => 31,
            SioChannelId::Lfe2 => 32,
            SioChannelId::BottomCenter => 33,
            SioChannelId::BottomLeftCenter => 34,
            SioChannelId::BottomRightCenter => 35,
            SioChannelId::MsMid => 36,
            SioChannelId::MsSide => 37,
            SioChannelId::AmbisonicW => 38,
            SioChannelId::AmbisonicX => 39,
            SioChannelId::AmbisonicY => 40,
            SioChannelId::AmbisonicZ => 41,
            SioChannelId::XyX => 42,
            SioChannelId::XyY => 43,
            SioChannelId::HeadphonesLeft => 44,
            SioChannelId::HeadphonesRight => 45,
            SioChannelId::ClickTrack => 46,
            SioChannelId::ForeignLanguage => 47,
            SioChannelId::HearingImpaired => 48,
            SioChannelId::Narration => 49,
            SioChannelId::Haptic => 50,
            SioChannelId::DialogCentricMix => 51,
            SioChannelId::Aux => 52,
            SioChannelId::Aux0 => 53,
            SioChannelId::Aux1 => 54,
            SioChannelId::Aux2 => 55,
            SioChannelId::Aux3 => 56,
            SioChannelId::Aux4 => 57,
            SioChannelId::Aux5 => 58,
            SioChannelId::Aux6 => 59,
            SioChannelId::Aux7 => 60,
            SioChannelId::Aux8 => 61,
            SioChannelId::Aux9 => 62,
            SioChannelId::Aux10 => 63,
            SioChannelId::Aux11 => 64,
            SioChannelId::Aux12 => 65,
            SioChannelId::Aux13 => 66,
            SioChannelId::Aux14 => 67,
            SioChannelId::Aux15 => 68,
        }
    }

    /// The channel id that libsoundio means by `code`, if any.
    pub open spec fn spec_from_code(code: i32) -> Option<SioChannelId> {
        if code == 0 {
            Some(SioChannelId::Invalid)
        } else if code == 1 {
            Some(SioChannelId::FrontLeft)
        } else if code == 2 {
            Some(SioChannelId::FrontRight)
        } else if code == 3 {
            Some(SioChannelId::FrontCenter)
        } else if code == 4 {
            Some(SioChannelId::Lfe)
        } else if code == 5 {
            Some(SioChannelId::BackLeft)
        } else if code == 6 {
            Some(SioChannelId::BackRight)
        } else if code == 7 {
            Some(SioChannelId::FrontLeftCenter)
        } else if code == 8 {
            Some(SioChannelId::FrontRightCenter)
        } else if code == 9 {
            Some(SioChannelId::BackCenter)
        } else if code == 10 {
            Some(SioChannelId::SideLeft)
        } else if code == 11 {
            Some(SioChannelId::SideRight)
        } else if code == 12 {
            Some(SioChannelId::TopCenter)
        } else if code == 13 {
            Some(SioChannelId::TopFrontLeft)
        } else if code == 14 {
            Some(SioChannelId::TopFrontCenter)
        } else if code == 15 {
            Some(SioChannelId::TopFrontRight)
        } else if code == 16 {
            Some(SioChannelId::TopBackLeft)
        } else if code == 17 {
            Some(SioChannelId::TopBackCenter)
        } else if code == 18 {
            Some(SioChannelId::TopBackRight)
        } else if code == 19 {
            Some(SioChannelId::BackLeftCenter)
        } else if code == 20 {
            Some(SioChannelId::BackRightCenter)
        } else if code == 21 {
            Some(SioChannelId::FrontLeftWide)
        } else if code == 22 {
            Some(SioChannelId::FrontRightWide)
        } else if code == 23 {
            Some(SioChannelId::FrontLeftHigh)
        } else if code == 24 {
            Some(SioChannelId::FrontCenterHigh)
        } else if code == 25 {
            Some(SioChannelId::FrontRightHigh)
        } else if code == 26 {
            Some(SioChannelId::TopFrontLeftCenter)
        } else if code == 27 {
            Some(SioChannelId::TopFrontRightCenter)
        } else if code == 28 {
            Some(SioChannelId::TopSideLeft)
        } else if code == 29 {
            Some(SioChannelId::TopSideRight)
        } else if code == 30 {
            Some(SioChannelId::LeftLfe)
        } else if code == 31 {
            Some(SioChannelId::RightLfe)
        } else if code == 32 {
            Some(SioChannelId::Lfe2)
        } else if code == 33 {
            Some(SioChannelId::BottomCenter)
        } else if code == 34 {
            Some(SioChannelId::BottomLeftCenter)
        } else if code == 35 {
            Some(SioChannelId::BottomRightCenter)
        } else if code == 36 {
            Some(SioChannelId::MsMid)
        } else if code == 37 {
            Some(SioChannelId::MsSide)
        } else if code == 38 {
            Some(SioChannelId::AmbisonicW)
        } else if code == 39 {
            Some(SioChannelId::AmbisonicX)
        } else if code == 40 {
            Some(SioChannelId::AmbisonicY)
        } else if code == 41 {
            Some(SioChannelId::AmbisonicZ)
        } else if code == 42 {
            Some(SioChannelId::XyX)
        } else if code == 43 {
            Some(SioChannelId::XyY)
        } else if code == 44 {
            Some(SioChannelId::HeadphonesLeft)
        } else if code == 45 {
            Some(SioChannelId::HeadphonesRight)
        } else if code == 46 {
            Some(SioChannelId::ClickTrack)
        } else if code == 47 {
            Some(SioChannelId::ForeignLanguage)
        } else if code == 48 {
            Some(SioChannelId::HearingImpaired)
        } else if code == 49 {
            Some(SioChannelId::Narration)
        } else if code == 50 {
            Some(SioChannelId::Haptic)
        } else if code == 51 {
            Some(SioChannelId::DialogCentricMix)
        } else if code == 52 {
            Some(SioChannelId::Aux)
        } else if code == 53 {
            Some(SioChannelId::Aux0)
        } else if code == 54 {
            Some(SioChannelId::Aux1)
        } else if code == 55 {
            Some(SioChannelId::Aux2)
        } else if code == 56 {
            Some(SioChannelId::Aux3)
        } else if code == 57 {
            Some(SioChannelId::Aux4)
        } else if code == 58 {
            Some(SioChannelId::Aux5)
        } else if code == 59 {
            Some(SioChannelId::Aux6)
        } else if code == 60 {
            Some(SioChannelId::Aux7)
        } else if code == 61 {
            Some(SioChannelId::Aux8)
        } else if code == 62 {
            Some(SioChannelId::Aux9)
        } else if code == 63 {
            Some(SioChannelId::Aux10)
        } else if code == 64 {
            Some(SioChannelId::Aux11)
        } else if code == 65 {
            Some(SioChannelId::Aux12)
        } else if code == 66 {
            Some(SioChannelId::Aux13)
        } else if code == 67 {
            Some(SioChannelId::Aux14)
        } else if code == 68 {
            Some(SioChannelId::Aux15)
        } else {
            None
        }
    }

    /// Returns the integer libsoundio uses for this channel id.
    pub fn code(&self) -> (c: i32)
        ensures
            c == self.spec_code(),
    {
        match self {
            SioChannelId::Invalid => 0,
            SioChannelId::FrontLeft => 1,
            SioChannelId::FrontRight => 2,
            SioChannelId::FrontCenter => 3,
            SioChannelId::Lfe => 4,
            SioChannelId::BackLeft => 5,
            SioChannelId::BackRight => 6,
            SioChannelId::FrontLeftCenter => 7,
            SioChannelId::FrontRightCenter => 8,
            SioChannelId::BackCenter => 9,
            SioChannelId::SideLeft => 10,
            SioChannelId::SideRight => 11,
            SioChannelId::TopCenter => 12,
            SioChannelId::TopFrontLeft => 13,
            SioChannelId::TopFrontCenter => 14,
            SioChannelId::TopFrontRight => 15,
            SioChannelId::TopBackLeft => 16,
            SioChannelId::TopBackCenter => 17,
            SioChannelId::TopBackRight => 18,
            SioChannelId::BackLeftCenter => 19,
            SioChannelId::BackRightCenter => 20,
            SioChannelId::FrontLeftWide => 21,
            SioChannelId::FrontRightWide => 22,
            SioChannelId::FrontLeftHigh => 23,
            SioChannelId::FrontCenterHigh => 24,
            SioChannelId::FrontRightHigh => 25,
            SioChannelId::TopFrontLeftCenter => 26,
            SioChannelId::TopFrontRightCenter => 27,
            SioChannelId::TopSideLeft => 28,
            SioChannelId::TopSideRight => 29,
            SioChannelId::LeftLfe => 30,
            SioChannelId::RightLfe => 31,
            SioChannelId::Lfe2 => 32,
            SioChannelId::BottomCenter => 33,
            SioChannelId::BottomLeftCenter => 34,
            SioChannelId::BottomRightCenter => 35,
            SioChannelId::MsMid => 36,
            SioChannelId::MsSide => 37,
            SioChannelId::AmbisonicW => 38,
            SioChannelId::AmbisonicX => 39,
            SioChannelId::AmbisonicY => 40,
            SioChannelId::AmbisonicZ => 41,
            SioChannelId::XyX => 42,
            SioChannelId::XyY => 43,
            SioChannelId::HeadphonesLeft => 44,
            SioChannelId::HeadphonesRight => 45,
            SioChannelId::ClickTrack => 46,
            SioChannelId::ForeignLanguage => 47,
            SioChannelId::HearingImpaired => 48,
            SioChannelId::Narration => 49,
            SioChannelId::Haptic => 50,
            SioChannelId::DialogCentricMix => 51,
            SioChannelId::Aux => 52,
            SioChannelId::Aux0 => 53,
            SioChannelId::Aux1 => 54,
            SioChannelId::Aux2 => 55,
            SioChannelId::Aux3 => 56,
            SioChannelId::Aux4 => 57,
            SioChannelId::Aux5 => 58,
            SioChannelId::Aux6 => 59,
            SioChannelId::Aux7 => 60,
            SioChannelId::Aux8 => 61,
            SioChannelId::Aux9 => 62,
            SioChannelId::Aux10 => 63,
            SioChannelId::Aux11 => 64,
            SioChannelId::Aux12 => 65,
            SioChannelId::Aux13 => 66,
            SioChannelId::Aux14 => 67,
            SioChannelId::Aux15 => 68,
        }
    }

    /// Decodes a channel id code passed by libsoundio; `None` for a code
    /// that names no channel id.
    pub fn from_code(code: i32) -> (r: Option<SioChannelId>)
        ensures
            r == SioChannelId::spec_from_code(code),
            r is Some <==> 0 <= code < 69,
    {
        match code {
            0 => Some(SioChannelId::Invalid),
            1 => Some(SioChannelId::FrontLeft),
            2 => Some(SioChannelId::FrontRight),
            3 => Some(SioChannelId::FrontCenter),
            4 => Some(SioChannelId::Lfe),
            5 => Some(SioChannelId::BackLeft),
            6 => Some(SioChannelId::BackRight),
            7 => Some(SioChannelId::FrontLeftCenter),
            8 => Some(SioChannelId::FrontRightCenter),
            9 => Some(SioChannelId::BackCenter),
            10 => Some(SioChannelId::SideLeft),
            11 => Some(SioChannelId::SideRight),
            12 => Some(SioChannelId::TopCenter),
            13 => Some(SioChannelId::TopFrontLeft),
            14 => Some(SioChannelId::TopFrontCenter),
            15 => Some(SioChannelId::TopFrontRight),
            16 => Some(SioChannelId::TopBackLeft),
            17 => Some(SioChannelId::TopBackCenter),
            18 => Some(SioChannelId::TopBackRight),
            19 => Some(SioChannelId::BackLeftCenter),
            20 => Some(SioChannelId::BackRightCenter),
            21 => Some(SioChannelId::FrontLeftWide),
            22 => Some(SioChannelId::FrontRightWide),
            23 => Some(SioChannelId::FrontLeftHigh),
            24 => Some(SioChannelId::FrontCenterHigh),
            25 => Some(SioChannelId::FrontRightHigh),
            26 => Some(SioChannelId::TopFrontLeftCenter),
            27 => Some(SioChannelId::TopFrontRightCenter),
            28 => Some(SioChannelId::TopSideLeft),
            29 => Some(SioChannelId::TopSideRight),
            30 => Some(SioChannelId::LeftLfe),
            31 => Some(SioChannelId::RightLfe),
            32 => Some(SioChannelId::Lfe2),
            33 => Some(SioChannelId::BottomCenter),
            34 => Some(SioChannelId::BottomLeftCenter),
            35 => Some(SioChannelId::BottomRightCenter),
            36 => Some(SioChannelId::MsMid),
            37 => Some(SioChannelId::MsSide),
            38 => Some(SioChannelId::AmbisonicW),
            39 => Some(SioChannelId::AmbisonicX),
            40 => Some(SioChannelId::AmbisonicY),
            41 => Some(SioChannelId::AmbisonicZ),
            42 => Some(SioChannelId::XyX),
            43 => Some(SioChannelId::XyY),
            44 => Some(SioChannelId::HeadphonesLeft),
            45 => Some(SioChannelId::HeadphonesRight),
            46 => Some(SioChannelId::ClickTrack),
            47 => Some(SioChannelId::ForeignLanguage),
            48 => Some(SioChannelId::HearingImpaired),
            49 => Some(SioChannelId::Narration),
            50 => Some(SioChannelId::Haptic),
            51 => Some(SioChannelId::DialogCentricMix),
            52 => Some(SioChannelId::Aux),
            53 => Some(SioChannelId::Aux0),
            54 => Some(SioChannelId::Aux1),
            55 => Some(SioChannelId::Aux2),
            56 => Some(SioChannelId::Aux3),
            57 => Some(SioChannelId::Aux4),
            58 => Some(SioChannelId::Aux5),
            59 => Some(SioChannelId::Aux6),
            60 => Some(SioChannelId::Aux7),
            61 => Some(SioChannelId::Aux8),
            62 => Some(SioChannelId::Aux9),
            63 => Some(SioChannelId::Aux10),
            64 => Some(SioChannelId::Aux11),
            65 => Some(SioChannelId::Aux12),
            66 => Some(SioChannelId::Aux13),
            67 => Some(SioChannelId::Aux14),
            68 => Some(SioChannelId::Aux15),
            _ => None,
        }
    }
}

/// Decoding the code of a channel id gives back that channel id.
pub proof fn lemma_channel_id_code_roundtrip(x: SioChannelId)
    ensures
        SioChannelId::spec_from_code(x.spec_code()) == Some(x),
{
}

/// A code that decodes to a channel id is the code of that channel id.
pub proof fn lemma_channel_id_code_unique(code: i32, x: SioChannelId)
    requires
        SioChannelId::spec_from_code(code) == Some(x),
    ensures
        x.spec_code() == code,
{
}

/// The codes of the errors are libsoundio's numbers for them, in both
/// directions: each value has its number as code, and each number decodes
/// to that value.
pub proof fn lemma_error_codes_are_libsoundio_numbers()
    ensures
        SioError::NoError.spec_code() == 0,
        SioError::spec_from_code(0) == Some(SioError::NoError),
        SioError::NoMem.spec_code() == 1,
        SioError::spec_from_code(1) == Some(SioError::NoMem),
        SioError::InitAudioBackend.spec_code() == 2,
        SioError::spec_from_code(2) == Some(SioError::InitAudioBackend),
        SioError::SystemResources.spec_code() == 3,
        SioError::spec_from_code(3) == Some(SioError::SystemResources),
        SioError::OpeningDevice.spec_code() == 4,
        SioError::spec_from_code(4) == Some(SioError::OpeningDevice),
        SioError::NoSuchDevice.spec_code() == 5,
        SioError::spec_from_code(5) == Some(SioError::NoSuchDevice),
        SioError::Invalid.spec_code() == 6,
        SioError::spec_from_code(6) == Some(SioError::Invalid),
        SioError::BackendUnavailable.spec_code() == 7,
        SioError::spec_from_code(7) == Some(SioError::BackendUnavailable),
        SioError::Streaming.spec_code() == 8,
        SioError::spec_from_code(8) == Some(SioError::Streaming),
        SioError::IncompatibleDevice.spec_code() == 9,
        SioError::spec_from_code(9) == Some(SioError::IncompatibleDevice),
        SioError::NoSuchClient.spec_code() == 10,
        SioError::spec_from_code(10) == Some(SioError::NoSuchClient),
        SioError::IncompatibleBackend.spec_code() == 11,
        SioError::spec_from_code(11) == Some(SioError::IncompatibleBackend),
        SioError::BackendDisconnected.spec_code() == 12,
        SioError::spec_from_code(12) == Some(SioError::BackendDisconnected),
        SioError::Interrupted.spec_code() == 13,
        SioError::spec_from_code(13) == Some(SioError::Interrupted),
        SioError::Underflow.spec_code() == 14,
        SioError::spec_from_code(14) == Some(SioError::Underflow),
        SioError::EncodingString.spec_code() == 15,
        SioError::spec_from_code(15) == Some(SioError::EncodingString),
{
}

/// The codes of the backends are libsoundio's numbers for them, in both
/// directions: each value has its number as code, and each number decodes
/// to that value.
pub proof fn lemma_backend_codes_are_libsoundio_numbers()
    ensures
        SioBackend::NoBackend.spec_code() == 0,
        SioBackend::spec_from_code(0) == Some(SioBackend::NoBackend),
        SioBackend::Jack.spec_code() == 1,
        SioBackend::spec_from_code(1) == Some(SioBackend::Jack),
        SioBackend::PulseAudio.spec_code() == 2,
        SioBackend::spec_from_code(2) == Some(SioBackend::PulseAudio),
        SioBackend::Alsa.spec_code() == 3,
        SioBackend::spec_from_code(3) == Some(SioBackend::Alsa),
        SioBackend::CoreAudio.spec_code() == 4,
        SioBackend::spec_from_code(4) == Some(SioBackend::CoreAudio),
        SioBackend::Wasapi.spec_code() == 5,
        SioBackend::spec_from_code(5) == Some(SioBackend::Wasapi),
        SioBackend::Dummy.spec_code() == 6,
        SioBackend::spec_from_code(6) == Some(SioBackend::Dummy),
{
}

/// The codes of the sample formats are libsoundio's numbers for them, in both
/// directions: each value has its number as code, and each number decodes
/// to that value.
pub proof fn lemma_format_codes_are_libsoundio_numbers()
    ensures
        SioFormat::Invalid.spec_code() == 0,
        SioFormat::spec_from_code(0) == Some(SioFormat::Invalid),
        SioFormat::S8.spec_code() == 1,
        SioFormat::spec_from_code(1) == Some(SioFormat::S8),
        SioFormat::U8.spec_code() == 2,
        SioFormat::spec_from_code(2) == Some(SioFormat::U8),
        SioFormat::S16LE.spec_code() == 3,
        SioFormat::spec_from_code(3) == Some(SioFormat::S16LE),
        SioFormat::S16BE.spec_code() == 4,
        SioFormat::spec_from_code(4) == Some(SioFormat::S16BE),
        SioFormat::U16LE.spec_code() == 5,
        SioFormat::spec_from_code(5) == Some(SioFormat::U16LE),
        SioFormat::U16BE.spec_code() == 6,
        SioFormat::spec_from_code(6) == Some(SioFormat::U16BE),
        SioFormat::S24LE.spec_code() == 7,
        SioFormat::spec_from_code(7) == Some(SioFormat::S24LE),
        SioFormat::S24BE.spec_code() == 8,
        SioFormat::spec_from_code(8) == Some(SioFormat::S24BE),
        SioFormat::U24LE.spec_code() == 9,
        SioFormat::spec_from_code(9) == Some(SioFormat::U24LE),
        SioFormat::U24BE.spec_code() == 10,
        SioFormat::spec_from_code(10) == Some(SioFormat::U24BE),
        SioFormat::S32LE.spec_code() == 11,
        SioFormat::spec_from_code(11) == Some(SioFormat::S32LE),
        SioFormat::S32BE.spec_code() == 12,
        SioFormat::spec_from_code(12) == Some(SioFormat::S32BE),
        SioFormat::U32LE.spec_code() == 13,
        SioFormat::spec_from_code(13) == Some(SioFormat::U32LE),
        SioFormat::U32BE.spec_code() == 14,
        SioFormat::spec_from_code(14) == Some(SioFormat::U32BE),
        SioFormat::Float32LE.spec_code() == 15,
        SioFormat::spec_from_code(15) == Some(SioFormat::Float32LE),
        SioFormat::Float32BE.spec_code() == 16,
        SioFormat::spec_from_code(16) == Some(SioFormat::Float32BE),
        SioFormat::Float64LE.spec_code() == 17,
        SioFormat::spec_from_code(17) == Some(SioFormat::Float64LE),
        SioFormat::Float64BE.spec_code() == 18,
        SioFormat::spec_from_code(18) == Some(SioFormat::Float64BE),
{
}

/// The codes of the channel ids are libsoundio's numbers for them, in both
/// directions: each value has its number as code, and each number decodes
/// to that value.
pub proof fn lemma_channel_id_codes_are_libsoundio_numbers()
    ensures
        SioChannelId::Invalid.spec_code() == 0,
        SioChannelId::spec_from_code(0) == Some(SioChannelId::Invalid),
        SioChannelId::FrontLeft.spec_code() == 1,
        SioChannelId::spec_from_code(1) == Some(SioChannelId::FrontLeft),
        SioChannelId::FrontRight.spec_code() == 2,
        SioChannelId::spec_from_code(2) == Some(SioChannelId::FrontRight),
        SioChannelId::FrontCenter.spec_code() == 3,
        SioChannelId::spec_from_code(3) == Some(SioChannelId::FrontCenter),
        SioChannelId::Lfe.spec_code() == 4,
        SioChannelId::spec_from_code(4) == Some(SioChannelId::Lfe),
        SioChannelId::BackLeft.spec_code() == 5,
        SioChannelId::spec_from_code(5) == Some(SioChannelId::BackLeft),
        SioChannelId::BackRight.spec_code() == 6,
        SioChannelId::spec_from_code(6) == Some(SioChannelId::BackRight),
        SioChannelId::FrontLeftCenter.spec_code() == 7,
        SioChannelId::spec_from_code(7) == Some(SioChannelId::FrontLeftCenter),
        SioChannelId::FrontRightCenter.spec_code() == 8,
        SioChannelId::spec_from_code(8) == Some(SioChannelId::FrontRightCenter),
        SioChannelId::BackCenter.spec_code() == 9,
        SioChannelId::spec_from_code(9) == Some(SioChannelId::BackCenter),
        SioChannelId::SideLeft.spec_code() == 10,
        SioChannelId::spec_from_code(10) == Some(SioChannelId::SideLeft),
        SioChannelId::SideRight.spec_code() == 11,
        SioChannelId::spec_from_code(11) == Some(SioChannelId::SideRight),
        SioChannelId::TopCenter.spec_code() == 12,
        SioChannelId::spec_from_code(12) == Some(SioChannelId::TopCenter),
        SioChannelId::TopFrontLeft.spec_code() == 13,
        SioChannelId::spec_from_code(13) == Some(SioChannelId::TopFrontLeft),
        SioChannelId::TopFrontCenter.spec_code() == 14,
        SioChannelId::spec_from_code(14) == Some(SioChannelId::TopFrontCenter),
        SioChannelId::TopFrontRight.spec_code() == 15,
        SioChannelId::spec_from_code(15) == Some(SioChannelId::TopFrontRight),
        SioChannelId::TopBackLeft.spec_code() == 16,
        SioChannelId::spec_from_code(16) == Some(SioChannelId::TopBackLeft),
        SioChannelId::TopBackCenter.spec_code() == 17,
        SioChannelId::spec_from_code(17) == Some(SioChannelId::TopBackCenter),
        SioChannelId::TopBackRight.spec_code() == 18,
        SioChannelId::spec_from_code(18) == Some(SioChannelId::TopBackRight),
        SioChannelId::BackLeftCenter.spec_code() == 19,
        SioChannelId::spec_from_code(19) == Some(SioChannelId::BackLeftCenter),
        SioChannelId::BackRightCenter.spec_code() == 20,
        SioChannelId::spec_from_code(20) == Some(SioChannelId::BackRightCenter),
        SioChannelId::FrontLeftWide.spec_code() == 21,
        SioChannelId::spec_from_code(21) == Some(SioChannelId::FrontLeftWide),
        SioChannelId::FrontRightWide.spec_code() == 22,
        SioChannelId::spec_from_code(22) == Some(SioChannelId::FrontRightWide),
        SioChannelId::FrontLeftHigh.spec_code() == 23,
        SioChannelId::spec_from_code(23) == Some(SioChannelId::FrontLeftHigh),
        SioChannelId::FrontCenterHigh.spec_code() == 24,
        SioChannelId::spec_from_code(24) == Some(SioChannelId::FrontCenterHigh),
        SioChannelId::FrontRightHigh.spec_code() == 25,
        SioChannelId::spec_from_code(25) == Some(SioChannelId::FrontRightHigh),
        SioChannelId::TopFrontLeftCenter.spec_code() == 26,
        SioChannelId::spec_from_code(26) == Some(SioChannelId::TopFrontLeftCenter),
        SioChannelId::TopFrontRightCenter.spec_code() == 27,
        SioChannelId::spec_from_code(27) == Some(SioChannelId::TopFrontRightCenter),
        SioChannelId::TopSideLeft.spec_code() == 28,
        SioChannelId::spec_from_code(28) == Some(SioChannelId::TopSideLeft),
        SioChannelId::TopSideRight.spec_code() == 29,
        SioChannelId::spec_from_code(29) == Some(SioChannelId::TopSideRight),
        SioChannelId::LeftLfe.spec_code() == 30,
        SioChannelId::spec_from_code(30) == Some(SioChannelId::LeftLfe),
        SioChannelId::RightLfe.spec_code() == 31,
        SioChannelId::spec_from_code(31) == Some(SioChannelId::RightLfe),
        SioChannelId::Lfe2.spec_code() == 32,
        SioChannelId::spec_from_code(32) == Some(SioChannelId::Lfe2),
        SioChannelId::BottomCenter.spec_code() == 33,
        SioChannelId::spec_from_code(33) == Some(SioChannelId::BottomCenter),
        SioChannelId::BottomLeftCenter.spec_code() == 34,
        SioChannelId::spec_from_code(34) == Some(SioChannelId::BottomLeftCenter),
        SioChannelId::BottomRightCenter.spec_code() == 35,
        SioChannelId::spec_from_code(35) == Some(SioChannelId::BottomRightCenter),
        SioChannelId::MsMid.spec_code() == 36,
        SioChannelId::spec_from_code(36) == Some(SioChannelId::MsMid),
        SioChannelId::MsSide.spec_code() == 37,
        SioChannelId::spec_from_code(37) == Some(SioChannelId::MsSide),
        SioChannelId::AmbisonicW.spec_code() == 38,
        SioChannelId::spec_from_code(38) == Some(SioChannelId::AmbisonicW),
        SioChannelId::AmbisonicX.spec_code() == 39,
        SioChannelId::spec_from_code(39) == Some(SioChannelId::AmbisonicX),
        SioChannelId::AmbisonicY.spec_code() == 40,
        SioChannelId::spec_from_code(40) == Some(SioChannelId::AmbisonicY),
        SioChannelId::AmbisonicZ.spec_code() == 41,
        SioChannelId::spec_from_code(41) == Some(SioChannelId::AmbisonicZ),
        SioChannelId::XyX.spec_code() == 42,
        SioChannelId::spec_from_code(42) == Some(SioChannelId::XyX),
        SioChannelId::XyY.spec_code() == 43,
        SioChannelId::spec_from_code(43) == Some(SioChannelId::XyY),
        SioChannelId::HeadphonesLeft.spec_code() == 44,
        SioChannelId::spec_from_code(44) == Some(SioChannelId::HeadphonesLeft),
        SioChannelId::HeadphonesRight.spec_code() == 45,
        SioChannelId::spec_from_code(45) == Some(SioChannelId::HeadphonesRight),
        SioChannelId::ClickTrack.spec_code() == 46,
        SioChannelId::spec_from_code(46) == Some(SioChannelId::ClickTrack),
        SioChannelId::ForeignLanguage.spec_code() == 47,
        SioChannelId::spec_from_code(47) == Some(SioChannelId::ForeignLanguage),
        SioChannelId::HearingImpaired.spec_code() == 48,
        SioChannelId::spec_from_code(48) == Some(SioChannelId::HearingImpaired),
        SioChannelId::Narration.spec_code() == 49,
        SioChannelId::spec_from_code(49) == Some(SioChannelId::Narration),
        SioChannelId::Haptic.spec_code() == 50,
        SioChannelId::spec_from_code(50) == Some(SioChannelId::Haptic),
        SioChannelId::DialogCentricMix.spec_code() == 51,
        SioChannelId::spec_from_code(51) == Some(SioChannelId::DialogCentricMix),
        SioChannelId::Aux.spec_code() == 52,
        SioChannelId::spec_from_code(52) == Some(SioChannelId::Aux),
        SioChannelId::Aux0.spec_code() == 53,
        SioChannelId::spec_from_code(53) == Some(SioChannelId::Aux0),
        SioChannelId::Aux1.spec_code() == 54,
        SioChannelId::spec_from_code(54) == Some(SioChannelId::Aux1),
        SioChannelId::Aux2.spec_code() == 55,
        SioChannelId::spec_from_code(55) == Some(SioChannelId::Aux2),
        SioChannelId::Aux3.spec_code() == 56,
        SioChannelId::spec_from_code(56) == Some(SioChannelId::Aux3),
        SioChannelId::Aux4.spec_code() == 57,
        SioChannelId::spec_from_code(57) == Some(SioChannelId::Aux4),
        SioChannelId::Aux5.spec_code() == 58,
        SioChannelId::spec_from_code(58) == Some(SioChannelId::Aux5),
        SioChannelId::Aux6.spec_code() == 59,
        SioChannelId::spec_from_code(59) == Some(SioChannelId::Aux6),
        SioChannelId::Aux7.spec_code() == 60,
        SioChannelId::spec_from_code(60) == Some(SioChannelId::Aux7),
        SioChannelId::Aux8.spec_code() == 61,
        SioChannelId::spec_from_code(61) == Some(SioChannelId::Aux8),
        SioChannelId::Aux9.spec_code() == 62,
        SioChannelId::spec_from_code(62) == Some(SioChannelId::Aux9),
        SioChannelId::Aux10.spec_code() == 63,
        SioChannelId::spec_from_code(63) == Some(SioChannelId::Aux10),
        SioChannelId::Aux11.spec_code() == 64,
        SioChannelId::spec_from_code(64) == Some(SioChannelId::Aux11),
        SioChannelId::Aux12.spec_code() == 65,
        SioChannelId::spec_from_code(65) == Some(SioChannelId::Aux12),
        SioChannelId::Aux13.spec_code() == 66,
        SioChannelId::spec_from_code(66) == Some(SioChannelId::Aux13),
        SioChannelId::Aux14.spec_code() == 67,
        SioChannelId::spec_from_code(67) == Some(SioChannelId::Aux14),
        SioChannelId::Aux15.spec_code() == 68,
        SioChannelId::spec_from_code(68) == Some(SioChannelId::Aux15),
{
}

} // verus!
