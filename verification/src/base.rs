use vstd::prelude::*;
use vstd::string::{StrSliceExecFns, StringExecFns};
use vstd::utf8::encode_utf8;
use crate::enums::{SioBackend, SioError};
use crate::stream::OutStream;
use crate::text::sanitized_name;

verus! {

/// Result of an operation that fails with a libsoundio error code.
pub type SioResult<T> = Result<T, SioError>;

/// Channel counts below this bound have a default channel layout.
pub const MAX_CHANNELS: u32 = 24;

/// The outcome of a call that reports a status: `Ok` exactly when
/// libsoundio reported no error, otherwise the reported error.
pub fn status_result(status: SioError) -> (r: SioResult<()>)
    ensures
        r is Ok <==> status == SioError::NoError,
        r matches Err(e) ==> e == status,
{
    match status {
        SioError::NoError => Ok(()),
        err => Err(err),
    }
}

/// A backend as libsoundio reports it, with `NoBackend` read as `None`.
pub fn backend_option(backend: SioBackend) -> (r: Option<SioBackend>)
    ensures
        r is None <==> backend == SioBackend::NoBackend,
        r matches Some(b) ==> b == backend,
{
    match backend {
        SioBackend::NoBackend => None,
        b => Some(b),
    }
}

/// An error field as libsoundio reports it, with `NoError` read as `None`.
pub fn error_option(error: SioError) -> (r: Option<SioError>)
    ensures
        r is None <==> error == SioError::NoError,
        r matches Some(e) ==> e == error,
{
    match error {
        SioError::NoError => None,
        e => Some(e),
    }
}

/// A count as libsoundio reports it: a negative count means that no count
/// is known yet.
pub fn count_option(count: i32) -> (r: Option<u32>)
    ensures
        r is Some <==> count >= 0,
        r matches Some(n) ==> n == count,
{
    if count < 0 {
        None
    } else {
        Some(count as u32)
    }
}

/// An index as libsoundio reports it: `-1` means "none"; any other value
/// is taken as an unsigned index.
pub fn index_option(index: i32) -> (r: Option<u32>)
    ensures
        r is None <==> index == -1,
        r matches Some(i) ==> i == index as u32,
        index >= 0 ==> r == Some(index as u32) && index as u32 == index,
{
    if index == -1 {
        None
    } else {
        Some(index as u32)
    }
}

/// Which backend index to ask libsoundio for, given the number of backends
/// it reports: none when `idx` is not in `[0, backend_count)`.
pub fn backend_index(idx: u32, backend_count: i32) -> (r: Option<i32>)
    ensures
        r is Some <==> idx < backend_count as u32,
        r matches Some(i) ==> i == idx as i32,
        backend_count >= 0 ==> (r is Some <==> idx < backend_count),
        backend_count >= 0 && r is Some ==> r == Some(idx as i32) && idx as i32 == idx,
{
    if idx < backend_count as u32 {
        Some(idx as i32)
    } else {
        None
    }
}

/// A boolean as libsoundio returns it: only `1` is true.
pub fn c_bool(value: i32) -> (b: bool)
    ensures
        b <==> value == 1,
{
    value == 1
}

/// The context through which the library talks to libsoundio, together
/// with the application name handed to it.
pub struct SoundIo {
    context: usize,
    name: String,
}

impl SoundIo {
    /// The address of the libsoundio context.
    pub closed spec fn context_spec(&self) -> usize {
        self.context
    }

    /// The application name held for libsoundio.
    pub closed spec fn name_spec(&self) -> Seq<char> {
        self.name@
    }

    /// Wraps the libsoundio context found at `context`; the name held for
    /// it starts out as `rsoundio`.
    pub fn new(context: usize) -> (s: SoundIo)
        ensures
            s.context_spec() == context,
            s.name_spec() == "rsoundio"@,
    {
        SoundIo { context, name: String::from_str("rsoundio") }
    }

    /// Returns the address of the libsoundio context.
    pub fn context(&self) -> (c: usize)
        ensures
            c == self.context_spec(),
    {
        self.context
    }

    /// Returns the application name held for libsoundio.
    pub fn app_name(&self) -> (n: &str)
        ensures
            n@ == self.name_spec(),
    {
        self.name.as_str()
    }

    /// Returns the UTF-8 bytes of the application name, as handed to
    /// libsoundio.
    pub fn app_name_bytes(&self) -> (b: Vec<u8>)
        ensures
            b@ == encode_utf8(self.name_spec()),
    {
        self.name.as_str().as_bytes_vec()
    }

    /// Sets the application name shown in the system audio mixer. Colons are
    /// replaced by underscores. A name holding a NUL character is refused
    /// with `EncodingString` and leaves the held name as it was.
    pub fn set_name(&mut self, name: &str) -> (r: SioResult<()>)
        ensures
            r is Ok <==> !name@.contains('\0'),
            r is Ok ==> final(self).name_spec() == sanitized_name(name@),
            r is Ok ==> final(self).name_spec().len() == name@.len(),
            r is Ok ==> forall|i: int|
                0 <= i < name@.len() ==> (name@[i] == ':' ==> final(self).name_spec()[i] == '_')
                    && (name@[i] != ':' ==> final(self).name_spec()[i] == name@[i]),
            r matches Err(e) ==> e == SioError::EncodingString && final(self).name_spec()
                == old(self).name_spec(),
            final(self).context_spec() == old(self).context_spec(),
    {
        let n = name.unicode_len();
        let mut out = String::new();
        let mut i: usize = 0;
        while i < n
            invariant
                n == name@.len(),
                i <= n,
                out@ == sanitized_name(name@.subrange(0, i as int)),
                forall|j: int| 0 <= j < i ==> name@[j] != '\0',
            decreases n - i,
        {
            let c = name.get_char(i);
            if c == '\0' {
                return Err(SioError::EncodingString);
            }
            let ghost before = out@;
            if c == ':' {
                proof {
                    reveal_strlit("_");
                }
                out.append("_");
                assert(out@ =~= before.push('_'));
            } else {
                let piece = name.substring_char(i, i + 1);
                out.append(piece);
                assert(piece@ =~= seq![c]);
                assert(out@ =~= before.push(c));
            }
            assert(name@.subrange(0, i + 1) =~= name@.subrange(0, i as int).push(c));
            assert(sanitized_name(name@.subrange(0, i + 1)) =~= sanitized_name(
                name@.subrange(0, i as int),
            ).push(if c == ':' { '_' } else { c }));
            i = i + 1;
        }
        assert(name@.subrange(0, n as int) == name@);
        self.name = out;
        Ok(())
    }
}

/// A channel layout, known to the library by the address of libsoundio's
/// layout object.
#[derive(Debug)]
pub struct ChannelLayout {
    layout: usize,
}

impl ChannelLayout {
    /// The address of the libsoundio layout object.
    pub closed spec fn handle_spec(&self) -> usize {
        self.layout
    }

    /// Wraps the libsoundio layout object found at `raw_layout`.
    pub fn new(raw_layout: usize) -> (l: ChannelLayout)
        ensures
            l.handle_spec() == raw_layout,
    {
        ChannelLayout { layout: raw_layout }
    }

    /// Returns the address of the libsoundio layout object.
    pub fn handle(&self) -> (h: usize)
        ensures
            h == self.handle_spec(),
    {
        self.layout
    }

    /// The layout at an address libsoundio returned, `None` for a null
    /// address.
    pub fn from_handle(raw_layout: usize) -> (r: Option<ChannelLayout>)
        ensures
            r is Some <==> raw_layout != 0,
            r matches Some(l) ==> l.handle_spec() == raw_layout,
    {
        if raw_layout == 0 {
            None
        } else {
            Some(ChannelLayout::new(raw_layout))
        }
    }

    /// Where the layout libsoundio picked as best match lies among the
    /// layouts it was offered: `offered` holds the addresses of the offered
    /// layouts in order and `found` the address libsoundio returned. The
    /// result is the first position holding `found`; none for a null
    /// address or one that was not offered.
    pub fn matching_position(offered: &[usize], found: usize) -> (r: Option<usize>)
        ensures
            r is None <==> found == 0 || !offered@.contains(found),
            r matches Some(i) ==> i < offered@.len() && offered@[i as int] == found && forall|
                j: int,
            |
                0 <= j < i ==> offered@[j] != found,
    {
        if found == 0 {
            return None;
        }
        let mut i: usize = 0;
        while i < offered.len()
            invariant
                found != 0,
                i <= offered@.len(),
                forall|j: int| 0 <= j < i ==> offered@[j] != found,
            decreases offered@.len() - i,
        {
            if offered[i] == found {
                assert(offered@.contains(found)) by {
                    assert(offered@[i as int] == found);
                }
                return Some(i);
            }
            i = i + 1;
        }
        None
    }

    /// Which builtin layout to fetch for `idx`, given the number of builtin
    /// layouts libsoundio reports: none when `idx` is out of range.
    pub fn builtin_index(idx: u32, builtin_count: i32) -> (r: Option<i32>)
        ensures
            r is Some <==> idx < builtin_count as u32,
            r matches Some(i) ==> i == idx as i32,
            builtin_count >= 0 ==> (r is Some <==> idx < builtin_count),
            builtin_count >= 0 && r is Some ==> r == Some(idx as i32) && idx as i32 == idx,
    {
        if idx < builtin_count as u32 {
            Some(idx as i32)
        } else {
            None
        }
    }

    /// Which channel count to ask libsoundio the default layout for: none
    /// when `channel_count` is not below `MAX_CHANNELS`.
    pub fn default_index(channel_count: u32) -> (r: Option<i32>)
        ensures
            r is Some <==> channel_count < MAX_CHANNELS,
            r matches Some(c) ==> c == channel_count,
    {
        if channel_count < MAX_CHANNELS {
            Some(channel_count as i32)
        } else {
            None
        }
    }
}

/// An audio device, known to the library by the address of libsoundio's
/// device object.
#[derive(Debug)]
pub struct Device {
    device: usize,
}

impl Device {
    /// The address of the libsoundio device object.
    pub closed spec fn handle_spec(&self) -> usize {
        self.device
    }

    /// Wraps the libsoundio device object found at `dev_ptr`.
    pub fn new(dev_ptr: usize) -> (d: Device)
        ensures
            d.handle_spec() == dev_ptr,
    {
        Device { device: dev_ptr }
    }

    /// Returns the address of the libsoundio device object.
    pub fn handle(&self) -> (h: usize)
        ensures
            h == self.handle_spec(),
    {
        self.device
    }

    /// The device at an address libsoundio returned, `None` for a null
    /// address.
    pub fn from_handle(dev_ptr: usize) -> (r: Option<Device>)
        ensures
            r is Some <==> dev_ptr != 0,
            r matches Some(d) ==> d.handle_spec() == dev_ptr,
    {
        if dev_ptr == 0 {
            None
        } else {
            Some(Device::new(dev_ptr))
        }
    }

    /// The stream at an address libsoundio returned when asked to create an
    /// output stream: a null address means that memory ran out.
    pub fn outstream_from_handle(stream_ptr: usize) -> (r: SioResult<OutStream>)
        ensures
            r is Err <==> stream_ptr == 0,
            r matches Err(e) ==> e == SioError::NoMem,
            r matches Ok(s) ==> s.handle_spec() == stream_ptr,
    {
        if stream_ptr == 0 {
            Err(SioError::NoMem)
        } else {
            Ok(OutStream::new(stream_ptr))
        }
    }
}

} // verus!
