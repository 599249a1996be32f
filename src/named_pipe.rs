//! The decisions around the operating system's named-pipe calls: the kernel
//! name of a pipe, the options a server instance and a client open it with,
//! and what the return of an overlapped connect, read or write means.
use crate::overlapped::PipeError;
use vstd::prelude::*;
use vstd::string::StringExecFns;

verus! {

/// The operation went on in the background; its completion will be posted.
pub const ERROR_IO_PENDING: i32 = 997;

/// A read found the pipe empty.
pub const ERROR_NO_DATA: i32 = 232;

/// A client connected before the server asked for one.
pub const ERROR_PIPE_CONNECTED: i32 = 535;

pub const PIPE_ACCESS_DUPLEX: u32 = 0x3;

pub const FILE_FLAG_OVERLAPPED: u32 = 0x40000000;

pub const FILE_FLAG_FIRST_PIPE_INSTANCE: u32 = 0x80000;

pub const PIPE_TYPE_BYTE: u32 = 0x0;

pub const PIPE_READMODE_BYTE: u32 = 0x0;

pub const PIPE_WAIT: u32 = 0x0;

pub const PIPE_REJECT_REMOTE_CLIENTS: u32 = 0x8;

pub const PIPE_UNLIMITED_INSTANCES: u32 = 255;

pub const GENERIC_READ: u32 = 0x80000000;

pub const GENERIC_WRITE: u32 = 0x40000000;

pub const FILE_SHARE_READ: u32 = 0x1;

pub const FILE_SHARE_WRITE: u32 = 0x2;

pub const OPEN_EXISTING: u32 = 3;

/// The namespace of local pipes, `\\.\pipe\`.
pub open spec fn pipe_prefix() -> Seq<char> {
    seq!['\\', '\\', '.', '\\', 'p', 'i', 'p', 'e', '\\']
}

/// The UTF-16 code units of one character.
pub open spec fn utf16_of_char(c: char) -> Seq<u16> {
    let v = c as u32;
    if v < 0x10000 {
        seq![v as u16]
    } else {
        let w = (v - 0x10000) as u32;
        seq![(0xD800 + w / 0x400) as u16, (0xDC00 + w % 0x400) as u16]
    }
}

/// The UTF-16 encoding of a string.
pub open spec fn utf16(s: Seq<char>) -> Seq<u16>
    decreases s.len(),
{
    if s.len() == 0 {
        Seq::empty()
    } else {
        utf16_of_char(s[0]) + utf16(s.drop_first())
    }
}

/// Relies on `str::encode_utf16`: the string's characters in UTF-16, in order.
#[verifier::external_body]
fn encode_utf16(s: &str) -> (r: Vec<u16>)
    ensures
        r@ == utf16(s@),
{
    s.encode_utf16().collect()
}

/// The kernel path of the pipe called `name`: the local pipe namespace
/// followed by the name.
pub fn pipe_path(name: &str) -> (r: String)
    ensures
        r@ == pipe_prefix() + name@,
{
    let mut path = String::from_str("\\\\.\\pipe\\");
    proof {
        reveal_strlit("\\\\.\\pipe\\");
        assert(path@ =~= pipe_prefix());
    }
    path.append(name);
    path
}

/// The wide, NUL-terminated form of a kernel path that the pipe calls take.
pub fn make_pipe_name(path: &str) -> (r: Vec<u16>)
    ensures
        r@ == utf16(path@).push(0u16),
{
    let mut units = encode_utf16(path);
    units.push(0u16);
    units
}

/// How a server instance of a pipe is created.
pub struct PipeServerOptions {
    /// The wide, NUL-terminated kernel path.
    pub name: Vec<u16>,
    pub open_mode: u32,
    pub pipe_mode: u32,
    pub max_instances: u32,
    pub out_buffer_size: u32,
    pub in_buffer_size: u32,
    pub default_timeout: u32,
}

/// How a client opens a pipe.
pub struct PipeClientOptions {
    /// The wide, NUL-terminated kernel path.
    pub name: Vec<u16>,
    pub desired_access: u32,
    pub share_mode: u32,
    pub creation_disposition: u32,
    pub flags: u32,
}

/// The options of a server instance on kernel path `path`: duplex,
/// overlapped, byte-oriented and blocking, any number of instances, buffer
/// sizes left to the system, and remote clients always refused. Only the
/// first instance of a name claims to be the first.
pub fn server_options(path: &str, first: bool) -> (o: PipeServerOptions)
    ensures
        o.name@ == utf16(path@).push(0u16),
        o.open_mode == (PIPE_ACCESS_DUPLEX | FILE_FLAG_OVERLAPPED | if first {
            FILE_FLAG_FIRST_PIPE_INSTANCE
        } else {
            0u32
        }),
        o.open_mode & FILE_FLAG_OVERLAPPED != 0,
        (o.open_mode & FILE_FLAG_FIRST_PIPE_INSTANCE != 0) == first,
        o.pipe_mode == (PIPE_TYPE_BYTE | PIPE_READMODE_BYTE | PIPE_WAIT | PIPE_REJECT_REMOTE_CLIENTS),
        o.pipe_mode & PIPE_REJECT_REMOTE_CLIENTS != 0,
        o.max_instances == PIPE_UNLIMITED_INSTANCES,
        o.out_buffer_size == 0,
        o.in_buffer_size == 0,
        o.default_timeout == 0,
{
    let first_instance: u32 = if first {
        FILE_FLAG_FIRST_PIPE_INSTANCE
    } else {
        0
    };
    let open_mode = PIPE_ACCESS_DUPLEX | FILE_FLAG_OVERLAPPED | first_instance;
    let pipe_mode = PIPE_TYPE_BYTE | PIPE_READMODE_BYTE | PIPE_WAIT | PIPE_REJECT_REMOTE_CLIENTS;
    assert((0x3u32 | 0x40000000u32 | 0x80000u32) & 0x40000000u32 != 0) by (bit_vector);
    assert((0x3u32 | 0x40000000u32 | 0x80000u32) & 0x80000u32 != 0) by (bit_vector);
    assert((0x3u32 | 0x40000000u32 | 0u32) & 0x40000000u32 != 0) by (bit_vector);
    assert((0x3u32 | 0x40000000u32 | 0u32) & 0x80000u32 == 0) by (bit_vector);
    assert((0u32 | 0u32 | 0u32 | 0x8u32) & 0x8u32 != 0) by (bit_vector);
    PipeServerOptions {
        name: make_pipe_name(path),
        open_mode,
        pipe_mode,
        max_instances: PIPE_UNLIMITED_INSTANCES,
        out_buffer_size: 0,
        in_buffer_size: 0,
        default_timeout: 0,
    }
}

/// Opens a connection to an existing pipe server.
pub struct NamedPipeClient {}

impl NamedPipeClient {
    /// The options a client of the pipe called `name` opens it with: read
    /// and write access, sharing both, an existing pipe only, overlapped.
    pub fn options(name: &str) -> (o: PipeClientOptions)
        ensures
            o.name@ == utf16(pipe_prefix() + name@).push(0u16),
            o.desired_access == (GENERIC_READ | GENERIC_WRITE),
            o.share_mode == (FILE_SHARE_READ | FILE_SHARE_WRITE),
            o.creation_disposition == OPEN_EXISTING,
            o.flags == FILE_FLAG_OVERLAPPED,
    {
        let path = pipe_path(name);
        PipeClientOptions {
            name: make_pipe_name(path.as_str()),
            desired_access: GENERIC_READ | GENERIC_WRITE,
            share_mode: FILE_SHARE_READ | FILE_SHARE_WRITE,
            creation_disposition: OPEN_EXISTING,
            flags: FILE_FLAG_OVERLAPPED,
        }
    }
}

/// What the return of a call that issues an overlapped read or write means.
#[derive(Clone, Copy, Debug, PartialEq, Eq, Structural)]
pub enum IoStart {
    /// It finished at once, moving this many bytes; no completion follows.
    Done(u32),
    /// It goes on in the background; await its completion.
    Pending,
    /// It failed.
    Failed(PipeError),
}

/// The meaning of an overlapped read's return: done at once, pending, an
/// empty pipe (which reads as zero bytes), or an error.
pub fn read_outcome(succeeded: bool, bytes_read: u32, last_error: i32) -> (r: IoStart)
    ensures
        succeeded ==> r == IoStart::Done(bytes_read),
        !succeeded && last_error == ERROR_IO_PENDING ==> r == IoStart::Pending,
        !succeeded && last_error == ERROR_NO_DATA ==> r == IoStart::Done(0),
        !succeeded && last_error != ERROR_IO_PENDING && last_error != ERROR_NO_DATA ==> r
            == IoStart::Failed(PipeError::Os(last_error)),
{
    if succeeded {
        IoStart::Done(bytes_read)
    } else if last_error == ERROR_IO_PENDING {
        IoStart::Pending
    } else if last_error == ERROR_NO_DATA {
        IoStart::Done(0)
    } else {
        IoStart::Failed(PipeError::Os(last_error))
    }
}

/// The meaning of an overlapped write's return: done at once, pending, or an
/// error.
pub fn write_outcome(succeeded: bool, bytes_written: u32, last_error: i32) -> (r: IoStart)
    ensures
        succeeded ==> r == IoStart::Done(bytes_written),
        !succeeded && last_error == ERROR_IO_PENDING ==> r == IoStart::Pending,
        !succeeded && last_error != ERROR_IO_PENDING ==> r == IoStart::Failed(
            PipeError::Os(last_error),
        ),
{
    if succeeded {
        IoStart::Done(bytes_written)
    } else if last_error == ERROR_IO_PENDING {
        IoStart::Pending
    } else {
        IoStart::Failed(PipeError::Os(last_error))
    }
}

/// A server instance waiting for its client: carries the listening pipe
/// from the connect call to the connection it becomes.
pub struct PipeConnectionFuture<H> {
    pipe: H,
    issued: bool,
}

/// Where a connect stands after the connect call returned.
pub enum ConnectProgress<H> {
    /// A client is connected to this pipe.
    Connected(H),
    /// The connect goes on in the background; await its completion.
    Pending(PipeConnectionFuture<H>),
    /// The connect failed.
    Failed(PipeError),
}

impl<H> PipeConnectionFuture<H> {
    /// The listening pipe.
    pub closed spec fn pipe(&self) -> H {
        self.pipe
    }

    /// Whether the connect call has been made and went on in the background.
    pub closed spec fn issued(&self) -> bool {
        self.issued
    }

    /// Starts a connect on the listening `pipe`.
    pub fn new(pipe: H) -> (f: PipeConnectionFuture<H>)
        ensures
            f.pipe() == pipe,
            !f.issued(),
    {
        PipeConnectionFuture { pipe, issued: false }
    }

    /// Takes the return of the connect call. A client that connected before
    /// the call counts as connected.
    pub fn connect_returned(self, succeeded: bool, last_error: i32) -> (p: ConnectProgress<H>)
        requires
            !self.issued(),
        ensures
            succeeded || last_error == ERROR_PIPE_CONNECTED ==> p == ConnectProgress::Connected(
                self.pipe(),
            ),
            !succeeded && last_error == ERROR_IO_PENDING ==> p is Pending && p->Pending_0.pipe()
                == self.pipe() && p->Pending_0.issued(),
            !succeeded && last_error != ERROR_PIPE_CONNECTED && last_error != ERROR_IO_PENDING
                ==> p == ConnectProgress::<H>::Failed(PipeError::Os(last_error)),
    {
        if succeeded || last_error == ERROR_PIPE_CONNECTED {
            ConnectProgress::Connected(self.pipe)
        } else if last_error == ERROR_IO_PENDING {
            ConnectProgress::Pending(PipeConnectionFuture { pipe: self.pipe, issued: true })
        } else {
            ConnectProgress::Failed(PipeError::Os(last_error))
        }
    }

    /// Takes the awaited completion of a connect that went on in the
    /// background: the connected pipe, or the error.
    pub fn completed(self, result: Result<u32, PipeError>) -> (r: Result<H, PipeError>)
        requires
            self.issued(),
        ensures
            result is Ok ==> r == Ok::<H, PipeError>(self.pipe()),
            result is Err ==> r == Err::<H, PipeError>(result->Err_0),
    {
        match result {
            Ok(_) => Ok(self.pipe),
            Err(e) => Err(e),
        }
    }
}

} // verus!
