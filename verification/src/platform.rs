//! What a socket can do on each kind of system.
use vstd::prelude::*;

verus! {

/// The kind of system a socket runs on.
#[derive(Clone, Copy, Debug, PartialEq, Eq, Structural)]
pub enum Platform {
    /// macOS.
    MacOs,
    /// Any other Unix.
    Unix,
    /// Windows.
    Windows,
    /// Anything else.
    Other,
}

/// How a socket hands several buffers to the system as one datagram.
#[derive(Clone, Copy, Debug, PartialEq, Eq, Structural)]
pub enum Backend {
    /// By one `sendmsg(2)` call over all of them.
    Vectored,
    /// By copying them into one buffer first.
    Concatenating,
}

impl Platform {
    /// Whether the system is a Unix.
    pub open spec fn is_unix(self) -> bool {
        self is MacOs || self is Unix
    }

    /// The backend that sockets have on the system.
    pub open spec fn spec_backend(self) -> Backend {
        if self.is_unix() {
            Backend::Vectored
        } else {
            Backend::Concatenating
        }
    }

    /// The backend that sockets have on the system.
    pub fn backend(self) -> (backend: Backend)
        ensures
            backend == self.spec_backend(),
    {
        match self {
            Platform::MacOs => Backend::Vectored,
            Platform::Unix => Backend::Vectored,
            Platform::Windows => Backend::Concatenating,
            Platform::Other => Backend::Concatenating,
        }
    }
}

/// Whether a vectored send on the system is a single call that copies nothing.
/// Where it is not, the buffers are copied into one before they are sent.
pub fn is_vectored_supported(platform: Platform) -> (supported: bool)
    ensures
        supported == platform.is_unix(),
        supported == (platform.spec_backend() is Vectored),
{
    match platform.backend() {
        Backend::Vectored => true,
        Backend::Concatenating => false,
    }
}

/// How a send that would block waits for its turn.
#[derive(Clone, Copy, Debug, PartialEq, Eq, Structural)]
pub enum SendWait {
    /// The runtime reports when the socket is writable.
    Writable,
    /// The send is tried again on the schedule of
    /// [`Backoff`](crate::backoff::Backoff).
    Backoff,
    /// The runtime's own socket waits.
    Runtime,
}

/// How a standard socket that shares the system's handle is made.
#[derive(Clone, Copy, Debug, PartialEq, Eq, Structural)]
pub enum CloneMethod {
    /// The socket duplicates itself.
    Socket,
    /// The borrowed handle is duplicated.
    Handle,
}

/// The handle cannot be duplicated on this system.
#[derive(Clone, Copy, Debug, PartialEq, Eq, Structural)]
pub struct CloneUnsupported;

impl CloneUnsupported {
    /// The text shown for the error.
    pub open spec fn text(self) -> Seq<char> {
        "socket clone unsupported on this platform"@
    }

    /// The text shown for the error.
    pub fn message(self) -> (text: &'static str)
        ensures
            text@ == self.text(),
    {
        "socket clone unsupported on this platform"
    }
}

/// The fixed traits of a socket: the system it runs on and its backend.
#[derive(Clone, Copy, Debug, PartialEq, Eq, Structural)]
pub struct UdpSocket {
    platform: Platform,
    backend: Backend,
}

impl UdpSocket {
    /// The system the socket runs on.
    pub closed spec fn platform(self) -> Platform {
        self.platform
    }

    /// The backend of the socket.
    pub closed spec fn backend(self) -> Backend {
        self.backend
    }

    /// Only a Unix has the vectored backend.
    pub open spec fn wf(self) -> bool {
        self.backend() is Vectored ==> self.platform().is_unix()
    }

    /// A socket with the backend that the system has.
    pub fn new(platform: Platform) -> (socket: UdpSocket)
        ensures
            socket.wf(),
            socket.platform() == platform,
            socket.backend() == platform.spec_backend(),
    {
        UdpSocket { platform, backend: platform.backend() }
    }

    /// A socket that copies, on any system.
    pub fn fallback(platform: Platform) -> (socket: UdpSocket)
        ensures
            socket.wf(),
            socket.platform() == platform,
            socket.backend() == Backend::Concatenating,
    {
        UdpSocket { platform, backend: Backend::Concatenating }
    }

    /// How a send that would block waits for its turn.
    pub open spec fn spec_send_wait(self) -> SendWait {
        match self.backend() {
            Backend::Concatenating => SendWait::Runtime,
            Backend::Vectored => if self.platform() is MacOs {
                SendWait::Backoff
            } else {
                SendWait::Writable
            },
        }
    }

    /// How a send that would block waits for its turn.
    pub fn send_wait(&self) -> (wait: SendWait)
        ensures
            wait == self.spec_send_wait(),
    {
        match self.backend {
            Backend::Concatenating => SendWait::Runtime,
            Backend::Vectored => match self.platform {
                Platform::MacOs => SendWait::Backoff,
                _ => SendWait::Writable,
            },
        }
    }

    /// The backend of the socket.
    pub(crate) fn get_backend(&self) -> (backend: Backend)
        ensures
            backend == self.backend(),
    {
        self.backend
    }

    /// How a standard socket that shares the system's handle is made. A socket
    /// that copies has a handle to duplicate on Windows alone.
    pub fn try_clone_std(&self) -> (method: Result<CloneMethod, CloneUnsupported>)
        ensures
            method == (match self.backend() {
                Backend::Vectored => Ok(CloneMethod::Socket),
                Backend::Concatenating => if self.platform() is Windows {
                    Ok(CloneMethod::Handle)
                } else {
                    Err(CloneUnsupported)
                },
            }),
    {
        match self.backend {
            Backend::Vectored => Ok(CloneMethod::Socket),
            Backend::Concatenating => match self.platform {
                Platform::Windows => Ok(CloneMethod::Handle),
                _ => Err(CloneUnsupported),
            },
        }
    }
}

} // verus!
