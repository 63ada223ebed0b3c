//! The signals that the streaming endpoint sends to the web view: one when
//! a connection has data to pop, one when it has been cleaned up.

use vstd::prelude::*;

verus! {

/// The name of the event that carries every signal.
pub const BIN_IPC_EVENT_NAME: &'static str = "bin-ipc-signal";

/// The kind of a signal.
#[derive(Debug, Clone, Copy, PartialEq, Eq, Structural)]
pub enum IpcEventType {
    ReadyToPop,
    CleanUp,
}

impl IpcEventType {
    /// The name of the kind on the wire.
    pub fn as_str(&self) -> (r: &'static str)
        ensures
            r@ == (match self {
                IpcEventType::ReadyToPop => "ready-to-pop"@,
                IpcEventType::CleanUp => "cleanup"@,
            }),
    {
        match self {
            IpcEventType::ReadyToPop => "ready-to-pop",
            IpcEventType::CleanUp => "cleanup",
        }
    }
}

/// The payload of a signal: its kind, and the scheme and id of the
/// connection it concerns.
#[derive(Debug, Clone, Copy, PartialEq, Eq)]
pub struct IpcEvent<'a> {
    pub ty: IpcEventType,
    pub scheme: &'a str,
    pub id: usize,
}

/// Makes the signals of one connection.
pub struct EventEmitter<'a> {
    scheme: &'a str,
    id: usize,
}

impl<'a> EventEmitter<'a> {
    pub closed spec fn spec_scheme(&self) -> &'a str {
        self.scheme
    }

    pub closed spec fn spec_id(&self) -> usize {
        self.id
    }

    /// The emitter for connection `id` of `scheme`.
    pub fn new(scheme: &'a str, id: usize) -> (r: Self)
        ensures
            r.spec_scheme() == scheme,
            r.spec_id() == id,
    {
        Self { scheme, id }
    }

    /// The payload of a signal of kind `ty`.
    fn event(&self, ty: IpcEventType) -> (r: IpcEvent<'a>)
        ensures
            r == (IpcEvent { ty, scheme: self.spec_scheme(), id: self.spec_id() }),
    {
        IpcEvent { ty, scheme: self.scheme, id: self.id }
    }

    /// The payload that tells the web view to pop data.
    pub fn ready_event(&self) -> (r: IpcEvent<'a>)
        ensures
            r == (IpcEvent {
                ty: IpcEventType::ReadyToPop,
                scheme: self.spec_scheme(),
                id: self.spec_id(),
            }),
    {
        self.event(IpcEventType::ReadyToPop)
    }

    /// The payload that tells the web view the connection is gone.
    pub fn cleanup_event(&self) -> (r: IpcEvent<'a>)
        ensures
            r == (IpcEvent {
                ty: IpcEventType::CleanUp,
                scheme: self.spec_scheme(),
                id: self.spec_id(),
            }),
    {
        self.event(IpcEventType::CleanUp)
    }
}

} // verus!
