//! The error taxonomy reported to callers, and the translation of operating
//! system error conditions into it.

use vstd::prelude::*;

verus! {

/// The stable set of errors that every socket operation reports.
#[derive(Clone, Copy, Debug, PartialEq, Eq, Structural)]
pub enum ErrorCode {
    /// An OS failure with no more specific code.
    Unknown,
    /// The pool or the OS denied access to the address.
    AccessDenied,
    /// The platform cannot perform the requested operation.
    NotSupported,
    /// A malformed value: a zero backlog, a non-unicast address, an option
    /// that the socket's family does not have.
    InvalidArgument,
    /// The OS ran out of a resource other than socket handles.
    OutOfResources,
    /// The operation timed out.
    Timeout,
    /// Another start-phase operation is in flight on the socket.
    ConcurrencyConflict,
    /// A finish call without a matching start call in flight.
    NotInProgress,
    /// A non-blocking operation has no result yet; the caller retries.
    WouldBlock,
    /// The operation is illegal in the socket's current phase.
    InvalidState,
    /// The OS limit on open sockets was reached.
    NewSocketLimit,
    /// The address cannot be bound on this host.
    AddressNotBindable,
    /// The address is already in use.
    AddressInUse,
    /// The remote host or network cannot be reached.
    RemoteUnreachable,
    /// The remote host refused the connection.
    ConnectionRefused,
    /// The remote host reset the connection.
    ConnectionReset,
    /// The connection was aborted.
    ConnectionAborted,
    /// A datagram was too large to send.
    DatagramTooLarge,
}

/// An error condition as the operating system reported it, with the
/// platform's numbering already removed.
#[derive(Clone, Copy, Debug, PartialEq, Eq, Structural)]
pub enum OsError {
    /// The operation would block.
    WouldBlock,
    /// The call was interrupted.
    Interrupted,
    /// A non-blocking connect is under way.
    InProgress,
    NotPermitted,
    AccessDenied,
    AddressInUse,
    AddressNotAvailable,
    Already,
    TimedOut,
    ConnectionRefused,
    ConnectionReset,
    ConnectionAborted,
    InvalidInput,
    HostUnreachable,
    HostDown,
    NetworkDown,
    NetworkUnreachable,
    NoNetwork,
    IsConnected,
    NotConnected,
    DestinationAddressRequired,
    /// The system's table of open files is full.
    TooManyOpenFilesInSystem,
    /// The process has no descriptor left.
    TooManyOpenFiles,
    MessageTooLong,
    OutOfMemory,
    NoBufferSpace,
    OperationNotSupported,
    NoProtocolOption,
    ProtocolFamilyNotSupported,
    ProtocolNotSupported,
    WrongProtocolType,
    SocketTypeNotSupported,
    AddressFamilyNotSupported,
    /// Any condition not named above.
    Other,
}

/// The canonical translation of an OS error condition.
pub open spec fn os_error_code(e: OsError) -> ErrorCode {
    match e {
        OsError::WouldBlock | OsError::Interrupted => ErrorCode::WouldBlock,
        OsError::NotPermitted | OsError::AccessDenied => ErrorCode::AccessDenied,
        OsError::AddressInUse => ErrorCode::AddressInUse,
        OsError::AddressNotAvailable => ErrorCode::AddressNotBindable,
        OsError::Already => ErrorCode::ConcurrencyConflict,
        OsError::TimedOut => ErrorCode::Timeout,
        OsError::ConnectionRefused => ErrorCode::ConnectionRefused,
        OsError::ConnectionReset => ErrorCode::ConnectionReset,
        OsError::ConnectionAborted => ErrorCode::ConnectionAborted,
        OsError::InvalidInput => ErrorCode::InvalidArgument,
        OsError::HostUnreachable | OsError::HostDown | OsError::NetworkDown
        | OsError::NetworkUnreachable | OsError::NoNetwork => ErrorCode::RemoteUnreachable,
        OsError::IsConnected | OsError::NotConnected
        | OsError::DestinationAddressRequired => ErrorCode::InvalidState,
        OsError::TooManyOpenFilesInSystem | OsError::TooManyOpenFiles => ErrorCode::NewSocketLimit,
        OsError::MessageTooLong => ErrorCode::DatagramTooLarge,
        OsError::OutOfMemory | OsError::NoBufferSpace => ErrorCode::OutOfResources,
        OsError::OperationNotSupported | OsError::NoProtocolOption
        | OsError::ProtocolFamilyNotSupported | OsError::ProtocolNotSupported
        | OsError::WrongProtocolType | OsError::SocketTypeNotSupported
        | OsError::AddressFamilyNotSupported => ErrorCode::NotSupported,
        OsError::InProgress | OsError::Other => ErrorCode::Unknown,
    }
}

impl ErrorCode {
    /// Translates an OS error condition into the taxonomy.
    pub fn from_os_error(e: OsError) -> (code: ErrorCode)
        ensures
            code == os_error_code(e),
    {
        match e {
            OsError::WouldBlock | OsError::Interrupted => ErrorCode::WouldBlock,
            OsError::NotPermitted | OsError::AccessDenied => ErrorCode::AccessDenied,
            OsError::AddressInUse => ErrorCode::AddressInUse,
            OsError::AddressNotAvailable => ErrorCode::AddressNotBindable,
            OsError::Already => ErrorCode::ConcurrencyConflict,
            OsError::TimedOut => ErrorCode::Timeout,
            OsError::ConnectionRefused => ErrorCode::ConnectionRefused,
            OsError::ConnectionReset => ErrorCode::ConnectionReset,
            OsError::ConnectionAborted => ErrorCode::ConnectionAborted,
            OsError::InvalidInput => ErrorCode::InvalidArgument,
            OsError::HostUnreachable | OsError::HostDown | OsError::NetworkDown
            | OsError::NetworkUnreachable | OsError::NoNetwork => ErrorCode::RemoteUnreachable,
            OsError::IsConnected | OsError::NotConnected
            | OsError::DestinationAddressRequired => ErrorCode::InvalidState,
            OsError::TooManyOpenFilesInSystem | OsError::TooManyOpenFiles => {
                ErrorCode::NewSocketLimit
            },
            OsError::MessageTooLong => ErrorCode::DatagramTooLarge,
            OsError::OutOfMemory | OsError::NoBufferSpace => ErrorCode::OutOfResources,
            OsError::OperationNotSupported | OsError::NoProtocolOption
            | OsError::ProtocolFamilyNotSupported | OsError::ProtocolNotSupported
            | OsError::WrongProtocolType | OsError::SocketTypeNotSupported
            | OsError::AddressFamilyNotSupported => ErrorCode::NotSupported,
            OsError::InProgress | OsError::Other => ErrorCode::Unknown,
        }
    }
}

} // verus!
