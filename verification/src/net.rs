//! Sockets for coroutines, over mio's non-blocking TCP sockets, and the search
//! over the addresses a name resolves to.
use vstd::prelude::*;
use mio::tcp::TcpSocket as RawSocket;
use mio::tcp::TcpListener as RawListener;
use mio::tcp::TcpStream as RawStream;

verus! {

#[verifier::external_type_specification]
#[verifier::external_body]
pub struct ExIoError(std::io::Error);

#[verifier::external_type_specification]
#[verifier::external_body]
pub struct ExMioTcpSocket(RawSocket);

#[verifier::external_type_specification]
#[verifier::external_body]
pub struct ExMioTcpListener(RawListener);

#[verifier::external_type_specification]
#[verifier::external_body]
pub struct ExMioTcpStream(RawStream);

/// `mio::tcp::TcpSocket::v4` (imported as `RawSocket`): asks the system for a new, unbound,
/// non-blocking IPv4 socket. Whether the system gives one is not stated.
pub assume_specification[RawSocket::v4]() -> std::io::Result<RawSocket>;

/// `mio::tcp::TcpSocket::v6`: asks the system for a new, unbound,
/// non-blocking IPv6 socket. Whether the system gives one is not stated.
pub assume_specification[RawSocket::v6]() -> std::io::Result<RawSocket>;

/// `mio::tcp::TcpSocket::listen`: marks the socket as listening with the given
/// backlog. Whether the system accepts is not stated.
pub assume_specification[RawSocket::listen](sock: RawSocket, backlog: usize)
    -> std::io::Result<RawListener>;

/// `mio::tcp::TcpStream::try_clone` (imported as `RawStream`): duplicates the descriptor. Whether the
/// system gives a new one is not stated.
pub assume_specification[RawStream::try_clone](stream: &RawStream)
    -> std::io::Result<RawStream>;

/// The kinds of I/O error that this library makes itself.
#[derive(Clone, Copy, PartialEq, Eq, Structural, Debug)]
pub enum IoErrorKind {
    /// `std::io::ErrorKind::Unsupported`.
    Unsupported,
    /// `std::io::ErrorKind::InvalidInput`.
    InvalidInput,
}

/// The error that `std::io::Error::new` makes from a kind and a message.
pub uninterp spec fn io_error(kind: IoErrorKind, message: Seq<char>) -> std::io::Error;

/// Calls `std::io::Error::new(kind, message)`, which makes an error of that
/// kind that carries a copy of the message: what it makes is given by its two
/// arguments alone, and is named `io_error`.
#[verifier::external_body]
fn new_io_error(kind: IoErrorKind, message: &str) -> (e: std::io::Error)
    ensures
        e == io_error(kind, message@),
{
    let kind = match kind {
        IoErrorKind::Unsupported => std::io::ErrorKind::Unsupported,
        IoErrorKind::InvalidInput => std::io::ErrorKind::InvalidInput,
    };
    std::io::Error::new(kind, message)
}

/// A non-blocking TCP socket that is neither connected nor listening yet.
pub struct TcpSocket(pub RawSocket);

/// What an outside call that makes a socket gave, as this library's socket.
pub open spec fn socket_result(r: std::io::Result<RawSocket>) -> std::io::Result<TcpSocket> {
    match r {
        Ok(sock) => Ok(TcpSocket(sock)),
        Err(e) => Err(e),
    }
}

/// What an outside call that makes a listener gave, as this library's listener.
pub open spec fn listener_result(r: std::io::Result<RawListener>) -> std::io::Result<TcpListener> {
    match r {
        Ok(listener) => Ok(TcpListener(listener)),
        Err(e) => Err(e),
    }
}

/// What an outside call that makes a stream gave, as this library's stream.
pub open spec fn stream_result(r: std::io::Result<RawStream>) -> std::io::Result<TcpStream> {
    match r {
        Ok(stream) => Ok(TcpStream(stream)),
        Err(e) => Err(e),
    }
}

impl TcpSocket {
    /// A new, unbound, non-blocking IPv4 socket, or the system's error.
    pub fn v4() -> std::io::Result<TcpSocket> {
        TcpSocket::from_raw(RawSocket::v4())
    }

    /// A new, unbound, non-blocking IPv6 socket, or the system's error.
    pub fn v6() -> std::io::Result<TcpSocket> {
        TcpSocket::from_raw(RawSocket::v6())
    }

    /// The socket that mio gave, or its error, as this library's socket.
    pub fn from_raw(r: std::io::Result<RawSocket>) -> (out: std::io::Result<TcpSocket>)
        ensures
            out == socket_result(r),
    {
        match r {
            Ok(sock) => Ok(TcpSocket(sock)),
            Err(e) => Err(e),
        }
    }

    /// Turns the socket into a listener with the given backlog, or gives the
    /// system's error.
    pub fn listen(self, backlog: usize) -> std::io::Result<TcpListener> {
        TcpListener::from_raw(self.0.listen(backlog))
    }
}

impl std::ops::Deref for TcpSocket {
    type Target = RawSocket;

    fn deref(&self) -> (inner: &RawSocket)
        ensures
            *inner == self.0,
    {
        &self.0
    }
}

/// A listening socket whose `accept` parks the coroutine until a connection
/// comes.
pub struct TcpListener(pub RawListener);

impl TcpListener {
    /// The listener that mio gave, or its error, as this library's listener.
    pub fn from_raw(r: std::io::Result<RawListener>) -> (out: std::io::Result<TcpListener>)
        ensures
            out == listener_result(r),
    {
        match r {
            Ok(listener) => Ok(TcpListener(listener)),
            Err(e) => Err(e),
        }
    }
}

impl std::ops::Deref for TcpListener {
    type Target = RawListener;

    fn deref(&self) -> (inner: &RawListener)
        ensures
            *inner == self.0,
    {
        &self.0
    }
}

/// A connected socket whose reads and writes park the coroutine until the
/// socket is ready.
pub struct TcpStream(pub RawStream);

impl TcpStream {
    /// A second handle on the same connection, or the system's error.
    pub fn try_clone(&self) -> std::io::Result<TcpStream> {
        TcpStream::from_raw(self.0.try_clone())
    }

    /// The stream that mio gave, or its error, as this library's stream.
    pub fn from_raw(r: std::io::Result<RawStream>) -> (out: std::io::Result<TcpStream>)
        ensures
            out == stream_result(r),
    {
        match r {
            Ok(stream) => Ok(TcpStream(stream)),
            Err(e) => Err(e),
        }
    }
}

impl std::ops::Deref for TcpStream {
    type Target = RawStream;

    fn deref(&self) -> (inner: &RawStream)
        ensures
            *inner == self.0,
    {
        &self.0
    }
}

/// The result of a host lookup.
pub struct LookupHost;

/// Host lookup is not provided: every name gives an `Unsupported` error.
pub fn lookup_host(host: &str) -> (r: std::io::Result<LookupHost>)
    ensures
        r matches Err(e) && e == io_error(IoErrorKind::Unsupported, "host lookup is not implemented"@),
{
    Err(new_io_error(IoErrorKind::Unsupported, "host lookup is not implemented"))
}

/// The search for the first address that a connection or bind succeeds on.
/// Addresses are tried in order; the first success ends the search; when none
/// succeeds, the error of the last address tried is the answer, or an
/// `InvalidInput` error when there was no address at all.
pub struct AddrSearch {
    last_err: Option<std::io::Error>,
}

impl AddrSearch {
    pub closed spec fn view(&self) -> Option<std::io::Error> {
        self.last_err
    }

    /// No address tried yet.
    pub fn new() -> (s: AddrSearch)
        ensures
            s@.is_none(),
    {
        AddrSearch { last_err: None }
    }

    /// What trying the next address gave. `Some` ends the search with that
    /// value; an error is kept as the last one.
    pub fn attempt<T>(&mut self, outcome: std::io::Result<T>) -> (found: Option<T>)
        ensures
            match outcome {
                Ok(v) => found == Some(v) && final(self)@ == old(self)@,
                Err(e) => found.is_none() && final(self)@ == Some(e),
            },
    {
        match outcome {
            Ok(v) => Some(v),
            Err(e) => {
                self.last_err = Some(e);
                None
            },
        }
    }

    /// Every address failed, or there was none: the error to report.
    pub fn finish(self) -> (e: std::io::Error)
        ensures
            self@.is_some() ==> e == self@.unwrap(),
            self@.is_none() ==> e == io_error(IoErrorKind::InvalidInput, "could not resolve to any addresses"@),
    {
        match self.last_err {
            Some(e) => e,
            None => new_io_error(IoErrorKind::InvalidInput, "could not resolve to any addresses"),
        }
    }
}

} // verus!
