//! Transports: what the registry holds for one open connection, and what a
//! transport decides about opening the connection and about one exchange
//! on it.
//!
//! A transport performs no input or output. Opening a connection and
//! exchanging a command for a reply are each split in two: the transport
//! first says what the caller must do on the wire, and is then handed how
//! that ended.

use vstd::prelude::*;
use vstd::string::*;
use vstd::utf8::{decode_utf8, encode_utf8, group_utf8_lib, is_char_boundary};

use crate::address::Address;
use crate::error::SkippyError;
use crate::text::{cut_line, first_line, frame, framed, trim, trimmed};

verus! {

/// The number of bytes that make up `tcp://`, which an address of a
/// stream socket starts with.
pub const TCP_PREFIX: usize = 6;

/// The most bytes that are read and thrown away as the greeting of a
/// stream socket.
pub const BANNER_LIMIT: usize = 256;

/// How the caller's attempt to open a connection ended.
#[derive(Clone, Copy, Debug, PartialEq, Eq, Structural)]
pub enum Handshake {
    /// The stream could not be opened.
    Refused,
    /// The stream was opened, but reading its greeting failed.
    BannerFailed,
    /// The stream is open and its greeting is out of the way.
    Established,
}

/// What the caller must do to open a connection.
#[derive(Debug)]
pub enum Dial {
    /// Open a stream to `endpoint`, then read at most `banner` bytes once
    /// and throw them away.
    Tcp { endpoint: String, banner: usize },
}

/// `Dial`, as contracts see it.
pub enum DialView {
    Tcp { endpoint: Seq<char>, banner: usize },
}

impl View for Dial {
    type V = DialView;

    open spec fn view(&self) -> DialView {
        match *self {
            Dial::Tcp { endpoint, banner } => DialView::Tcp { endpoint: endpoint@, banner },
        }
    }
}

/// One exchange that the caller must perform: write `request` on the
/// connection that it holds under `link`, read one line, and hand that line
/// back.
#[derive(Debug)]
pub struct Exchange {
    /// The number under which the caller holds the connection.
    pub link: u64,
    /// The text to write, line feed included.
    pub request: String,
}

/// `Exchange`, as contracts see it.
pub struct ExchangeView {
    pub link: u64,
    pub request: Seq<char>,
}

impl View for Exchange {
    type V = ExchangeView;

    open spec fn view(&self) -> ExchangeView {
        ExchangeView { link: self.link, request: self.request@ }
    }
}

/// A result, with the value that it may hold taken by its view.
pub open spec fn viewed<T: View>(result: Result<T, SkippyError>) -> Result<T::V, SkippyError> {
    match result {
        Ok(value) => Ok(value@),
        Err(error) => Err(error),
    }
}

/// A stream-socket transport. It stands for one open stream, which the
/// caller holds under the number `link`.
#[derive(Clone, Copy, Debug, PartialEq, Eq, Structural)]
pub struct TcpPhy {
    /// The number under which the caller holds the stream.
    pub link: u64,
}

impl TcpPhy {
    /// The target of a stream socket, given the text of its URL: what
    /// follows the first `TCP_PREFIX` bytes of the text. A text that cannot
    /// be cut there has no target.
    pub open spec fn spec_endpoint(text: Seq<char>) -> Option<Seq<char>> {
        let bytes = encode_utf8(text);
        if is_char_boundary(bytes, TCP_PREFIX as int) {
            Some(decode_utf8(bytes.skip(TCP_PREFIX as int)))
        } else {
            None
        }
    }

    /// How to open the stream of a URL with the given text: a stream to the
    /// text's target, with a greeting of at most `BANNER_LIMIT` bytes. A
    /// text without a target is refused as `UnsupportedAddress`.
    pub open spec fn spec_dial(text: Seq<char>) -> Result<DialView, SkippyError> {
        match Self::spec_endpoint(text) {
            Some(endpoint) => Ok(DialView::Tcp { endpoint, banner: BANNER_LIMIT }),
            None => Err(SkippyError::UnsupportedAddress),
        }
    }

    /// The transport that comes of an attempt to open a stream: one that
    /// holds `link` where the stream was established, and `ConnectFailed`
    /// where it was not.
    pub open spec fn spec_connect(handshake: Handshake, link: u64) -> Result<TcpPhy, SkippyError> {
        if handshake == Handshake::Established {
            Ok(TcpPhy { link })
        } else {
            Err(SkippyError::ConnectFailed)
        }
    }

    /// The exchange that carries `command` over this transport's stream:
    /// the command and the line feed that ends it are written, and the
    /// reply is handed back.
    pub open spec fn spec_send(self, command: Seq<char>) -> ExchangeView {
        ExchangeView { link: self.link, request: framed(command) }
    }

    /// The reply that a received text holds: its first line, without the
    /// white space at either end. No text at all is `TransportFailed`.
    pub open spec fn spec_receive(line: Option<Seq<char>>) -> Result<Seq<char>, SkippyError> {
        match line {
            Some(line) => Ok(trimmed(first_line(line))),
            None => Err(SkippyError::TransportFailed),
        }
    }

    /// Says how to open the stream that `url` names: to which target, and
    /// how much of a greeting to throw away. Fails with
    /// `UnsupportedAddress` where the URL is too short to name a target.
    pub fn dial(url: &Address) -> (dial: Result<Dial, SkippyError>)
        ensures
            viewed(dial) == Self::spec_dial(url.text@),
    {
        broadcast use group_utf8_lib;

        let text = url.text.as_str();
        if text.is_char_boundary(TCP_PREFIX) {
            let (_, target) = text.split_at(TCP_PREFIX);
            Ok(Dial::Tcp { endpoint: target.to_owned(), banner: BANNER_LIMIT })
        } else {
            Err(SkippyError::UnsupportedAddress)
        }
    }

    /// Makes the transport for a stream that the caller has tried to open
    /// and, if that went well, holds under `link`. Fails with
    /// `ConnectFailed` unless the stream is open and its greeting read.
    pub fn connect(handshake: Handshake, link: u64) -> (phy: Result<TcpPhy, SkippyError>)
        ensures
            phy == Self::spec_connect(handshake, link),
    {
        match handshake {
            Handshake::Established => Ok(TcpPhy { link }),
            Handshake::Refused => Err(SkippyError::ConnectFailed),
            Handshake::BannerFailed => Err(SkippyError::ConnectFailed),
        }
    }

    /// Says what to write for one exchange: `command` and one line feed
    /// after it, on this transport's stream.
    pub fn send(&self, command: &str) -> (exchange: Exchange)
        ensures
            exchange@ == self.spec_send(command@),
    {
        Exchange { link: self.link, request: frame(command) }
    }

    /// Reads the reply out of the text that the caller received: its first
    /// line, without the line feed that ends it and without the white space
    /// at either end. What follows the first line feed is dropped. `None`
    /// stands for a failure to write the request or to read a line, and
    /// gives `TransportFailed`.
    pub fn receive(line: Option<&str>) -> (reply: Result<String, SkippyError>)
        ensures
            viewed(reply) == Self::spec_receive(line_text(line)),
    {
        match line {
            Some(line) => Ok(trim(cut_line(line))),
            None => Err(SkippyError::TransportFailed),
        }
    }
}

/// A transport of one of the supported kinds.
#[derive(Clone, Copy, Debug, PartialEq, Eq, Structural)]
pub enum Adapter {
    /// A stream socket.
    Tcp(TcpPhy),
}

impl Adapter {
    /// The number under which the caller holds this transport's
    /// connection.
    pub open spec fn spec_link(self) -> u64 {
        match self {
            Adapter::Tcp(phy) => phy.link,
        }
    }

    /// How to open the connection of a URL, given its scheme and its text:
    /// as a stream socket where the scheme is `tcp`. Another scheme is
    /// refused as `UnsupportedProtocol`, and no URL at all as
    /// `UnsupportedAddress`.
    pub open spec fn spec_dial(url: Option<(Seq<char>, Seq<char>)>) -> Result<
        DialView,
        SkippyError,
    > {
        match url {
            None => Err(SkippyError::UnsupportedAddress),
            Some((scheme, text)) => if scheme == "tcp"@ {
                TcpPhy::spec_dial(text)
            } else {
                Err(SkippyError::UnsupportedProtocol)
            },
        }
    }

    /// The transport that comes of an attempt to open the connection of
    /// `dial`: one of the kind that `dial` names.
    pub open spec fn spec_connect(dial: DialView, handshake: Handshake, link: u64) -> Result<
        Adapter,
        SkippyError,
    > {
        match dial {
            DialView::Tcp { .. } => match TcpPhy::spec_connect(handshake, link) {
                Ok(phy) => Ok(Adapter::Tcp(phy)),
                Err(error) => Err(error),
            },
        }
    }

    /// The exchange that carries the command `scpi` over this transport:
    /// the one that the transport of its kind sends the command with.
    pub open spec fn spec_scpi(self, scpi: Seq<char>) -> ExchangeView {
        match self {
            Adapter::Tcp(phy) => phy.spec_send(scpi),
        }
    }

    /// Returns the number under which the caller holds this transport's
    /// connection.
    #[verifier::when_used_as_spec(spec_link)]
    pub fn link(self) -> (link: u64)
        ensures
            link == self.spec_link(),
    {
        match self {
            Adapter::Tcp(phy) => phy.link,
        }
    }

    /// Selects the kind of transport by the scheme of `url` and says how to
    /// open its connection. Only `tcp` is known. Fails with
    /// `UnsupportedAddress` where there is no URL or it names no target,
    /// with `UnsupportedProtocol` where the scheme is another.
    pub fn dial(url: Option<Address>) -> (dial: Result<Dial, SkippyError>)
        ensures
            viewed(dial) == Self::spec_dial(crate::address::address_parts(url)),
    {
        match url {
            None => Err(SkippyError::UnsupportedAddress),
            Some(url) => {
                let tcp = String::from_str("tcp");
                if url.scheme == tcp {
                    TcpPhy::dial(&url)
                } else {
                    Err(SkippyError::UnsupportedProtocol)
                }
            },
        }
    }

    /// Makes the transport of the kind that `dial` names, for a connection
    /// that the caller has tried to open and, if that went well, holds
    /// under `link`.
    pub fn connect(dial: &Dial, handshake: Handshake, link: u64) -> (adapter: Result<
        Adapter,
        SkippyError,
    >)
        ensures
            adapter == Self::spec_connect(dial@, handshake, link),
    {
        match dial {
            Dial::Tcp { .. } => match TcpPhy::connect(handshake, link) {
                Ok(phy) => Ok(Adapter::Tcp(phy)),
                Err(error) => Err(error),
            },
        }
    }

    /// Says what to write for the command `scpi`, and on which connection:
    /// as the transport of this kind frames and sends it.
    pub fn scpi(&self, scpi: &str) -> (exchange: Exchange)
        ensures
            exchange@ == self.spec_scpi(scpi@),
    {
        match self {
            Adapter::Tcp(phy) => phy.send(scpi),
        }
    }
}

/// The text of a line, if there is one.
pub open spec fn line_text(line: Option<&str>) -> Option<Seq<char>> {
    match line {
        Some(line) => Some(line@),
        None => None,
    }
}

impl ExchangeView {
    /// The outcome of this exchange, given the text that the caller
    /// received or that it received none: the reply that the text holds,
    /// or the failure to receive one.
    pub open spec fn reply(self, line: Option<Seq<char>>) -> Result<Seq<char>, SkippyError> {
        TcpPhy::spec_receive(line)
    }
}

impl Exchange {
    /// The second half of a command: reads the reply out of the text that
    /// the caller received on this exchange, which is its first line
    /// without the white space at either end. `None` stands for a failure
    /// to write the request or to read a line, and gives `TransportFailed`.
    pub fn reply(&self, line: Option<&str>) -> (reply: Result<String, SkippyError>)
        ensures
            viewed(reply) == self@.reply(line_text(line)),
    {
        TcpPhy::receive(line)
    }
}

} // verus!
