//! Errors of the TCP transport layer.
use vstd::prelude::*;
use crate::sys::io_error_text;
use crate::text::{dec_text, push_dec, push_str, text};
use crate::tcp::codec::MAX_TCP_PAYLOAD;

verus! {

/// All errors from the TCP transport layer.
#[derive(Debug)]
#[allow(inconsistent_fields)]
pub enum TcpError {
    /// Payload exceeds [`MAX_TCP_PAYLOAD`].
    PayloadTooLarge { len: usize },
    /// Socket bind failed.
    Bind { addr: String, source: std::io::Error },
    /// `connect()` failed.
    Connect { addr: String, source: std::io::Error },
    /// `accept()` failed.
    Accept { source: std::io::Error },
    /// Write to stream failed.
    Write { source: std::io::Error },
    /// Read from stream failed.
    Read { source: std::io::Error },
    /// The remote peer closed the connection cleanly.
    ConnectionClosed,
    /// Frame length prefix exceeds the configured maximum (or is too short
    /// to hold a frame header).
    FrameTooLarge { len: u32 },
    /// Set socket option failed.
    SockOpt { opt: &'static str, source: std::io::Error },
    /// An OS error not covered above.
    Os { source: std::io::Error },
}

impl TcpError {
    /// The message of this error, where `source` stands for the rendering
    /// of its underlying I/O error (unused by the variants that have none).
    pub open spec fn spec_message(&self, source: Seq<char>) -> Seq<char> {
        match self {
            TcpError::PayloadTooLarge { len } => "payload too large: "@ + dec_text(*len as nat)
                + " bytes (max "@ + dec_text(MAX_TCP_PAYLOAD as nat) + ")"@,
            TcpError::Bind { addr, .. } => "bind to '"@ + addr@ + "' failed: "@ + source,
            TcpError::Connect { addr, .. } => "connect to '"@ + addr@ + "' failed: "@ + source,
            TcpError::Accept { .. } => "accept failed: "@ + source,
            TcpError::Write { .. } => "TCP write failed: "@ + source,
            TcpError::Read { .. } => "TCP read failed: "@ + source,
            TcpError::ConnectionClosed => "remote peer closed connection"@,
            TcpError::FrameTooLarge { len } => "frame too large: "@ + dec_text(*len as nat)
                + " bytes"@,
            TcpError::SockOpt { opt, .. } => "setsockopt("@ + opt@ + ") failed: "@ + source,
            TcpError::Os { .. } => "OS error: "@ + source,
        }
    }

    /// The human-readable message of this error, given the text
    /// `source_text` of its underlying I/O error (unused by the variants
    /// that have none).
    pub fn message_with_source(&self, source_text: &str) -> (s: String)
        ensures
            s@ == self.spec_message(source_text@),
    {
        match self {
            TcpError::PayloadTooLarge { len } => {
                let mut s = text("payload too large: ");
                push_dec(&mut s, *len as u128);
                push_str(&mut s, " bytes (max ");
                push_dec(&mut s, MAX_TCP_PAYLOAD as u128);
                push_str(&mut s, ")");
                s
            },
            TcpError::Bind { addr, .. } => {
                let mut s = text("bind to '");
                push_str(&mut s, addr.as_str());
                push_str(&mut s, "' failed: ");
                push_str(&mut s, source_text);
                s
            },
            TcpError::Connect { addr, .. } => {
                let mut s = text("connect to '");
                push_str(&mut s, addr.as_str());
                push_str(&mut s, "' failed: ");
                push_str(&mut s, source_text);
                s
            },
            TcpError::Accept { .. } => {
                let mut s = text("accept failed: ");
                push_str(&mut s, source_text);
                s
            },
            TcpError::Write { .. } => {
                let mut s = text("TCP write failed: ");
                push_str(&mut s, source_text);
                s
            },
            TcpError::Read { .. } => {
                let mut s = text("TCP read failed: ");
                push_str(&mut s, source_text);
                s
            },
            TcpError::ConnectionClosed => {
                text("remote peer closed connection")
            },
            TcpError::FrameTooLarge { len } => {
                let mut s = text("frame too large: ");
                push_dec(&mut s, *len as u128);
                push_str(&mut s, " bytes");
                s
            },
            TcpError::SockOpt { opt, .. } => {
                let mut s = text("setsockopt(");
                push_str(&mut s, *opt);
                push_str(&mut s, ") failed: ");
                push_str(&mut s, source_text);
                s
            },
            TcpError::Os { .. } => {
                let mut s = text("OS error: ");
                push_str(&mut s, source_text);
                s
            },
        }
    }

    /// The human-readable message of this error: the message with the
    /// text of its underlying I/O error, as that error renders itself.
    pub fn to_string(&self) -> (s: String)
        ensures
            exists|source: Seq<char>| s@ == self.spec_message(source),
    {
        match self.source() {
            Some(e) => {
                let t = io_error_text(e);
                self.message_with_source(t.as_str())
            },
            None => self.message_with_source(""),
        }
    }

    /// The underlying I/O error, for the variants that carry one.
    pub fn source(&self) -> (r: Option<&std::io::Error>)
        ensures
            match self {
                TcpError::Bind { source, .. } => r == Some(source),
                TcpError::Connect { source, .. } => r == Some(source),
                TcpError::Accept { source } => r == Some(source),
                TcpError::Write { source } => r == Some(source),
                TcpError::Read { source } => r == Some(source),
                TcpError::SockOpt { source, .. } => r == Some(source),
                TcpError::Os { source } => r == Some(source),
                _ => r is None,
            },
    {
        match self {
            TcpError::Bind { source, .. } => Some(source),
            TcpError::Connect { source, .. } => Some(source),
            TcpError::Accept { source } => Some(source),
            TcpError::Write { source } => Some(source),
            TcpError::Read { source } => Some(source),
            TcpError::SockOpt { source, .. } => Some(source),
            TcpError::Os { source } => Some(source),
            _ => None,
        }
    }
}

} // verus!
