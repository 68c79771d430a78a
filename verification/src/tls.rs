//! The TLS driver: the head unit is the TLS client, and the engine's bytes
//! travel only inside control-channel frames. The engine itself is rustls;
//! the functions here feed it inbound record bytes, drain its outbound
//! records, and wrap handshake flights into frames.

use vstd::prelude::*;

use crate::frame::AndroidAutoFrame;
use crate::ids::MSG_SSL_HANDSHAKE;
use crate::message::{build_message_frame, message_header, message_payload};
use crate::{FrameReceiptError, FrameTransmissionError, SslHandshakeError};

verus! {

#[verifier::external_type_specification]
#[verifier::external_body]
/// The rustls client connection, treated as an opaque engine.
pub struct ExClientConnection(rustls::client::ClientConnection);

#[verifier::external_type_specification]
#[verifier::external_body]
/// The rustls error type, carried through the library's own errors.
pub struct ExRustlsError(rustls::Error);

#[verifier::external_type_specification]
#[verifier::external_body]
/// The standard I/O error type, carried through the library's own errors.
pub struct ExIoError(std::io::Error);

/// Relies on rustls CommonState::is_handshaking: true while the TLS
/// handshake is still in progress.
#[verifier::external_body]
pub(crate) fn tls_is_handshaking(conn: &rustls::client::ClientConnection) -> bool {
    conn.is_handshaking()
}

/// Relies on rustls CommonState::wants_read: whether the engine wants more
/// inbound TLS data.
#[verifier::external_body]
pub(crate) fn tls_wants_read(conn: &rustls::client::ClientConnection) -> bool {
    conn.wants_read()
}

/// Relies on rustls CommonState::wants_write: whether the engine has
/// outbound TLS data pending.
#[verifier::external_body]
pub(crate) fn tls_wants_write(conn: &rustls::client::ClientConnection) -> bool {
    conn.wants_write()
}

/// Relies on rustls ConnectionCommon::write_tls: drains the engine's
/// pending outbound TLS records into a buffer.
#[verifier::external_body]
pub(crate) fn tls_write_tls(conn: &mut rustls::client::ClientConnection) -> Result<
    Vec<u8>,
    std::io::Error,
> {
    let mut out: Vec<u8> = Vec::new();
    conn.write_tls(&mut out)?;
    Ok(out)
}

/// Relies on rustls ConnectionCommon::read_tls: reads TLS record bytes from
/// the given span into the engine, returning how many bytes it consumed,
/// which io::Read bounds by the bytes available.
#[verifier::external_body]
pub(crate) fn tls_read_tls(
    conn: &mut rustls::client::ClientConnection,
    data: &Vec<u8>,
    offset: usize,
) -> (r: Result<usize, std::io::Error>)
    requires
        offset <= data@.len(),
    ensures
        r matches Ok(n) ==> n <= data@.len() - offset,
{
    let mut cursor = std::io::Cursor::new(&data[offset..]);
    conn.read_tls(&mut cursor)
}

/// Relies on rustls ConnectionCommon::process_new_packets: decrypts and
/// validates buffered inbound records, making plaintext readable.
#[verifier::external_body]
pub(crate) fn tls_process_new_packets(conn: &mut rustls::client::ClientConnection) -> Result<
    (),
    rustls::Error,
> {
    match conn.process_new_packets() {
        Ok(_) => Ok(()),
        Err(e) => Err(e),
    }
}

/// Relies on rustls Writer::write_all: queues plaintext for encryption into
/// outbound TLS records.
#[verifier::external_body]
pub(crate) fn tls_submit_plaintext(
    conn: &mut rustls::client::ClientConnection,
    data: &Vec<u8>,
) -> Result<(), std::io::Error> {
    std::io::Write::write_all(&mut conn.writer(), data.as_slice())
}

/// Relies on rustls Reader::read: moves decrypted plaintext out of the
/// engine, filling at most the buffer handed to it.
#[verifier::external_body]
pub(crate) fn tls_read_plaintext(conn: &mut rustls::client::ClientConnection, max: usize) -> (r:
    Vec<u8>)
    ensures
        r@.len() <= max,
{
    let mut buf = vec![0u8; max];
    match std::io::Read::read(&mut conn.reader(), &mut buf) {
        Ok(n) => {
            buf.truncate(n);
            buf
        },
        Err(_) => Vec::new(),
    }
}

/// Run the engine over the payload of an encrypted frame, draining the
/// plaintext it recovers. What comes out is whatever the engine yields; the
/// session's logic is verified for every such outcome.
pub fn decrypt_payload(conn: &mut rustls::client::ClientConnection, data: &Vec<u8>) -> (r: Result<
    Vec<u8>,
    FrameReceiptError,
>)
    ensures
        data@.len() == 0 ==> (r matches Ok(p) && p@.len() == 0),
        r matches Err(e) ==> (e is TlsReadError || e is TlsProcessingError),
{
    let total = data.len();
    let mut plain: Vec<u8> = Vec::new();
    let mut offset: usize = 0;
    while offset < total
        invariant
            offset <= total,
            total == data@.len(),
            total == 0 ==> plain@.len() == 0,
        decreases total - offset,
    {
        let n = match tls_read_tls(conn, data, offset) {
            Ok(n) => n,
            Err(e) => {
                return Err(FrameReceiptError::TlsReadError(e));
            },
        };
        match tls_process_new_packets(conn) {
            Ok(()) => (),
            Err(e) => {
                return Err(FrameReceiptError::TlsProcessingError(e));
            },
        }
        if n == 0 {
            // The engine consumes nothing further; close_notify was seen.
            offset = total;
        } else {
            offset = offset + n;
            let mut chunk = tls_read_plaintext(conn, total);
            plain.append(&mut chunk);
        }
    }
    Ok(plain)
}

/// Encrypt a frame's payload and build its wire bytes: the payload goes
/// through the engine, and the emitted TLS records ride behind the header
/// as the frame's data, their length in the length field.
pub fn build_vec_encrypted(f: &AndroidAutoFrame, conn: &mut rustls::client::ClientConnection) -> (r:
    Result<Vec<u8>, FrameTransmissionError>)
    requires
        f.header.encryption,
        f.first_total is Some <==> f.header.frame_type == crate::frame::FrameHeaderType::First,
    ensures
        r matches Ok(bytes) ==> exists|d: Seq<u8>|
            d.len() <= 0xFFFF && bytes@ == crate::frame::spec_wire_bytes(
                f.header,
                f.first_total,
                d,
            ),
        r matches Err(e) ==> (e is Unexpected || e is Oversized),
{
    match tls_submit_plaintext(conn, &f.data) {
        Ok(()) => (),
        Err(e) => {
            return Err(FrameTransmissionError::Unexpected(e));
        },
    }
    let records = match tls_write_tls(conn) {
        Ok(d) => d,
        Err(e) => {
            return Err(FrameTransmissionError::Unexpected(e));
        },
    };
    if records.len() > 0xFFFF {
        return Err(FrameTransmissionError::Oversized);
    }
    let ghost d = records@;
    let ef = AndroidAutoFrame { header: f.header, data: records, first_total: f.first_total };
    let bytes = ef.build_vec();
    proof {
        assert(bytes@ == crate::frame::spec_wire_bytes(f.header, f.first_total, d));
    }
    Ok(bytes)
}

/// Begin the handshake: if the engine has a first flight pending, wrap it
/// in a control-channel handshake frame for the caller to write.
pub fn start_handshake(conn: &mut rustls::client::ClientConnection) -> (r: Result<
    Option<AndroidAutoFrame>,
    SslHandshakeError,
>)
    ensures
        r matches Ok(Some(f)) ==> {
            &&& f.header == message_header(0, false)
            &&& f.wf()
            &&& exists|s: Seq<u8>| f.data@ == message_payload(MSG_SSL_HANDSHAKE, s)
        },
        r matches Err(e) ==> (e is Unexpected || e is Oversized),
{
    if tls_wants_write(conn) {
        let s = match tls_write_tls(conn) {
            Ok(s) => s,
            Err(e) => {
                return Err(SslHandshakeError::Unexpected(e));
            },
        };
        if s.len() > 0xFFFD {
            return Err(SslHandshakeError::Oversized);
        }
        let ghost sv = s@;
        let f = build_message_frame(0, false, MSG_SSL_HANDSHAKE, s);
        proof {
            assert(f.data@ == message_payload(MSG_SSL_HANDSHAKE, sv));
        }
        Ok(Option::Some(f))
    } else {
        Ok(Option::None)
    }
}

/// Advance the handshake with inbound handshake bytes: feed them to the
/// engine, and if the engine answers with a flight of its own, wrap it in a
/// control-channel handshake frame for the caller to write.
pub fn do_handshake(
    conn: &mut rustls::client::ClientConnection,
    data: &Vec<u8>,
) -> (r: Result<Option<AndroidAutoFrame>, SslHandshakeError>)
    ensures
        r matches Ok(Some(f)) ==> {
            &&& f.header == message_header(0, false)
            &&& f.wf()
            &&& exists|s: Seq<u8>| f.data@ == message_payload(MSG_SSL_HANDSHAKE, s)
        },
        r matches Err(e) ==> (e is Unexpected || e is Oversized),
{
    if tls_wants_read(conn) {
        let _ = tls_read_tls(conn, data, 0);
        let _ = tls_process_new_packets(conn);
    }
    start_handshake(conn)
}

} // verus!
