//! The byte-granular ports onto the process's standard streams. These
//! are the only trusted items of the crate: Verus believes their
//! contracts and does not read their bodies.

use vstd::prelude::*;

verus! {

/// Relies on std::io::Write::write_all on the standard output: on Ok the
/// byte was emitted. Nothing is stated of the outcome; the caller says
/// what holds either way.
#[verifier::external_body]
pub(crate) fn write_stdout_byte(b: u8) -> (r: Result<(), ()>) {
    match std::io::Write::write_all(&mut std::io::stdout(), &[b]) {
        Ok(()) => Ok(()),
        Err(_) => Err(()),
    }
}

/// Relies on std::io::Write::flush on the standard output: on Ok the
/// buffered bytes reached the stream.
#[verifier::external_body]
pub(crate) fn flush_stdout() -> (r: Result<(), ()>) {
    match std::io::Write::flush(&mut std::io::stdout()) {
        Ok(()) => Ok(()),
        Err(_) => Err(()),
    }
}

/// Relies on std::io::Read::read_exact on the standard input: Ok(Some)
/// carries the byte read, Ok(None) reports end of stream (read_exact
/// fails with ErrorKind::UnexpectedEof there), Err any other failure.
#[verifier::external_body]
pub(crate) fn read_stdin_byte() -> (r: Result<Option<u8>, ()>) {
    let mut buf = [0u8; 1];
    match std::io::Read::read_exact(&mut std::io::stdin(), &mut buf) {
        Ok(()) => Ok(Some(buf[0])),
        Err(e) if e.kind() == std::io::ErrorKind::UnexpectedEof => Ok(None),
        Err(_) => Err(()),
    }
}

} // verus!
