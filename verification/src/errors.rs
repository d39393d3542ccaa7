use vstd::prelude::*;

verus! {

/// The failure classes of one mirroring run.
///
/// Page-level failures (a non-2xx page response, a transport failure on the
/// page fetch, an undecodable page body, an unresolvable reference) abort the
/// run; a failure on a single asset is absorbed and the run continues with
/// the next asset.
#[derive(Debug)]
pub enum MirrorError {
    /// A connection-level failure (DNS, connect, TLS), with the transport's
    /// own message.
    Transport(String),
    /// A response with a non-2xx status code.
    Http(u16),
    /// A body that was expected to be text but is not valid UTF-8.
    Decode,
    /// CSS that the minifier rejected, with the minifier's message.
    Minify(String),
    /// A base or reference URL that cannot be parsed or joined.
    InvalidUrl,
    /// A failed write of an output file, with the filesystem's message.
    FileWrite(String),
}

/// The process exit code assigned to each failure class: a distinct nonzero
/// code per class (zero is reserved for a run that completed).
pub open spec fn exit_code_spec(e: MirrorError) -> u8 {
    match e {
        MirrorError::Transport(_) => 2,
        MirrorError::Http(_) => 3,
        MirrorError::Decode => 4,
        MirrorError::Minify(_) => 5,
        MirrorError::InvalidUrl => 6,
        MirrorError::FileWrite(_) => 7,
    }
}

/// The process exit code for a fatal failure of this class.
pub fn exit_code(e: &MirrorError) -> (r: u8)
    ensures
        r == exit_code_spec(*e),
{
    match e {
        MirrorError::Transport(_) => 2,
        MirrorError::Http(_) => 3,
        MirrorError::Decode => 4,
        MirrorError::Minify(_) => 5,
        MirrorError::InvalidUrl => 6,
        MirrorError::FileWrite(_) => 7,
    }
}

} // verus!
