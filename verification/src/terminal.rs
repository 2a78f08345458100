use vstd::prelude::*;

verus! {

/// The standard streams that may be attached to a terminal.
#[derive(Clone, Copy, Debug, PartialEq, Eq, Structural)]
pub enum StandardStream {
    Stdin,
    Stdout,
}

/// Trusted: `atty::is` on the matching stream of that crate. Nothing is
/// claimed of the answer: it depends on what the process is attached to.
#[verifier::external_body]
pub(crate) fn is_terminal(stream: StandardStream) -> (r: bool) {
    match stream {
        StandardStream::Stdin => atty::is(atty::Stream::Stdin),
        StandardStream::Stdout => atty::is(atty::Stream::Stdout),
    }
}

} // verus!
