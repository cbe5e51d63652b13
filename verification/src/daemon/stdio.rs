//! Detaching the standard streams.
//!
//! A background process must neither block on the terminal of the process
//! that started it nor write to it, so its standard input, output and error
//! are made copies of a descriptor that is open on the null device.

use vstd::prelude::*;

verus! {

/// The descriptor of the standard input.
pub const STDIN: i32 = 0;

/// The descriptor of the standard output.
pub const STDOUT: i32 = 1;

/// The descriptor of the standard error.
pub const STDERR: i32 = 2;

/// One operation on the process's descriptors.
#[derive(Clone, Copy, Debug, PartialEq, Eq, Structural)]
pub enum FdOp {
    /// Make `to` a copy of `from`, closing what `to` was before.
    Duplicate { from: i32, to: i32 },
    /// Close the descriptor.
    Close(i32),
}

/// The operations that redirect the standard streams, given what opening the
/// null device for reading and writing returned.
///
/// Where the null device could not be opened, nothing is done.  The
/// descriptor is closed afterwards unless it is itself one of the standard
/// three.
pub open spec fn spec_redirect_stdio_to_devnull(devnull: i32) -> Seq<FdOp> {
    if devnull < 0 {
        Seq::empty()
    } else {
        let copies = seq![
            FdOp::Duplicate { from: devnull, to: STDIN },
            FdOp::Duplicate { from: devnull, to: STDOUT },
            FdOp::Duplicate { from: devnull, to: STDERR },
        ];
        if devnull > STDERR {
            copies.push(FdOp::Close(devnull))
        } else {
            copies
        }
    }
}

/// Plans the redirection of the standard streams to the null device.
///
/// `devnull` is what opening the null device for reading and writing
/// returned: a descriptor, or a negative number.  The caller carries out the
/// operations in order and ignores their results.
pub fn redirect_stdio_to_devnull(devnull: i32) -> (ops: Vec<FdOp>)
    ensures
        ops@ == spec_redirect_stdio_to_devnull(devnull),
{
    let mut ops: Vec<FdOp> = Vec::new();
    if devnull >= 0 {
        ops.push(FdOp::Duplicate { from: devnull, to: STDIN });
        ops.push(FdOp::Duplicate { from: devnull, to: STDOUT });
        ops.push(FdOp::Duplicate { from: devnull, to: STDERR });
        if devnull > STDERR {
            ops.push(FdOp::Close(devnull));
        }
    }
    ops
}

/// The redirection never closes a standard stream: what it closes is the
/// descriptor of the null device, and only where that is none of the three.
pub proof fn lemma_standard_streams_stay_open(devnull: i32, i: int)
    requires
        0 <= i < spec_redirect_stdio_to_devnull(devnull).len(),
        spec_redirect_stdio_to_devnull(devnull)[i] is Close,
    ensures
        spec_redirect_stdio_to_devnull(devnull)[i] == FdOp::Close(devnull),
        devnull > STDERR,
{
}

/// Where the null device was opened, each of the three standard streams
/// becomes a copy of it, input first; where it was not, nothing is done.
pub proof fn lemma_every_stream_is_redirected(devnull: i32)
    ensures
        devnull < 0 ==> spec_redirect_stdio_to_devnull(devnull).len() == 0,
        devnull >= 0 ==> {
            let ops = spec_redirect_stdio_to_devnull(devnull);
            &&& ops.len() >= 3
            &&& ops[0] == (FdOp::Duplicate { from: devnull, to: STDIN })
            &&& ops[1] == (FdOp::Duplicate { from: devnull, to: STDOUT })
            &&& ops[2] == (FdOp::Duplicate { from: devnull, to: STDERR })
        },
{
}

} // verus!
