//! Decisions of the forked-process strategy: what a `fork` result makes of the
//! caller, and what the parent concludes from the child's wait status.
use vstd::prelude::*;

verus! {

/// The role of the calling process after `fork` returned `ret`.
#[derive(PartialEq, Eq, Structural, Clone, Copy, Debug)]
pub enum ForkRole {
    /// The child: it runs the request once and exits without cleanup.
    Child,
    /// The parent, with the child's process id: it waits for the child.
    Parent(i32),
    /// No child was created.
    Failed,
}

pub fn fork_role(ret: i32) -> (r: ForkRole)
    ensures
        ret == 0 ==> r == ForkRole::Child,
        ret > 0 ==> r == ForkRole::Parent(ret),
        ret < 0 ==> r == ForkRole::Failed,
{
    if ret == 0 {
        ForkRole::Child
    } else if ret > 0 {
        ForkRole::Parent(ret)
    } else {
        ForkRole::Failed
    }
}

/// How a child ended, as its wait status encodes it.
#[derive(PartialEq, Eq, Structural, Clone, Copy, Debug)]
pub enum ChildExit {
    Exited(u8),
    Signaled(u8),
    Other,
}

/// Low seven bits of a wait status: zero when the child exited, the signal
/// number when a signal ended it, all ones when it is stopped.
pub open spec fn term_bits(status: i32) -> i32 {
    status & 0x7f
}

pub open spec fn exit_code_of(status: i32) -> u8 {
    ((status >> 8u32) & 0xff) as u8
}

pub open spec fn exit_of(status: i32) -> ChildExit {
    if term_bits(status) == 0 {
        ChildExit::Exited(exit_code_of(status))
    } else if term_bits(status) != 0x7f {
        ChildExit::Signaled(term_bits(status) as u8)
    } else {
        ChildExit::Other
    }
}

/// Decodes a wait status the way `WIFEXITED`, `WEXITSTATUS`, `WIFSIGNALED`
/// and `WTERMSIG` do.
pub fn decode_wait_status(status: i32) -> (r: ChildExit)
    ensures
        r == exit_of(status),
{
    let low = status & 0x7f;
    if low == 0 {
        ChildExit::Exited(((status >> 8u32) & 0xff) as u8)
    } else if low != 0x7f {
        assert(0 <= low < 0x7f) by (bit_vector)
            requires
                low == status & 0x7f,
                low != 0x7f,
        ;
        ChildExit::Signaled(low as u8)
    } else {
        ChildExit::Other
    }
}

/// Why the forked-process strategy failed; exit code and signal are kept.
#[derive(PartialEq, Eq, Structural, Clone, Copy, Debug)]
pub enum IsolationError {
    /// `fork` failed, with the error number.
    ForkFailed(i32),
    /// `waitpid` failed, with the error number.
    WaitFailed(i32),
    /// The child exited with a code other than zero.
    ExitStatus(u8),
    /// A signal ended the child.
    Signal(u8),
    /// The child ended in no other recognised way.
    Abnormal,
}

pub open spec fn child_verdict(status: i32) -> Result<(), IsolationError> {
    match exit_of(status) {
        ChildExit::Exited(0) => Ok(()),
        ChildExit::Exited(c) => Err(IsolationError::ExitStatus(c)),
        ChildExit::Signaled(s) => Err(IsolationError::Signal(s)),
        ChildExit::Other => Err(IsolationError::Abnormal),
    }
}

/// What the parent concludes once `waitpid` returned `ret` and wrote `status`:
/// success only for a child that exited with code zero.
pub fn wait_outcome(ret: i32, status: i32, errno: i32) -> (r: Result<(), IsolationError>)
    ensures
        ret == -1 ==> r == Err::<(), IsolationError>(IsolationError::WaitFailed(errno)),
        ret != -1 ==> r == child_verdict(status),
{
    if ret == -1 {
        return Err(IsolationError::WaitFailed(errno));
    }
    match decode_wait_status(status) {
        ChildExit::Exited(c) => if c == 0 {
            Ok(())
        } else {
            Err(IsolationError::ExitStatus(c))
        },
        ChildExit::Signaled(s) => Err(IsolationError::Signal(s)),
        ChildExit::Other => Err(IsolationError::Abnormal),
    }
}

} // verus!
