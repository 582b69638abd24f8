//! The iRacing shared memory: what its answers mean.

use vstd::prelude::*;
use vstd::string::*;

use crate::text::push_hex;

verus! {

/// Reply of the wait call when a frame is ready.
pub const WAIT_OBJECT_0: u32 = 0x0;

/// Reply of the wait call when the time is up.
pub const WAIT_TIMEOUT: u32 = 0x102;

/// Why the shared memory cannot be used.
#[derive(Debug, Clone, Copy, PartialEq, Eq, Structural)]
pub enum IrsdkError {
    /// iRacing is not running or the mmap is not present.
    NotRunning,
    /// The mmap data is malformed (header parse failed).
    BadHeader,
    /// One or more required telemetry variables are absent from the index.
    MissingVars,
    /// The Windows API returned an unexpected error.
    Os(u32),
}

/// What is said of an error.
pub open spec fn error_text(e: IrsdkError) -> Seq<char> {
    match e {
        IrsdkError::NotRunning => "iRacing is not running"@,
        IrsdkError::BadHeader => "irsdk header parse failed"@,
        IrsdkError::MissingVars => "required telemetry variables missing from index"@,
        IrsdkError::Os(code) => "Windows API error 0x"@ + crate::text::hex(code as nat, 8),
    }
}

impl IrsdkError {
    /// What is wrong, for a person to read.
    pub fn message(&self) -> (r: String)
        ensures
            r@ == error_text(*self),
    {
        match self {
            IrsdkError::NotRunning => "iRacing is not running".to_owned(),
            IrsdkError::BadHeader => "irsdk header parse failed".to_owned(),
            IrsdkError::MissingVars => {
                "required telemetry variables missing from index".to_owned()
            },
            IrsdkError::Os(code) => {
                let mut s: String = "Windows API error 0x".to_owned();
                push_hex(&mut s, *code, 8);
                s
            },
        }
    }
}

/// What was found on the way to a connection. What was not reached is `false`.
#[derive(Debug, Clone, Copy, PartialEq, Eq, Structural)]
pub struct Attach {
    /// The memory-mapped file could be opened.
    pub mapping_opened: bool,
    /// It could be mapped.
    pub view_mapped: bool,
    /// Its header could be parsed.
    pub header_parsed: bool,
    /// The header says that the simulator is connected.
    pub sim_connected: bool,
    /// The variable index could be built.
    pub index_built: bool,
    /// Every required variable is in the index.
    pub vars_present: bool,
    /// The data-valid event could be opened.
    pub event_opened: bool,
}

/// What an attempt to connect comes to: its first obstacle decides.
pub open spec fn attach_result(a: Attach) -> Result<(), IrsdkError> {
    if !a.mapping_opened || !a.view_mapped {
        Err(IrsdkError::NotRunning)
    } else if !a.header_parsed {
        Err(IrsdkError::BadHeader)
    } else if !a.sim_connected {
        Err(IrsdkError::NotRunning)
    } else if !a.index_built {
        Err(IrsdkError::BadHeader)
    } else if !a.vars_present {
        Err(IrsdkError::MissingVars)
    } else if !a.event_opened {
        Err(IrsdkError::NotRunning)
    } else {
        Ok(())
    }
}

/// What an attempt to connect comes to.
pub fn judge_attach(a: &Attach) -> (r: Result<(), IrsdkError>)
    ensures
        r == attach_result(*a),
{
    if !a.mapping_opened || !a.view_mapped {
        Err(IrsdkError::NotRunning)
    } else if !a.header_parsed {
        Err(IrsdkError::BadHeader)
    } else if !a.sim_connected {
        Err(IrsdkError::NotRunning)
    } else if !a.index_built {
        Err(IrsdkError::BadHeader)
    } else if !a.vars_present {
        Err(IrsdkError::MissingVars)
    } else if !a.event_opened {
        Err(IrsdkError::NotRunning)
    } else {
        Ok(())
    }
}

/// What the reply of the wait call means: a frame, none yet, or an error.
pub fn judge_wait(reply: u32) -> (r: Result<bool, IrsdkError>)
    ensures
        r == (if reply == WAIT_OBJECT_0 {
            Ok::<bool, IrsdkError>(true)
        } else if reply == WAIT_TIMEOUT {
            Ok(false)
        } else {
            Err(IrsdkError::Os(reply))
        }),
{
    if reply == WAIT_OBJECT_0 {
        Ok(true)
    } else if reply == WAIT_TIMEOUT {
        Ok(false)
    } else {
        Err(IrsdkError::Os(reply))
    }
}

/// The part of the mapped memory that holds a buffer, where it lies inside.
pub fn buffer_range(offset: i32, len: usize, mapped: usize) -> (r: Option<(usize, usize)>)
    ensures
        offset < 0 || offset + len > mapped ==> r is None,
        offset >= 0 && offset + len <= mapped ==> r == Some(
            (offset as usize, (offset + len) as usize),
        ),
{
    if offset < 0 {
        return None;
    }
    let start: usize = offset as usize;
    if start > mapped || len > mapped - start {
        None
    } else {
        Some((start, start + len))
    }
}

/// What the live loop does after it has waited.
#[derive(Debug, Clone, Copy, PartialEq, Eq, Structural)]
pub enum AfterWait {
    /// Read the frame and process it.
    Read,
    /// Wait again.
    WaitAgain,
    /// Give the connection up and look for another.
    Reconnect,
}

/// What to do after a wait: a time-out is harmless as long as the simulator is
/// there, an error is not.
pub fn after_wait(outcome: &Result<bool, IrsdkError>, still_connected: bool) -> (r: AfterWait)
    ensures
        r == (match *outcome {
            Ok(true) => AfterWait::Read,
            Ok(false) => if still_connected {
                AfterWait::WaitAgain
            } else {
                AfterWait::Reconnect
            },
            Err(_) => AfterWait::Reconnect,
        }),
{
    match outcome {
        Ok(ready) => if *ready {
            AfterWait::Read
        } else if still_connected {
            AfterWait::WaitAgain
        } else {
            AfterWait::Reconnect
        },
        Err(_) => AfterWait::Reconnect,
    }
}

/// A connection is made exactly where nothing stood in the way.
pub proof fn attached_only_without_obstacle(a: Attach)
    ensures
        attach_result(a) is Ok <==> (a.mapping_opened && a.view_mapped && a.header_parsed
            && a.sim_connected && a.index_built && a.vars_present && a.event_opened),
{
}

/// An obstacle is named for what it is: no memory to map, no simulator behind it or no
/// signal is a simulator that does not run; a header or an index that cannot be read is a
/// bad header; a variable that is wanting is named as such. The first one counts.
pub proof fn the_first_obstacle_is_named(a: Attach)
    ensures
        !a.mapping_opened ==> attach_result(a) == Err::<(), IrsdkError>(IrsdkError::NotRunning),
        a.mapping_opened && a.view_mapped && !a.header_parsed ==> attach_result(a) == Err::<
            (),
            IrsdkError,
        >(IrsdkError::BadHeader),
        a.mapping_opened && a.view_mapped && a.header_parsed && !a.sim_connected ==> attach_result(
            a,
        ) == Err::<(), IrsdkError>(IrsdkError::NotRunning),
        a.mapping_opened && a.view_mapped && a.header_parsed && a.sim_connected && !a.index_built
            ==> attach_result(a) == Err::<(), IrsdkError>(IrsdkError::BadHeader),
        a.mapping_opened && a.view_mapped && a.header_parsed && a.sim_connected && a.index_built
            && !a.vars_present ==> attach_result(a) == Err::<(), IrsdkError>(
            IrsdkError::MissingVars,
        ),
        a.mapping_opened && a.view_mapped && a.header_parsed && a.sim_connected && a.index_built
            && a.vars_present && !a.event_opened ==> attach_result(a) == Err::<(), IrsdkError>(
            IrsdkError::NotRunning,
        ),
{
}

} // verus!
