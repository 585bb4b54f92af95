//! The lifecycle of a handle on a foreign process, and the rules that decide
//! what a memory transfer may do and how its outcome is reported. The system
//! calls themselves are made by the caller, which hands their outcomes in.

use vstd::prelude::*;
use vstd::string::StringExecFns;
use crate::typing::render::{decimal_text, signed_string, unsigned_string};

verus! {

/// Why an operation on a process handle failed.
#[derive(Copy, Clone, Debug, PartialEq, Eq, Structural)]
pub enum ProcessError {
    /// The handle was opened before, whether or not it is still open.
    AlreadyOpen,
    /// The handle is not open: it was never opened, or it was closed.
    NotOpen,
    /// The operating system refused, with this error code.
    OsFailure(i32),
    /// Fewer bytes were read than were asked for.
    ShortRead,
    /// Fewer bytes were written than were handed over.
    ShortWrite,
}

impl ProcessError {
    /// The sentence shown for this error.
    pub open spec fn message_spec(self) -> Seq<char> {
        match self {
            ProcessError::AlreadyOpen => "This process has already been opened."@,
            ProcessError::NotOpen => "Process is closed or not yet opened."@,
            ProcessError::OsFailure(code) => "The operating system reported error "@ + decimal_text(
                code as int,
            ),
            ProcessError::ShortRead => "Memory read has a smaller size than requested."@,
            ProcessError::ShortWrite => "Memory written was smaller than requested !"@,
        }
    }

    /// The sentence shown for this error.
    pub fn message(&self) -> (s: String)
        ensures
            s@ == self.message_spec(),
    {
        match self {
            ProcessError::AlreadyOpen => "This process has already been opened.".to_owned(),
            ProcessError::NotOpen => "Process is closed or not yet opened.".to_owned(),
            ProcessError::OsFailure(code) => {
                let number = signed_string(*code as i64);
                "The operating system reported error ".to_owned().concat(number.as_str())
            },
            ProcessError::ShortRead => "Memory read has a smaller size than requested.".to_owned(),
            ProcessError::ShortWrite => "Memory written was smaller than requested !".to_owned(),
        }
    }
}

/// Where a handle is in its life.
#[derive(Copy, Clone, Debug, PartialEq, Eq, Structural)]
pub enum State {
    /// Knows its process, holds no access token yet.
    Created,
    /// Holds an access token.
    Open,
    /// Gave its token back, or will never have one.
    Closed,
}

impl State {
    /// The state after an attempt to open that the operating system
    /// answered with `outcome`: open on success from `Created`, else as
    /// before.
    pub open spec fn after_open(self, outcome: Result<(), i32>) -> State {
        if self == State::Created && outcome is Ok {
            State::Open
        } else {
            self
        }
    }

    /// What an attempt to open reports.
    pub open spec fn open_result(self, outcome: Result<(), i32>) -> Result<(), ProcessError> {
        if self != State::Created {
            Err(ProcessError::AlreadyOpen)
        } else {
            match outcome {
                Ok(_) => Ok(()),
                Err(code) => Err(ProcessError::OsFailure(code)),
            }
        }
    }
}

/// What a memory transfer is to do.
#[derive(Copy, Clone, Debug, PartialEq, Eq, Structural)]
pub struct Transfer {
    /// Whether the cursor must first be moved to `address`.
    pub seek: bool,
    /// Where in the process's memory the transfer starts.
    pub address: u64,
    /// How many bytes are to be moved.
    pub len: usize,
}

/// What a handle holds.
pub struct HandleView {
    pub pid: u32,
    pub state: State,
}

/// The lifecycle of the access to one process. The access token itself is
/// held by whoever makes the system calls.
#[derive(Debug)]
pub struct ProcessHandle {
    pid: u32,
    state: State,
}

impl View for ProcessHandle {
    type V = HandleView;

    closed spec fn view(&self) -> HandleView {
        HandleView { pid: self.pid, state: self.state }
    }
}

/// The plan of a transfer, by the state of the handle: none unless the
/// handle is open; a seek unless the cursor is known to be at the address.
pub open spec fn transfer_plan(state: State, cursor: Option<u64>, address: u64, len: usize)
    -> Result<Transfer, ProcessError> {
    if state == State::Open {
        Ok(Transfer { seek: cursor != Some(address), address, len })
    } else {
        Err(ProcessError::NotOpen)
    }
}

/// What a read of `requested` bytes reports: the system's error; a short
/// read where fewer bytes came than were asked for, or where the buffer is
/// not as long as what was asked for; else the buffer.
pub open spec fn read_result(requested: usize, buffer: Seq<u8>, outcome: Result<usize, i32>)
    -> Result<Seq<u8>, ProcessError> {
    match outcome {
        Err(code) => Err(ProcessError::OsFailure(code)),
        Ok(count) => if count < requested || buffer.len() != requested {
            Err(ProcessError::ShortRead)
        } else {
            Ok(buffer)
        },
    }
}

/// What a write reports: the system's error; a short write where fewer
/// bytes went than were handed over; else success.
pub open spec fn write_result(requested: usize, outcome: Result<usize, i32>) -> Result<
    (),
    ProcessError,
> {
    match outcome {
        Err(code) => Err(ProcessError::OsFailure(code)),
        Ok(count) => if count < requested {
            Err(ProcessError::ShortWrite)
        } else {
            Ok(())
        },
    }
}

/// A closed handle stays closed whatever the operating system answers, can
/// not be opened again, and allows no transfer.
pub proof fn closed_is_final(outcome: Result<(), i32>, cursor: Option<u64>, address: u64, len: usize)
    ensures
        State::Closed.after_open(outcome) == State::Closed,
        State::Closed.open_result(outcome) == Err::<(), ProcessError>(ProcessError::AlreadyOpen),
        transfer_plan(State::Closed, cursor, address, len) == Err::<Transfer, ProcessError>(
            ProcessError::NotOpen,
        ),
{
}

/// A read that succeeds hands out the whole buffer, which holds exactly as
/// many bytes as were asked for; and it succeeds only where the operating
/// system moved that many.
pub proof fn read_is_whole(requested: usize, buffer: Seq<u8>, outcome: Result<usize, i32>)
    ensures
        read_result(requested, buffer, outcome) matches Ok(bytes) ==> bytes == buffer
            && bytes.len() == requested,
        read_result(requested, buffer, outcome) is Ok <==> (outcome matches Ok(count) && count
            >= requested && buffer.len() == requested),
{
}

/// The path of the memory pseudo-file of the process `pid`.
pub open spec fn memory_path_spec(pid: u32) -> Seq<char> {
    "/proc/"@ + decimal_text(pid as int) + "/mem"@
}

/// The path of the memory pseudo-file of the process `pid`.
pub fn memory_path(pid: u32) -> (path: String)
    ensures
        path@ == memory_path_spec(pid),
{
    let number = unsigned_string(pid as u64);
    "/proc/".to_owned().concat(number.as_str()).concat("/mem")
}

impl ProcessHandle {
    /// A handle on the process `pid`, not yet opened.
    pub fn new(pid: u32) -> (r: ProcessHandle)
        ensures
            r@ == (HandleView { pid, state: State::Created }),
    {
        ProcessHandle { pid, state: State::Created }
    }

    /// The process that the handle is for.
    pub fn pid(&self) -> (pid: u32)
        ensures
            pid == self@.pid,
    {
        self.pid
    }

    /// Where the handle is in its life.
    pub fn state(&self) -> (state: State)
        ensures
            state == self@.state,
    {
        self.state
    }

    /// Whether the handle may be opened: only one that was never opened
    /// may. On success, the process to ask the operating system for.
    pub fn begin_open(&self) -> (r: Result<u32, ProcessError>)
        ensures
            r == if self@.state == State::Created {
                Ok::<u32, ProcessError>(self@.pid)
            } else {
                Err::<u32, ProcessError>(ProcessError::AlreadyOpen)
            },
    {
        match self.state {
            State::Created => Ok(self.pid),
            _ => Err(ProcessError::AlreadyOpen),
        }
    }

    /// Takes the operating system's answer to the request for a token:
    /// `Ok` where it gave one, else its error code. The handle becomes open
    /// on success and stays as it was otherwise.
    pub fn finish_open(&mut self, outcome: Result<(), i32>) -> (r: Result<(), ProcessError>)
        ensures
            r == old(self)@.state.open_result(outcome),
            final(self)@ == (HandleView {
                state: old(self)@.state.after_open(outcome),
                ..old(self)@
            }),
    {
        match self.state {
            State::Created => match outcome {
                Ok(_) => {
                    self.state = State::Open;
                    Ok(())
                },
                Err(code) => Err(ProcessError::OsFailure(code)),
            },
            _ => Err(ProcessError::AlreadyOpen),
        }
    }

    /// Plans a transfer of `len` bytes at `address`. Nothing is to be done
    /// unless the handle is open. `cursor` is where the next transfer would
    /// start without a seek, as far as it is known.
    pub fn plan_transfer(&self, cursor: Option<u64>, address: u64, len: usize) -> (r: Result<
        Transfer,
        ProcessError,
    >)
        ensures
            r == transfer_plan(self@.state, cursor, address, len),
    {
        match self.state {
            State::Open => {
                let seek = match cursor {
                    Some(at) => at != address,
                    None => true,
                };
                Ok(Transfer { seek, address, len })
            },
            _ => Err(ProcessError::NotOpen),
        }
    }

    /// Ends the access. Says whether a token is to be given back, which is
    /// so where the handle was open.
    pub fn close(&mut self) -> (release: bool)
        ensures
            release == (old(self)@.state == State::Open),
            final(self)@ == (HandleView { state: State::Closed, ..old(self)@ }),
    {
        let release = match self.state {
            State::Open => true,
            _ => false,
        };
        self.state = State::Closed;
        release
    }
}

/// A buffer of `size` zero bytes to read into.
pub fn read_buffer(size: usize) -> (buffer: Vec<u8>)
    ensures
        buffer@.len() == size,
        forall|i: int| 0 <= i < size ==> buffer@[i] == 0,
{
    let mut buffer: Vec<u8> = Vec::new();
    let mut i: usize = 0;
    while i < size
        invariant
            i <= size,
            buffer@.len() == i,
            forall|j: int| 0 <= j < i ==> buffer@[j] == 0,
        decreases size - i,
    {
        buffer.push(0u8);
        i = i + 1;
    }
    buffer
}

/// Reports a read of `requested` bytes into `buffer`, of which the operating
/// system said `outcome`: the number of bytes it moved, or its error code.
/// The buffer is handed out only where it was filled whole.
pub fn finish_read(requested: usize, buffer: Vec<u8>, outcome: Result<usize, i32>) -> (r: Result<
    Vec<u8>,
    ProcessError,
>)
    ensures
        match r {
            Ok(bytes) => read_result(requested, buffer@, outcome) == Ok::<Seq<u8>, ProcessError>(
                bytes@,
            ),
            Err(e) => read_result(requested, buffer@, outcome) == Err::<Seq<u8>, ProcessError>(e),
        },
{
    match outcome {
        Err(code) => Err(ProcessError::OsFailure(code)),
        Ok(count) => if count < requested || buffer.len() != requested {
            Err(ProcessError::ShortRead)
        } else {
            Ok(buffer)
        },
    }
}

/// Reports a write of `requested` bytes, of which the operating system said
/// `outcome`: the number of bytes it moved, or its error code.
pub fn finish_write(requested: usize, outcome: Result<usize, i32>) -> (r: Result<(), ProcessError>)
    ensures
        r == write_result(requested, outcome),
{
    match outcome {
        Err(code) => Err(ProcessError::OsFailure(code)),
        Ok(count) => if count < requested {
            Err(ProcessError::ShortWrite)
        } else {
            Ok(())
        },
    }
}

} // verus!
