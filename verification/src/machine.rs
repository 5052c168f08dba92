//! The mathematical model of the machine: an abstract configuration and a
//! total `step` function that the interpreter's `tick` is proved to follow.

use vstd::prelude::*;

verus! {

/// Command byte: move the data cursor right.
pub const OP_RIGHT: u8 = 62;

/// Command byte: move the data cursor left.
pub const OP_LEFT: u8 = 60;

/// Command byte: increment the active cell, wrapping 255 to 0.
pub const OP_INC: u8 = 43;

/// Command byte: decrement the active cell, wrapping 0 to 255.
pub const OP_DEC: u8 = 45;

/// Command byte: write the active cell to the output sink.
pub const OP_OUT: u8 = 46;

/// Command byte: read one byte from the input source into the active cell.
pub const OP_IN: u8 = 44;

/// Command byte: loop start; jumps past its match when the active cell is 0.
pub const OP_OPEN: u8 = 91;

/// Command byte: loop end; jumps back after its match when the active cell
/// is not 0.
pub const OP_CLOSE: u8 = 93;

/// Why a step refused to run. `EndOfProgram` is the normal termination
/// signal; the others are fatal to the run.
#[derive(Clone, Copy, Debug, PartialEq, Eq, Structural)]
pub enum InterpreterError {
    /// The instruction cursor is past the end of the program: the run is
    /// over. Expected, not a defect.
    EndOfProgram,
    /// The data cursor would leave the tape.
    DataPointerBounds,
    /// A bracket scan ran off the end (or front) of the program without
    /// finding the matching bracket.
    UnmatchedBracket,
    /// A read instruction found the input source exhausted.
    EndOfInput,
}

/// An abstract machine configuration: the program and tape with their
/// cursors, the input bytes not yet consumed, and the output bytes emitted
/// so far.
#[verifier::ext_equal]
pub struct Machine {
    /// The program bytes.
    pub ins: Seq<u8>,
    /// Index of the next instruction.
    pub ins_ptr: int,
    /// The tape cells.
    pub data: Seq<u8>,
    /// Index of the active tape cell.
    pub data_ptr: int,
    /// Input bytes not yet consumed.
    pub input: Seq<u8>,
    /// Output bytes emitted so far.
    pub output: Seq<u8>,
}

impl Machine {
    /// The data cursor addresses a real tape cell.
    pub open spec fn wf(self) -> bool {
        0 <= self.data_ptr < self.data.len()
    }
}

/// `b` is one of the eight command bytes; every other byte is inert.
pub open spec fn is_command(b: u8) -> bool {
    ||| b == OP_RIGHT
    ||| b == OP_LEFT
    ||| b == OP_INC
    ||| b == OP_DEC
    ||| b == OP_OUT
    ||| b == OP_IN
    ||| b == OP_OPEN
    ||| b == OP_CLOSE
}

/// `b + 1` with 8-bit wraparound.
pub open spec fn inc8(b: u8) -> u8 {
    if b == 255 {
        0
    } else {
        (b + 1) as u8
    }
}

/// `b - 1` with 8-bit wraparound.
pub open spec fn dec8(b: u8) -> u8 {
    if b == 0 {
        255
    } else {
        (b - 1) as u8
    }
}

/// `m` with its instruction cursor at `p`.
pub open spec fn set_ins_ptr(m: Machine, p: int) -> Machine {
    Machine { ins: m.ins, ins_ptr: p, data: m.data, data_ptr: m.data_ptr, input: m.input, output: m.output }
}

/// `m` with its data cursor at `p`.
pub open spec fn set_data_ptr(m: Machine, p: int) -> Machine {
    Machine { ins: m.ins, ins_ptr: m.ins_ptr, data: m.data, data_ptr: p, input: m.input, output: m.output }
}

/// `m` with its active cell set to `v`.
pub open spec fn set_cell(m: Machine, v: u8) -> Machine {
    Machine {
        ins: m.ins,
        ins_ptr: m.ins_ptr,
        data: m.data.update(m.data_ptr, v),
        data_ptr: m.data_ptr,
        input: m.input,
        output: m.output,
    }
}

/// `m` with `v` appended to its output.
pub open spec fn push_output(m: Machine, v: u8) -> Machine {
    Machine {
        ins: m.ins,
        ins_ptr: m.ins_ptr,
        data: m.data,
        data_ptr: m.data_ptr,
        input: m.input,
        output: m.output.push(v),
    }
}

/// `m` after storing the first pending input byte in the active cell and
/// consuming it.
pub open spec fn consume_input(m: Machine) -> Machine {
    Machine {
        ins: m.ins,
        ins_ptr: m.ins_ptr,
        data: m.data.update(m.data_ptr, m.input[0]),
        data_ptr: m.data_ptr,
        input: m.input.skip(1),
        output: m.output,
    }
}

/// The forward bracket scan, one examined byte per unfolding: from position
/// `p` with `count` open brackets pending, the index of the bracket that
/// brings the count to 0, or `None` when the scan would run past the end.
pub open spec fn fwd_scan(ins: Seq<u8>, p: int, count: int) -> Option<int>
    decreases ins.len() - p,
{
    if p + 1 >= ins.len() {
        None
    } else {
        let q = p + 1;
        let c = if ins[q] == OP_OPEN {
            count + 1
        } else if ins[q] == OP_CLOSE {
            count - 1
        } else {
            count
        };
        if c == 0 {
            Some(q)
        } else {
            fwd_scan(ins, q, c)
        }
    }
}

/// The backward bracket scan, mirror of [`fwd_scan`]: `None` when the scan
/// would run past the front.
pub open spec fn bwd_scan(ins: Seq<u8>, p: int, count: int) -> Option<int>
    decreases p,
{
    if p <= 0 {
        None
    } else {
        let q = p - 1;
        let c = if ins[q] == OP_OPEN {
            count - 1
        } else if ins[q] == OP_CLOSE {
            count + 1
        } else {
            count
        };
        if c == 0 {
            Some(q)
        } else {
            bwd_scan(ins, q, c)
        }
    }
}

/// Dispatch on the current instruction byte, without the trailing advance
/// of the instruction cursor. Mirrors one run of the interpreter's
/// dispatcher exactly, error states included.
pub open spec fn exec_step(m: Machine) -> (Machine, Result<(), InterpreterError>) {
    let b = m.ins[m.ins_ptr];
    if b == OP_RIGHT {
        if m.data_ptr + 1 >= m.data.len() {
            (set_data_ptr(m, m.data_ptr + 1), Err(InterpreterError::DataPointerBounds))
        } else {
            (set_data_ptr(m, m.data_ptr + 1), Ok(()))
        }
    } else if b == OP_LEFT {
        if m.data_ptr == 0 {
            (m, Err(InterpreterError::DataPointerBounds))
        } else {
            (set_data_ptr(m, m.data_ptr - 1), Ok(()))
        }
    } else if b == OP_INC {
        (set_cell(m, inc8(m.data[m.data_ptr])), Ok(()))
    } else if b == OP_DEC {
        (set_cell(m, dec8(m.data[m.data_ptr])), Ok(()))
    } else if b == OP_OUT {
        (push_output(m, m.data[m.data_ptr]), Ok(()))
    } else if b == OP_IN {
        if m.input.len() == 0 {
            (m, Err(InterpreterError::EndOfInput))
        } else {
            (consume_input(m), Ok(()))
        }
    } else if b == OP_OPEN {
        if m.data[m.data_ptr] == 0 {
            match fwd_scan(m.ins, m.ins_ptr, 1) {
                Some(j) => (set_ins_ptr(m, j), Ok(())),
                None => (set_ins_ptr(m, m.ins.len() - 1), Err(InterpreterError::UnmatchedBracket)),
            }
        } else {
            (m, Ok(()))
        }
    } else if b == OP_CLOSE {
        if m.data[m.data_ptr] != 0 {
            match bwd_scan(m.ins, m.ins_ptr, 1) {
                Some(j) => (set_ins_ptr(m, j), Ok(())),
                None => (set_ins_ptr(m, 0), Err(InterpreterError::UnmatchedBracket)),
            }
        } else {
            (m, Ok(()))
        }
    } else {
        (m, Ok(()))
    }
}

/// One full step: end-of-program check, dispatch, and on success the
/// unconditional advance of the instruction cursor by 1 (which carries the
/// bracket jumps one past the matched bracket).
pub open spec fn step(m: Machine) -> (Machine, Result<(), InterpreterError>) {
    if m.ins_ptr < 0 || m.ins_ptr >= m.ins.len() {
        (m, Err(InterpreterError::EndOfProgram))
    } else {
        let s = exec_step(m);
        if s.1 is Ok {
            (set_ins_ptr(s.0, s.0.ins_ptr + 1), Ok(()))
        } else {
            s
        }
    }
}

/// `n` steps in a row, stopping at the first step that refuses to run and
/// reporting its error.
pub open spec fn steps(m: Machine, n: nat) -> (Machine, Result<(), InterpreterError>)
    decreases n,
{
    if n == 0 {
        (m, Ok(()))
    } else {
        let s = step(m);
        if s.1 is Ok {
            steps(s.0, (n - 1) as nat)
        } else {
            s
        }
    }
}

} // verus!
