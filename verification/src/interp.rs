//! The interpreter: an execution state together with in-memory input and
//! output byte buffers, advanced one instruction per `tick`. Each `tick` is
//! proved to agree with the model's [`step`] function.

use vstd::prelude::*;

use crate::machine::{
    bwd_scan, consume_input, dec8, exec_step, fwd_scan, inc8, push_output, set_cell, set_ins_ptr,
    step, InterpreterError, Machine, OP_CLOSE, OP_DEC, OP_IN, OP_INC, OP_LEFT, OP_OPEN, OP_OUT,
    OP_RIGHT,
};
use crate::state::State;

verus! {

/// An execution state plus one input byte source and one output byte sink.
///
/// The source and sink are in-memory buffers: a caller supplies input bytes
/// in `input` (and may append more whenever a read finds them exhausted)
/// and drains emitted bytes from `output`.
pub struct Interpreter {
    /// The machine state the program runs on.
    pub state: State,
    /// The input bytes supplied so far.
    pub input: Vec<u8>,
    /// How many input bytes have been consumed.
    pub input_pos: usize,
    /// Every byte the program has written, in order.
    pub output: Vec<u8>,
}

impl View for Interpreter {
    type V = Machine;

    /// The abstract configuration this interpreter is in: the unconsumed
    /// input is the part of `input` past `input_pos`.
    open spec fn view(&self) -> Machine {
        Machine {
            ins: self.state.ins@,
            ins_ptr: self.state.ins_ptr as int,
            data: self.state.data@,
            data_ptr: self.state.data_ptr as int,
            input: self.input@.skip(self.input_pos as int),
            output: self.output@,
        }
    }
}

impl Interpreter {
    /// The state is well formed and the input cursor addresses a suffix of
    /// the input buffer.
    pub open spec fn wf(&self) -> bool {
        &&& self.state.wf()
        &&& self.input_pos <= self.input@.len()
    }

    /// An interpreter over `state` that will read from `input` and collect
    /// its output in an empty buffer.
    pub fn new(state: State, input: Vec<u8>) -> (it: Interpreter)
        ensures
            it.state == state,
            it.input@ == input@,
            it.input_pos == 0,
            it.output@ == Seq::<u8>::empty(),
            state.wf() ==> it.wf(),
    {
        Interpreter { state, input, input_pos: 0, output: Vec::new() }
    }

    /// Executes exactly one instruction: reads the byte at the instruction
    /// cursor (failing with `EndOfProgram` when the cursor is past the end),
    /// dispatches on it, and on success advances the instruction cursor by
    /// 1 past wherever dispatch left it. The new state and the result are
    /// exactly those of the model's [`step`].
    pub fn tick(&mut self) -> (r: Result<(), InterpreterError>)
        requires
            old(self).wf(),
        ensures
            final(self)@ == step(old(self)@).0,
            r == step(old(self)@).1,
            r != Err::<(), InterpreterError>(InterpreterError::DataPointerBounds) ==> final(self).wf(),
    {
        if self.state.ins_ptr >= self.state.ins.len() {
            return Err(InterpreterError::EndOfProgram);
        }
        let r = self.exec();
        match r {
            Ok(()) => {
                self.state.ins_ptr = self.state.ins_ptr + 1;
                Ok(())
            },
            Err(e) => Err(e),
        }
    }

    /// Dispatches on the instruction under the cursor, without the trailing
    /// cursor advance; agrees with the model's [`exec_step`].
    #[verifier::loop_isolation(false)]
    fn exec(&mut self) -> (r: Result<(), InterpreterError>)
        requires
            old(self).wf(),
            old(self).state.ins_ptr < old(self).state.ins@.len(),
        ensures
            final(self)@ == exec_step(old(self)@).0,
            r == exec_step(old(self)@).1,
            r is Ok ==> final(self).state.ins_ptr < final(self).state.ins@.len(),
            r != Err::<(), InterpreterError>(InterpreterError::DataPointerBounds) ==> final(self).wf(),
    {
        let b = self.state.ins[self.state.ins_ptr];
        if b == OP_RIGHT {
            // `>`: move right; the cursor is left incremented even on failure.
            let n = self.state.data.len();
            self.state.data_ptr = self.state.data_ptr + 1;
            if self.state.data_ptr >= n {
                Err(InterpreterError::DataPointerBounds)
            } else {
                Ok(())
            }
        } else if b == OP_LEFT {
            // `<`: move left; stepping off the front of the tape is refused.
            if self.state.data_ptr == 0 {
                Err(InterpreterError::DataPointerBounds)
            } else {
                self.state.data_ptr = self.state.data_ptr - 1;
                Ok(())
            }
        } else if b == OP_INC {
            // `+`: increment the active cell with 8-bit wraparound.
            let c = self.state.data[self.state.data_ptr];
            let c2: u8 = if c == 255 { 0 } else { c + 1 };
            self.state.data[self.state.data_ptr] = c2;
            proof {
                assert(final(self)@ =~= set_cell(old(self)@, inc8(old(self)@.data[old(self)@.data_ptr])));
            }
            Ok(())
        } else if b == OP_DEC {
            // `-`: decrement the active cell with 8-bit wraparound.
            let c = self.state.data[self.state.data_ptr];
            let c2: u8 = if c == 0 { 255 } else { c - 1 };
            self.state.data[self.state.data_ptr] = c2;
            proof {
                assert(final(self)@ =~= set_cell(old(self)@, dec8(old(self)@.data[old(self)@.data_ptr])));
            }
            Ok(())
        } else if b == OP_OUT {
            // `.`: emit the active cell.
            let c = self.state.data[self.state.data_ptr];
            self.output.push(c);
            proof {
                assert(final(self)@ =~= push_output(old(self)@, old(self)@.data[old(self)@.data_ptr]));
            }
            Ok(())
        } else if b == OP_IN {
            // `,`: store the next input byte in the active cell.
            if self.input_pos >= self.input.len() {
                proof {
                    assert(old(self)@.input.len() == 0);
                }
                Err(InterpreterError::EndOfInput)
            } else {
                let v = self.input[self.input_pos];
                self.input_pos = self.input_pos + 1;
                self.state.data[self.state.data_ptr] = v;
                proof {
                    assert(old(self)@.input[0] == v);
                    assert(final(self)@.input =~= old(self)@.input.skip(1));
                    assert(final(self)@ =~= consume_input(old(self)@));
                }
                Ok(())
            }
        } else if b == OP_OPEN {
            // `[`: with the active cell at 0, scan forward to the matching
            // `]`, nesting counted; land on it and let the trailing advance
            // step past it.
            let c = self.state.data[self.state.data_ptr];
            if c == 0 {
                let ghost start = self.state.ins_ptr as int;
                let ghost ins0 = self.state.ins@;
                let mut count: usize = 1;
                while count != 0
                    invariant
                        self.state.ins@ == ins0,
                        self.state.data@ == old(self).state.data@,
                        self.state.data_ptr == old(self).state.data_ptr,
                        self.input == old(self).input,
                        self.input_pos == old(self).input_pos,
                        self.output == old(self).output,
                        start <= self.state.ins_ptr < ins0.len(),
                        count <= self.state.ins_ptr - start + 1,
                        count != 0 ==> fwd_scan(ins0, self.state.ins_ptr as int, count as int)
                            == fwd_scan(ins0, start, 1),
                        count == 0 ==> Some(self.state.ins_ptr as int) == fwd_scan(ins0, start, 1),
                    decreases ins0.len() - self.state.ins_ptr,
                {
                    let n = self.state.ins.len();
                    if self.state.ins_ptr + 1 >= n {
                        proof {
                            assert(fwd_scan(ins0, start, 1) is None);
                            assert(final(self)@ =~= set_ins_ptr(old(self)@, old(self)@.ins.len() - 1));
                        }
                        return Err(InterpreterError::UnmatchedBracket);
                    }
                    self.state.ins_ptr = self.state.ins_ptr + 1;
                    let b2 = self.state.ins[self.state.ins_ptr];
                    if b2 == OP_OPEN {
                        count = count + 1;
                    } else if b2 == OP_CLOSE {
                        count = count - 1;
                    }
                }
                proof {
                    assert(final(self)@ =~= set_ins_ptr(old(self)@, self.state.ins_ptr as int));
                }
            }
            Ok(())
        } else if b == OP_CLOSE {
            // `]`: with the active cell not 0, scan backward to the matching
            // `[`, nesting counted; land on it and let the trailing advance
            // resume just inside the loop body.
            let c = self.state.data[self.state.data_ptr];
            if c != 0 {
                let ghost start = self.state.ins_ptr as int;
                let ghost ins0 = self.state.ins@;
                let total = self.state.ins.len();
                let mut count: usize = 1;
                while count != 0
                    invariant
                        ins0.len() == total,
                        self.state.ins@ == ins0,
                        self.state.data@ == old(self).state.data@,
                        self.state.data_ptr == old(self).state.data_ptr,
                        self.input == old(self).input,
                        self.input_pos == old(self).input_pos,
                        self.output == old(self).output,
                        0 <= self.state.ins_ptr <= start,
                        count <= start - self.state.ins_ptr + 1,
                        count != 0 ==> bwd_scan(ins0, self.state.ins_ptr as int, count as int)
                            == bwd_scan(ins0, start, 1),
                        count == 0 ==> Some(self.state.ins_ptr as int) == bwd_scan(ins0, start, 1),
                    decreases self.state.ins_ptr,
                {
                    if self.state.ins_ptr == 0 {
                        proof {
                            assert(bwd_scan(ins0, start, 1) is None);
                            assert(final(self)@ =~= set_ins_ptr(old(self)@, 0));
                        }
                        return Err(InterpreterError::UnmatchedBracket);
                    }
                    self.state.ins_ptr = self.state.ins_ptr - 1;
                    let b2 = self.state.ins[self.state.ins_ptr];
                    if b2 == OP_OPEN {
                        count = count - 1;
                    } else if b2 == OP_CLOSE {
                        count = count + 1;
                    }
                }
                proof {
                    assert(final(self)@ =~= set_ins_ptr(old(self)@, self.state.ins_ptr as int));
                }
            }
            Ok(())
        } else {
            // Any other byte is inert.
            Ok(())
        }
    }

    /// A short description of an error, for reporting to a caller.
    pub fn error_message(e: InterpreterError) -> (m: &'static str)
        ensures
            e == InterpreterError::EndOfProgram ==> m@ == "end of program"@,
            e == InterpreterError::DataPointerBounds ==> m@ == "data pointer out of bounds"@,
            e == InterpreterError::UnmatchedBracket ==> m@ == "unmatched bracket"@,
            e == InterpreterError::EndOfInput ==> m@ == "end of input"@,
    {
        match e {
            InterpreterError::EndOfProgram => "end of program",
            InterpreterError::DataPointerBounds => "data pointer out of bounds",
            InterpreterError::UnmatchedBracket => "unmatched bracket",
            InterpreterError::EndOfInput => "end of input",
        }
    }
}

} // verus!
