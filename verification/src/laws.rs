//! Proved properties of the machine model: cell wraparound, data-cursor
//! bounds, the echo round trip, and the inertness of non-command bytes.

use vstd::prelude::*;

use crate::machine::{
    dec8, inc8, is_command, step, steps, InterpreterError, Machine, OP_IN, OP_LEFT, OP_OUT,
    OP_RIGHT,
};

verus! {

/// `n` increments of `b`, each with 8-bit wraparound.
pub open spec fn iter_inc8(b: u8, n: nat) -> u8
    decreases n,
{
    if n == 0 {
        b
    } else {
        inc8(iter_inc8(b, (n - 1) as nat))
    }
}

/// `n` decrements of `b`, each with 8-bit wraparound.
pub open spec fn iter_dec8(b: u8, n: nat) -> u8
    decreases n,
{
    if n == 0 {
        b
    } else {
        dec8(iter_dec8(b, (n - 1) as nat))
    }
}

/// Increment and decrement of a cell are mutual inverses.
pub proof fn lemma_cell_wraparound(b: u8)
    ensures
        inc8(dec8(b)) == b,
        dec8(inc8(b)) == b,
{
}

/// `n` increments land on the sum modulo 256.
pub proof fn lemma_iter_inc8_mod(b: u8, n: nat)
    ensures
        iter_inc8(b, n) == ((b + n) % 256) as u8,
    decreases n,
{
    if n == 0 {
        assert((b + 0) % 256 == b) by (nonlinear_arith)
            requires
                b < 256,
        ;
    } else {
        lemma_iter_inc8_mod(b, (n - 1) as nat);
        let x = (b + n - 1) % 256;
        assert(0 <= (b + n - 1) % 256 < 256) by (nonlinear_arith);
        if x == 255 {
            assert((b + n) % 256 == 0) by (nonlinear_arith)
                requires
                    (b + n - 1) % 256 == 255,
            ;
        } else {
            assert((b + n) % 256 == x + 1) by (nonlinear_arith)
                requires
                    (b + n - 1) % 256 == x && 0 <= x < 255 && n >= 1,
            ;
        }
    }
}

/// `n` decrements land on the difference modulo 256.
pub proof fn lemma_iter_dec8_mod(b: u8, n: nat)
    ensures
        iter_dec8(b, n) == ((b - n) % 256) as u8,
    decreases n,
{
    if n == 0 {
        assert((b - 0) % 256 == b) by (nonlinear_arith)
            requires
                b < 256,
        ;
    } else {
        lemma_iter_dec8_mod(b, (n - 1) as nat);
        let x = (b - (n - 1)) % 256;
        assert(0 <= (b - (n - 1)) % 256 < 256) by (nonlinear_arith);
        if x == 0 {
            assert((b - n) % 256 == 255) by (nonlinear_arith)
                requires
                    (b - (n - 1)) % 256 == 0,
            ;
        } else {
            assert((b - n) % 256 == x - 1) by (nonlinear_arith)
                requires
                    (b - (n - 1)) % 256 == x && 0 < x < 256,
            ;
        }
    }
}

/// The full wraparound cycle: 256 decrements restore any cell, 256
/// increments restore any cell, and the two runs composed restore it too.
pub proof fn lemma_full_wraparound_cycle(b: u8)
    ensures
        iter_dec8(b, 256) == b,
        iter_inc8(b, 256) == b,
        iter_inc8(iter_dec8(b, 256), 256) == b,
{
    lemma_iter_dec8_mod(b, 256);
    lemma_iter_inc8_mod(b, 256);
    assert((b - 256) % 256 == b) by (nonlinear_arith)
        requires
            b < 256,
    ;
    assert((b + 256) % 256 == b) by (nonlinear_arith)
        requires
            b < 256,
    ;
}

/// Data-cursor bounds: on any tape, a `<` at cell 0 and a `>` at the last
/// cell fail at once with `DataPointerBounds`, and a single move from any
/// position strictly inside the tape succeeds.
pub proof fn lemma_cursor_bounds(m: Machine)
    requires
        m.wf(),
        0 <= m.ins_ptr < m.ins.len(),
    ensures
        m.ins[m.ins_ptr] == OP_LEFT && m.data_ptr == 0 ==> step(m).1 == Err::<
            (),
            InterpreterError,
        >(InterpreterError::DataPointerBounds),
        m.ins[m.ins_ptr] == OP_RIGHT && m.data_ptr == m.data.len() - 1 ==> step(m).1 == Err::<
            (),
            InterpreterError,
        >(InterpreterError::DataPointerBounds),
        m.ins[m.ins_ptr] == OP_LEFT && m.data_ptr > 0 ==> step(m).1 is Ok,
        m.ins[m.ins_ptr] == OP_RIGHT && m.data_ptr + 1 < m.data.len() ==> step(m).1 is Ok,
{
}

/// The echo round trip: on the two-instruction program "read, write" with
/// one pending input byte, the byte read is the byte written: after two
/// steps it has been appended to the output and left in the active cell,
/// and the third step reports the end of the program.
pub proof fn lemma_echo_round_trip(m: Machine, b: u8)
    requires
        m.wf(),
        m.ins == seq![OP_IN, OP_OUT],
        m.ins_ptr == 0,
        m.input == seq![b],
    ensures
        steps(m, 2).1 is Ok,
        steps(m, 2).0.output == m.output.push(b),
        steps(m, 2).0.data[m.data_ptr] == b,
        steps(m, 3).1 == Err::<(), InterpreterError>(InterpreterError::EndOfProgram),
{
    assert(m.ins[0] == OP_IN && m.ins[1] == OP_OUT && m.input[0] == b);
    let m1 = step(m).0;
    assert(step(m).1 is Ok);
    assert(m1.ins_ptr == 1 && m1.data[m.data_ptr] == b && m1.output == m.output);
    let m2 = step(m1).0;
    assert(step(m1).1 is Ok);
    assert(m2.ins_ptr == 2 && m2.output == m.output.push(b) && m2.data == m1.data);
    assert(steps(m, 2) == steps(m1, 1));
    assert(steps(m1, 1) == steps(m2, 0));
    assert(steps(m, 3) == steps(m1, 2));
    assert(steps(m1, 2) == steps(m2, 1));
    assert(step(m2).1 == Err::<(), InterpreterError>(InterpreterError::EndOfProgram));
}

/// Non-command bytes are inert: a program holding no command byte runs to
/// `EndOfProgram` and leaves the tape, the data cursor, the input, and the
/// output untouched.
pub proof fn lemma_inert_program(m: Machine, n: nat)
    requires
        m.wf(),
        0 <= m.ins_ptr <= m.ins.len(),
        forall|i: int| 0 <= i < m.ins.len() ==> !is_command(#[trigger] m.ins[i]),
        n > m.ins.len() - m.ins_ptr,
    ensures
        steps(m, n).1 == Err::<(), InterpreterError>(InterpreterError::EndOfProgram),
        steps(m, n).0.data == m.data,
        steps(m, n).0.data_ptr == m.data_ptr,
        steps(m, n).0.input == m.input,
        steps(m, n).0.output == m.output,
    decreases n,
{
    if m.ins_ptr >= m.ins.len() {
        assert(step(m).1 == Err::<(), InterpreterError>(InterpreterError::EndOfProgram));
    } else {
        assert(!is_command(m.ins[m.ins_ptr]));
        let s = step(m);
        assert(s.1 is Ok);
        lemma_inert_program(s.0, (n - 1) as nat);
    }
}

} // verus!
