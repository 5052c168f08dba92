use tapevm::interp::Interpreter;
use tapevm::machine::InterpreterError;
use tapevm::state::State;

/// Ticks until the interpreter refuses to run and returns the error.
fn run_to_error(it: &mut Interpreter) -> InterpreterError {
    loop {
        match it.tick() {
            Ok(()) => (),
            Err(e) => return e,
        }
    }
}

fn interpreter_for(tape: usize, prog: &[u8], input: Vec<u8>) -> Interpreter {
    let mut st = State::new_with_size(tape);
    st.push(prog);
    Interpreter::new(st, input)
}

#[test]
fn wraparound_full_cycle() {
    let mut prog = vec![b'-'; 256];
    prog.extend(vec![b'+'; 256]);
    let mut it = interpreter_for(10, &prog, Vec::new());
    for _ in 0..256 {
        assert_eq!(it.tick(), Ok(()));
    }
    assert_eq!(it.state.data[0], 0, "256 decrements wrap back to 0");
    assert_eq!(run_to_error(&mut it), InterpreterError::EndOfProgram);
    assert_eq!(it.state.data[0], 0, "256 increments wrap back to 0");
}

#[test]
fn wraparound_single_steps() {
    let mut it = interpreter_for(4, b"-+", Vec::new());
    assert_eq!(it.tick(), Ok(()));
    assert_eq!(it.state.data[0], 255, "0 - 1 wraps to 255");
    assert_eq!(it.tick(), Ok(()));
    assert_eq!(it.state.data[0], 0, "255 + 1 wraps to 0");
}

#[test]
fn cursor_bounds_left_at_zero() {
    let mut it = interpreter_for(5, b"<", Vec::new());
    assert_eq!(it.tick(), Err(InterpreterError::DataPointerBounds));
}

#[test]
fn cursor_bounds_right_at_end() {
    let mut it = interpreter_for(5, b">", Vec::new());
    it.state.data_ptr = 4;
    assert_eq!(it.tick(), Err(InterpreterError::DataPointerBounds));
    assert_eq!(it.state.data_ptr, 5, "the cursor is left incremented");
}

#[test]
fn cursor_bounds_interior_moves() {
    let mut it = interpreter_for(5, b"><", Vec::new());
    it.state.data_ptr = 2;
    assert_eq!(it.tick(), Ok(()));
    assert_eq!(it.state.data_ptr, 3);
    assert_eq!(it.tick(), Ok(()));
    assert_eq!(it.state.data_ptr, 2);
}

#[test]
fn loop_skip_on_zero_cell() {
    let mut it = interpreter_for(5, b"[+]", Vec::new());
    assert_eq!(it.tick(), Ok(()));
    assert_eq!(it.state.ins_ptr, 3, "the jump lands one past the matching bracket");
    assert_eq!(it.tick(), Err(InterpreterError::EndOfProgram));
    assert_eq!(it.state.data[0], 0, "zero iterations ran");
}

#[test]
fn loop_runs_to_zero() {
    let mut it = interpreter_for(5, b"+++[-]", Vec::new());
    assert_eq!(run_to_error(&mut it), InterpreterError::EndOfProgram);
    assert_eq!(it.state.data[0], 0, "three increments, then the loop drains the cell");
}

#[test]
fn nested_loop_skipped_whole() {
    let mut it = interpreter_for(5, b"[[-]+]", Vec::new());
    assert_eq!(it.tick(), Ok(()));
    assert_eq!(it.state.ins_ptr, 6, "the scan pairs nested brackets");
    assert_eq!(it.tick(), Err(InterpreterError::EndOfProgram));
    assert_eq!(it.state.data[0], 0);
}

#[test]
fn loop_moves_value_between_cells() {
    let mut it = interpreter_for(5, b"++[->+<]", Vec::new());
    assert_eq!(run_to_error(&mut it), InterpreterError::EndOfProgram);
    assert_eq!(it.state.data[0], 0);
    assert_eq!(it.state.data[1], 2);
}

#[test]
fn echo_round_trip() {
    let mut it = interpreter_for(5, b",.", vec![0x41]);
    assert_eq!(run_to_error(&mut it), InterpreterError::EndOfProgram);
    assert_eq!(it.output, vec![0x41], "the input byte comes back out");
    assert_eq!(it.state.data[0], 0x41, "and stays in the cell");
}

#[test]
fn hello_world() {
    let prog = b"++++++++[>++++[>++>+++>+++>+<<<<-]>+>+>->>+[<]<-]>>.>---.+++++++..+++.>>.<-.<.+++.------.--------.>>+.>++.";
    let mut it = interpreter_for(30000, prog, Vec::new());
    assert_eq!(run_to_error(&mut it), InterpreterError::EndOfProgram);
    assert_eq!(it.output, b"Hello World!\n".to_vec());
}

#[test]
fn non_command_bytes_are_inert() {
    let prog = b"just some commentary text";
    let mut it = interpreter_for(5, prog, Vec::new());
    for _ in 0..prog.len() {
        assert_eq!(it.tick(), Ok(()));
    }
    assert_eq!(it.tick(), Err(InterpreterError::EndOfProgram));
    assert!(it.state.data.iter().all(|&b| b == 0), "the tape is untouched");
    assert_eq!(it.state.data_ptr, 0, "the data cursor is untouched");
    assert!(it.output.is_empty());
}

#[test]
fn unmatched_open_bracket_is_fatal() {
    let mut it = interpreter_for(5, b"[", Vec::new());
    assert_eq!(it.tick(), Err(InterpreterError::UnmatchedBracket));
}

#[test]
fn unmatched_close_bracket_is_fatal() {
    let mut it = interpreter_for(5, b"+]", Vec::new());
    assert_eq!(it.tick(), Ok(()));
    assert_eq!(it.tick(), Err(InterpreterError::UnmatchedBracket));
}

#[test]
fn exhausted_input_reported_then_recoverable() {
    let mut it = interpreter_for(5, b",", Vec::new());
    assert_eq!(it.tick(), Err(InterpreterError::EndOfInput));
    it.input.push(65);
    assert_eq!(it.tick(), Ok(()));
    assert_eq!(it.state.data[0], 65, "the same read succeeds once a byte arrives");
}

#[test]
fn error_messages() {
    assert_eq!(Interpreter::error_message(InterpreterError::EndOfProgram), "end of program");
    assert_eq!(
        Interpreter::error_message(InterpreterError::DataPointerBounds),
        "data pointer out of bounds"
    );
    assert_eq!(Interpreter::error_message(InterpreterError::UnmatchedBracket), "unmatched bracket");
    assert_eq!(Interpreter::error_message(InterpreterError::EndOfInput), "end of input");
}
