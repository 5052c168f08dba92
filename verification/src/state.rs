//! The mutable machine state: the loaded program, the data tape, and the
//! two cursors that address them.

use vstd::prelude::*;

verus! {

/// Number of tape cells allocated when no size is given.
pub const DEFAULT_TAPE_LEN: usize = 30000;

/// The execution state: an append-only instruction buffer with its cursor,
/// and a fixed-length byte tape with its cursor.
pub struct State {
    /// The data tape; fixed length once constructed, cells start at 0.
    pub data: Vec<u8>,
    /// Index of the currently active tape cell.
    pub data_ptr: usize,
    /// The loaded program bytes, inert bytes included.
    pub ins: Vec<u8>,
    /// Index of the next instruction to execute.
    pub ins_ptr: usize,
}

impl State {
    /// The data cursor addresses a real tape cell.
    pub open spec fn wf(&self) -> bool {
        self.data_ptr < self.data@.len()
    }

    /// A fresh state with the default tape size.
    pub fn new() -> (s: State)
        ensures
            s.data@.len() == DEFAULT_TAPE_LEN,
            forall|i: int| 0 <= i < s.data@.len() ==> s.data@[i] == 0u8,
            s.data_ptr == 0,
            s.ins@ == Seq::<u8>::empty(),
            s.ins_ptr == 0,
            s.wf(),
    {
        Self::new_with_size(DEFAULT_TAPE_LEN)
    }

    /// A fresh state with `size` zeroed tape cells, no program loaded, and
    /// both cursors at 0.
    pub fn new_with_size(size: usize) -> (s: State)
        ensures
            s.data@.len() == size,
            forall|i: int| 0 <= i < s.data@.len() ==> s.data@[i] == 0u8,
            s.data_ptr == 0,
            s.ins@ == Seq::<u8>::empty(),
            s.ins_ptr == 0,
            size > 0 ==> s.wf(),
    {
        let ins: Vec<u8> = Vec::new();
        let mut data: Vec<u8> = Vec::new();
        while data.len() < size
            invariant
                data@.len() <= size,
                forall|i: int| 0 <= i < data@.len() ==> data@[i] == 0u8,
            decreases size - data@.len(),
        {
            data.push(0);
        }
        State { data, data_ptr: 0, ins, ins_ptr: 0 }
    }

    /// Appends `prog` to the end of the instruction buffer; nothing else
    /// changes. May be called repeatedly before execution starts.
    pub fn push(&mut self, prog: &[u8])
        ensures
            final(self).ins@ == old(self).ins@ + prog@,
            final(self).data@ == old(self).data@,
            final(self).data_ptr == old(self).data_ptr,
            final(self).ins_ptr == old(self).ins_ptr,
    {
        let mut i: usize = 0;
        while i < prog.len()
            invariant
                i <= prog@.len(),
                self.ins@ == old(self).ins@ + prog@.subrange(0, i as int),
                self.data@ == old(self).data@,
                self.data_ptr == old(self).data_ptr,
                self.ins_ptr == old(self).ins_ptr,
            decreases prog@.len() - i,
        {
            let b = prog[i];
            self.ins.push(b);
            proof {
                assert(prog@.subrange(0, i + 1) =~= prog@.subrange(0, i as int).push(prog@[i as int]));
            }
            i = i + 1;
        }
        proof {
            assert(prog@.subrange(0, prog@.len() as int) =~= prog@);
        }
    }
}

} // verus!
