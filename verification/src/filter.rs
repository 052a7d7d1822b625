use vstd::prelude::*;
use crate::errors::CaptureError;

verus! {

/// One filter instruction: opcode, jump-if-true offset, jump-if-false
/// offset, and an immediate operand. The instruction semantics are the
/// kernel's; this crate only assembles and transports the sequence.
#[allow(non_camel_case_types)]
#[derive(Clone, Copy, Debug, PartialEq, Eq, Structural)]
pub struct bpf_insn {
    pub code: u16,
    pub jt: u8,
    pub jf: u8,
    pub k: u32,
}

/// An assembled filter program: an instruction sequence together with
/// its length, in the shape the install-filter control call consumes.
/// The kernel keeps an independent copy once the program is installed,
/// so the value may be dropped immediately after that call. An empty
/// program accepts every frame.
#[allow(non_camel_case_types)]
pub struct bpf_program {
    bf_len: u32,
    bf_insns: Vec<bpf_insn>,
}

impl bpf_program {
    /// The recorded length always matches the instruction sequence.
    pub closed spec fn well_formed(&self) -> bool {
        self.bf_len == self.bf_insns@.len()
    }

    pub closed spec fn instructions(&self) -> Seq<bpf_insn> {
        self.bf_insns@
    }

    /// The empty program, which accepts every captured frame.
    pub fn empty() -> (r: Self)
        ensures
            r.well_formed(),
            r.instructions() == Seq::<bpf_insn>::empty(),
    {
        Self { bf_len: 0, bf_insns: Vec::new() }
    }

    /// Assembles caller-supplied instructions into one program. The
    /// length field of the install call is 32 bits wide, so a sequence
    /// that cannot be counted in it is rejected locally.
    pub fn from_instructions(insns: Vec<bpf_insn>) -> (r: Result<Self, CaptureError>)
        ensures
            match r {
                Ok(p) => {
                    &&& insns@.len() <= u32::MAX
                    &&& p.well_formed()
                    &&& p.instructions() == insns@
                },
                Err(e) => {
                    &&& e == CaptureError::InvalidArgument
                    &&& insns@.len() > u32::MAX
                },
            },
    {
        if insns.len() as u64 <= u32::MAX as u64 {
            let n = insns.len() as u32;
            Ok(Self { bf_len: n, bf_insns: insns })
        } else {
            Err(CaptureError::InvalidArgument)
        }
    }

    /// Appends one instruction, given by its four fields.
    pub fn push_instruction(&mut self, code: u16, jt: u8, jf: u8, k: u32)
        requires
            old(self).well_formed(),
            old(self).instructions().len() < u32::MAX,
        ensures
            final(self).well_formed(),
            final(self).instructions()
                == old(self).instructions().push(bpf_insn { code, jt, jf, k }),
    {
        self.bf_insns.push(bpf_insn { code, jt, jf, k });
        self.bf_len = self.bf_len + 1;
    }

    /// The value of the length field.
    pub fn len(&self) -> (r: u32)
        requires
            self.well_formed(),
        ensures
            r == self.instructions().len(),
    {
        self.bf_len
    }

    /// The instruction sequence, for marshalling into the OS call.
    pub fn instruction_vec(&self) -> (r: &Vec<bpf_insn>)
        ensures
            r@ == self.instructions(),
    {
        &self.bf_insns
    }
}

} // verus!
