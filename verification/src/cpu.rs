//! The execution engine: the register file, the program counter, the
//! halted flag and the arena, with one handler per operator and the
//! fetch-decode-dispatch loop.

use vstd::prelude::*;
use vstd::pervasive::VecAdditionalExecFns;
use crate::arena::Arena;
use crate::decode::{Operator, op_number, field_a, field_b, field_c, field_a_special,
    special_value};
use crate::errors::VmError;
use crate::host;

verus! {

/// The word that the Input operator stores: the byte read, or all ones
/// at end of stream.
pub open spec fn input_word(b: Option<u8>) -> u32 {
    match b {
        Some(x) => x as u32,
        None => 0xffffffffu32,
    }
}

pub struct Cpu {
    /// The eight 32-bit registers, all zero at start.
    pub regs: Vec<u32>,
    /// The index into the program array of the next instruction.
    pub pc: u32,
    /// Set by the Halt operator; ends the loop.
    pub halted: bool,
    /// The live arrays, the program array under identifier 0.
    pub arena: Arena,
}

impl Cpu {
    /// Well-formedness: exactly eight registers over a well-formed
    /// arena. Every handler preserves it.
    pub open spec fn wf(self) -> bool {
        &&& self.regs@.len() == 8
        &&& self.arena.wf()
    }

    /// Registers, program counter and halted flag agree, and the arenas
    /// name the same live arrays with the same words.
    pub open spec fn same_state(self, other: Cpu) -> bool {
        &&& self.regs@ == other.regs@
        &&& self.pc == other.pc
        &&& self.halted == other.halted
        &&& self.arena.same_state(other.arena)
    }

    /// A machine about to run the given image: registers zero, program
    /// counter zero, not halted, the image live under identifier 0 and
    /// nothing else allocated.
    pub fn new(program_scroll: Vec<u32>) -> (c: Cpu)
        ensures
            c.wf(),
            c.regs@.len() == 8,
            forall|i: int| 0 <= i < 8 ==> c.regs@[i] == 0u32,
            c.pc == 0,
            !c.halted,
            c.arena.live(0),
            c.arena.contents(0) == program_scroll@,
            forall|id: u32| id != 0 ==> !c.arena.live(id),
            forall|id: u32| !c.arena.pooled(id),
    {
        Cpu {
            regs: crate::arena::zero_words(8),
            pc: 0,
            halted: false,
            arena: Arena::new(program_scroll),
        }
    }

    /// Operator 0. If register C is non-zero, register A takes the value
    /// of register B; otherwise nothing moves.
    pub fn conditional_move(&mut self, op: Operator)
        requires
            old(self).wf(),
        ensures
            final(self).wf(),
            final(self).regs@ == (if old(self).regs@[field_c(op.0) as int] != 0 {
                old(self).regs@.update(
                    field_a(op.0) as int,
                    old(self).regs@[field_b(op.0) as int],
                )
            } else {
                old(self).regs@
            }),
            final(self).pc == old(self).pc,
            final(self).halted == old(self).halted,
            final(self).arena == old(self).arena,
    {
        if self.regs[op.C()] != 0 {
            let v = self.regs[op.B()];
            self.regs.set(op.A(), v);
        }
    }

    /// Operator 1. Register A takes the word at offset register C of the
    /// array named by register B; a dead identifier or an offset at or
    /// beyond the array's length is fatal.
    pub fn array_index(&mut self, op: Operator) -> (r: Result<(), VmError>)
        requires
            old(self).wf(),
        ensures
            final(self).wf(),
            ({
                let id = old(self).regs@[field_b(op.0) as int];
                let off = old(self).regs@[field_c(op.0) as int];
                &&& r is Ok <==> old(self).arena.live(id) && (off as int) < old(
                    self,
                ).arena.contents(id).len()
                &&& r is Ok ==> final(self).regs@ == old(self).regs@.update(
                    field_a(op.0) as int,
                    old(self).arena.contents(id)[off as int],
                )
                &&& r is Err ==> final(self).regs@ == old(self).regs@ && r == Err::<
                    (),
                    VmError,
                >(
                    if !old(self).arena.live(id) {
                        VmError::DeadArray { id }
                    } else {
                        VmError::OutOfRange { id, offset: off }
                    },
                )
            }),
            final(self).pc == old(self).pc,
            final(self).halted == old(self).halted,
            final(self).arena == old(self).arena,
    {
        let id = self.regs[op.B()];
        let offset = self.regs[op.C()];
        match self.arena.read(id, offset) {
            Ok(w) => {
                self.regs.set(op.A(), w);
                Ok(())
            },
            Err(e) => Err(e),
        }
    }

    /// Operator 2. The word at offset register B of the array named by
    /// register A becomes the value of register C; a dead identifier or
    /// an offset at or beyond the array's length is fatal.
    pub fn array_amendment(&mut self, op: Operator) -> (r: Result<(), VmError>)
        requires
            old(self).wf(),
        ensures
            final(self).wf(),
            ({
                let id = old(self).regs@[field_a(op.0) as int];
                let off = old(self).regs@[field_b(op.0) as int];
                let v = old(self).regs@[field_c(op.0) as int];
                &&& r is Ok <==> old(self).arena.live(id) && (off as int) < old(
                    self,
                ).arena.contents(id).len()
                &&& r is Ok ==> {
                    &&& final(self).arena.contents(id) == old(self).arena.contents(id).update(
                        off as int,
                        v,
                    )
                    &&& forall|x: u32| final(self).arena.live(x) == old(self).arena.live(x)
                    &&& forall|x: u32|
                        x != id && old(self).arena.live(x) ==> final(self).arena.contents(x)
                            == old(self).arena.contents(x)
                    &&& final(self).arena.pool@ == old(self).arena.pool@
                }
                &&& r is Err ==> final(self).arena.same_state(old(self).arena) && r == Err::<
                    (),
                    VmError,
                >(
                    if !old(self).arena.live(id) {
                        VmError::DeadArray { id }
                    } else {
                        VmError::OutOfRange { id, offset: off }
                    },
                )
            }),
            final(self).regs@ == old(self).regs@,
            final(self).pc == old(self).pc,
            final(self).halted == old(self).halted,
    {
        let id = self.regs[op.A()];
        let offset = self.regs[op.B()];
        let value = self.regs[op.C()];
        match self.arena.write(id, offset, value) {
            Ok(()) => Ok(()),
            Err(e) => Err(e),
        }
    }

    /// Operator 3. Register A takes the sum of registers B and C, modulo
    /// 2^32.
    pub fn addition(&mut self, op: Operator)
        requires
            old(self).wf(),
        ensures
            final(self).wf(),
            final(self).regs@ == old(self).regs@.update(
                field_a(op.0) as int,
                (((old(self).regs@[field_b(op.0) as int] as int) + (old(
                    self,
                ).regs@[field_c(op.0) as int] as int)) % 0x1_0000_0000) as u32,
            ),
            final(self).pc == old(self).pc,
            final(self).halted == old(self).halted,
            final(self).arena == old(self).arena,
    {
        let b = self.regs[op.B()];
        let c = self.regs[op.C()];
        let v = b.wrapping_add(c);
        proof {
            let s = b as int + c as int;
            if s <= u32::MAX {
                assert(s % 0x1_0000_0000 == s) by (nonlinear_arith)
                    requires
                        0 <= s <= 0xffffffff,
                ;
            } else {
                assert(s % 0x1_0000_0000 == s - 0x1_0000_0000) by (nonlinear_arith)
                    requires
                        0x1_0000_0000 <= s < 0x2_0000_0000,
                ;
            }
        }
        self.regs.set(op.A(), v);
    }

    /// Operator 4. Register A takes the product of registers B and C,
    /// modulo 2^32.
    pub fn multiplication(&mut self, op: Operator)
        requires
            old(self).wf(),
        ensures
            final(self).wf(),
            final(self).regs@ == old(self).regs@.update(
                field_a(op.0) as int,
                (((old(self).regs@[field_b(op.0) as int] as int) * (old(
                    self,
                ).regs@[field_c(op.0) as int] as int)) % 0x1_0000_0000) as u32,
            ),
            final(self).pc == old(self).pc,
            final(self).halted == old(self).halted,
            final(self).arena == old(self).arena,
    {
        let b = self.regs[op.B()];
        let c = self.regs[op.C()];
        let v = b.wrapping_mul(c);
        proof {
            assert((b as nat * c as nat) % 0x1_0000_0000nat == ((b as int * c as int)
                % 0x1_0000_0000) as nat) by (nonlinear_arith);
        }
        self.regs.set(op.A(), v);
    }

    /// Operator 5. Register A takes the unsigned floor quotient of
    /// register B by register C; a zero divisor is fatal.
    pub fn division(&mut self, op: Operator) -> (r: Result<(), VmError>)
        requires
            old(self).wf(),
        ensures
            final(self).wf(),
            r is Ok <==> old(self).regs@[field_c(op.0) as int] != 0,
            r is Ok ==> final(self).regs@ == old(self).regs@.update(
                field_a(op.0) as int,
                (old(self).regs@[field_b(op.0) as int] as u32) / (old(
                    self,
                ).regs@[field_c(op.0) as int] as u32),
            ),
            r is Err ==> final(self).regs@ == old(self).regs@ && r == Err::<(), VmError>(
                VmError::DivisionByZero,
            ),
            final(self).pc == old(self).pc,
            final(self).halted == old(self).halted,
            final(self).arena == old(self).arena,
    {
        let c = self.regs[op.C()];
        if c == 0 {
            return Err(VmError::DivisionByZero);
        }
        let b = self.regs[op.B()];
        self.regs.set(op.A(), b / c);
        Ok(())
    }

    /// Operator 6. Register A takes the bitwise complement of the
    /// conjunction of registers B and C.
    pub fn not_and(&mut self, op: Operator)
        requires
            old(self).wf(),
        ensures
            final(self).wf(),
            final(self).regs@ == old(self).regs@.update(
                field_a(op.0) as int,
                !(old(self).regs@[field_b(op.0) as int] & old(self).regs@[field_c(op.0) as int]),
            ),
            final(self).pc == old(self).pc,
            final(self).halted == old(self).halted,
            final(self).arena == old(self).arena,
    {
        let b = self.regs[op.B()];
        let c = self.regs[op.C()];
        self.regs.set(op.A(), !(b & c));
    }

    /// Operator 7. Sets the halted flag; the loop then ends with
    /// success.
    pub fn halt(&mut self, _op: Operator)
        requires
            old(self).wf(),
        ensures
            final(self).wf(),
            final(self).halted,
            final(self).regs@ == old(self).regs@,
            final(self).pc == old(self).pc,
            final(self).arena == old(self).arena,
    {
        self.halted = true;
    }

    /// Operator 8. Register B takes a previously-unused identifier, now
    /// naming a zero-filled array whose capacity is register C.
    pub fn allocation(&mut self, op: Operator) -> (r: Result<(), VmError>)
        requires
            old(self).wf(),
        ensures
            final(self).wf(),
            r is Ok ==> ({
                let id = final(self).regs@[field_b(op.0) as int];
                let capacity = old(self).regs@[field_c(op.0) as int];
                &&& final(self).regs@ == old(self).regs@.update(field_b(op.0) as int, id)
                &&& id != 0
                &&& !old(self).arena.live(id)
                &&& final(self).arena.live(id)
                &&& !final(self).arena.pooled(id)
                &&& final(self).arena.contents(id).len() == capacity as nat
                &&& forall|k: int|
                    0 <= k < capacity ==> final(self).arena.contents(id)[k] == 0u32
                &&& forall|x: u32| x != id ==> final(self).arena.live(x) == old(self).arena.live(x)
                &&& forall|x: u32|
                    x != id && old(self).arena.live(x) ==> final(self).arena.contents(x) == old(
                        self,
                    ).arena.contents(x)
                &&& (old(self).arena.pool@.len() > 0 ==> id == old(self).arena.pool@.last())
            }),
            old(self).arena.pool@.len() > 0 ==> r is Ok,
            r is Err ==> final(self).same_state(*old(self)) && r == Err::<(), VmError>(
                VmError::ArenaExhausted,
            ),
            final(self).pc == old(self).pc,
            final(self).halted == old(self).halted,
    {
        let capacity = self.regs[op.C()];
        match self.arena.allocate(capacity) {
            Ok(id) => {
                self.regs.set(op.B(), id);
                Ok(())
            },
            Err(e) => Err(e),
        }
    }

    /// Operator 9. Abandons the array named by register C: its
    /// identifier stops being live and joins the reuse pool. Identifier
    /// 0 and dead identifiers are fatal.
    pub fn abandonment(&mut self, op: Operator) -> (r: Result<(), VmError>)
        requires
            old(self).wf(),
        ensures
            final(self).wf(),
            ({
                let id = old(self).regs@[field_c(op.0) as int];
                &&& r is Ok <==> id != 0 && old(self).arena.live(id)
                &&& r is Ok ==> {
                    &&& !final(self).arena.live(id)
                    &&& final(self).arena.pooled(id)
                    &&& forall|x: u32| x != id ==> final(self).arena.live(x) == old(
                        self,
                    ).arena.live(x)
                    &&& forall|x: u32|
                        x != id && old(self).arena.live(x) ==> final(self).arena.contents(x)
                            == old(self).arena.contents(x)
                }
                &&& r is Err ==> final(self).arena.same_state(old(self).arena) && r == Err::<
                    (),
                    VmError,
                >(
                    if id == 0 {
                        VmError::AbandonZero
                    } else {
                        VmError::DeadArray { id }
                    },
                )
            }),
            final(self).regs@ == old(self).regs@,
            final(self).pc == old(self).pc,
            final(self).halted == old(self).halted,
    {
        let id = self.regs[op.C()];
        match self.arena.abandon(id) {
            Ok(()) => Ok(()),
            Err(e) => Err(e),
        }
    }

    /// Operator 10. Emits the low byte of register C on the standard
    /// output; a value above 255 is fatal, as is a failure of the
    /// stream. The machine state is never changed.
    pub fn output(&mut self, op: Operator) -> (r: Result<(), VmError>)
        requires
            old(self).wf(),
        ensures
            final(self).wf(),
            final(self).same_state(*old(self)),
            old(self).regs@[field_c(op.0) as int] > 255 <==> r == Err::<(), VmError>(
                VmError::OutputTooLarge { value: old(self).regs@[field_c(op.0) as int] },
            ),
            r is Err ==> (r == Err::<(), VmError>(
                VmError::OutputTooLarge { value: old(self).regs@[field_c(op.0) as int] },
            ) || r == Err::<(), VmError>(VmError::IoFailed)),
    {
        let v = self.regs[op.C()];
        if v > 255 {
            return Err(VmError::OutputTooLarge { value: v });
        }
        match host::write_stdout_byte(v as u8) {
            Ok(()) => {},
            Err(()) => { return Err(VmError::IoFailed); },
        }
        match host::flush_stdout() {
            Ok(()) => Ok(()),
            Err(()) => Err(VmError::IoFailed),
        }
    }

    /// Stores the outcome of one Input step: register C takes the byte
    /// read, or all ones at end of stream.
    pub fn apply_input(&mut self, c: usize, inb: Option<u8>)
        requires
            old(self).wf(),
            c < 8,
        ensures
            final(self).wf(),
            final(self).regs@ == old(self).regs@.update(c as int, input_word(inb)),
            final(self).pc == old(self).pc,
            final(self).halted == old(self).halted,
            final(self).arena == old(self).arena,
    {
        match inb {
            Some(b) => self.regs.set(c, b as u32),
            None => self.regs.set(c, 0xffffffff),
        }
    }

    /// Operator 11. Blocks for one byte of the standard input; register
    /// C takes it, or all ones at end of stream. Only an unrecoverable
    /// stream failure is fatal.
    pub fn input(&mut self, op: Operator) -> (r: Result<(), VmError>)
        requires
            old(self).wf(),
        ensures
            final(self).wf(),
            r is Ok ==> (exists|inb: Option<u8>|
                final(self).regs@ == old(self).regs@.update(
                    field_c(op.0) as int,
                    #[trigger] input_word(inb),
                )),
            r is Err ==> final(self).same_state(*old(self)) && r == Err::<(), VmError>(
                VmError::IoFailed,
            ),
            final(self).pc == old(self).pc,
            final(self).halted == old(self).halted,
            final(self).arena == old(self).arena,
    {
        let c = op.C();
        match host::read_stdin_byte() {
            Ok(inb) => {
                self.apply_input(c, inb);
                proof {
                    assert(final(self).regs@ == old(self).regs@.update(
                        field_c(op.0) as int,
                        input_word(inb),
                    ));
                }
                Ok(())
            },
            Err(()) => Err(VmError::IoFailed),
        }
    }

    /// Operator 12. The array named by register B becomes the executing
    /// image (a deep copy when B is non-zero, a no-op on the binding when
    /// it is 0), and the program counter takes register C. The source
    /// array stays live with its words untouched; a dead identifier is
    /// fatal.
    pub fn load_program(&mut self, op: Operator) -> (r: Result<(), VmError>)
        requires
            old(self).wf(),
        ensures
            final(self).wf(),
            ({
                let id = old(self).regs@[field_b(op.0) as int];
                &&& r is Ok <==> old(self).arena.live(id)
                &&& r is Ok ==> {
                    &&& final(self).pc == old(self).regs@[field_c(op.0) as int]
                    &&& final(self).arena.contents(0) == old(self).arena.contents(id)
                    &&& forall|x: u32| final(self).arena.live(x) == old(self).arena.live(x)
                    &&& forall|x: u32|
                        x != 0 && old(self).arena.live(x) ==> final(self).arena.contents(x)
                            == old(self).arena.contents(x)
                    &&& final(self).arena.pool@ == old(self).arena.pool@
                }
                &&& r is Err ==> final(self).same_state(*old(self)) && r == Err::<(), VmError>(
                    VmError::DeadArray { id },
                )
            }),
            final(self).regs@ == old(self).regs@,
            final(self).halted == old(self).halted,
    {
        let id = self.regs[op.B()];
        let target = self.regs[op.C()];
        match self.arena.replace_zero(id) {
            Ok(()) => {
                self.pc = target;
                Ok(())
            },
            Err(e) => Err(e),
        }
    }

    /// Operator 13. The special A register takes the 25-bit immediate,
    /// zero-extended.
    pub fn orthography(&mut self, op: Operator)
        requires
            old(self).wf(),
        ensures
            final(self).wf(),
            final(self).regs@ == old(self).regs@.update(
                field_a_special(op.0) as int,
                special_value(op.0),
            ),
            final(self).pc == old(self).pc,
            final(self).halted == old(self).halted,
            final(self).arena == old(self).arena,
    {
        let v = op.value();
        self.regs.set(op.A_special(), v);
    }

    /// One spin cycle: fetch the word at the program counter of array
    /// 0, dispatch on its operator, and advance the program counter by
    /// one unless Load Program retargeted it. A cycle on a halted
    /// machine does nothing. A fatal condition ends with its error and
    /// the machine state as the failing cycle found it; the host stops
    /// cycling then. Cycling itself is the host's loop: a guest may
    /// legitimately never halt, so no bound on the number of cycles
    /// exists to be proved.
    pub fn spin_cycle(&mut self) -> (r: Result<(), VmError>)
        requires
            old(self).wf(),
        ensures
            final(self).wf(),
            old(self).halted ==> r is Ok && *final(self) == *old(self),
            !old(self).halted && (old(self).pc as int) >= old(self).arena.contents(0).len()
                ==> r == Err::<(), VmError>(
                VmError::OutOfRange { id: 0, offset: old(self).pc },
            ) && final(self).same_state(*old(self)),
            !old(self).halted && (old(self).pc as int) < old(self).arena.contents(0).len()
                ==> ({
                let w = old(self).arena.contents(0)[old(self).pc as int];
                &&& cycle_outcome(*old(self), w, r)
                &&& (r is Ok ==> cycle_effect(*old(self), *final(self), w))
                &&& (r is Err ==> final(self).same_state(*old(self)))
            }),
    {
        if self.halted {
            return Ok(());
        }
        let w = match self.arena.read(0, self.pc) {
            Ok(w) => w,
            Err(e) => { return Err(e); },
        };
        let op = Operator(w);
        let num = op.number();
        if num == 12 {
            return match self.load_program(op) {
                Ok(()) => Ok(()),
                Err(e) => Err(e),
            };
        }
        if num == 0 {
            self.conditional_move(op);
        } else if num == 1 {
            match self.array_index(op) {
                Ok(()) => {},
                Err(e) => { return Err(e); },
            }
        } else if num == 2 {
            match self.array_amendment(op) {
                Ok(()) => {},
                Err(e) => { return Err(e); },
            }
        } else if num == 3 {
            self.addition(op);
        } else if num == 4 {
            self.multiplication(op);
        } else if num == 5 {
            match self.division(op) {
                Ok(()) => {},
                Err(e) => { return Err(e); },
            }
        } else if num == 6 {
            self.not_and(op);
        } else if num == 7 {
            self.halt(op);
        } else if num == 8 {
            match self.allocation(op) {
                Ok(()) => {},
                Err(e) => { return Err(e); },
            }
        } else if num == 9 {
            match self.abandonment(op) {
                Ok(()) => {},
                Err(e) => { return Err(e); },
            }
        } else if num == 10 {
            match self.output(op) {
                Ok(()) => {},
                Err(e) => { return Err(e); },
            }
        } else if num == 11 {
            match self.input(op) {
                Ok(()) => {},
                Err(e) => { return Err(e); },
            }
        } else if num == 13 {
            self.orthography(op);
        } else {
            proof {
                assert(num as u32 == op_number(w)) by {
                    assert((w >> 28) & 0xf < 16) by (bit_vector);
                }
            }
            return Err(VmError::UnknownOpcode { number: num as u32 });
        }
        self.pc = self.pc.wrapping_add(1);
        Ok(())
    }
}

/// The program counter after an ordinary cycle: one further, wrapping as
/// a 32-bit word.
pub open spec fn pc_next(pc: u32) -> u32 {
    if pc == 0xffffffffu32 {
        0u32
    } else {
        (pc + 1) as u32
    }
}

/// Whether one spin cycle on the fetched word succeeds, and with which
/// error it fails: each operator succeeds exactly on the inputs the
/// machine's rules allow, except that an Output or Input may also fail
/// with the standard streams, and an Allocation only fails with every
/// 32-bit identifier taken.
pub open spec fn cycle_outcome(pre: Cpu, w: u32, r: Result<(), VmError>) -> bool {
    let n = op_number(w);
    let ra = pre.regs@[field_a(w) as int];
    let rb = pre.regs@[field_b(w) as int];
    let rc = pre.regs@[field_c(w) as int];
    if n == 0 || n == 3 || n == 4 || n == 6 || n == 7 || n == 13 {
        r is Ok
    } else if n == 1 {
        &&& (r is Ok <==> pre.arena.live(rb) && (rc as int) < pre.arena.contents(rb).len())
        &&& (r is Err ==> r == Err::<(), VmError>(
            if !pre.arena.live(rb) {
                VmError::DeadArray { id: rb }
            } else {
                VmError::OutOfRange { id: rb, offset: rc }
            },
        ))
    } else if n == 2 {
        &&& (r is Ok <==> pre.arena.live(ra) && (rb as int) < pre.arena.contents(ra).len())
        &&& (r is Err ==> r == Err::<(), VmError>(
            if !pre.arena.live(ra) {
                VmError::DeadArray { id: ra }
            } else {
                VmError::OutOfRange { id: ra, offset: rb }
            },
        ))
    } else if n == 5 {
        &&& (r is Ok <==> rc != 0)
        &&& (r is Err ==> r == Err::<(), VmError>(VmError::DivisionByZero))
    } else if n == 8 {
        &&& (pre.arena.pool@.len() > 0 ==> r is Ok)
        &&& (r is Err ==> r == Err::<(), VmError>(VmError::ArenaExhausted))
    } else if n == 9 {
        &&& (r is Ok <==> rc != 0 && pre.arena.live(rc))
        &&& (r is Err ==> r == Err::<(), VmError>(
            if rc == 0 {
                VmError::AbandonZero
            } else {
                VmError::DeadArray { id: rc }
            },
        ))
    } else if n == 10 {
        &&& (rc > 255 <==> r == Err::<(), VmError>(VmError::OutputTooLarge { value: rc }))
        &&& (r is Err ==> r == Err::<(), VmError>(VmError::OutputTooLarge { value: rc }) || r
            == Err::<(), VmError>(VmError::IoFailed))
    } else if n == 11 {
        r is Err ==> r == Err::<(), VmError>(VmError::IoFailed)
    } else if n == 12 {
        &&& (r is Ok <==> pre.arena.live(rb))
        &&& (r is Err ==> r == Err::<(), VmError>(VmError::DeadArray { id: rb }))
    } else {
        r == Err::<(), VmError>(VmError::UnknownOpcode { number: n })
    }
}

/// How one successful spin cycle relates the machine after it to the
/// machine before it, given the fetched word: the effect of the word's
/// operator on registers, arena and halted flag, and the advance or
/// retargeting of the program counter.
pub open spec fn cycle_effect(pre: Cpu, post: Cpu, w: u32) -> bool {
    let n = op_number(w);
    let a = field_a(w) as int;
    let b = field_b(w) as int;
    let c = field_c(w) as int;
    let rb = pre.regs@[b];
    let rc = pre.regs@[c];
    if n == 0 {
        &&& post.regs@ == (if rc != 0 {
            pre.regs@.update(a, rb)
        } else {
            pre.regs@
        })
        &&& post.pc == pc_next(pre.pc)
        &&& !post.halted
        &&& post.arena == pre.arena
    } else if n == 1 {
        &&& pre.arena.live(rb)
        &&& (rc as int) < pre.arena.contents(rb).len()
        &&& post.regs@ == pre.regs@.update(a, pre.arena.contents(rb)[rc as int])
        &&& post.pc == pc_next(pre.pc)
        &&& !post.halted
        &&& post.arena == pre.arena
    } else if n == 2 {
        let id = pre.regs@[a];
        &&& pre.arena.live(id)
        &&& (rb as int) < pre.arena.contents(id).len()
        &&& post.arena.contents(id) == pre.arena.contents(id).update(rb as int, rc)
        &&& forall|x: u32| post.arena.live(x) == pre.arena.live(x)
        &&& forall|x: u32|
            x != id && pre.arena.live(x) ==> post.arena.contents(x) == pre.arena.contents(x)
        &&& post.regs@ == pre.regs@
        &&& post.pc == pc_next(pre.pc)
        &&& !post.halted
    } else if n == 3 {
        &&& post.regs@ == pre.regs@.update(a, (((rb as int) + (rc as int)) % 0x1_0000_0000) as u32)
        &&& post.pc == pc_next(pre.pc)
        &&& !post.halted
        &&& post.arena == pre.arena
    } else if n == 4 {
        &&& post.regs@ == pre.regs@.update(a, (((rb as int) * (rc as int)) % 0x1_0000_0000) as u32)
        &&& post.pc == pc_next(pre.pc)
        &&& !post.halted
        &&& post.arena == pre.arena
    } else if n == 5 {
        &&& rc != 0
        &&& post.regs@ == pre.regs@.update(a, rb / rc)
        &&& post.pc == pc_next(pre.pc)
        &&& !post.halted
        &&& post.arena == pre.arena
    } else if n == 6 {
        &&& post.regs@ == pre.regs@.update(a, !(rb & rc))
        &&& post.pc == pc_next(pre.pc)
        &&& !post.halted
        &&& post.arena == pre.arena
    } else if n == 7 {
        &&& post.regs@ == pre.regs@
        &&& post.pc == pc_next(pre.pc)
        &&& post.halted
        &&& post.arena == pre.arena
    } else if n == 8 {
        let id = post.regs@[b];
        &&& post.regs@ == pre.regs@.update(b, id)
        &&& id != 0
        &&& !pre.arena.live(id)
        &&& post.arena.live(id)
        &&& post.arena.contents(id).len() == rc as nat
        &&& forall|k: int| 0 <= k < rc ==> post.arena.contents(id)[k] == 0u32
        &&& forall|x: u32| x != id ==> post.arena.live(x) == pre.arena.live(x)
        &&& forall|x: u32|
            x != id && pre.arena.live(x) ==> post.arena.contents(x) == pre.arena.contents(x)
        &&& post.pc == pc_next(pre.pc)
        &&& !post.halted
    } else if n == 9 {
        &&& rc != 0
        &&& pre.arena.live(rc)
        &&& !post.arena.live(rc)
        &&& post.arena.pooled(rc)
        &&& forall|x: u32| x != rc ==> post.arena.live(x) == pre.arena.live(x)
        &&& forall|x: u32|
            x != rc && pre.arena.live(x) ==> post.arena.contents(x) == pre.arena.contents(x)
        &&& post.regs@ == pre.regs@
        &&& post.pc == pc_next(pre.pc)
        &&& !post.halted
    } else if n == 10 {
        &&& rc <= 255
        &&& post.regs@ == pre.regs@
        &&& post.arena.same_state(pre.arena)
        &&& post.pc == pc_next(pre.pc)
        &&& !post.halted
    } else if n == 11 {
        &&& (exists|inb: Option<u8>|
            post.regs@ == pre.regs@.update(c, #[trigger] input_word(inb)))
        &&& post.pc == pc_next(pre.pc)
        &&& !post.halted
        &&& post.arena == pre.arena
    } else if n == 12 {
        &&& pre.arena.live(rb)
        &&& post.arena.contents(0) == pre.arena.contents(rb)
        &&& forall|x: u32| post.arena.live(x) == pre.arena.live(x)
        &&& forall|x: u32|
            x != 0 && pre.arena.live(x) ==> post.arena.contents(x) == pre.arena.contents(x)
        &&& post.regs@ == pre.regs@
        &&& post.pc == rc
        &&& !post.halted
    } else if n == 13 {
        &&& post.regs@ == pre.regs@.update(field_a_special(w) as int, special_value(w))
        &&& post.pc == pc_next(pre.pc)
        &&& !post.halted
        &&& post.arena == pre.arena
    } else {
        false
    }
}

/// Load Program does not consume its source: after a successful cycle
/// on a Load Program word, the source array is still live, and every
/// offset of it reads the same word as before the cycle.
pub proof fn lemma_load_program_preserves_source(pre: Cpu, post: Cpu, w: u32, off: u32)
    requires
        pre.wf(),
        op_number(w) == 12,
        cycle_effect(pre, post, w),
    ensures
        post.arena.live(pre.regs@[field_b(w) as int]),
        (off as int) < pre.arena.contents(pre.regs@[field_b(w) as int]).len()
            ==> post.arena.contents(pre.regs@[field_b(w) as int])[off as int]
            == pre.arena.contents(pre.regs@[field_b(w) as int])[off as int],
{
    let rb = pre.regs@[field_b(w) as int];
    if rb == 0 {
        assert(post.arena.contents(0) == pre.arena.contents(rb));
    } else {
        assert(post.arena.contents(rb) == pre.arena.contents(rb));
    }
}

/// Bit by bit, Not-And computes the negated conjunction: bit i of the
/// result is clear exactly when bit i is set in both operands.
pub proof fn lemma_not_and_bits(b: u32, c: u32, i: u32)
    requires
        i < 32,
    ensures
        ((!(b & c)) >> i) & 1 == (if ((b >> i) & 1) == 1 && ((c >> i) & 1) == 1 {
            0u32
        } else {
            1u32
        }),
{
    assert(i < 32 ==> ((!(b & c)) >> i) & 1 == (if ((b >> i) & 1) == 1 && ((c >> i) & 1) == 1 {
        0u32
    } else {
        1u32
    })) by (bit_vector);
}

} // verus!
