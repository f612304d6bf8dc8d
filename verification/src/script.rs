//! Reading a locking script: its instructions, the branch that a spender
//! takes, and the public keys that the branch names.

use crate::transaction::{copy_bytes, stack_view};
use vstd::prelude::*;

verus! {

/// Opcode that opens a two-branch script.
pub const OP_IF: u8 = 0x63;

/// Opcode that separates the first branch from the second.
pub const OP_ELSE: u8 = 0x67;

/// Opcode that closes a two-branch script.
pub const OP_ENDIF: u8 = 0x68;

/// One instruction of a script.
#[derive(Debug, PartialEq, Eq)]
pub enum Instruction {
    /// Pushes the given bytes on the stack.
    PushBytes(Vec<u8>),
    /// Any other opcode, by its byte.
    Op(u8),
}

/// Mathematical view of an [`Instruction`].
pub enum InstructionView {
    PushBytes(Seq<u8>),
    Op(u8),
}

impl View for Instruction {
    type V = InstructionView;

    open spec fn view(&self) -> InstructionView {
        match self {
            Instruction::PushBytes(data) => InstructionView::PushBytes(data@),
            Instruction::Op(code) => InstructionView::Op(*code),
        }
    }
}

/// The views of a list of instructions.
pub open spec fn program_view(program: Seq<Instruction>) -> Seq<InstructionView> {
    Seq::new(program.len(), |i: int| program[i]@)
}

/// What decoding the bytes of `script` gives: its instructions, or the
/// script interpreter's error where a push runs past the end of the script.
pub uninterp spec fn script_instructions(script: Seq<u8>) -> Result<
    Seq<InstructionView>,
    bitcoin::blockdata::script::Error,
>;

/// Decodes a script with `bitcoin::Script::instructions`.
///
/// Trusted: the result is what that iterator yields, collected up to its
/// first error, which is then the result. Nothing more is claimed of it than
/// that it is a function of the script's bytes, named
/// [`script_instructions`].
#[verifier::external_body]
pub(crate) fn parse_script(script: &Vec<u8>) -> (parsed: Result<
    Vec<Instruction>,
    bitcoin::blockdata::script::Error,
>)
    ensures
        match parsed {
            Ok(program) => script_instructions(script@) == Ok::<
                Seq<InstructionView>,
                bitcoin::blockdata::script::Error,
            >(program_view(program@)),
            Err(e) => script_instructions(script@) == Err::<
                Seq<InstructionView>,
                bitcoin::blockdata::script::Error,
            >(e),
        },
{
    bitcoin::Script::from(script.clone())
        .instructions()
        .map(|item| item.map(|instruction| match instruction {
            bitcoin::blockdata::script::Instruction::PushBytes(data) => Instruction::PushBytes(data.to_vec()),
            bitcoin::blockdata::script::Instruction::Op(code) => Instruction::Op(code.into_u8()),
        }))
        .collect()
}

/// The part of a script that a spender satisfies.
#[derive(Debug, Clone, Copy, PartialEq, Eq, Structural)]
pub enum Path {
    /// The script has a single spending condition.
    Whole,
    /// The branch between `OP_IF` and `OP_ELSE`.
    First,
    /// The branch between `OP_ELSE` and `OP_ENDIF`.
    Second,
}

/// A serialized compressed public key: 33 bytes, the first of them 2 or 3.
pub open spec fn is_public_key(data: Seq<u8>) -> bool {
    data.len() == 33 && (data[0] == 2u8 || data[0] == 3u8)
}

/// The public keys that a run of instructions pushes, in order.
pub open spec fn keys_of(program: Seq<InstructionView>) -> Seq<Seq<u8>>
    decreases program.len(),
{
    if program.len() == 0 {
        Seq::empty()
    } else {
        let before = keys_of(program.drop_last());
        match program.last() {
            InstructionView::PushBytes(data) => if is_public_key(data) {
                before.push(data)
            } else {
                before
            },
            InstructionView::Op(_) => before,
        }
    }
}

/// `e` is the position of the first `OP_ELSE` strictly inside the script.
pub open spec fn is_first_else(program: Seq<InstructionView>, e: int) -> bool {
    &&& 0 < e < program.len() - 1
    &&& program[e] == InstructionView::Op(OP_ELSE)
    &&& forall|k: int| 0 < k < e ==> program[k] != InstructionView::Op(OP_ELSE)
}

/// The script opens with `OP_IF`, closes with `OP_ENDIF` and holds an
/// `OP_ELSE` in between.
pub open spec fn is_branched(program: Seq<InstructionView>) -> bool {
    &&& program.len() >= 3
    &&& program[0] == InstructionView::Op(OP_IF)
    &&& program[program.len() - 1] == InstructionView::Op(OP_ENDIF)
    &&& exists|e: int| is_first_else(program, e)
}

/// Position of the first `OP_ELSE` of a branched script.
pub open spec fn else_position(program: Seq<InstructionView>) -> int {
    choose|e: int| is_first_else(program, e)
}

/// The instructions of the given path. A script that is not branched has
/// neither a first nor a second branch.
pub open spec fn branch(program: Seq<InstructionView>, path: Path) -> Seq<InstructionView> {
    match path {
        Path::Whole => program,
        Path::First => if is_branched(program) {
            program.subrange(1, else_position(program))
        } else {
            Seq::empty()
        },
        Path::Second => if is_branched(program) {
            program.subrange(else_position(program) + 1, program.len() - 1)
        } else {
            Seq::empty()
        },
    }
}

/// The public keys that the given path of a script names, in script order.
pub open spec fn signers(program: Seq<InstructionView>, path: Path) -> Seq<Seq<u8>> {
    keys_of(branch(program, path))
}

/// The first `OP_ELSE` is unique.
pub proof fn lemma_first_else_unique(program: Seq<InstructionView>, e: int)
    requires
        is_first_else(program, e),
    ensures
        else_position(program) == e,
{
    let c = else_position(program);
    assert(is_first_else(program, c));
    if c < e {
        assert(program[c] != InstructionView::Op(OP_ELSE));
    }
    if e < c {
        assert(program[e] != InstructionView::Op(OP_ELSE));
    }
}

/// Tells whether the instruction is the given opcode.
pub fn is_opcode(instruction: &Instruction, code: u8) -> (same: bool)
    ensures
        same == (instruction@ == InstructionView::Op(code)),
{
    match instruction {
        Instruction::PushBytes(_) => false,
        Instruction::Op(c) => *c == code,
    }
}

/// Finds the first `OP_ELSE` of a branched script.
pub fn find_else(program: &Vec<Instruction>) -> (found: Option<usize>)
    ensures
        match found {
            Some(e) => is_branched(program_view(program@)) && e == else_position(
                program_view(program@),
            ),
            None => !is_branched(program_view(program@)),
        },
{
    let ghost view = program_view(program@);
    let n = program.len();
    if n < 3 {
        return None;
    }
    if !is_opcode(&program[0], OP_IF) {
        assert(view[0] == program@[0]@);
        return None;
    }
    if !is_opcode(&program[n - 1], OP_ENDIF) {
        assert(view[n - 1] == program@[n - 1]@);
        return None;
    }
    assert(view[0] == program@[0]@);
    assert(view[n - 1] == program@[n - 1]@);
    let mut k: usize = 1;
    while k < n - 1
        invariant
            1 <= k <= n - 1,
            n == program.len(),
            n >= 3,
            view == program_view(program@),
            view[0] == InstructionView::Op(OP_IF),
            view[n - 1] == InstructionView::Op(OP_ENDIF),
            forall|j: int| 0 < j < k ==> view[j] != InstructionView::Op(OP_ELSE),
        decreases n - k,
    {
        if is_opcode(&program[k], OP_ELSE) {
            proof {
                assert(view[k as int] == program@[k as int]@);
                assert(is_first_else(view, k as int));
                assert(is_branched(view));
                lemma_first_else_unique(view, k as int);
            }
            return Some(k);
        }
        assert(view[k as int] == program@[k as int]@);
        k = k + 1;
    }
    proof {
        assert forall|e: int| !is_first_else(view, e) by {
            if 0 < e < n - 1 {
                assert(view[e] != InstructionView::Op(OP_ELSE));
            }
        }
    }
    None
}

/// Collects the public keys pushed between two positions of a script.
pub fn keys_between(program: &Vec<Instruction>, from: usize, to: usize) -> (keys: Vec<Vec<u8>>)
    requires
        from <= to <= program.len(),
    ensures
        stack_view(keys@) == keys_of(program_view(program@).subrange(from as int, to as int)),
{
    let ghost view = program_view(program@);
    let mut keys: Vec<Vec<u8>> = Vec::new();
    let mut i: usize = from;
    proof {
        assert(stack_view(keys@) =~= Seq::<Seq<u8>>::empty());
    }
    while i < to
        invariant
            from <= i <= to <= program.len(),
            view == program_view(program@),
            stack_view(keys@) == keys_of(view.subrange(from as int, i as int)),
        decreases to - i,
    {
        let ghost before = stack_view(keys@);
        proof {
            let next = view.subrange(from as int, i + 1);
            assert(next.drop_last() =~= view.subrange(from as int, i as int));
            assert(next.last() == program@[i as int]@);
        }
        match &program[i] {
            Instruction::PushBytes(data) => {
                if data.len() == 33 && (data[0] == 2 || data[0] == 3) {
                    keys.push(copy_bytes(data));
                    proof {
                        assert(stack_view(keys@) =~= before.push(data@));
                    }
                }
            },
            Instruction::Op(_) => {},
        }
        i = i + 1;
    }
    keys
}

/// Collects the public keys that the given path of a script names.
pub fn signing_keys(program: &Vec<Instruction>, path: Path) -> (keys: Vec<Vec<u8>>)
    ensures
        stack_view(keys@) == signers(program_view(program@), path),
{
    let ghost view = program_view(program@);
    match path {
        Path::Whole => {
            proof {
                assert(view.subrange(0, view.len() as int) =~= view);
            }
            keys_between(program, 0, program.len())
        },
        Path::First => match find_else(program) {
            Some(e) => {
                proof {
                    assert(is_first_else(view, else_position(view)));
                }
                keys_between(program, 1, e)
            },
            None => {
                let keys: Vec<Vec<u8>> = Vec::new();
                proof {
                    assert(stack_view(keys@) =~= keys_of(Seq::empty()));
                }
                keys
            },
        },
        Path::Second => match find_else(program) {
            Some(e) => {
                proof {
                    assert(is_first_else(view, else_position(view)));
                }
                keys_between(program, e + 1, program.len() - 1)
            },
            None => {
                let keys: Vec<Vec<u8>> = Vec::new();
                proof {
                    assert(stack_view(keys@) =~= keys_of(Seq::empty()));
                }
                keys
            },
        },
    }
}

} // verus!
