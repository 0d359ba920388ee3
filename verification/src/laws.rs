use crate::error::Error;
use crate::instruction::Instruction;
use crate::runtime::{
    invoke_frame, invoke_spec, run, top_remaining, unwind_spec, FrameView,
};
use crate::store::InternalFuncInstView;
use crate::value::{wrap_add32, zero_value, Value};
use vstd::prelude::*;

verus! {

/// Arithmetic correctness: invoking a function whose body reads its two
/// 32-bit parameters, adds them and ends, returns their sum modulo 2^32 and
/// leaves the operand stack empty — for every pair of 32-bit integers.
pub proof fn lemma_i32_add_body(func: InternalFuncInstView, a: i32, b: i32)
    requires
        func.func_type.params.len() == 2,
        func.func_type.results.len() == 1,
        func.code.locals.len() == 0,
        func.code.body == seq![
            Instruction::LocalGet(0),
            Instruction::LocalGet(1),
            Instruction::I32Add,
            Instruction::End,
        ],
    ensures
        invoke_spec(seq![Value::I32(a), Value::I32(b)], Seq::empty(), func) == Ok::<
            (Seq<Value>, Option<Value>),
            Error,
        >((Seq::empty(), Some(Value::I32(wrap_add32(a, b))))),
{
    let stack0 = seq![Value::I32(a), Value::I32(b)];
    let fv = invoke_frame(stack0, func);
    assert(fv.locals =~= stack0);
    assert(fv.sp == 0);
    assert(fv.arity == 1);

    let s0 = stack0.subrange(0, 0);
    assert(s0 =~= Seq::<Value>::empty());
    let fs0 = Seq::<FrameView>::empty().push(fv);
    assert(fs0.last() == fv);
    assert(fs0.len() == 1);

    // local.get 0
    let s1 = s0.push(Value::I32(a));
    let f1 = FrameView { pc: 1, ..fv };
    let fs1 = fs0.update(0, f1);
    assert(run(s0, fs0) == run(s1, fs1));

    // local.get 1
    assert(fs1.last() == f1);
    let s2 = s1.push(Value::I32(b));
    let f2 = FrameView { pc: 2, ..f1 };
    let fs2 = fs1.update(0, f2);
    assert(run(s1, fs1) == run(s2, fs2));

    // i32.add
    assert(fs2.last() == f2);
    assert(s2.len() == 2);
    assert(s2[0] == Value::I32(a));
    assert(s2.last() == Value::I32(b));
    let s3 = s2.drop_last().drop_last().push(Value::I32(wrap_add32(a, b)));
    let f3 = FrameView { pc: 3, ..f2 };
    let fs3 = fs2.update(0, f3);
    assert(run(s2, fs2) == run(s3, fs3));

    // end: pop the frame and unwind
    assert(fs3.last() == f3);
    assert(s3.len() == 1);
    assert(s3.last() == Value::I32(wrap_add32(a, b)));
    assert(s3.drop_last().len() == 0);
    let s4 = crate::runtime::truncated(s3.drop_last(), 0).push(s3.last());
    assert(unwind_spec(s3, 0, 1) == Ok::<Seq<Value>, Error>(s4));
    assert(fs3.drop_last() =~= Seq::<FrameView>::empty());
    assert(run(s3, fs3) == run(s4, fs3.drop_last()));
    assert(run(s4, fs3.drop_last()) == Ok::<Seq<Value>, Error>(s4));

    assert(s4.len() == 1);
    assert(s4.last() == Value::I32(wrap_add32(a, b)));
    assert(s4.drop_last() =~= Seq::<Value>::empty());
}

/// The final operand stack of a successful run is governed by the bottom
/// frame: with the bottom frame's base at zero, exactly its arity's worth of
/// result values survive (one value, or none).
pub proof fn lemma_run_bottom_frame(stack: Seq<Value>, frames: Seq<FrameView>, s: Seq<Value>)
    requires
        frames.len() > 0,
        frames[0].sp == 0,
        run(stack, frames) == Ok::<Seq<Value>, Error>(s),
    ensures
        s.len() == if frames[0].arity > 0 { 1int } else { 0int },
    decreases frames.len(), top_remaining(frames),
{
    let f = frames.last();
    if !(0 <= f.pc < f.insts.len()) {
        match unwind_spec(stack, f.sp, f.arity) {
            Ok(s2) => {
                if frames.len() == 1 {
                    assert(f == frames[0]);
                    assert(run(s2, frames.drop_last()) == Ok::<Seq<Value>, Error>(s2));
                } else {
                    assert(frames.drop_last()[0] == frames[0]);
                    lemma_run_bottom_frame(s2, frames.drop_last(), s);
                }
            },
            Err(_) => {},
        }
    } else {
        let stepped = frames.update(frames.len() - 1, FrameView { pc: f.pc + 1, ..f });
        assert(stepped[0].sp == frames[0].sp);
        assert(stepped[0].arity == frames[0].arity);
        match f.insts[f.pc] {
            Instruction::I32Add => {
                if stack.len() >= 2 {
                    match (stack[stack.len() - 2], stack.last()) {
                        (Value::I32(a), Value::I32(b)) => {
                            lemma_run_bottom_frame(
                                stack.drop_last().drop_last().push(Value::I32(wrap_add32(a, b))),
                                stepped,
                                s,
                            );
                        },
                        _ => {},
                    }
                }
            },
            Instruction::LocalGet(idx) => {
                if idx < f.locals.len() {
                    lemma_run_bottom_frame(stack.push(f.locals[idx as int]), stepped, s);
                }
            },
            Instruction::End => {
                match unwind_spec(stack, f.sp, f.arity) {
                    Ok(s2) => {
                        if frames.len() == 1 {
                            assert(f == frames[0]);
                            assert(run(s2, frames.drop_last()) == Ok::<Seq<Value>, Error>(s2));
                        } else {
                            assert(frames.drop_last()[0] == frames[0]);
                            lemma_run_bottom_frame(s2, frames.drop_last(), s);
                        }
                    },
                    Err(_) => {},
                }
            },
            Instruction::Call(_) => {},
        }
    }
}

/// Frame isolation: invoking a function from an otherwise empty machine with
/// exactly as many arguments as it has parameters leaves, on success, an
/// operand stack of the length it had before the arguments were pushed — the
/// returned value itself already extracted. (On failure the machine resets
/// both stacks, as the call entry point's contract states.)
pub proof fn lemma_frame_isolation(func: InternalFuncInstView, stack0: Seq<Value>)
    requires
        stack0.len() == func.func_type.params.len(),
    ensures
        match invoke_spec(stack0, Seq::empty(), func) {
            Ok(sr) => sr.0.len() == 0,
            Err(_) => true,
        },
{
    let fv = invoke_frame(stack0, func);
    assert(fv.sp == 0);
    let frames = Seq::<FrameView>::empty().push(fv);
    assert(frames[0] == fv);
    match run(stack0.subrange(0, 0), frames) {
        Ok(s) => {
            lemma_run_bottom_frame(stack0.subrange(0, 0), frames, s);
        },
        Err(_) => {},
    }
}

/// Local zero-initialization: in the frame a call sets up, every declared
/// local (each slot past the parameters) holds the zero value of its declared
/// type; a `local.get` that reaches it before any write therefore yields
/// `I32(0)` or `I64(0)`.
pub proof fn lemma_local_zero_initialization(
    stack0: Seq<Value>,
    func: InternalFuncInstView,
    i: int,
)
    requires
        stack0.len() >= func.func_type.params.len(),
        0 <= i < func.code.locals.len(),
    ensures
        invoke_frame(stack0, func).locals.len() == func.func_type.params.len()
            + func.code.locals.len(),
        invoke_frame(stack0, func).locals[func.func_type.params.len() + i] == zero_value(
            func.code.locals[i],
        ),
{
    let nparams = func.func_type.params.len() as int;
    let fv = invoke_frame(stack0, func);
    assert(fv.locals.len() == nparams + func.code.locals.len());
    assert(fv.locals[nparams + i] == func.code.locals.map_values(|t| zero_value(t))[i]);
}

/// Out-of-range local access: a `local.get` whose index is at or past the
/// frame's locals count fails with `LocalIndexOutOfRange` — the machine never
/// reads out of bounds.
pub proof fn lemma_local_get_out_of_range(stack: Seq<Value>, frames: Seq<FrameView>, idx: u32)
    requires
        frames.len() > 0,
        0 <= frames.last().pc < frames.last().insts.len(),
        frames.last().insts[frames.last().pc] == Instruction::LocalGet(idx),
        idx >= frames.last().locals.len(),
    ensures
        run(stack, frames) == Err::<Seq<Value>, Error>(Error::LocalIndexOutOfRange),
{
}

/// Unsupported instruction: dispatching any instruction variant the loop
/// gives no behavior yields `UnsupportedInstruction`, an error like any
/// other — the call entry point then resets the stacks, and the machine
/// serves later calls from that clean state.
pub proof fn lemma_unsupported_instruction(stack: Seq<Value>, frames: Seq<FrameView>, target: u32)
    requires
        frames.len() > 0,
        0 <= frames.last().pc < frames.last().insts.len(),
        frames.last().insts[frames.last().pc] == Instruction::Call(target),
    ensures
        run(stack, frames) == Err::<Seq<Value>, Error>(Error::UnsupportedInstruction),
{
}

} // verus!
