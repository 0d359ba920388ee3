use crate::error::Error;
use crate::instruction::Instruction;
use crate::module::Module;
use crate::store::{FuncInst, FuncInstView, InternalFuncInst, InternalFuncInstView, Store, StoreView};
use crate::types::{Export, ExportDesc, ExportView, ValueType};
use crate::value::{wrap_add32, zero_value, Value};
use vstd::prelude::*;

verus! {

/// The execution state of one active function call: the index of the next
/// instruction to fetch (0 before the first step), the operand-stack base of
/// the frame, the body being executed, the declared result count, and the
/// call's locals (parameters first, then the zero-initialized declared
/// locals).
#[derive(Debug, Clone)]
pub struct Frame {
    pub pc: usize,
    pub sp: usize,
    pub insts: Vec<Instruction>,
    pub arity: usize,
    pub locals: Vec<Value>,
}

/// The mathematical content of a [`Frame`].
#[verifier::ext_equal]
pub struct FrameView {
    pub pc: int,
    pub sp: int,
    pub insts: Seq<Instruction>,
    pub arity: int,
    pub locals: Seq<Value>,
}

impl View for Frame {
    type V = FrameView;

    open spec fn view(&self) -> FrameView {
        FrameView {
            pc: self.pc as int,
            sp: self.sp as int,
            insts: self.insts@,
            arity: self.arity as int,
            locals: self.locals@,
        }
    }
}

/// The frame stack as mathematical values; the last element is the currently
/// executing frame.
pub open spec fn frames_of(call_stack: Seq<Frame>) -> Seq<FrameView> {
    call_stack.map_values(|f: Frame| f@)
}

/// The operand stack truncated back to length `sp`; a stack already at or
/// below `sp` is left as it is.
pub open spec fn truncated(stack: Seq<Value>, sp: int) -> Seq<Value> {
    if stack.len() <= sp {
        stack
    } else if sp < 0 {
        Seq::empty()
    } else {
        stack.subrange(0, sp)
    }
}

/// What unwinding does to the operand stack when a frame with base `sp` and
/// result count `arity` ends: with a result owed, the top value survives and
/// everything of the frame's region is discarded; with none, the stack is
/// simply cut back to the base. Needing a result from an empty stack is a
/// stack underflow.
pub open spec fn unwind_spec(stack: Seq<Value>, sp: int, arity: int) -> Result<Seq<Value>, Error> {
    if arity > 0 {
        if stack.len() == 0 {
            Err(Error::StackUnderflow)
        } else {
            Ok(truncated(stack.drop_last(), sp).push(stack.last()))
        }
    } else {
        Ok(truncated(stack, sp))
    }
}

/// How much of the top frame's body is still to be fetched; ranks the
/// dispatch loop together with the frame count.
pub open spec fn top_remaining(frames: Seq<FrameView>) -> nat {
    if frames.len() > 0 {
        let f = frames.last();
        if 0 <= f.pc < f.insts.len() {
            (f.insts.len() - f.pc) as nat
        } else {
            0
        }
    } else {
        0
    }
}

/// One complete execution of the dispatch loop from a given machine state:
/// fetch at the top frame's program counter, dispatch, repeat until the frame
/// stack is empty, and yield the final operand stack or the first error.
/// Running past the end of a body behaves exactly like an explicit
/// [`Instruction::End`]: only the exhausted frame is popped and unwound.
pub open spec fn run(stack: Seq<Value>, frames: Seq<FrameView>) -> Result<Seq<Value>, Error>
    decreases frames.len(), top_remaining(frames),
{
    if frames.len() == 0 {
        Ok(stack)
    } else {
        let f = frames.last();
        if !(0 <= f.pc < f.insts.len()) {
            match unwind_spec(stack, f.sp, f.arity) {
                Ok(s) => run(s, frames.drop_last()),
                Err(e) => Err(e),
            }
        } else {
            let stepped = frames.update(frames.len() - 1, FrameView { pc: f.pc + 1, ..f });
            match f.insts[f.pc] {
                Instruction::I32Add => if stack.len() < 2 {
                    Err(Error::TypeMismatch)
                } else {
                    match (stack[stack.len() - 2], stack.last()) {
                        (Value::I32(a), Value::I32(b)) => run(
                            stack.drop_last().drop_last().push(Value::I32(wrap_add32(a, b))),
                            stepped,
                        ),
                        _ => Err(Error::TypeMismatch),
                    }
                },
                Instruction::LocalGet(idx) => if idx < f.locals.len() {
                    run(stack.push(f.locals[idx as int]), stepped)
                } else {
                    Err(Error::LocalIndexOutOfRange)
                },
                Instruction::End => match unwind_spec(stack, f.sp, f.arity) {
                    Ok(s) => run(s, frames.drop_last()),
                    Err(e) => Err(e),
                },
                Instruction::Call(_) => Err(Error::UnsupportedInstruction),
            }
        }
    }
}

/// The frame that invoking `func` on operand stack `stack0` pushes: the
/// program counter at the body's start, the stack base below the consumed
/// arguments, and the locals made of the arguments followed by one zero value
/// per declared local.
pub open spec fn invoke_frame(stack0: Seq<Value>, func: InternalFuncInstView) -> FrameView {
    let nparams = func.func_type.params.len() as int;
    let sp = stack0.len() - nparams;
    FrameView {
        pc: 0,
        sp: sp,
        insts: func.code.body,
        arity: func.func_type.results.len() as int,
        locals: stack0.subrange(sp, stack0.len() as int) + func.code.locals.map_values(
            |t: ValueType| zero_value(t),
        ),
    }
}

/// What invoking an instantiated function does, starting from a given operand
/// stack and frame stack: the top `params.len()` values are consumed as the
/// call's arguments, the frame of [`invoke_frame`] is pushed, and the machine
/// runs to completion. On success the pair is the final operand stack and the
/// extracted result value, if the function declares one.
pub open spec fn invoke_spec(
    stack0: Seq<Value>,
    frames0: Seq<FrameView>,
    func: InternalFuncInstView,
) -> Result<(Seq<Value>, Option<Value>), Error> {
    let nparams = func.func_type.params.len() as int;
    if stack0.len() < nparams {
        Err(Error::StackUnderflow)
    } else {
        let sp = stack0.len() - nparams;
        let fv = invoke_frame(stack0, func);
        match run(stack0.subrange(0, sp), frames0.push(fv)) {
            Err(e) => Err(e),
            Ok(s) => if func.func_type.results.len() > 0 {
                if s.len() == 0 {
                    Err(Error::MissingReturnValue)
                } else {
                    Ok((s.drop_last(), Some(s.last())))
                }
            } else {
                Ok((s, None))
            },
        }
    }
}

/// The function index behind the first export carrying `name`, if any.
pub open spec fn export_func_index(exports: Seq<ExportView>, name: Seq<char>) -> Option<int>
    decreases exports.len(),
{
    if exports.len() == 0 {
        None
    } else if exports[0].name == name {
        match exports[0].desc {
            ExportDesc::Func(fi) => Some(fi as int),
        }
    } else {
        export_func_index(exports.drop_first(), name)
    }
}

/// A name that no export of a prefix carries resolves the same in the whole
/// table as in the rest of it.
proof fn lemma_export_func_index_skip(exports: Seq<ExportView>, name: Seq<char>, n: int)
    requires
        0 <= n <= exports.len(),
        forall|k: int| 0 <= k < n ==> exports[k].name != name,
    ensures
        export_func_index(exports, name) == export_func_index(exports.skip(n), name),
    decreases n,
{
    if n == 0 {
        assert(exports.skip(0) =~= exports);
    } else {
        assert(exports[0].name != name);
        lemma_export_func_index_skip(exports.drop_first(), name, n - 1);
        assert(exports.drop_first() =~= exports.skip(1));
        assert(exports.drop_first().skip(n - 1) =~= exports.skip(n));
    }
}

/// Linear lookup of an exported function by name; yields the stored function
/// index of the first matching export.
fn find_export_index(exports: &Vec<Export>, name: &String) -> (r: Option<u32>)
    ensures
        match r {
            Some(fi) => export_func_index(exports@.map_values(|e: Export| e@), name@)
                == Some(fi as int),
            None => export_func_index(exports@.map_values(|e: Export| e@), name@) is None,
        },
{
    let ghost table = exports@.map_values(|e: Export| e@);
    let mut i: usize = 0;
    while i < exports.len()
        invariant
            i <= exports@.len(),
            table == exports@.map_values(|e: Export| e@),
            forall|k: int| 0 <= k < i ==> table[k].name != name@,
        decreases exports@.len() - i,
    {
        if exports[i].name == *name {
            proof {
                lemma_export_func_index_skip(table, name@, i as int);
                assert(table.skip(i as int)[0] == table[i as int]);
            }
            match exports[i].desc {
                ExportDesc::Func(fi) => {
                    return Some(fi);
                },
            }
        }
        i = i + 1;
    }
    proof {
        lemma_export_func_index_skip(table, name@, exports@.len() as int);
        assert(table.skip(exports@.len() as int) =~= Seq::<ExportView>::empty());
    }
    None
}

/// Takes the frame's result off the full operand stack if its arity asks for
/// one, cuts the stack back to the frame's base `sp`, and puts the result
/// back: the one place that reconciles how much of the shared stack belonged
/// to the frame that just ended with what survives into the caller's region.
pub fn stack_unwind(stack: &mut Vec<Value>, sp: usize, arity: usize) -> (r: Result<(), Error>)
    ensures
        match unwind_spec(old(stack)@, sp as int, arity as int) {
            Ok(s) => r == Ok::<(), Error>(()) && final(stack)@ == s,
            Err(e) => r == Err::<(), Error>(e) && final(stack)@ == old(stack)@,
        },
        arity == 0 && old(stack)@.len() >= sp ==> final(stack)@.len() == sp,
{
    if arity > 0 {
        let value = match stack.pop() {
            Some(v) => v,
            None => {
                return Err(Error::StackUnderflow);
            },
        };
        stack.truncate(sp);
        stack.push(value);
        Ok(())
    } else {
        stack.truncate(sp);
        Ok(())
    }
}

/// The machine: the store of callable function instances, the shared operand
/// stack, and the stack of active call frames.
#[derive(Debug)]
pub struct Runtime {
    pub store: Store,
    pub stack: Vec<Value>,
    pub call_stack: Vec<Frame>,
}

impl Runtime {
    /// Builds a runnable machine from a decoded module: the store is
    /// instantiated and both stacks start empty.
    pub fn instantiate(module: Module) -> (r: Result<Runtime, Error>)
        ensures
            match r {
                Ok(rt) => crate::store::instantiate_spec(module@) == Ok::<StoreView, Error>(
                    rt.store@,
                ) && rt.stack@.len() == 0 && rt.call_stack@.len() == 0,
                Err(e) => crate::store::instantiate_spec(module@) == Err::<StoreView, Error>(e),
            },
    {
        let store = match Store::new(module) {
            Ok(s) => s,
            Err(e) => {
                return Err(e);
            },
        };
        Ok(Runtime { store, stack: Vec::new(), call_stack: Vec::new() })
    }

    /// The fetch-dispatch-execute loop: runs until the call stack empties,
    /// refining [`run`] on the machine state it started from. On an error the
    /// stacks are left for the caller to reset.
    fn execution(&mut self) -> (r: Result<(), Error>)
        ensures
            final(self).store == old(self).store,
            match r {
                Ok(()) => run(old(self).stack@, frames_of(old(self).call_stack@))
                    == Ok::<Seq<Value>, Error>(final(self).stack@)
                    && final(self).call_stack@.len() == 0,
                Err(e) => run(old(self).stack@, frames_of(old(self).call_stack@))
                    == Err::<Seq<Value>, Error>(e),
            },
    {
        let ghost init_stack = self.stack@;
        let ghost init_frames = frames_of(self.call_stack@);
        let ghost init_store = self.store;
        #[verifier::loop_isolation(false)]
        while self.call_stack.len() > 0
            invariant
                self.store == init_store,
                run(self.stack@, frames_of(self.call_stack@)) == run(init_stack, init_frames),
            decreases frames_of(self.call_stack@).len(), top_remaining(frames_of(self.call_stack@)),
        {
            let ghost pre_stack = self.stack@;
            let ghost pre_cs = self.call_stack@;
            let ghost pre_frames = frames_of(pre_cs);
            proof {
                assert(pre_frames.len() == pre_cs.len());
                assert(pre_frames.last() == pre_cs.last()@);
            }
            let mut frame = self.call_stack.pop().unwrap();
            proof {
                assert(self.call_stack@ =~= pre_cs.drop_last());
                assert(frames_of(self.call_stack@) =~= pre_frames.drop_last());
            }
            if frame.pc >= frame.insts.len() {
                // running past the end of the body is the same as an explicit End
                match stack_unwind(&mut self.stack, frame.sp, frame.arity) {
                    Ok(()) => {},
                    Err(e) => {
                        return Err(e);
                    },
                }
            } else {
                let inst = frame.insts[frame.pc];
                frame.pc = frame.pc + 1;
                proof {
                    assert(pre_frames.drop_last().push(frame@) =~= pre_frames.update(
                        pre_frames.len() - 1,
                        frame@,
                    ));
                }
                match inst {
                    Instruction::I32Add => {
                        let right = match self.stack.pop() {
                            Some(v) => v,
                            None => {
                                return Err(Error::TypeMismatch);
                            },
                        };
                        let left = match self.stack.pop() {
                            Some(v) => v,
                            None => {
                                return Err(Error::TypeMismatch);
                            },
                        };
                        match (left, right) {
                            (Value::I32(a), Value::I32(b)) => {
                                self.stack.push(Value::I32(a.wrapping_add(b)));
                                self.call_stack.push(frame);
                                proof {
                                    assert(self.stack@ =~= pre_stack.drop_last().drop_last().push(
                                        Value::I32(wrap_add32(a, b)),
                                    ));
                                    assert(frames_of(self.call_stack@)
                                        =~= pre_frames.drop_last().push(frame@));
                                }
                            },
                            _ => {
                                return Err(Error::TypeMismatch);
                            },
                        }
                    },
                    Instruction::LocalGet(idx) => {
                        if (idx as usize) < frame.locals.len() {
                            let v = frame.locals[idx as usize];
                            self.stack.push(v);
                            self.call_stack.push(frame);
                            proof {
                                assert(frames_of(self.call_stack@) =~= pre_frames.drop_last().push(
                                    frame@,
                                ));
                            }
                        } else {
                            return Err(Error::LocalIndexOutOfRange);
                        }
                    },
                    Instruction::End => {
                        match stack_unwind(&mut self.stack, frame.sp, frame.arity) {
                            Ok(()) => {},
                            Err(e) => {
                                return Err(e);
                            },
                        }
                    },
                    Instruction::Call(_) => {
                        return Err(Error::UnsupportedInstruction);
                    },
                }
            }
        }
        proof {
            assert(frames_of(self.call_stack@) =~= Seq::<FrameView>::empty());
        }
        Ok(())
    }

    /// Empties both stacks: the full reset performed when an execution error
    /// leaves the in-flight call unrecoverable.
    fn cleanup(&mut self)
        ensures
            final(self).store == old(self).store,
            final(self).stack@.len() == 0,
            final(self).call_stack@.len() == 0,
    {
        self.stack = Vec::new();
        self.call_stack = Vec::new();
    }

    /// Builds the call's frame (arguments become the leading locals, declared
    /// locals start at zero), runs the dispatch loop, and extracts the result
    /// value if the function declares one. Any error resets both stacks
    /// entirely before it is surfaced.
    fn invoke_internal(&mut self, func: InternalFuncInst) -> (r: Result<Option<Value>, Error>)
        ensures
            final(self).store == old(self).store,
            match invoke_spec(old(self).stack@, frames_of(old(self).call_stack@), func@) {
                Ok(sr) => r == Ok::<Option<Value>, Error>(sr.1) && final(self).stack@ == sr.0
                    && final(self).call_stack@.len() == 0,
                Err(e) => r == Err::<Option<Value>, Error>(e) && final(self).stack@.len() == 0
                    && final(self).call_stack@.len() == 0,
            },
    {
        let ghost stack0 = self.stack@;
        let ghost frames0 = frames_of(self.call_stack@);
        let nparams = func.func_type.params.len();
        if self.stack.len() < nparams {
            self.cleanup();
            return Err(Error::StackUnderflow);
        }
        let bottom = self.stack.len() - nparams;
        let mut locals = self.stack.split_off(bottom);

        let mut k: usize = 0;
        let ghost args_part = locals@;
        while k < func.code.locals.len()
            invariant
                k <= func.code.locals@.len(),
                locals@ == args_part + func.code.locals@.subrange(0, k as int).map_values(
                    |t: ValueType| zero_value(t),
                ),
            decreases func.code.locals@.len() - k,
        {
            match func.code.locals[k] {
                ValueType::I32 => locals.push(Value::I32(0)),
                ValueType::I64 => locals.push(Value::I64(0)),
            }
            proof {
                assert(locals@ =~= args_part + func.code.locals@.subrange(0, k + 1).map_values(
                    |t: ValueType| zero_value(t),
                ));
            }
            k = k + 1;
        }
        proof {
            assert(func.code.locals@.subrange(0, func.code.locals@.len() as int)
                =~= func.code.locals@);
        }

        let arity = func.func_type.results.len();
        let frame = Frame {
            pc: 0,
            sp: self.stack.len(),
            insts: crate::types::copied_vec(&func.code.body),
            arity,
            locals,
        };
        self.call_stack.push(frame);

        let ghost fv = FrameView {
            pc: 0,
            sp: stack0.len() - nparams,
            insts: func@.code.body,
            arity: func@.func_type.results.len() as int,
            locals: stack0.subrange(stack0.len() - nparams, stack0.len() as int)
                + func@.code.locals.map_values(|t: ValueType| zero_value(t)),
        };
        proof {
            assert(frames_of(self.call_stack@) =~= frames0.push(fv));
        }

        match self.execution() {
            Err(e) => {
                self.cleanup();
                return Err(e);
            },
            Ok(()) => {},
        }

        if arity > 0 {
            match self.stack.pop() {
                Some(value) => Ok(Some(value)),
                None => Err(Error::MissingReturnValue),
            }
        } else {
            Ok(None)
        }
    }

    /// Invokes an exported function by name: resolves the export to a
    /// function instance, pushes the arguments in the order given, and runs
    /// it to completion. A name absent from the export table or an index
    /// outside the store leave the machine untouched; an execution error
    /// resets both stacks, and the machine serves later calls from that clean
    /// state.
    pub fn call(&mut self, name: &str, args: Vec<Value>) -> (r: Result<Option<Value>, Error>)
        ensures
            final(self).store == old(self).store,
            match export_func_index(old(self).store@.exports, name@) {
                None => r == Err::<Option<Value>, Error>(Error::ExportNotFound) && *final(self)
                    == *old(self),
                Some(fi) => if !(0 <= fi < old(self).store@.funcs.len()) {
                    r == Err::<Option<Value>, Error>(Error::FunctionNotFound) && *final(self)
                        == *old(self)
                } else {
                    match old(self).store@.funcs[fi] {
                        FuncInstView::Internal(func) => match invoke_spec(
                            old(self).stack@ + args@,
                            frames_of(old(self).call_stack@),
                            func,
                        ) {
                            Ok(sr) => r == Ok::<Option<Value>, Error>(sr.1) && final(self).stack@
                                == sr.0 && final(self).call_stack@.len() == 0,
                            Err(e) => r == Err::<Option<Value>, Error>(e)
                                && final(self).stack@.len() == 0
                                && final(self).call_stack@.len() == 0,
                        },
                    }
                },
            },
            // frame isolation: a call made from empty stacks with as many
            // arguments as the resolved function has parameters leaves both
            // stacks empty again, whether it succeeds or fails
            ({
                &&& old(self).stack@.len() == 0
                &&& old(self).call_stack@.len() == 0
                &&& match export_func_index(old(self).store@.exports, name@) {
                    Some(fi) => !(0 <= fi < old(self).store@.funcs.len())
                        || match old(self).store@.funcs[fi] {
                        FuncInstView::Internal(func) => args@.len()
                            == func.func_type.params.len(),
                    },
                    None => true,
                }
            }) ==> final(self).stack@.len() == 0 && final(self).call_stack@.len() == 0,
    {
        let name_key: String = name.to_owned();
        let index: u32 = match find_export_index(&self.store.exports, &name_key) {
            Some(fi) => fi,
            None => {
                return Err(Error::ExportNotFound);
            },
        };
        if index as usize >= self.store.funcs.len() {
            return Err(Error::FunctionNotFound);
        }

        let ghost stack0 = self.stack@;
        let mut a: usize = 0;
        while a < args.len()
            invariant
                a <= args@.len(),
                self.stack@ == stack0 + args@.subrange(0, a as int),
                self.store == old(self).store,
                self.call_stack == old(self).call_stack,
                stack0 == old(self).stack@,
            decreases args@.len() - a,
        {
            self.stack.push(args[a]);
            assert(self.stack@ =~= stack0 + args@.subrange(0, a + 1));
            a = a + 1;
        }
        assert(self.stack@ =~= old(self).stack@ + args@);

        let func = match &self.store.funcs[index as usize] {
            FuncInst::Internal(f) => f.clone(),
        };
        proof {
            assert(self.store@.funcs[index as int] == self.store.funcs@[index as int]@);
            if old(self).stack@.len() == 0 && old(self).call_stack@.len() == 0 && args@.len()
                == func@.func_type.params.len() {
                assert(frames_of(old(self).call_stack@) =~= Seq::<FrameView>::empty());
                assert(old(self).stack@ + args@ =~= args@);
                crate::laws::lemma_frame_isolation(func@, args@);
            }
        }
        self.invoke_internal(func)
    }
}

} // verus!
