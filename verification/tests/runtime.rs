use wasm_runtime::error::Error;
use wasm_runtime::instruction::Instruction;
use wasm_runtime::module::{FunctionBody, Module};
use wasm_runtime::runtime::{stack_unwind, Frame, Runtime};
use wasm_runtime::store::{FuncInst, Store};
use wasm_runtime::types::{Export, ExportDesc, FuncType, FunctionLocal, ValueType};
use wasm_runtime::value::Value;

/// The decoded form of a module exporting `add`, a function that returns the
/// sum of its two 32-bit parameters.
fn add_module() -> Module {
    Module {
        type_section: Some(vec![FuncType {
            params: vec![ValueType::I32, ValueType::I32],
            results: vec![ValueType::I32],
        }]),
        function_section: Some(vec![0]),
        code_section: Some(vec![FunctionBody {
            locals: vec![],
            code: vec![
                Instruction::LocalGet(0),
                Instruction::LocalGet(1),
                Instruction::I32Add,
                Instruction::End,
            ],
        }]),
        exports: vec![Export { name: String::from("add"), desc: ExportDesc::Func(0) }],
    }
}

#[test]
fn execute_i32_add() {
    let mut runtime = Runtime::instantiate(add_module()).unwrap();
    let tests = vec![(2, 3, 5), (10, 5, 15), (1, 1, 2)];

    for (left, right, want) in tests {
        let args = vec![Value::I32(left), Value::I32(right)];
        let result = runtime.call("add", args).unwrap();
        assert_eq!(result, Some(Value::I32(want)));
    }
}

#[test]
fn not_found_export_function() {
    let mut runtime = Runtime::instantiate(add_module()).unwrap();
    let result = runtime.call("fooooo", vec![]);
    assert!(result.is_err());
}

#[test]
fn add_wraps_on_overflow() {
    let mut runtime = Runtime::instantiate(add_module()).unwrap();
    let args = vec![Value::I32(2147483647), Value::I32(1)];
    let result = runtime.call("add", args).unwrap();
    assert_eq!(result, Some(Value::I32(-2147483648)));
}

#[test]
fn absent_name_is_export_not_found() {
    let mut runtime = Runtime::instantiate(add_module()).unwrap();
    let result = runtime.call("sub", vec![]);
    assert_eq!(result, Err(Error::ExportNotFound));
}

#[test]
fn export_to_missing_function_is_function_not_found() {
    let module = Module {
        type_section: None,
        function_section: None,
        code_section: None,
        exports: vec![Export { name: String::from("ghost"), desc: ExportDesc::Func(3) }],
    };
    let mut runtime = Runtime::instantiate(module).unwrap();
    let result = runtime.call("ghost", vec![]);
    assert_eq!(result, Err(Error::FunctionNotFound));
}

#[test]
fn declared_locals_read_as_zero() {
    // one i32 parameter, then one declared i64 local: local 1 must read 0
    let module = Module {
        type_section: Some(vec![FuncType {
            params: vec![ValueType::I32],
            results: vec![ValueType::I64],
        }]),
        function_section: Some(vec![0]),
        code_section: Some(vec![FunctionBody {
            locals: vec![FunctionLocal { type_count: 1, value_type: ValueType::I64 }],
            code: vec![Instruction::LocalGet(1), Instruction::End],
        }]),
        exports: vec![Export { name: String::from("zero"), desc: ExportDesc::Func(0) }],
    };
    let mut runtime = Runtime::instantiate(module).unwrap();
    let result = runtime.call("zero", vec![Value::I32(7)]).unwrap();
    assert_eq!(result, Some(Value::I64(0)));
}

#[test]
fn declared_i32_local_reads_as_zero() {
    let module = Module {
        type_section: Some(vec![FuncType { params: vec![], results: vec![ValueType::I32] }]),
        function_section: Some(vec![0]),
        code_section: Some(vec![FunctionBody {
            locals: vec![FunctionLocal { type_count: 1, value_type: ValueType::I32 }],
            code: vec![Instruction::LocalGet(0), Instruction::End],
        }]),
        exports: vec![Export { name: String::from("zero"), desc: ExportDesc::Func(0) }],
    };
    let mut runtime = Runtime::instantiate(module).unwrap();
    let result = runtime.call("zero", vec![]).unwrap();
    assert_eq!(result, Some(Value::I32(0)));
}

#[test]
fn call_leaves_stack_at_pre_call_length() {
    let mut runtime = Runtime::instantiate(add_module()).unwrap();
    assert_eq!(runtime.stack.len(), 0);
    let result = runtime.call("add", vec![Value::I32(4), Value::I32(6)]).unwrap();
    assert_eq!(result, Some(Value::I32(10)));
    assert_eq!(runtime.stack.len(), 0);
    assert_eq!(runtime.call_stack.len(), 0);
}

#[test]
fn arity_zero_function_returns_nothing() {
    let module = Module {
        type_section: Some(vec![FuncType { params: vec![], results: vec![] }]),
        function_section: Some(vec![0]),
        code_section: Some(vec![FunctionBody { locals: vec![], code: vec![Instruction::End] }]),
        exports: vec![Export { name: String::from("nop"), desc: ExportDesc::Func(0) }],
    };
    let mut runtime = Runtime::instantiate(module).unwrap();
    let result = runtime.call("nop", vec![]).unwrap();
    assert_eq!(result, None);
    assert_eq!(runtime.stack.len(), 0);
}

#[test]
fn unwind_with_no_result_cuts_stack_to_base() {
    let mut stack = vec![Value::I32(1), Value::I32(2), Value::I32(3)];
    let r = stack_unwind(&mut stack, 1, 0);
    assert!(r.is_ok());
    assert_eq!(stack, vec![Value::I32(1)]);
}

#[test]
fn unwind_keeps_single_result_above_base() {
    let mut stack = vec![Value::I32(1), Value::I32(2), Value::I32(42)];
    let r = stack_unwind(&mut stack, 1, 1);
    assert!(r.is_ok());
    assert_eq!(stack, vec![Value::I32(1), Value::I32(42)]);
}

#[test]
fn unwind_needing_result_from_empty_stack_underflows() {
    let mut stack: Vec<Value> = vec![];
    let r = stack_unwind(&mut stack, 0, 1);
    assert_eq!(r, Err(Error::StackUnderflow));
}

#[test]
fn unsupported_instruction_is_recoverable() {
    let module = Module {
        type_section: Some(vec![
            FuncType { params: vec![], results: vec![] },
            FuncType { params: vec![ValueType::I32, ValueType::I32], results: vec![ValueType::I32] },
        ]),
        function_section: Some(vec![0, 1]),
        code_section: Some(vec![
            FunctionBody { locals: vec![], code: vec![Instruction::Call(1)] },
            FunctionBody {
                locals: vec![],
                code: vec![
                    Instruction::LocalGet(0),
                    Instruction::LocalGet(1),
                    Instruction::I32Add,
                    Instruction::End,
                ],
            },
        ]),
        exports: vec![
            Export { name: String::from("boom"), desc: ExportDesc::Func(0) },
            Export { name: String::from("add"), desc: ExportDesc::Func(1) },
        ],
    };
    let mut runtime = Runtime::instantiate(module).unwrap();
    let result = runtime.call("boom", vec![]);
    assert_eq!(result, Err(Error::UnsupportedInstruction));
    // the failed call reset both stacks; an independent call still succeeds
    assert_eq!(runtime.stack.len(), 0);
    assert_eq!(runtime.call_stack.len(), 0);
    let result = runtime.call("add", vec![Value::I32(2), Value::I32(3)]).unwrap();
    assert_eq!(result, Some(Value::I32(5)));
}

#[test]
fn local_get_out_of_range_is_reported() {
    let module = Module {
        type_section: Some(vec![FuncType { params: vec![], results: vec![] }]),
        function_section: Some(vec![0]),
        code_section: Some(vec![FunctionBody {
            locals: vec![],
            code: vec![Instruction::LocalGet(5), Instruction::End],
        }]),
        exports: vec![Export { name: String::from("oob"), desc: ExportDesc::Func(0) }],
    };
    let mut runtime = Runtime::instantiate(module).unwrap();
    let result = runtime.call("oob", vec![]);
    assert_eq!(result, Err(Error::LocalIndexOutOfRange));
}

#[test]
fn add_on_empty_stack_is_type_mismatch() {
    let module = Module {
        type_section: Some(vec![FuncType { params: vec![], results: vec![] }]),
        function_section: Some(vec![0]),
        code_section: Some(vec![FunctionBody {
            locals: vec![],
            code: vec![Instruction::I32Add, Instruction::End],
        }]),
        exports: vec![Export { name: String::from("bad"), desc: ExportDesc::Func(0) }],
    };
    let mut runtime = Runtime::instantiate(module).unwrap();
    let result = runtime.call("bad", vec![]);
    assert_eq!(result, Err(Error::TypeMismatch));
}

#[test]
fn add_on_i64_operands_is_type_mismatch() {
    let module = Module {
        type_section: Some(vec![FuncType {
            params: vec![ValueType::I64, ValueType::I64],
            results: vec![ValueType::I64],
        }]),
        function_section: Some(vec![0]),
        code_section: Some(vec![FunctionBody {
            locals: vec![],
            code: vec![
                Instruction::LocalGet(0),
                Instruction::LocalGet(1),
                Instruction::I32Add,
                Instruction::End,
            ],
        }]),
        exports: vec![Export { name: String::from("add64"), desc: ExportDesc::Func(0) }],
    };
    let mut runtime = Runtime::instantiate(module).unwrap();
    let result = runtime.call("add64", vec![Value::I64(1), Value::I64(2)]);
    assert_eq!(result, Err(Error::TypeMismatch));
}

#[test]
fn missing_type_section_fails_instantiation() {
    let module = Module {
        type_section: None,
        function_section: Some(vec![0]),
        code_section: Some(vec![FunctionBody { locals: vec![], code: vec![Instruction::End] }]),
        exports: vec![],
    };
    let result = Store::new(module);
    assert!(matches!(result, Err(Error::MissingSection)));
}

#[test]
fn out_of_range_type_index_fails_instantiation() {
    let module = Module {
        type_section: Some(vec![]),
        function_section: Some(vec![0]),
        code_section: Some(vec![FunctionBody { locals: vec![], code: vec![Instruction::End] }]),
        exports: vec![],
    };
    let result = Store::new(module);
    assert!(matches!(result, Err(Error::InvalidTypeIndex)));
}

#[test]
fn module_without_functions_is_valid() {
    let module =
        Module { type_section: None, function_section: None, code_section: None, exports: vec![] };
    let store = Store::new(module).unwrap();
    assert_eq!(store.funcs.len(), 0);
}

#[test]
fn store_flattens_run_length_encoded_locals() {
    let module = Module {
        type_section: Some(vec![FuncType { params: vec![], results: vec![] }]),
        function_section: Some(vec![0]),
        code_section: Some(vec![FunctionBody {
            locals: vec![
                FunctionLocal { type_count: 2, value_type: ValueType::I32 },
                FunctionLocal { type_count: 1, value_type: ValueType::I64 },
            ],
            code: vec![Instruction::End],
        }]),
        exports: vec![],
    };
    let store = Store::new(module).unwrap();
    assert_eq!(store.funcs.len(), 1);
    let FuncInst::Internal(func) = &store.funcs[0];
    assert_eq!(func.code.locals, vec![ValueType::I32, ValueType::I32, ValueType::I64]);
    assert_eq!(func.func_type.params, vec![]);
    assert_eq!(func.func_type.results, vec![]);
}

#[test]
fn store_pairs_sections_positionally() {
    // two function-section entries but a single body: only one pair instantiates
    let module = Module {
        type_section: Some(vec![FuncType { params: vec![], results: vec![] }]),
        function_section: Some(vec![0, 0]),
        code_section: Some(vec![FunctionBody { locals: vec![], code: vec![Instruction::End] }]),
        exports: vec![],
    };
    let store = Store::new(module).unwrap();
    assert_eq!(store.funcs.len(), 1);
}

#[test]
fn missing_return_value_is_reported() {
    let module = Module {
        type_section: Some(vec![FuncType { params: vec![], results: vec![ValueType::I32] }]),
        function_section: Some(vec![0]),
        code_section: Some(vec![FunctionBody {
            locals: vec![FunctionLocal { type_count: 1, value_type: ValueType::I32 }],
            code: vec![Instruction::LocalGet(0), Instruction::End],
        }]),
        exports: vec![Export { name: String::from("f"), desc: ExportDesc::Func(0) }],
    };
    let mut runtime = Runtime::instantiate(module).unwrap();
    // a stale zero-arity frame below the call swallows the produced result
    runtime.call_stack =
        vec![Frame { pc: 0, sp: 0, insts: vec![], arity: 0, locals: vec![] }];
    let result = runtime.call("f", vec![]);
    assert_eq!(result, Err(Error::MissingReturnValue));
}

#[test]
fn too_few_arguments_underflow_the_stack() {
    let mut runtime = Runtime::instantiate(add_module()).unwrap();
    let result = runtime.call("add", vec![Value::I32(1)]);
    assert_eq!(result, Err(Error::StackUnderflow));
}

#[test]
fn first_matching_export_wins() {
    let module = Module {
        type_section: Some(vec![
            FuncType { params: vec![], results: vec![ValueType::I32] },
            FuncType { params: vec![], results: vec![] },
        ]),
        function_section: Some(vec![0, 1]),
        code_section: Some(vec![
            FunctionBody {
                locals: vec![FunctionLocal { type_count: 1, value_type: ValueType::I32 }],
                code: vec![Instruction::LocalGet(0), Instruction::End],
            },
            FunctionBody { locals: vec![], code: vec![Instruction::End] },
        ]),
        exports: vec![
            Export { name: String::from("f"), desc: ExportDesc::Func(0) },
            Export { name: String::from("f"), desc: ExportDesc::Func(1) },
        ],
    };
    let mut runtime = Runtime::instantiate(module).unwrap();
    let result = runtime.call("f", vec![]).unwrap();
    assert_eq!(result, Some(Value::I32(0)));
}

#[test]
fn value_type_codes_decode() {
    assert_eq!(ValueType::from_code(0x7F), ValueType::I32);
    assert_eq!(ValueType::from_code(0x7E), ValueType::I64);
}
