use codegen_luau::ast::{
    BinOp, Block, BrTable, Expression, Function, Local, OpName, Statement, Value, ValueType,
};
use codegen_luau::expr::{write_expression, write_value};
use codegen_luau::module::{
    check_module, ConstInstr, DataSegment, ElementSegment, Export, ExternalKind, Generator, Import, Limits,
    Module,
};
use codegen_luau::stmt::{br_target, check_block, check_function, visit_function, visit_statement, Label, Visitor};

fn op(category: &str, name: &str) -> OpName {
    OpName { category: category.to_string(), name: name.to_string() }
}

fn func(num_param: usize, body: Vec<Statement>) -> Function {
    Function {
        num_param,
        local_data: vec![],
        num_stack: 0,
        code: Block { body },
        memory_list: vec![],
    }
}

fn function_text(f: &Function) -> String {
    let mut out = String::new();
    visit_function(f, &mut out);
    out
}

fn expr_text(e: &Expression, np: usize) -> String {
    let mut out = String::new();
    write_expression(e, np, &mut out);
    out
}

fn stmt_text(s: &Statement, labels: Vec<Label>, num_param: usize) -> (String, Vec<Label>) {
    let mut v = Visitor { label_list: labels, num_param };
    let mut out = String::new();
    visit_statement(s, &mut v, &mut out);
    (out, v.label_list)
}

fn empty_module() -> Module {
    Module {
        imports: vec![],
        exports: None,
        tables: vec![],
        memories: vec![],
        globals: vec![],
        elements: vec![],
        data: vec![],
        start: None,
        func_names: vec![],
        code: vec![],
        helpers: vec![],
    }
}

fn transpile(m: &Module) -> String {
    let mut out = String::new();
    Generator::new(m).transpile(&mut out);
    out
}

fn i32v(v: i32) -> Expression {
    Expression::Value(Value::I32(v))
}

#[test]
fn empty_function() {
    assert_eq!(function_text(&func(0, vec![])), "function()while true do break end end ");
}

#[test]
fn add_two_i32_parameters() {
    let add = Expression::AnyBinOp {
        op: BinOp { helper: op("add", "i32"), operator: Some("+".to_string()) },
        lhs: Box::new(Expression::GetLocal { var: 0 }),
        rhs: Box::new(Expression::GetLocal { var: 1 }),
    };
    let f = func(2, vec![Statement::Return { list: vec![add] }]);
    assert_eq!(
        function_text(&f),
        "function(param_0, param_1)while true do do return (param_0 + param_1 )end break end end "
    );
}

#[test]
fn countdown_loop_continues() {
    let body = vec![Statement::BrIf { cond: Expression::GetLocal { var: 0 }, target: 0 }];
    let f = func(1, vec![Statement::Backward(Block { body })]);
    assert_eq!(
        function_text(&f),
        "function(param_0)while true do while true do if param_0 ~= 0 then do continue end end \
         break end if desired then if desired == 1 then desired = nil continue end break end break end end "
    );
}

#[test]
fn two_level_branch_propagates() {
    let inner = Statement::Backward(Block { body: vec![Statement::Br { target: 1 }] });
    let f = func(0, vec![Statement::Forward(Block { body: vec![inner] })]);
    assert_eq!(
        function_text(&f),
        "function()while true do while true do while true do do desired = 1 break end break end \
         if desired then if desired == 2 then desired = nil continue end break end break end \
         if desired then if desired == 1 then desired = nil end break end break end end "
    );
}

#[test]
fn two_level_branch_from_root_block() {
    let inner = Statement::Backward(Block { body: vec![Statement::Br { target: 1 }] });
    let f = func(0, vec![inner]);
    assert_eq!(
        function_text(&f),
        "function()while true do while true do do desired = 0 break end break end \
         if desired then if desired == 1 then desired = nil continue end break end break end end "
    );
}

#[test]
fn br_table_three_entries_and_default() {
    let s = Statement::BrTable {
        cond: Expression::GetLocal { var: 0 },
        data: BrTable { table: vec![0, 1, 2], default: 0 },
    };
    let (text, labels) = stmt_text(&s, vec![Label::Forward], 1);
    assert_eq!(
        text,
        "do local temp = {[0] =0, 1, 2, } desired = temp[param_0 ] or 0 break end "
    );
    assert_eq!(labels, vec![Label::Forward]);
}

#[test]
fn br_table_empty_uses_default() {
    let s = Statement::BrTable {
        cond: Expression::Recall { var: 3 },
        data: BrTable { table: vec![], default: 2 },
    };
    let (text, _) = stmt_text(&s, vec![Label::Forward], 0);
    assert_eq!(text, "do local temp = {} desired = temp[reg_3 ] or 2 break end ");
}

#[test]
fn nan_global_is_zero_over_zero() {
    let mut m = empty_module();
    m.globals = vec![
        vec![ConstInstr::F64Const { bits: 0x7ff8000000000000, sci: "NaN".to_string() }],
        vec![ConstInstr::F64Const { bits: 0xfff8000000000000, sci: "NaN".to_string() }],
    ];
    let text = transpile(&m);
    assert!(text.contains("GLOBAL_LIST[0] = { value =0/0 }"));
    assert!(text.contains("GLOBAL_LIST[1] = { value =-0/0 }"));
}

#[test]
fn float_literals() {
    let cases: Vec<(Value, &str)> = vec![
        (Value::F32 { bits: 0x7f800000, sci: "inf".to_string() }, "math.huge "),
        (Value::F32 { bits: 0xff800000, sci: "-inf".to_string() }, "-math.huge "),
        (Value::F32 { bits: 0xffc00000, sci: "NaN".to_string() }, "-0/0 "),
        (Value::F32 { bits: 0x3fc00000, sci: "1.5e0".to_string() }, "1.5e0 "),
        (Value::F64 { bits: 0x7ff0000000000000, sci: "inf".to_string() }, "math.huge "),
        (Value::F64 { bits: 0x8000000000000000, sci: "-0e0".to_string() }, "-0e0 "),
        (Value::F64 { bits: 0, sci: "0e0".to_string() }, "0e0 "),
        (Value::F64 { bits: 0x7ff0000000000001, sci: "NaN".to_string() }, "0/0 "),
    ];
    for (v, expected) in cases {
        let mut out = String::new();
        write_value(&v, &mut out);
        assert_eq!(out, expected);
    }
}

#[test]
fn integer_literals() {
    let cases: Vec<(Value, &str)> = vec![
        (Value::I32(0), "0 "),
        (Value::I32(-5), "-5 "),
        (Value::I32(i32::MAX), "2147483647 "),
        (Value::I32(i32::MIN), "-2147483648 "),
        (Value::I64(i64::MIN), "-9223372036854775808 "),
        (Value::I64(1234567890123), "1234567890123 "),
    ];
    for (v, expected) in cases {
        let mut out = String::new();
        write_value(&v, &mut out);
        assert_eq!(out, expected);
    }
}

#[test]
fn expressions() {
    let select = Expression::Select {
        cond: Box::new(Expression::GetLocal { var: 0 }),
        a: Box::new(i32v(1)),
        b: Box::new(i32v(2)),
    };
    assert_eq!(expr_text(&select, 1), "(param_0 ~= 0 and 1 or 2 )");
    let un = Expression::AnyUnOp { op: op("clz", "i32"), rhs: Box::new(Expression::Recall { var: 0 }) };
    assert_eq!(expr_text(&un, 0), "clz_i32(reg_0 )");
    let bin = Expression::AnyBinOp {
        op: BinOp { helper: op("div", "i32"), operator: None },
        lhs: Box::new(i32v(7)),
        rhs: Box::new(i32v(2)),
    };
    assert_eq!(expr_text(&bin, 0), "div_i32(7 , 2 )");
    let cmp = Expression::AnyCmpOp {
        op: op("lt", "i32"),
        lhs: Box::new(Expression::Recall { var: 0 }),
        rhs: Box::new(Expression::Recall { var: 1 }),
    };
    assert_eq!(expr_text(&cmp, 0), "lt_i32(reg_0 , reg_1 )");
    assert_eq!(expr_text(&Expression::MemorySize { memory: 0 }, 0), "memory_at_0.min ");
    let grow = Expression::MemoryGrow { memory: 0, value: Box::new(i32v(1)) };
    assert_eq!(expr_text(&grow, 0), "rt.allocator.grow(memory_at_0, 1 )");
    assert_eq!(expr_text(&Expression::GetGlobal { var: 4 }, 0), "GLOBAL_LIST[4].value ");
    let load = Expression::AnyLoad {
        op: "i32".to_string(),
        pointer: Box::new(Expression::GetLocal { var: 3 }),
        offset: 16,
    };
    assert_eq!(expr_text(&load, 2), "load_i32(memory_at_0, loc_1 + 16)");
}

#[test]
fn variable_space_split() {
    assert_eq!(expr_text(&Expression::GetLocal { var: 1 }, 2), "param_1 ");
    assert_eq!(expr_text(&Expression::GetLocal { var: 2 }, 2), "loc_0 ");
    assert_eq!(expr_text(&Expression::GetLocal { var: 5 }, 0), "loc_5 ");
}

#[test]
fn simple_statements() {
    let labels = vec![Label::Forward];
    assert_eq!(stmt_text(&Statement::Unreachable, labels.clone(), 0).0, "error(\"out of code bounds\")");
    let set = Statement::SetGlobal { var: 3, value: i32v(0) };
    assert_eq!(stmt_text(&set, labels.clone(), 0).0, "GLOBAL_LIST[3].value = 0 ");
    let store = Statement::AnyStore {
        op: "i64".to_string(),
        pointer: Expression::Recall { var: 0 },
        offset: 8,
        value: Expression::Recall { var: 1 },
    };
    assert_eq!(stmt_text(&store, labels.clone(), 0).0, "store_i64(memory_at_0, reg_0 + 8, reg_1 )");
    let ret = Statement::Return {
        list: vec![Expression::Recall { var: 0 }, Expression::Recall { var: 1 }],
    };
    assert_eq!(stmt_text(&ret, labels.clone(), 0).0, "do return reg_0 , reg_1 end ");
    let call = Statement::Call {
        func: 3,
        result_start: 0,
        result_end: 2,
        param_list: vec![Expression::Recall { var: 1 }, Expression::GetGlobal { var: 0 }],
    };
    assert_eq!(
        stmt_text(&call, labels.clone(), 0).0,
        "reg_0, reg_1 = FUNC_LIST[3](reg_1 , GLOBAL_LIST[0].value )"
    );
    let indirect = Statement::CallIndirect {
        table: 0,
        index: i32v(5),
        result_start: 1,
        result_end: 1,
        param_list: vec![],
    };
    assert_eq!(stmt_text(&indirect, labels.clone(), 0).0, "TABLE_LIST[0].data[5 ]()");
    let mem = Statement::Memorize { var: 2, value: Expression::GetLocal { var: 0 } };
    assert_eq!(stmt_text(&mem, labels, 1).0, "reg_2 = param_0 ");
}

#[test]
fn if_else_inside_loop() {
    let s = Statement::If {
        cond: i32v(1),
        truthy: vec![Statement::Br { target: 0 }],
        falsey: Some(vec![Statement::Br { target: 1 }]),
    };
    let (text, labels) = stmt_text(&s, vec![Label::Forward, Label::Backward], 0);
    assert_eq!(
        text,
        "while true do if 1 ~= 0 then do break end else do desired = 1 break end end break end \
         if desired then if desired == 2 then desired = nil end break end "
    );
    assert_eq!(labels, vec![Label::Forward, Label::Backward]);
}

#[test]
fn innermost_branch_in_loop_continues() {
    let (text, _) = stmt_text(&Statement::Br { target: 0 }, vec![Label::Forward, Label::Backward], 0);
    assert_eq!(text, "do continue end ");
    let (text, _) = stmt_text(&Statement::Br { target: 0 }, vec![Label::Backward, Label::If], 0);
    assert_eq!(text, "do break end ");
}

#[test]
fn branch_gadget() {
    let mut out = String::new();
    br_target(3, true, &mut out);
    assert_eq!(out, "if desired then if desired == 3 then desired = nil continue end break end ");
    let mut out = String::new();
    br_target(0, false, &mut out);
    assert_eq!(out, "if desired then if desired == 0 then desired = nil end break end ");
}

#[test]
fn push_and_pop_label() {
    let mut v = Visitor { label_list: vec![], num_param: 0 };
    assert_eq!(v.push_label(Label::Forward), 0);
    assert_eq!(v.push_label(Label::Backward), 1);
    v.pop_label();
    assert_eq!(v.label_list, vec![Label::Forward]);
    assert_eq!(v.push_label(Label::If), 1);
}

#[test]
fn locals_registers_and_memory() {
    let f = Function {
        num_param: 1,
        local_data: vec![
            Local { count: 2, value_type: ValueType::I32 },
            Local { count: 1, value_type: ValueType::F64 },
        ],
        num_stack: 2,
        code: Block {
            body: vec![
                Statement::SetLocal { var: 2, value: i32v(7) },
                Statement::Memorize {
                    var: 0,
                    value: Expression::AnyLoad {
                        op: "i32".to_string(),
                        pointer: Box::new(Expression::GetLocal { var: 1 }),
                        offset: 4,
                    },
                },
            ],
        },
        memory_list: vec![0],
    };
    assert_eq!(
        function_text(&f),
        "function(param_0)local memory_at_0 = MEMORY_LIST[0]local loc_0, loc_1 = ZERO_i32 , ZERO_i32 \
         local loc_2 = ZERO_f64 local reg_0, reg_1 while true do loc_1 = 7 \
         reg_0 = load_i32(memory_at_0, loc_0 + 4)break end end "
    );
}

#[test]
fn empty_module_skeleton() {
    assert_eq!(
        transpile(&empty_module()),
        "local rt = require(script.Runtime)local ZERO_i32 = 0 local ZERO_i64 = 0 \
         local ZERO_f32 = 0.0 local ZERO_f64 = 0.0 local FUNC_LIST = table.create(0)\
         local TABLE_LIST = table.create(0)local MEMORY_LIST = table.create(0)\
         local GLOBAL_LIST = table.create(0)local function run_init_code()end \
         return function(wasm)run_init_code()return {} end "
    );
}

#[test]
fn full_module() {
    let mut m = empty_module();
    m.imports = vec![Import {
        module: "env".to_string(),
        field: "print".to_string(),
        kind: ExternalKind::Function,
    }];
    m.exports = Some(vec![
        Export { field: "main".to_string(), kind: ExternalKind::Function, index: 1 },
        Export { field: "mem".to_string(), kind: ExternalKind::Memory, index: 0 },
    ]);
    m.tables = vec![Limits { initial: 1, maximum: None }];
    m.memories = vec![Limits { initial: 2, maximum: Some(3) }];
    m.elements = vec![ElementSegment {
        index: 0,
        offset: vec![ConstInstr::Other, ConstInstr::I32Const(1)],
        members: vec![1],
    }];
    m.data = vec![DataSegment { index: 0, offset: vec![ConstInstr::I32Const(8)], value: vec![0x00, 0xAB] }];
    m.start = Some(1);
    m.func_names = vec![Some("main".to_string())];
    m.code = vec![func(0, vec![])];
    m.helpers = vec![("add".to_string(), "i32".to_string())];
    assert_eq!(
        transpile(&m),
        "local rt = require(script.Runtime)local add_i32 = rt.add.i32 local ZERO_i32 = 0 \
         local ZERO_i64 = 0 local ZERO_f32 = 0.0 local ZERO_f64 = 0.0 \
         local FUNC_LIST = table.create(1)local TABLE_LIST = table.create(0)\
         local MEMORY_LIST = table.create(0)local GLOBAL_LIST = table.create(0)\
         FUNC_LIST--[[main]][1] =function()while true do break end end \
         local function run_init_code()TABLE_LIST[0] ={ min = 1, max = 0xFFFF, data = {} }\
         MEMORY_LIST[0] =rt.allocator.new(2, 3)do local target = TABLE_LIST[0].data \
         local offset =1 local data = {FUNC_LIST[1],}table.move(data, 1, #data, offset, target)end \
         do local target = MEMORY_LIST[0]local offset =8 local data = \"\\x00\\xAB\"\
         rt.allocator.init(target, offset, data)end end return function(wasm)\
         FUNC_LIST[0] = wasm.env.func_list.print run_init_code()FUNC_LIST[1]()return {\
         func_list = {main = FUNC_LIST[1],},table_list = {},memory_list = {mem = MEMORY_LIST[0],},\
         global_list = {},} end "
    );
}

#[test]
fn constant_expressions() {
    let mut m = empty_module();
    m.imports = vec![Import {
        module: "env".to_string(),
        field: "g".to_string(),
        kind: ExternalKind::Global,
    }];
    m.globals = vec![
        vec![ConstInstr::Other],
        vec![ConstInstr::GetGlobal(0)],
        vec![],
        vec![ConstInstr::I64Const(-3), ConstInstr::I32Const(9)],
    ];
    let text = transpile(&m);
    assert!(text.contains("local GLOBAL_LIST = table.create(4)"));
    assert!(text.contains("GLOBAL_LIST[1] = { value =error(\"mundane expression\")}"));
    assert!(text.contains("GLOBAL_LIST[2] = { value =GLOBAL_LIST[0].value }"));
    assert!(text.contains("GLOBAL_LIST[3] = { value =error(\"mundane expression\")}"));
    assert!(text.contains("GLOBAL_LIST[4] = { value =-3 }"));
    assert!(text.contains("GLOBAL_LIST[0] = wasm.env.global_list.g "));
}

#[test]
fn transpile_is_deterministic() {
    let mut m = empty_module();
    m.code = vec![func(1, vec![Statement::Return { list: vec![Expression::GetLocal { var: 0 }] }])];
    let m2 = {
        let mut m2 = empty_module();
        m2.code = vec![func(1, vec![Statement::Return { list: vec![Expression::GetLocal { var: 0 }] }])];
        m2
    };
    assert_eq!(transpile(&m), transpile(&m));
    assert_eq!(transpile(&m), transpile(&m2));
}

#[test]
fn well_formedness_checks() {
    let good = func(0, vec![Statement::Backward(Block { body: vec![Statement::Br { target: 1 }] })]);
    assert!(check_function(&good));
    let bad = func(0, vec![Statement::Backward(Block { body: vec![Statement::Br { target: 2 }] })]);
    assert!(!check_function(&bad));
    let bad_if = Statement::If {
        cond: i32v(0),
        truthy: vec![],
        falsey: Some(vec![Statement::BrIf { cond: i32v(1), target: 3 }]),
    };
    assert!(!check_block(&vec![bad_if], 2));
    assert!(check_block(&vec![Statement::Br { target: 0 }], 1));
    assert!(!check_block(&vec![Statement::Br { target: 0 }], 0));

    let mut m = empty_module();
    assert!(check_module(&m));
    m.code = vec![good, bad];
    assert!(!check_module(&m));
}
