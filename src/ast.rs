use vstd::prelude::*;

verus! {

/// The value type of a group of local slots.
#[derive(Clone, Copy, Debug, PartialEq, Eq)]
pub enum ValueType {
    I32,
    I64,
    F32,
    F64,
}

/// A typed literal. A float is given by its bit pattern together with the
/// scientific rendering of its value, used only when that value is finite.
#[derive(Clone, Debug)]
pub enum Value {
    I32(i32),
    I64(i64),
    F32 { bits: u32, sci: String },
    F64 { bits: u64, sci: String },
}

/// The runtime helper behind an operator: `category_name` names it in the emitted text.
#[derive(Clone, Debug)]
pub struct OpName {
    pub category: String,
    pub name: String,
}

/// A binary operator: its runtime helper, and its native spelling where it has one.
#[derive(Clone, Debug)]
pub struct BinOp {
    pub helper: OpName,
    pub operator: Option<String>,
}

#[derive(Debug)]
pub enum Expression {
    Recall { var: usize },
    Select { cond: Box<Expression>, a: Box<Expression>, b: Box<Expression> },
    GetLocal { var: usize },
    GetGlobal { var: usize },
    AnyLoad { op: String, pointer: Box<Expression>, offset: u32 },
    MemorySize { memory: usize },
    MemoryGrow { memory: usize, value: Box<Expression> },
    Value(Value),
    AnyUnOp { op: OpName, rhs: Box<Expression> },
    AnyBinOp { op: BinOp, lhs: Box<Expression>, rhs: Box<Expression> },
    AnyCmpOp { op: OpName, lhs: Box<Expression>, rhs: Box<Expression> },
}

/// The branch targets of a `br_table`: one depth per index, and the default.
#[derive(Debug)]
pub struct BrTable {
    pub table: Vec<usize>,
    pub default: usize,
}

/// A structured block whose label is its end, or a loop whose label is its top.
#[derive(Debug)]
pub struct Block {
    pub body: Vec<Statement>,
}

#[derive(Debug)]
pub enum Statement {
    Unreachable,
    Memorize { var: usize, value: Expression },
    Forward(Block),
    Backward(Block),
    If { cond: Expression, truthy: Vec<Statement>, falsey: Option<Vec<Statement>> },
    Br { target: usize },
    BrIf { cond: Expression, target: usize },
    BrTable { cond: Expression, data: BrTable },
    Return { list: Vec<Expression> },
    Call { func: usize, result_start: usize, result_end: usize, param_list: Vec<Expression> },
    CallIndirect {
        table: usize,
        index: Expression,
        result_start: usize,
        result_end: usize,
        param_list: Vec<Expression>,
    },
    SetLocal { var: usize, value: Expression },
    SetGlobal { var: usize, value: Expression },
    AnyStore { op: String, pointer: Expression, offset: u32, value: Expression },
}

/// A group of local slots sharing one value type.
#[derive(Clone, Debug)]
pub struct Local {
    pub count: u32,
    pub value_type: ValueType,
}

/// A function body in structured form, with the indices of the memories it
/// refers to.
#[derive(Debug)]
pub struct Function {
    pub num_param: usize,
    pub local_data: Vec<Local>,
    pub num_stack: usize,
    pub code: Block,
    pub memory_list: Vec<usize>,
}

} // verus!
