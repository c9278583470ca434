use vstd::prelude::*;
use vstd::string::*;

use crate::ast::{Expression, Value};
use crate::text::{dec, f32_text, f64_text, int_text, lemma_cat_assoc, push_dec, push_int, write_f32, write_f64};

verus! {

broadcast use lemma_cat_assoc;

/// Appends the decimal text of an index.
pub fn push_usize(n: usize, out: &mut String)
    ensures
        final(out)@ == old(out)@ + dec(n as nat),
{
    push_dec(n as u64, out);
}

/// The name of variable `var` in a function with `num_param` parameters.
pub open spec fn variable_text(var: nat, num_param: nat) -> Seq<char> {
    if var >= num_param {
        "loc_"@ + dec((var - num_param) as nat) + " "@
    } else {
        "param_"@ + dec(var) + " "@
    }
}

pub open spec fn value_text(v: Value) -> Seq<char> {
    match v {
        Value::I32(i) => int_text(i as int) + " "@,
        Value::I64(i) => int_text(i as int) + " "@,
        Value::F32 { bits, sci } => f32_text(bits, sci@),
        Value::F64 { bits, sci } => f64_text(bits, sci@),
    }
}

/// The Luau text of an expression inside a function with `np` parameters.
pub open spec fn expr_text(e: Expression, np: nat) -> Seq<char>
    decreases e,
{
    match e {
        Expression::Recall { var } => "reg_"@ + dec(var as nat) + " "@,
        Expression::Select { cond, a, b } => "("@ + expr_text(*cond, np) + "~= 0 and "@
            + expr_text(*a, np) + "or "@ + expr_text(*b, np) + ")"@,
        Expression::GetLocal { var } => variable_text(var as nat, np),
        Expression::GetGlobal { var } => "GLOBAL_LIST["@ + dec(var as nat) + "].value "@,
        Expression::AnyLoad { op, pointer, offset } => "load_"@ + op@ + "(memory_at_0, "@
            + expr_text(*pointer, np) + "+ "@ + dec(offset as nat) + ")"@,
        Expression::MemorySize { memory } => "memory_at_"@ + dec(memory as nat) + ".min "@,
        Expression::MemoryGrow { memory, value } => "rt.allocator.grow(memory_at_"@ + dec(
            memory as nat,
        ) + ", "@ + expr_text(*value, np) + ")"@,
        Expression::Value(v) => value_text(v),
        Expression::AnyUnOp { op, rhs } => op.category@ + "_"@ + op.name@ + "("@ + expr_text(
            *rhs,
            np,
        ) + ")"@,
        Expression::AnyBinOp { op, lhs, rhs } => match op.operator {
            Some(o) => "("@ + expr_text(*lhs, np) + o@ + " "@ + expr_text(*rhs, np) + ")"@,
            None => op.helper.category@ + "_"@ + op.helper.name@ + "("@ + expr_text(*lhs, np)
                + ", "@ + expr_text(*rhs, np) + ")"@,
        },
        Expression::AnyCmpOp { op, lhs, rhs } => op.category@ + "_"@ + op.name@ + "("@
            + expr_text(*lhs, np) + ", "@ + expr_text(*rhs, np) + ")"@,
    }
}

/// `e_0, e_1, ...`: the expressions of a list, separated by commas.
pub open spec fn expr_list_text(list: Seq<Expression>, np: nat) -> Seq<char>
    decreases list.len(),
{
    if list.len() == 0 {
        Seq::empty()
    } else if list.len() == 1 {
        expr_text(list[0], np)
    } else {
        expr_list_text(list.drop_last(), np) + ", "@ + expr_text(list.last(), np)
    }
}

/// Appends the name of variable `var`: a parameter below `num_param`, a local
/// slot counted from `num_param` above it.
pub fn write_variable(var: usize, num_param: usize, out: &mut String)
    ensures
        final(out)@ == old(out)@ + variable_text(var as nat, num_param as nat),
{
    if var >= num_param {
        out.append("loc_");
        push_usize(var - num_param, out);
    } else {
        out.append("param_");
        push_usize(var, out);
    }
    out.append(" ");
}

pub fn write_value(v: &Value, out: &mut String)
    ensures
        final(out)@ == old(out)@ + value_text(*v),
{
    match v {
        Value::I32(i) => {
            push_int(*i as i64, out);
            out.append(" ");
        },
        Value::I64(i) => {
            push_int(*i, out);
            out.append(" ");
        },
        Value::F32 { bits, sci } => write_f32(*bits, sci.as_str(), out),
        Value::F64 { bits, sci } => write_f64(*bits, sci.as_str(), out),
    }
}

/// Appends the Luau text of an expression inside a function with `np` parameters.
pub fn write_expression(e: &Expression, np: usize, out: &mut String)
    ensures
        final(out)@ == old(out)@ + expr_text(*e, np as nat),
    decreases e,
{
    match e {
        Expression::Recall { var } => {
            out.append("reg_");
            push_usize(*var, out);
            out.append(" ");
        },
        Expression::Select { cond, a, b } => {
            out.append("(");
            write_expression(cond, np, out);
            out.append("~= 0 and ");
            write_expression(a, np, out);
            out.append("or ");
            write_expression(b, np, out);
            out.append(")");
        },
        Expression::GetLocal { var } => write_variable(*var, np, out),
        Expression::GetGlobal { var } => {
            out.append("GLOBAL_LIST[");
            push_usize(*var, out);
            out.append("].value ");
        },
        Expression::AnyLoad { op, pointer, offset } => {
            out.append("load_");
            out.append(op.as_str());
            out.append("(memory_at_0, ");
            write_expression(pointer, np, out);
            out.append("+ ");
            push_dec(*offset as u64, out);
            out.append(")");
        },
        Expression::MemorySize { memory } => {
            out.append("memory_at_");
            push_usize(*memory, out);
            out.append(".min ");
        },
        Expression::MemoryGrow { memory, value } => {
            out.append("rt.allocator.grow(memory_at_");
            push_usize(*memory, out);
            out.append(", ");
            write_expression(value, np, out);
            out.append(")");
        },
        Expression::Value(v) => write_value(v, out),
        Expression::AnyUnOp { op, rhs } => {
            out.append(op.category.as_str());
            out.append("_");
            out.append(op.name.as_str());
            out.append("(");
            write_expression(rhs, np, out);
            out.append(")");
        },
        Expression::AnyBinOp { op, lhs, rhs } => match &op.operator {
            Some(o) => {
                out.append("(");
                write_expression(lhs, np, out);
                out.append(o.as_str());
                out.append(" ");
                write_expression(rhs, np, out);
                out.append(")");
            },
            None => {
                out.append(op.helper.category.as_str());
                out.append("_");
                out.append(op.helper.name.as_str());
                out.append("(");
                write_expression(lhs, np, out);
                out.append(", ");
                write_expression(rhs, np, out);
                out.append(")");
            },
        },
        Expression::AnyCmpOp { op, lhs, rhs } => {
            out.append(op.category.as_str());
            out.append("_");
            out.append(op.name.as_str());
            out.append("(");
            write_expression(lhs, np, out);
            out.append(", ");
            write_expression(rhs, np, out);
            out.append(")");
        },
    }
}

/// Appends the expressions of a list, separated by commas.
pub fn write_expr_list(list: &Vec<Expression>, np: usize, out: &mut String)
    ensures
        final(out)@ == old(out)@ + expr_list_text(list@, np as nat),
{
    let mut i: usize = 0;
    while i < list.len()
        invariant
            i <= list.len(),
            out@ == old(out)@ + expr_list_text(list@.subrange(0, i as int), np as nat),
        decreases list.len() - i,
    {
        if i != 0 {
            out.append(", ");
        }
        write_expression(&list[i], np, out);
        proof {
            let s = list@.subrange(0, i + 1);
            assert(s.drop_last() =~= list@.subrange(0, i as int));
            assert(s.last() == list@[i as int]);
            if i == 0 {
                assert(s.len() == 1);
                assert(s[0] == list@[0]);
            }
        }
        i = i + 1;
    }
    assert(list@.subrange(0, list@.len() as int) =~= list@);
}

/// Inside a function with `num_param` parameters and `num_local` local slots,
/// a variable below `num_param + num_local` is named either `param_i` with
/// `i < num_param`, or `loc_j` with `j + num_param < num_param + num_local`.
pub proof fn lemma_variable_space_split(var: nat, num_param: nat, num_local: nat)
    requires
        var < num_param + num_local,
    ensures
        var < num_param ==> variable_text(var, num_param) == "param_"@ + dec(var) + " "@,
        var >= num_param ==> {
            let j = (var - num_param) as nat;
            &&& variable_text(var, num_param) == "loc_"@ + dec(j) + " "@
            &&& j + num_param < num_param + num_local
        },
{
}

} // verus!
