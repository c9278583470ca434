use vstd::prelude::*;
use vstd::string::*;

use crate::ast::{Block, BrTable, Expression, Function, Local, Statement, ValueType};
use crate::expr::{
    expr_list_text, expr_text, push_usize, variable_text, write_expr_list, write_expression,
    write_variable,
};
use crate::text::{dec, in_order_text, lemma_cat_assoc, names_text, push_dec, write_in_order, write_names};

verus! {

broadcast use lemma_cat_assoc;

/// The kind of an enclosing structured construct.
#[derive(Clone, Copy, Debug, PartialEq, Eq, Structural)]
pub enum Label {
    Forward,
    Backward,
    If,
}

/// The state of emission inside one function: the stack of enclosing labels,
/// innermost last, and the number of parameters.
#[derive(Debug)]
pub struct Visitor {
    pub label_list: Vec<Label>,
    pub num_param: usize,
}

/// The branch gadget that ends a wrapper: it clears a pending branch aimed at
/// `level`, issuing `continue` when `in_loop`, and otherwise leaves.
pub open spec fn br_target_text(level: nat, in_loop: bool) -> Seq<char> {
    "if desired then "@ + "if desired == "@ + dec(level) + " then "@ + "desired = nil "@ + (if in_loop {
        "continue "@
    } else {
        Seq::empty()
    }) + "end "@ + "break "@ + "end "@
}

/// The gadget after the wrapper of kind `closed` at index `rem`, where `labels`
/// is the stack once its label has been popped: none when the stack is empty,
/// and a loop is re-entered only when the closed construct was a loop.
pub open spec fn gadget_text(labels: Seq<Label>, rem: nat, closed: Label) -> Seq<char> {
    if labels.len() == 0 {
        Seq::empty()
    } else {
        br_target_text(rem, closed == Label::Backward)
    }
}

/// The absolute stack index aimed at by a branch of depth `up` from a stack of `len` labels.
pub open spec fn br_level(len: nat, up: nat) -> int {
    len - 1 - up
}

/// The text of a branch of depth `up` from the label stack `labels`.
pub open spec fn br_at_text(up: nat, labels: Seq<Label>) -> Seq<char> {
    "do "@ + (if up == 0 {
        if labels.len() > 0 && labels.last() == Label::Backward {
            "continue "@
        } else {
            "break "@
        }
    } else {
        "desired = "@ + dec(br_level(labels.len(), up) as nat) + " "@ + "break "@
    }) + "end "@
}

/// The binding of a call's results to the registers `start..end`: nothing when
/// the range is empty.
pub open spec fn result_list_text(start: nat, end: nat) -> Seq<char> {
    if end <= start {
        Seq::empty()
    } else {
        names_text("reg"@, start, end) + " = "@
    }
}

/// The entries of a jump table, each followed by a comma.
pub open spec fn table_entries_text(table: Seq<usize>) -> Seq<char>
    decreases table.len(),
{
    if table.len() == 0 {
        Seq::empty()
    } else {
        table_entries_text(table.drop_last()) + dec(table.last() as nat) + ", "@
    }
}

pub open spec fn br_table_text(data: BrTable, cond: Seq<char>) -> Seq<char> {
    "do "@ + "local temp = {"@ + (if data.table@.len() > 0 {
        "[0] ="@ + table_entries_text(data.table@)
    } else {
        Seq::empty()
    }) + "} "@ + "desired = temp["@ + cond + "] or "@ + dec(data.default as nat) + " "@
        + "break "@ + "end "@
}

/// A structured construct wrapped in a single-iteration loop, then its gadget.
pub open spec fn wrapper_text(b: Block, kind: Label, labels: Seq<Label>, np: nat) -> Seq<char>
    decreases b, 1int,
{
    "while true do "@ + block_text(b.body@, labels.push(kind), np) + "break "@ + "end "@
        + gadget_text(labels, labels.len(), kind)
}

/// The Luau text of a statement, emitted under the label stack `labels` in a
/// function with `np` parameters.
pub open spec fn stmt_text(s: Statement, labels: Seq<Label>, np: nat) -> Seq<char>
    decreases s, 0int,
{
    match s {
        Statement::Unreachable => "error(\"out of code bounds\")"@,
        Statement::Memorize { var, value } => "reg_"@ + dec(var as nat) + " = "@ + expr_text(value, np),
        Statement::Forward(b) => wrapper_text(b, Label::Forward, labels, np),
        Statement::Backward(b) => wrapper_text(b, Label::Backward, labels, np),
        Statement::If { cond, truthy, falsey } => "while true do "@ + "if "@ + expr_text(cond, np)
            + "~= 0 then "@ + block_text(truthy@, labels.push(Label::If), np) + (match falsey {
            Some(f) => "else "@ + block_text(f@, labels.push(Label::If), np),
            None => Seq::empty(),
        }) + "end "@ + "break "@ + "end "@ + gadget_text(labels, labels.len(), Label::If),
        Statement::Br { target } => br_at_text(target as nat, labels),
        Statement::BrIf { cond, target } => "if "@ + expr_text(cond, np) + "~= 0 then "@
            + br_at_text(target as nat, labels) + "end "@,
        Statement::BrTable { cond, data } => br_table_text(data, expr_text(cond, np)),
        Statement::Return { list } => "do return "@ + expr_list_text(list@, np) + "end "@,
        Statement::Call { func, result_start, result_end, param_list } => result_list_text(
            result_start as nat,
            result_end as nat,
        ) + "FUNC_LIST["@ + dec(func as nat) + "]("@ + expr_list_text(param_list@, np) + ")"@,
        Statement::CallIndirect { table, index, result_start, result_end, param_list } =>
            result_list_text(result_start as nat, result_end as nat) + "TABLE_LIST["@ + dec(
            table as nat,
        ) + "].data["@ + expr_text(index, np) + "]("@ + expr_list_text(param_list@, np) + ")"@,
        Statement::SetLocal { var, value } => variable_text(var as nat, np) + "= "@ + expr_text(
            value,
            np,
        ),
        Statement::SetGlobal { var, value } => "GLOBAL_LIST["@ + dec(var as nat) + "].value = "@
            + expr_text(value, np),
        Statement::AnyStore { op, pointer, offset, value } => "store_"@ + op@ + "(memory_at_0, "@
            + expr_text(pointer, np) + "+ "@ + dec(offset as nat) + ", "@ + expr_text(value, np)
            + ")"@,
    }
}

/// The statements of a block, one after another.
pub open spec fn block_text(ss: Seq<Statement>, labels: Seq<Label>, np: nat) -> Seq<char>
    decreases ss,
{
    if ss.len() == 0 {
        Seq::empty()
    } else {
        block_text(ss.subrange(0, ss.len() - 1), labels, np) + stmt_text(ss[ss.len() - 1], labels, np)
    }
}

/// Every branch in a statement names an enclosing label, where `depth`
/// labels enclose the statement.
pub open spec fn stmt_wf(s: Statement, depth: nat) -> bool
    decreases s, 0int,
{
    match s {
        Statement::Forward(b) => block_wf(b.body@, depth + 1),
        Statement::Backward(b) => block_wf(b.body@, depth + 1),
        Statement::If { truthy, falsey, .. } => block_wf(truthy@, depth + 1) && match falsey {
            Some(f) => block_wf(f@, depth + 1),
            None => true,
        },
        Statement::Br { target } => target < depth,
        Statement::BrIf { target, .. } => target < depth,
        _ => true,
    }
}

/// Every statement of a block is well formed under `depth` enclosing labels.
pub open spec fn block_wf(ss: Seq<Statement>, depth: nat) -> bool
    decreases ss,
{
    if ss.len() == 0 {
        true
    } else {
        block_wf(ss.subrange(0, ss.len() - 1), depth) && stmt_wf(ss[ss.len() - 1], depth)
    }
}

impl Visitor {
    pub open spec fn unchanged(&self, other: Visitor) -> bool {
        self.label_list@ == other.label_list@ && self.num_param == other.num_param
    }

    /// Appends the gadget for the wrapper of kind `closed` at index `rem`, whose
    /// label was just popped.
    pub fn write_br_gadget(&self, rem: usize, closed: Label, out: &mut String)
        ensures
            final(out)@ == old(out)@ + gadget_text(self.label_list@, rem as nat, closed),
    {
        if self.label_list.len() == 0 {
            return;
        }
        br_target(rem, closed == Label::Backward, out);
    }

    /// Enters a structured construct; returns the index of its label.
    pub fn push_label(&mut self, label: Label) -> (r: usize)
        ensures
            final(self).label_list@ == old(self).label_list@.push(label),
            final(self).num_param == old(self).num_param,
            r == old(self).label_list@.len(),
    {
        self.label_list.push(label);
        self.label_list.len() - 1
    }

    /// Leaves the innermost structured construct.
    pub fn pop_label(&mut self)
        requires
            old(self).label_list@.len() > 0,
        ensures
            final(self).label_list@ == old(self).label_list@.drop_last(),
            final(self).num_param == old(self).num_param,
    {
        self.label_list.pop();
    }
}

/// Appends the gadget that clears a branch aimed at `level`.
pub fn br_target(level: usize, in_loop: bool, out: &mut String)
    ensures
        final(out)@ == old(out)@ + br_target_text(level as nat, in_loop),
{
    out.append("if desired then ");
    out.append("if desired == ");
    push_usize(level, out);
    out.append(" then ");
    out.append("desired = nil ");
    if in_loop {
        out.append("continue ");
    }
    out.append("end ");
    out.append("break ");
    out.append("end ");
}

/// Appends a branch of depth `up`: a plain `continue` or `break` for the
/// innermost label, otherwise the absolute index of the target stored in `desired`.
pub fn write_br_at(up: usize, v: &Visitor, out: &mut String)
    requires
        up < v.label_list@.len(),
    ensures
        final(out)@ == old(out)@ + br_at_text(up as nat, v.label_list@),
{
    out.append("do ");
    let n = v.label_list.len();
    if up == 0 {
        if n > 0 && v.label_list[n - 1] == Label::Backward {
            out.append("continue ");
        } else {
            out.append("break ");
        }
    } else {
        let level = n - 1 - up;
        out.append("desired = ");
        push_usize(level, out);
        out.append(" ");
        out.append("break ");
    }
    out.append("end ");
}

/// Appends `reg_start, ..., reg_{end-1} = `, or nothing when the range is empty.
pub fn write_result_list(start: usize, end: usize, out: &mut String)
    ensures
        final(out)@ == old(out)@ + result_list_text(start as nat, end as nat),
{
    if end <= start {
        return;
    }
    write_names("reg", start, end, out);
    out.append(" = ");
}

/// Appends a jump table and the branch through it.
pub fn write_br_table(data: &BrTable, cond: &Expression, np: usize, out: &mut String)
    ensures
        final(out)@ == old(out)@ + br_table_text(*data, expr_text(*cond, np as nat)),
{
    out.append("do ");
    out.append("local temp = {");
    if data.table.len() > 0 {
        out.append("[0] =");
        let mut i: usize = 0;
        while i < data.table.len()
            invariant
                i <= data.table@.len(),
                out@ == old(out)@ + "do "@ + "local temp = {"@ + "[0] ="@ + table_entries_text(
                    data.table@.subrange(0, i as int),
                ),
            decreases data.table.len() - i,
        {
            push_usize(data.table[i], out);
            out.append(", ");
            proof {
                assert(data.table@.subrange(0, i + 1).drop_last() =~= data.table@.subrange(0, i as int));
            }
            i = i + 1;
        }
        assert(data.table@.subrange(0, data.table@.len() as int) =~= data.table@);
    }
    out.append("} ");
    out.append("desired = temp[");
    write_expression(cond, np, out);
    out.append("] or ");
    push_usize(data.default, out);
    out.append(" ");
    out.append("break ");
    out.append("end ");
}

/// Appends a structured construct of the given kind: its wrapper, then its gadget.
pub fn visit_wrapper(b: &Block, kind: Label, v: &mut Visitor, out: &mut String)
    requires
        block_wf(b.body@, old(v).label_list@.len() + 1),
    ensures
        final(v).unchanged(*old(v)),
        final(out)@ == old(out)@ + wrapper_text(*b, kind, old(v).label_list@, old(v).num_param as nat),
    decreases b, 1int,
{
    let rem = v.push_label(kind);
    out.append("while true do ");
    visit_block(&b.body, v, out);
    out.append("break ");
    out.append("end ");
    v.pop_label();
    proof {
        assert(v.label_list@ =~= old(v).label_list@);
    }
    v.write_br_gadget(rem, kind, out);
}

/// Appends the Luau text of a statement.
pub fn visit_statement(s: &Statement, v: &mut Visitor, out: &mut String)
    requires
        stmt_wf(*s, old(v).label_list@.len()),
    ensures
        final(v).unchanged(*old(v)),
        final(out)@ == old(out)@ + stmt_text(*s, old(v).label_list@, old(v).num_param as nat),
    decreases s, 0int,
{
    let np = v.num_param;
    match s {
        Statement::Unreachable => out.append("error(\"out of code bounds\")"),
        Statement::Memorize { var, value } => {
            out.append("reg_");
            push_usize(*var, out);
            out.append(" = ");
            write_expression(value, np, out);
        },
        Statement::Forward(b) => visit_wrapper(b, Label::Forward, v, out),
        Statement::Backward(b) => visit_wrapper(b, Label::Backward, v, out),
        Statement::If { cond, truthy, falsey } => {
            let rem = v.push_label(Label::If);
            out.append("while true do ");
            out.append("if ");
            write_expression(cond, np, out);
            out.append("~= 0 then ");
            visit_block(truthy, v, out);
            match falsey {
                Some(f) => {
                    out.append("else ");
                    visit_block(f, v, out);
                },
                None => {},
            }
            out.append("end ");
            out.append("break ");
            out.append("end ");
            v.pop_label();
            proof {
                assert(v.label_list@ =~= old(v).label_list@);
            }
            v.write_br_gadget(rem, Label::If, out);
        },
        Statement::Br { target } => write_br_at(*target, v, out),
        Statement::BrIf { cond, target } => {
            out.append("if ");
            write_expression(cond, np, out);
            out.append("~= 0 then ");
            write_br_at(*target, v, out);
            out.append("end ");
        },
        Statement::BrTable { cond, data } => write_br_table(data, cond, np, out),
        Statement::Return { list } => {
            out.append("do return ");
            write_expr_list(list, np, out);
            out.append("end ");
        },
        Statement::Call { func, result_start, result_end, param_list } => {
            write_result_list(*result_start, *result_end, out);
            out.append("FUNC_LIST[");
            push_usize(*func, out);
            out.append("](");
            write_expr_list(param_list, np, out);
            out.append(")");
        },
        Statement::CallIndirect { table, index, result_start, result_end, param_list } => {
            write_result_list(*result_start, *result_end, out);
            out.append("TABLE_LIST[");
            push_usize(*table, out);
            out.append("].data[");
            write_expression(index, np, out);
            out.append("](");
            write_expr_list(param_list, np, out);
            out.append(")");
        },
        Statement::SetLocal { var, value } => {
            write_variable(*var, np, out);
            out.append("= ");
            write_expression(value, np, out);
        },
        Statement::SetGlobal { var, value } => {
            out.append("GLOBAL_LIST[");
            push_usize(*var, out);
            out.append("].value = ");
            write_expression(value, np, out);
        },
        Statement::AnyStore { op, pointer, offset, value } => {
            out.append("store_");
            out.append(op.as_str());
            out.append("(memory_at_0, ");
            write_expression(pointer, np, out);
            out.append("+ ");
            push_dec(*offset as u64, out);
            out.append(", ");
            write_expression(value, np, out);
            out.append(")");
        },
    }
}

/// Appends the statements of a block in order.
pub fn visit_block(body: &Vec<Statement>, v: &mut Visitor, out: &mut String)
    requires
        block_wf(body@, old(v).label_list@.len()),
    ensures
        final(v).unchanged(*old(v)),
        final(out)@ == old(out)@ + block_text(body@, old(v).label_list@, old(v).num_param as nat),
    decreases body,
{
    let ghost labels = v.label_list@;
    let ghost np = v.num_param as nat;
    proof {
        lemma_block_wf_prefix(body@, labels.len());
    }
    let mut i: usize = 0;
    while i < body.len()
        invariant
            i <= body@.len(),
            v.label_list@ == labels,
            v.num_param == np,
            labels == old(v).label_list@,
            np == old(v).num_param,
            forall|j: int| 0 <= j < body@.len() ==> stmt_wf(#[trigger] body@[j], labels.len()),
            out@ == old(out)@ + block_text(body@.subrange(0, i as int), labels, np),
        decreases body.len() - i,
    {
        proof {
            assert(decreases_to!(body => body@[i as int]));
        }
        visit_statement(&body[i], v, out);
        proof {
            let s = body@.subrange(0, i + 1);
            assert(s.subrange(0, s.len() - 1) =~= body@.subrange(0, i as int));
        }
        i = i + 1;
    }
    assert(body@.subrange(0, body@.len() as int) =~= body@);
}

/// A well-formed block has well-formed statements at every position.
proof fn lemma_block_wf_prefix(ss: Seq<Statement>, depth: nat)
    requires
        block_wf(ss, depth),
    ensures
        forall|j: int| 0 <= j < ss.len() ==> stmt_wf(#[trigger] ss[j], depth),
    decreases ss.len(),
{
    if ss.len() > 0 {
        let p = ss.subrange(0, ss.len() - 1);
        lemma_block_wf_prefix(p, depth);
        assert forall|j: int| 0 <= j < ss.len() implies stmt_wf(#[trigger] ss[j], depth) by {
            if j < ss.len() - 1 {
                assert(ss[j] == p[j]);
            }
        }
    }
}

pub open spec fn value_type_text(t: ValueType) -> Seq<char> {
    match t {
        ValueType::I32 => "i32"@,
        ValueType::I64 => "i64"@,
        ValueType::F32 => "f32"@,
        ValueType::F64 => "f64"@,
    }
}

/// `ZERO_t , ZERO_t ...`: `n` zero initializers of type `t`.
pub open spec fn zeros_text(n: nat, t: ValueType) -> Seq<char>
    decreases n,
{
    if n == 0 {
        Seq::empty()
    } else if n == 1 {
        "ZERO_"@ + value_type_text(t) + " "@
    } else {
        zeros_text((n - 1) as nat, t) + ", "@ + "ZERO_"@ + value_type_text(t) + " "@
    }
}

/// The number of local slots in all groups together.
pub open spec fn local_count(groups: Seq<Local>) -> nat
    decreases groups.len(),
{
    if groups.len() == 0 {
        0
    } else {
        local_count(groups.drop_last()) + groups.last().count as nat
    }
}

/// One declaration per group of local slots; the slots are numbered from
/// `loc_0` on through all the groups.
pub open spec fn locals_text(groups: Seq<Local>) -> Seq<char>
    decreases groups.len(),
{
    if groups.len() == 0 {
        Seq::empty()
    } else {
        let g = groups.last();
        let base = local_count(groups.drop_last());
        locals_text(groups.drop_last()) + "local "@ + names_text("loc"@, base, base + g.count as nat)
            + " = "@ + zeros_text(g.count as nat, g.value_type)
    }
}

/// The declarations of the local slots and, if there are any, of the registers.
pub open spec fn variable_list_text(f: Function) -> Seq<char> {
    locals_text(f.local_data@) + if f.num_stack != 0 {
        "local "@ + in_order_text("reg"@, f.num_stack as nat) + " "@
    } else {
        Seq::empty()
    }
}

/// One alias `local memory_at_i = MEMORY_LIST[i]` per memory index.
pub open spec fn memory_alias_text(ms: Seq<usize>) -> Seq<char>
    decreases ms.len(),
{
    if ms.len() == 0 {
        Seq::empty()
    } else {
        memory_alias_text(ms.drop_last()) + "local memory_at_"@ + dec(ms.last() as nat)
            + " = MEMORY_LIST["@ + dec(ms.last() as nat) + "]"@
    }
}

/// Every branch of the body names an enclosing label, the body itself being
/// the outermost one, and the local slots can be numbered by machine words.
pub open spec fn function_wf(f: Function) -> bool {
    &&& block_wf(f.code.body@, 1)
    &&& local_count(f.local_data@) <= usize::MAX
}

/// The Luau function literal of a function.
#[verifier::opaque]
pub open spec fn function_text(f: Function) -> Seq<char> {
    "function("@ + in_order_text("param"@, f.num_param as nat) + ")"@ + memory_alias_text(
        f.memory_list@,
    ) + variable_list_text(f) + wrapper_text(f.code, Label::Forward, Seq::empty(), f.num_param as nat)
        + "end "@
}

/// Appends `function(param_0, ..., param_{n-1})`.
pub fn write_parameter_list(f: &Function, out: &mut String)
    ensures
        final(out)@ == old(out)@ + "function("@ + in_order_text("param"@, f.num_param as nat) + ")"@,
{
    out.append("function(");
    write_in_order("param", f.num_param, out);
    out.append(")");
}

fn write_value_type(t: ValueType, out: &mut String)
    ensures
        final(out)@ == old(out)@ + value_type_text(t),
{
    match t {
        ValueType::I32 => out.append("i32"),
        ValueType::I64 => out.append("i64"),
        ValueType::F32 => out.append("f32"),
        ValueType::F64 => out.append("f64"),
    }
}

proof fn lemma_local_count_prefix(groups: Seq<Local>, k: int)
    requires
        0 <= k <= groups.len(),
    ensures
        local_count(groups.subrange(0, k)) <= local_count(groups),
    decreases groups.len() - k,
{
    if k < groups.len() {
        let p = groups.subrange(0, k + 1);
        assert(p.drop_last() =~= groups.subrange(0, k));
        lemma_local_count_prefix(groups, k + 1);
    } else {
        assert(groups.subrange(0, k) =~= groups);
    }
}

/// Appends the declarations of the local slots and of the registers.
pub fn write_variable_list(f: &Function, out: &mut String)
    requires
        local_count(f.local_data@) <= usize::MAX,
    ensures
        final(out)@ == old(out)@ + variable_list_text(*f),
{
    let mut base: usize = 0;
    let mut k: usize = 0;
    while k < f.local_data.len()
        invariant
            k <= f.local_data@.len(),
            local_count(f.local_data@) <= usize::MAX,
            base == local_count(f.local_data@.subrange(0, k as int)),
            out@ == old(out)@ + locals_text(f.local_data@.subrange(0, k as int)),
        decreases f.local_data.len() - k,
    {
        proof {
            assert(f.local_data@.subrange(0, k + 1).drop_last() =~= f.local_data@.subrange(0, k as int));
            lemma_local_count_prefix(f.local_data@, k + 1);
        }
        let data = &f.local_data[k];
        let end = base + data.count as usize;
        out.append("local ");
        write_names("loc", base, end, out);
        out.append(" = ");
        let ghost before = out@;
        let mut i: u32 = 0;
        while i < data.count
            invariant
                i <= data.count,
                out@ == before + zeros_text(i as nat, data.value_type),
            decreases data.count - i,
        {
            if i != 0 {
                out.append(", ");
            }
            out.append("ZERO_");
            write_value_type(data.value_type, out);
            out.append(" ");
            i = i + 1;
        }
        base = end;
        k = k + 1;
    }
    assert(f.local_data@.subrange(0, f.local_data@.len() as int) =~= f.local_data@);
    if f.num_stack != 0 {
        out.append("local ");
        write_in_order("reg", f.num_stack, out);
        out.append(" ");
    }
}

/// Appends the Luau function literal of a function.
pub fn visit_function(f: &Function, out: &mut String)
    requires
        function_wf(*f),
    ensures
        final(out)@ == old(out)@ + function_text(*f),
{
    write_parameter_list(f, out);
    let mut k: usize = 0;
    while k < f.memory_list.len()
        invariant
            k <= f.memory_list@.len(),
            out@ == old(out)@ + "function("@ + in_order_text("param"@, f.num_param as nat) + ")"@
                + memory_alias_text(f.memory_list@.subrange(0, k as int)),
        decreases f.memory_list.len() - k,
    {
        let m = f.memory_list[k];
        out.append("local memory_at_");
        push_usize(m, out);
        out.append(" = MEMORY_LIST[");
        push_usize(m, out);
        out.append("]");
        proof {
            assert(f.memory_list@.subrange(0, k + 1).drop_last() =~= f.memory_list@.subrange(0, k as int));
        }
        k = k + 1;
    }
    assert(f.memory_list@.subrange(0, f.memory_list@.len() as int) =~= f.memory_list@);
    write_variable_list(f, out);
    let mut v = Visitor { label_list: Vec::new(), num_param: f.num_param };
    assert(v.label_list@.len() == 0);
    visit_wrapper(&f.code, Label::Forward, &mut v, out);
    out.append("end ");
    proof {
        reveal(function_text);
    }
}

/// A branch of depth `up` reaches the label `up` levels out from the innermost
/// one: depth zero is a plain `continue` into an innermost loop or a plain
/// `break` out of an innermost block, and a deeper branch records in `desired`
/// the stack index of exactly that label.
pub proof fn lemma_br_reaches_its_label(up: nat, labels: Seq<Label>)
    requires
        up < labels.len(),
    ensures
        up == 0 && labels.last() == Label::Backward ==> br_at_text(up, labels) == "do "@
            + "continue "@ + "end "@,
        up == 0 && labels.last() != Label::Backward ==> br_at_text(up, labels) == "do "@
            + "break "@ + "end "@,
        up > 0 ==> {
            let level = br_level(labels.len(), up);
            &&& 0 <= level < labels.len() - 1
            &&& labels.len() - 1 - level == up
            &&& br_at_text(up, labels) == "do "@ + ("desired = "@ + dec(level as nat) + " "@
                + "break "@) + "end "@
        },
{
}

/// Tells whether every branch of a statement names one of the `depth`
/// enclosing labels or a construct inside it.
pub fn check_statement(s: &Statement, depth: usize) -> (r: bool)
    ensures
        r == stmt_wf(*s, depth as nat),
    decreases s, 0int,
{
    match s {
        Statement::Forward(b) => check_nested(&b.body, depth),
        Statement::Backward(b) => check_nested(&b.body, depth),
        Statement::If { truthy, falsey, .. } => {
            if !check_nested(truthy, depth) {
                return false;
            }
            match falsey {
                Some(f) => check_nested(f, depth),
                None => true,
            }
        },
        Statement::Br { target } => *target < depth,
        Statement::BrIf { target, .. } => *target < depth,
        _ => true,
    }
}

/// Checks a block one level deeper than `depth`.
fn check_nested(body: &Vec<Statement>, depth: usize) -> (r: bool)
    ensures
        r == block_wf(body@, depth as nat + 1),
    decreases body, 1int,
{
    if depth == usize::MAX {
        proof {
            lemma_block_wf_deep(body@, depth as nat + 1);
        }
        return true;
    }
    check_block(body, depth + 1)
}

/// Below more labels than any branch depth can name, every statement is well formed.
proof fn lemma_stmt_wf_deep(s: Statement, depth: nat)
    requires
        depth > usize::MAX,
    ensures
        stmt_wf(s, depth),
    decreases s, 0int,
{
    match s {
        Statement::Forward(b) => lemma_block_wf_deep(b.body@, depth + 1),
        Statement::Backward(b) => lemma_block_wf_deep(b.body@, depth + 1),
        Statement::If { truthy, falsey, .. } => {
            lemma_block_wf_deep(truthy@, depth + 1);
            match falsey {
                Some(f) => lemma_block_wf_deep(f@, depth + 1),
                None => {},
            }
        },
        _ => {},
    }
}

proof fn lemma_block_wf_deep(ss: Seq<Statement>, depth: nat)
    requires
        depth > usize::MAX,
    ensures
        block_wf(ss, depth),
    decreases ss,
{
    if ss.len() > 0 {
        lemma_block_wf_deep(ss.subrange(0, ss.len() - 1), depth);
        lemma_stmt_wf_deep(ss[ss.len() - 1], depth);
    }
}

/// Tells whether every statement of a block is well formed under `depth` labels.
pub fn check_block(body: &Vec<Statement>, depth: usize) -> (r: bool)
    ensures
        r == block_wf(body@, depth as nat),
    decreases body, 0int,
{
    let mut i: usize = 0;
    while i < body.len()
        invariant
            i <= body@.len(),
            block_wf(body@.subrange(0, i as int), depth as nat),
        decreases body.len() - i,
    {
        proof {
            assert(decreases_to!(body => body@[i as int]));
        }
        let ok = check_statement(&body[i], depth);
        proof {
            let s = body@.subrange(0, i + 1);
            assert(s.subrange(0, s.len() - 1) =~= body@.subrange(0, i as int));
        }
        if !ok {
            proof {
                if block_wf(body@, depth as nat) {
                    lemma_block_wf_prefix(body@, depth as nat);
                }
            }
            return false;
        }
        i = i + 1;
    }
    assert(body@.subrange(0, body@.len() as int) =~= body@);
    true
}

/// Tells whether every branch of a function body names an enclosing label.
pub fn check_function(f: &Function) -> (r: bool)
    ensures
        r == function_wf(*f),
{
    let mut total: u64 = 0;
    let mut k: usize = 0;
    while k < f.local_data.len()
        invariant
            k <= f.local_data@.len(),
            total == local_count(f.local_data@.subrange(0, k as int)),
            total <= usize::MAX,
        decreases f.local_data.len() - k,
    {
        proof {
            assert(f.local_data@.subrange(0, k + 1).drop_last() =~= f.local_data@.subrange(0, k as int));
        }
        let c = f.local_data[k].count as u64;
        if total > usize::MAX as u64 - c {
            proof {
                lemma_local_count_prefix(f.local_data@, k + 1);
            }
            return false;
        }
        total = total + c;
        k = k + 1;
    }
    assert(f.local_data@.subrange(0, f.local_data@.len() as int) =~= f.local_data@);
    check_block(&f.code.body, 1)
}

} // verus!
