use vstd::prelude::*;
use vstd::string::*;

use crate::ast::Function;
use crate::expr::push_usize;
use crate::stmt::{check_function, function_text, function_wf, visit_function};
use crate::text::{dec, digit_text, f32_text, f64_text, int_text, lemma_cat_assoc, push_dec, push_int, write_f32, write_f64};

verus! {

broadcast use lemma_cat_assoc;

/// The kind of entity an import or an export refers to.
#[derive(Clone, Copy, Debug, PartialEq, Eq, Structural)]
pub enum ExternalKind {
    Function,
    Table,
    Memory,
    Global,
}

#[derive(Clone, Debug)]
pub struct Import {
    pub module: String,
    pub field: String,
    pub kind: ExternalKind,
}

#[derive(Clone, Debug)]
pub struct Export {
    pub field: String,
    pub kind: ExternalKind,
    pub index: u32,
}

/// The initial size of a table or memory, and its maximum if one is declared.
#[derive(Clone, Copy, Debug)]
pub struct Limits {
    pub initial: u32,
    pub maximum: Option<u32>,
}

/// An instruction of a constant expression. Only the first supported one is used.
#[derive(Clone, Debug)]
pub enum ConstInstr {
    I32Const(i32),
    I64Const(i64),
    F32Const { bits: u32, sci: String },
    F64Const { bits: u64, sci: String },
    GetGlobal(u32),
    Other,
}

/// Function references copied into a table at an offset.
#[derive(Clone, Debug)]
pub struct ElementSegment {
    pub index: u32,
    pub offset: Vec<ConstInstr>,
    pub members: Vec<u32>,
}

/// Bytes copied into a memory at an offset.
#[derive(Clone, Debug)]
pub struct DataSegment {
    pub index: u32,
    pub offset: Vec<ConstInstr>,
    pub value: Vec<u8>,
}

/// A decoded module: its sections, its function bodies in structured form,
/// and the runtime helpers that those bodies use, as `(category, name)` pairs
/// in ascending order.
#[derive(Debug)]
pub struct Module {
    pub imports: Vec<Import>,
    pub exports: Option<Vec<Export>>,
    pub tables: Vec<Limits>,
    pub memories: Vec<Limits>,
    pub globals: Vec<Vec<ConstInstr>>,
    pub elements: Vec<ElementSegment>,
    pub data: Vec<DataSegment>,
    pub start: Option<u32>,
    pub func_names: Vec<Option<String>>,
    pub code: Vec<Function>,
    pub helpers: Vec<(String, String)>,
}

/// The number of imports of kind `k`.
pub open spec fn count_kind(imports: Seq<Import>, k: ExternalKind) -> nat
    decreases imports.len(),
{
    if imports.len() == 0 {
        0
    } else {
        count_kind(imports.drop_last(), k) + if imports.last().kind == k { 1nat } else { 0nat }
    }
}

/// The size of the index space of a kind: its imports, then its definitions.
pub open spec fn space(m: Module, k: ExternalKind) -> nat {
    count_kind(m.imports@, k) + match k {
        ExternalKind::Function => m.code@.len(),
        ExternalKind::Table => m.tables@.len(),
        ExternalKind::Memory => m.memories@.len(),
        ExternalKind::Global => m.globals@.len(),
    }
}

/// What the emitter needs of a module: every body is well formed, and the
/// index spaces fit in a machine word.
pub open spec fn module_wf(m: Module) -> bool {
    &&& forall|i: int| 0 <= i < m.code@.len() ==> function_wf(#[trigger] m.code@[i])
    &&& m.imports@.len() + m.code@.len() + m.tables@.len() + m.memories@.len() + m.globals@.len()
        < usize::MAX
}

pub open spec fn hex_digit_text(d: nat) -> Seq<char> {
    if d < 10 { digit_text(d) } else if d == 10 { "A"@ } else if d == 11 { "B"@ } else if d == 12 {
        "C"@
    } else if d == 13 { "D"@ } else if d == 14 { "E"@ } else { "F"@ }
}

/// A byte as a Lua string escape `\xNN`, in upper-case hexadecimal.
pub open spec fn byte_text(b: u8) -> Seq<char> {
    "\\x"@ + hex_digit_text((b / 16) as nat) + hex_digit_text((b % 16) as nat)
}

pub open spec fn bytes_text(bs: Seq<u8>) -> Seq<char>
    decreases bs.len(),
{
    if bs.len() == 0 {
        Seq::empty()
    } else {
        bytes_text(bs.drop_last()) + byte_text(bs.last())
    }
}

/// The value of a constant expression: its first supported instruction, or a
/// runtime error when it has none.
pub open spec fn const_expr_text(code: Seq<ConstInstr>) -> Seq<char>
    decreases code.len(),
{
    if code.len() == 0 {
        "error(\"mundane expression\")"@
    } else {
        match code[0] {
            ConstInstr::I32Const(v) => int_text(v as int) + " "@,
            ConstInstr::I64Const(v) => int_text(v as int) + " "@,
            ConstInstr::F32Const { bits, sci } => f32_text(bits, sci@),
            ConstInstr::F64Const { bits, sci } => f64_text(bits, sci@),
            ConstInstr::GetGlobal(i) => "GLOBAL_LIST["@ + dec(i as nat) + "].value "@,
            ConstInstr::Other => const_expr_text(code.subrange(1, code.len() as int)),
        }
    }
}

pub open spec fn limit_max_text(l: Limits) -> Seq<char> {
    match l.maximum {
        Some(v) => dec(v as nat),
        None => "0xFFFF"@,
    }
}

/// `local NAME = table.create(n)`, where `n` is one less than the size, and zero
/// for an empty space.
pub open spec fn list_text(name: Seq<char>, len: nat) -> Seq<char> {
    "local "@ + name + " = table.create("@ + dec(if len == 0 { 0 } else { (len - 1) as nat }) + ")"@
}

/// One binding `local cat_name = rt.cat.name` per helper.
pub open spec fn localize_text(hs: Seq<(String, String)>) -> Seq<char>
    decreases hs.len(),
{
    if hs.len() == 0 {
        Seq::empty()
    } else {
        let (a, b) = hs.last();
        localize_text(hs.drop_last()) + "local "@ + a@ + "_"@ + b@ + " = rt."@ + a@ + "."@ + b@
            + " "@
    }
}

pub open spec fn name_at(names: Seq<Option<String>>, i: nat) -> Option<String> {
    if i < names.len() { names[i as int] } else { None }
}

/// `FUNC_LIST--[[name]][index] =`, the name only where one is given.
pub open spec fn func_name_text(name: Option<String>, index: nat) -> Seq<char> {
    "FUNC_LIST"@ + match name {
        Some(n) => "--[["@ + n@ + "]]"@,
        None => Seq::empty(),
    } + "["@ + dec(index) + "] ="@
}

/// The definitions of the first `n` function bodies.
pub open spec fn func_list_text(m: Module, n: nat) -> Seq<char>
    decreases n,
{
    if n == 0 {
        Seq::empty()
    } else {
        let i = (n - 1) as nat;
        func_list_text(m, i) + func_name_text(
            name_at(m.func_names@, i),
            i + count_kind(m.imports@, ExternalKind::Function),
        ) + function_text(m.code@[i as int])
    }
}

/// The initializers of the first `n` defined tables.
pub open spec fn table_list_text(ls: Seq<Limits>, offset: nat, n: nat) -> Seq<char>
    decreases n,
{
    if n == 0 {
        Seq::empty()
    } else {
        let i = (n - 1) as nat;
        let l = ls[i as int];
        table_list_text(ls, offset, i) + "TABLE_LIST["@ + dec(i + offset) + "] ="@ + "{ min = "@
            + dec(l.initial as nat) + ", max = "@ + limit_max_text(l) + ", data = {} }"@
    }
}

/// The initializers of the first `n` defined memories.
pub open spec fn memory_list_text(ls: Seq<Limits>, offset: nat, n: nat) -> Seq<char>
    decreases n,
{
    if n == 0 {
        Seq::empty()
    } else {
        let i = (n - 1) as nat;
        let l = ls[i as int];
        memory_list_text(ls, offset, i) + "MEMORY_LIST["@ + dec(i + offset) + "] ="@
            + "rt.allocator.new("@ + dec(l.initial as nat) + ", "@ + limit_max_text(l) + ")"@
    }
}

/// The initializers of the first `n` defined globals.
pub open spec fn global_list_text(gs: Seq<Vec<ConstInstr>>, offset: nat, n: nat) -> Seq<char>
    decreases n,
{
    if n == 0 {
        Seq::empty()
    } else {
        let i = (n - 1) as nat;
        global_list_text(gs, offset, i) + "GLOBAL_LIST["@ + dec(i + offset) + "] = { value ="@
            + const_expr_text(gs[i as int]@) + "}"@
    }
}

pub open spec fn members_text(ms: Seq<u32>) -> Seq<char>
    decreases ms.len(),
{
    if ms.len() == 0 {
        Seq::empty()
    } else {
        members_text(ms.drop_last()) + "FUNC_LIST["@ + dec(ms.last() as nat) + "],"@
    }
}

pub open spec fn element_text(e: ElementSegment) -> Seq<char> {
    "do "@ + "local target = TABLE_LIST["@ + dec(e.index as nat) + "].data "@ + "local offset ="@
        + const_expr_text(e.offset@) + "local data = {"@ + members_text(e.members@) + "}"@
        + "table.move(data, 1, #data, offset, target)"@ + "end "@
}

pub open spec fn element_list_text(es: Seq<ElementSegment>) -> Seq<char>
    decreases es.len(),
{
    if es.len() == 0 {
        Seq::empty()
    } else {
        element_list_text(es.drop_last()) + element_text(es.last())
    }
}

pub open spec fn data_text(d: DataSegment) -> Seq<char> {
    "do "@ + "local target = MEMORY_LIST["@ + dec(d.index as nat) + "]"@ + "local offset ="@
        + const_expr_text(d.offset@) + "local data = \""@ + bytes_text(d.value@) + "\""@
        + "rt.allocator.init(target, offset, data)"@ + "end "@
}

pub open spec fn data_list_text(ds: Seq<DataSegment>) -> Seq<char>
    decreases ds.len(),
{
    if ds.len() == 0 {
        Seq::empty()
    } else {
        data_list_text(ds.drop_last()) + data_text(ds.last())
    }
}

/// The bindings of the imports of kind `k`, numbered among that kind.
pub open spec fn import_of_text(
    imports: Seq<Import>,
    k: ExternalKind,
    lower: Seq<char>,
    upper: Seq<char>,
) -> Seq<char>
    decreases imports.len(),
{
    if imports.len() == 0 {
        Seq::empty()
    } else {
        let prev = imports.drop_last();
        let v = imports.last();
        import_of_text(prev, k, lower, upper) + if v.kind == k {
            upper + "["@ + dec(count_kind(prev, k)) + "] = wasm."@ + v.module@ + "."@ + lower + "."@
                + v.field@ + " "@
        } else {
            Seq::empty()
        }
    }
}

pub open spec fn import_list_text(imports: Seq<Import>) -> Seq<char> {
    import_of_text(imports, ExternalKind::Function, "func_list"@, "FUNC_LIST"@) + import_of_text(
        imports,
        ExternalKind::Table,
        "table_list"@,
        "TABLE_LIST"@,
    ) + import_of_text(imports, ExternalKind::Memory, "memory_list"@, "MEMORY_LIST"@)
        + import_of_text(imports, ExternalKind::Global, "global_list"@, "GLOBAL_LIST"@)
}

/// The entries of the exports of kind `k`.
pub open spec fn export_entries_text(exports: Seq<Export>, k: ExternalKind, upper: Seq<char>) -> Seq<
    char,
>
    decreases exports.len(),
{
    if exports.len() == 0 {
        Seq::empty()
    } else {
        let v = exports.last();
        export_entries_text(exports.drop_last(), k, upper) + if v.kind == k {
            v.field@ + " = "@ + upper + "["@ + dec(v.index as nat) + "],"@
        } else {
            Seq::empty()
        }
    }
}

pub open spec fn export_of_text(exports: Seq<Export>, k: ExternalKind, lower: Seq<char>, upper: Seq<char>) -> Seq<char> {
    lower + " = {"@ + export_entries_text(exports, k, upper) + "},"@
}

/// The export record: nothing when the module has no export section.
pub open spec fn export_list_text(exports: Option<Vec<Export>>) -> Seq<char> {
    match exports {
        None => Seq::empty(),
        Some(es) => export_of_text(es@, ExternalKind::Function, "func_list"@, "FUNC_LIST"@)
            + export_of_text(es@, ExternalKind::Table, "table_list"@, "TABLE_LIST"@) + export_of_text(
            es@,
            ExternalKind::Memory,
            "memory_list"@,
            "MEMORY_LIST"@,
        ) + export_of_text(es@, ExternalKind::Global, "global_list"@, "GLOBAL_LIST"@),
    }
}

/// The `init` closure, then the factory that binds imports, runs `init` and the
/// start function, and returns the exports.
#[verifier::opaque]
pub open spec fn start_point_text(m: Module) -> Seq<char> {
    "local function run_init_code()"@ + table_list_text(
        m.tables@,
        count_kind(m.imports@, ExternalKind::Table),
        m.tables@.len(),
    ) + memory_list_text(m.memories@, count_kind(m.imports@, ExternalKind::Memory), m.memories@.len())
        + global_list_text(m.globals@, count_kind(m.imports@, ExternalKind::Global), m.globals@.len())
        + element_list_text(m.elements@) + data_list_text(m.data@) + "end "@
        + "return function(wasm)"@ + import_list_text(m.imports@) + "run_init_code()"@
        + match m.start {
        Some(s) => "FUNC_LIST["@ + dec(s as nat) + "]()"@,
        None => Seq::empty(),
    } + "return {"@ + export_list_text(m.exports) + "} end "@
}

/// The whole Luau program for a module.
pub open spec fn transpile_text(m: Module) -> Seq<char> {
    "local rt = require(script.Runtime)"@ + localize_text(m.helpers@) + "local ZERO_i32 = 0 "@
        + "local ZERO_i64 = 0 "@ + "local ZERO_f32 = 0.0 "@ + "local ZERO_f64 = 0.0 "@ + list_text(
        "FUNC_LIST"@,
        space(m, ExternalKind::Function),
    ) + list_text("TABLE_LIST"@, space(m, ExternalKind::Table)) + list_text(
        "MEMORY_LIST"@,
        space(m, ExternalKind::Memory),
    ) + list_text("GLOBAL_LIST"@, space(m, ExternalKind::Global)) + func_list_text(
        m,
        m.code@.len(),
    ) + start_point_text(m)
}

proof fn lemma_count_kind_le(imports: Seq<Import>, k: ExternalKind)
    ensures
        count_kind(imports, k) <= imports.len(),
    decreases imports.len(),
{
    if imports.len() > 0 {
        lemma_count_kind_le(imports.drop_last(), k);
    }
}

/// The number of imports of kind `k`.
pub fn import_count(imports: &Vec<Import>, k: ExternalKind) -> (r: usize)
    ensures
        r == count_kind(imports@, k),
{
    let mut n: usize = 0;
    let mut i: usize = 0;
    while i < imports.len()
        invariant
            i <= imports@.len(),
            n == count_kind(imports@.subrange(0, i as int), k),
            n <= i,
        decreases imports.len() - i,
    {
        proof {
            assert(imports@.subrange(0, i + 1).drop_last() =~= imports@.subrange(0, i as int));
        }
        if imports[i].kind == k {
            n = n + 1;
        }
        i = i + 1;
    }
    assert(imports@.subrange(0, imports@.len() as int) =~= imports@);
    n
}

/// Appends `local name = table.create(n)` for a space of `len` entries.
pub fn write_list(name: &str, len: usize, out: &mut String)
    ensures
        final(out)@ == old(out)@ + list_text(name@, len as nat),
{
    let len = if len == 0 { 0 } else { len - 1 };
    out.append("local ");
    out.append(name);
    out.append(" = table.create(");
    push_usize(len, out);
    out.append(")");
}

/// Appends the value of a constant expression.
pub fn write_const_expr(code: &Vec<ConstInstr>, out: &mut String)
    ensures
        final(out)@ == old(out)@ + const_expr_text(code@),
{
    assert(code@.subrange(0, code@.len() as int) =~= code@);
    let mut i: usize = 0;
    while i < code.len()
        invariant
            i <= code@.len(),
            out@ == old(out)@,
            const_expr_text(code@) == const_expr_text(code@.subrange(i as int, code@.len() as int)),
        decreases code.len() - i,
    {
        let ghost rest = code@.subrange(i as int, code@.len() as int);
        assert(rest[0] == code@[i as int]);
        match &code[i] {
            ConstInstr::I32Const(v) => {
                push_int(*v as i64, out);
                out.append(" ");
                return;
            },
            ConstInstr::I64Const(v) => {
                push_int(*v, out);
                out.append(" ");
                return;
            },
            ConstInstr::F32Const { bits, sci } => {
                write_f32(*bits, sci.as_str(), out);
                return;
            },
            ConstInstr::F64Const { bits, sci } => {
                write_f64(*bits, sci.as_str(), out);
                return;
            },
            ConstInstr::GetGlobal(g) => {
                out.append("GLOBAL_LIST[");
                push_dec(*g as u64, out);
                out.append("].value ");
                return;
            },
            ConstInstr::Other => {
                assert(rest.subrange(1, rest.len() as int) =~= code@.subrange(
                    i + 1,
                    code@.len() as int,
                ));
            },
        }
        i = i + 1;
    }
    out.append("error(\"mundane expression\")");
}

fn write_limit_max(l: &Limits, out: &mut String)
    ensures
        final(out)@ == old(out)@ + limit_max_text(*l),
{
    match l.maximum {
        Some(v) => push_dec(v as u64, out),
        None => out.append("0xFFFF"),
    }
}

/// Appends the initializer of a table: its limits and empty contents.
pub fn write_table_init(l: &Limits, out: &mut String)
    ensures
        final(out)@ == old(out)@ + "{ min = "@ + dec(l.initial as nat) + ", max = "@
            + limit_max_text(*l) + ", data = {} }"@,
{
    out.append("{ min = ");
    push_dec(l.initial as u64, out);
    out.append(", max = ");
    write_limit_max(l, out);
    out.append(", data = {} }");
}

/// Appends the initializer of a memory: an allocation with its limits.
pub fn write_memory_init(l: &Limits, out: &mut String)
    ensures
        final(out)@ == old(out)@ + "rt.allocator.new("@ + dec(l.initial as nat) + ", "@
            + limit_max_text(*l) + ")"@,
{
    out.append("rt.allocator.new(");
    push_dec(l.initial as u64, out);
    out.append(", ");
    write_limit_max(l, out);
    out.append(")");
}

fn write_hex_digit(d: u8, out: &mut String)
    requires
        d < 16,
    ensures
        final(out)@ == old(out)@ + hex_digit_text(d as nat),
{
    if d < 10 {
        push_dec(d as u64, out);
    } else if d == 10 {
        out.append("A");
    } else if d == 11 {
        out.append("B");
    } else if d == 12 {
        out.append("C");
    } else if d == 13 {
        out.append("D");
    } else if d == 14 {
        out.append("E");
    } else {
        out.append("F");
    }
}

/// Appends the bytes as `\xNN` escapes.
pub fn write_bytes(bs: &Vec<u8>, out: &mut String)
    ensures
        final(out)@ == old(out)@ + bytes_text(bs@),
{
    let mut i: usize = 0;
    while i < bs.len()
        invariant
            i <= bs@.len(),
            out@ == old(out)@ + bytes_text(bs@.subrange(0, i as int)),
        decreases bs.len() - i,
    {
        let b = bs[i];
        out.append("\\x");
        write_hex_digit(b / 16, out);
        write_hex_digit(b % 16, out);
        proof {
            assert(bs@.subrange(0, i + 1).drop_last() =~= bs@.subrange(0, i as int));
        }
        i = i + 1;
    }
    assert(bs@.subrange(0, bs@.len() as int) =~= bs@);
}

/// Appends `FUNC_LIST--[[name]][index + offset] =`.
pub fn write_func_name(names: &Vec<Option<String>>, index: usize, offset: usize, out: &mut String)
    requires
        index + offset <= usize::MAX,
    ensures
        final(out)@ == old(out)@ + func_name_text(name_at(names@, index as nat), (index + offset) as nat),
{
    out.append("FUNC_LIST");
    if index < names.len() {
        match &names[index] {
            Some(n) => {
                out.append("--[[");
                out.append(n.as_str());
                out.append("]]");
            },
            None => {},
        }
    }
    out.append("[");
    push_usize(index + offset, out);
    out.append("] =");
}

/// Emits the Luau program of one module.
pub struct Generator<'a> {
    pub wasm: &'a Module,
}

impl<'a> Generator<'a> {
    pub fn new(wasm: &'a Module) -> (r: Self)
        ensures
            r.wasm == wasm,
    {
        Generator { wasm }
    }

    /// Appends one binding per runtime helper.
    pub fn gen_localize(helpers: &Vec<(String, String)>, out: &mut String)
        ensures
            final(out)@ == old(out)@ + localize_text(helpers@),
    {
        let mut i: usize = 0;
        while i < helpers.len()
            invariant
                i <= helpers@.len(),
                out@ == old(out)@ + localize_text(helpers@.subrange(0, i as int)),
            decreases helpers.len() - i,
        {
            let a = helpers[i].0.as_str();
            let b = helpers[i].1.as_str();
            out.append("local ");
            out.append(a);
            out.append("_");
            out.append(b);
            out.append(" = rt.");
            out.append(a);
            out.append(".");
            out.append(b);
            out.append(" ");
            proof {
                assert(helpers@.subrange(0, i + 1).drop_last() =~= helpers@.subrange(0, i as int));
            }
            i = i + 1;
        }
        assert(helpers@.subrange(0, helpers@.len() as int) =~= helpers@);
    }

    /// Appends the bindings of the imports of kind `k` from the factory's argument.
    pub fn gen_import_of(&self, k: ExternalKind, lower: &str, upper: &str, out: &mut String)
        ensures
            final(out)@ == old(out)@ + import_of_text(self.wasm.imports@, k, lower@, upper@),
    {
        let imports = &self.wasm.imports;
        let mut n: usize = 0;
        let mut i: usize = 0;
        while i < imports.len()
            invariant
                i <= imports@.len(),
                n == count_kind(imports@.subrange(0, i as int), k),
                n <= i,
                out@ == old(out)@ + import_of_text(imports@.subrange(0, i as int), k, lower@, upper@),
            decreases imports.len() - i,
        {
            proof {
                assert(imports@.subrange(0, i + 1).drop_last() =~= imports@.subrange(0, i as int));
            }
            let v = &imports[i];
            if v.kind == k {
                out.append(upper);
                out.append("[");
                push_usize(n, out);
                out.append("] = wasm.");
                out.append(v.module.as_str());
                out.append(".");
                out.append(lower);
                out.append(".");
                out.append(v.field.as_str());
                out.append(" ");
                n = n + 1;
            }
            i = i + 1;
        }
        assert(imports@.subrange(0, imports@.len() as int) =~= imports@);
    }

    /// Appends the export record's entry for kind `k`.
    pub fn gen_export_of(
        &self,
        exports: &Vec<Export>,
        k: ExternalKind,
        lower: &str,
        upper: &str,
        out: &mut String,
    )
        ensures
            final(out)@ == old(out)@ + export_of_text(exports@, k, lower@, upper@),
    {
        out.append(lower);
        out.append(" = {");
        let mut i: usize = 0;
        while i < exports.len()
            invariant
                i <= exports@.len(),
                out@ == old(out)@ + lower@ + " = {"@ + export_entries_text(
                    exports@.subrange(0, i as int),
                    k,
                    upper@,
                ),
            decreases exports.len() - i,
        {
            proof {
                assert(exports@.subrange(0, i + 1).drop_last() =~= exports@.subrange(0, i as int));
            }
            let v = &exports[i];
            if v.kind == k {
                out.append(v.field.as_str());
                out.append(" = ");
                out.append(upper);
                out.append("[");
                push_dec(v.index as u64, out);
                out.append("],");
            }
            i = i + 1;
        }
        assert(exports@.subrange(0, exports@.len() as int) =~= exports@);
        out.append("},");
    }

    pub fn gen_import_list(&self, out: &mut String)
        ensures
            final(out)@ == old(out)@ + import_list_text(self.wasm.imports@),
    {
        self.gen_import_of(ExternalKind::Function, "func_list", "FUNC_LIST", out);
        self.gen_import_of(ExternalKind::Table, "table_list", "TABLE_LIST", out);
        self.gen_import_of(ExternalKind::Memory, "memory_list", "MEMORY_LIST", out);
        self.gen_import_of(ExternalKind::Global, "global_list", "GLOBAL_LIST", out);
    }

    pub fn gen_export_list(&self, out: &mut String)
        ensures
            final(out)@ == old(out)@ + export_list_text(self.wasm.exports),
    {
        match &self.wasm.exports {
            None => {},
            Some(es) => {
                self.gen_export_of(es, ExternalKind::Function, "func_list", "FUNC_LIST", out);
                self.gen_export_of(es, ExternalKind::Table, "table_list", "TABLE_LIST", out);
                self.gen_export_of(es, ExternalKind::Memory, "memory_list", "MEMORY_LIST", out);
                self.gen_export_of(es, ExternalKind::Global, "global_list", "GLOBAL_LIST", out);
            },
        }
    }

    pub fn gen_table_list(&self, out: &mut String)
        requires
            module_wf(*self.wasm),
        ensures
            final(out)@ == old(out)@ + table_list_text(
                self.wasm.tables@,
                count_kind(self.wasm.imports@, ExternalKind::Table),
                self.wasm.tables@.len(),
            ),
    {
        let table = &self.wasm.tables;
        let offset = import_count(&self.wasm.imports, ExternalKind::Table);
        proof {
            lemma_count_kind_le(self.wasm.imports@, ExternalKind::Table);
        }
        let mut i: usize = 0;
        while i < table.len()
            invariant
                i <= table@.len(),
                offset == count_kind(self.wasm.imports@, ExternalKind::Table),
                offset + table@.len() < usize::MAX,
                out@ == old(out)@ + table_list_text(table@, offset as nat, i as nat),
            decreases table.len() - i,
        {
            out.append("TABLE_LIST[");
            push_usize(i + offset, out);
            out.append("] =");
            write_table_init(&table[i], out);
            i = i + 1;
        }
    }

    pub fn gen_memory_list(&self, out: &mut String)
        requires
            module_wf(*self.wasm),
        ensures
            final(out)@ == old(out)@ + memory_list_text(
                self.wasm.memories@,
                count_kind(self.wasm.imports@, ExternalKind::Memory),
                self.wasm.memories@.len(),
            ),
    {
        let memory = &self.wasm.memories;
        let offset = import_count(&self.wasm.imports, ExternalKind::Memory);
        proof {
            lemma_count_kind_le(self.wasm.imports@, ExternalKind::Memory);
        }
        let mut i: usize = 0;
        while i < memory.len()
            invariant
                i <= memory@.len(),
                offset == count_kind(self.wasm.imports@, ExternalKind::Memory),
                offset + memory@.len() < usize::MAX,
                out@ == old(out)@ + memory_list_text(memory@, offset as nat, i as nat),
            decreases memory.len() - i,
        {
            out.append("MEMORY_LIST[");
            push_usize(i + offset, out);
            out.append("] =");
            write_memory_init(&memory[i], out);
            i = i + 1;
        }
    }

    pub fn gen_global_list(&self, out: &mut String)
        requires
            module_wf(*self.wasm),
        ensures
            final(out)@ == old(out)@ + global_list_text(
                self.wasm.globals@,
                count_kind(self.wasm.imports@, ExternalKind::Global),
                self.wasm.globals@.len(),
            ),
    {
        let global = &self.wasm.globals;
        let offset = import_count(&self.wasm.imports, ExternalKind::Global);
        proof {
            lemma_count_kind_le(self.wasm.imports@, ExternalKind::Global);
        }
        let mut i: usize = 0;
        while i < global.len()
            invariant
                i <= global@.len(),
                offset == count_kind(self.wasm.imports@, ExternalKind::Global),
                offset + global@.len() < usize::MAX,
                out@ == old(out)@ + global_list_text(global@, offset as nat, i as nat),
            decreases global.len() - i,
        {
            out.append("GLOBAL_LIST[");
            push_usize(i + offset, out);
            out.append("] = { value =");
            write_const_expr(&global[i], out);
            out.append("}");
            i = i + 1;
        }
    }

    pub fn gen_element_list(&self, out: &mut String)
        ensures
            final(out)@ == old(out)@ + element_list_text(self.wasm.elements@),
    {
        let element = &self.wasm.elements;
        let mut i: usize = 0;
        while i < element.len()
            invariant
                i <= element@.len(),
                out@ == old(out)@ + element_list_text(element@.subrange(0, i as int)),
            decreases element.len() - i,
        {
            let v = &element[i];
            out.append("do ");
            out.append("local target = TABLE_LIST[");
            push_dec(v.index as u64, out);
            out.append("].data ");
            out.append("local offset =");
            write_const_expr(&v.offset, out);
            out.append("local data = {");
            let mut j: usize = 0;
            let ghost before = out@;
            while j < v.members.len()
                invariant
                    j <= v.members@.len(),
                    out@ == before + members_text(v.members@.subrange(0, j as int)),
                decreases v.members.len() - j,
            {
                out.append("FUNC_LIST[");
                push_dec(v.members[j] as u64, out);
                out.append("],");
                proof {
                    assert(v.members@.subrange(0, j + 1).drop_last() =~= v.members@.subrange(0, j as int));
                }
                j = j + 1;
            }
            assert(v.members@.subrange(0, v.members@.len() as int) =~= v.members@);
            out.append("}");
            out.append("table.move(data, 1, #data, offset, target)");
            out.append("end ");
            proof {
                assert(element@.subrange(0, i + 1).drop_last() =~= element@.subrange(0, i as int));
            }
            i = i + 1;
        }
        assert(element@.subrange(0, element@.len() as int) =~= element@);
    }

    pub fn gen_data_list(&self, out: &mut String)
        ensures
            final(out)@ == old(out)@ + data_list_text(self.wasm.data@),
    {
        let data = &self.wasm.data;
        let mut i: usize = 0;
        while i < data.len()
            invariant
                i <= data@.len(),
                out@ == old(out)@ + data_list_text(data@.subrange(0, i as int)),
            decreases data.len() - i,
        {
            let v = &data[i];
            out.append("do ");
            out.append("local target = MEMORY_LIST[");
            push_dec(v.index as u64, out);
            out.append("]");
            out.append("local offset =");
            write_const_expr(&v.offset, out);
            out.append("local data = \"");
            write_bytes(&v.value, out);
            out.append("\"");
            out.append("rt.allocator.init(target, offset, data)");
            out.append("end ");
            proof {
                assert(data@.subrange(0, i + 1).drop_last() =~= data@.subrange(0, i as int));
            }
            i = i + 1;
        }
        assert(data@.subrange(0, data@.len() as int) =~= data@);
    }

    pub fn gen_start_point(&self, out: &mut String)
        requires
            module_wf(*self.wasm),
        ensures
            final(out)@ == old(out)@ + start_point_text(*self.wasm),
    {
        out.append("local function run_init_code()");
        self.gen_table_list(out);
        self.gen_memory_list(out);
        self.gen_global_list(out);
        self.gen_element_list(out);
        self.gen_data_list(out);
        out.append("end ");
        out.append("return function(wasm)");
        self.gen_import_list(out);
        out.append("run_init_code()");
        match self.wasm.start {
            Some(start) => {
                out.append("FUNC_LIST[");
                push_dec(start as u64, out);
                out.append("]()");
            },
            None => {},
        }
        out.append("return {");
        self.gen_export_list(out);
        out.append("} end ");
        proof {
            reveal(start_point_text);
        }
    }

    /// Appends the definition of every function body, numbered after the
    /// imported functions.
    pub fn gen_func_list(&self, out: &mut String)
        requires
            module_wf(*self.wasm),
        ensures
            final(out)@ == old(out)@ + func_list_text(*self.wasm, self.wasm.code@.len()),
    {
        let code = &self.wasm.code;
        let o = import_count(&self.wasm.imports, ExternalKind::Function);
        proof {
            lemma_count_kind_le(self.wasm.imports@, ExternalKind::Function);
        }
        let mut i: usize = 0;
        while i < code.len()
            invariant
                i <= code@.len(),
                o == count_kind(self.wasm.imports@, ExternalKind::Function),
                o + code@.len() < usize::MAX,
                module_wf(*self.wasm),
                code == &self.wasm.code,
                out@ == old(out)@ + func_list_text(*self.wasm, i as nat),
            decreases code.len() - i,
        {
            assert(function_wf(code@[i as int]));
            let ghost prev = out@;
            write_func_name(&self.wasm.func_names, i, o, out);
            visit_function(&code[i], out);
            assert(out@ == prev + func_name_text(name_at(self.wasm.func_names@, i as nat), (i + o) as nat)
                + function_text(code@[i as int]));
            i = i + 1;
        }
    }

    /// Appends the whole Luau program of the module.
    pub fn transpile(&self, out: &mut String)
        requires
            module_wf(*self.wasm),
        ensures
            final(out)@ == old(out)@ + transpile_text(*self.wasm),
    {
        let m = self.wasm;
        out.append("local rt = require(script.Runtime)");
        Self::gen_localize(&m.helpers, out);
        out.append("local ZERO_i32 = 0 ");
        out.append("local ZERO_i64 = 0 ");
        out.append("local ZERO_f32 = 0.0 ");
        out.append("local ZERO_f64 = 0.0 ");
        let ghost head = out@;
        proof {
            lemma_count_kind_le(m.imports@, ExternalKind::Function);
            lemma_count_kind_le(m.imports@, ExternalKind::Table);
            lemma_count_kind_le(m.imports@, ExternalKind::Memory);
            lemma_count_kind_le(m.imports@, ExternalKind::Global);
        }
        write_list("FUNC_LIST", import_count(&m.imports, ExternalKind::Function) + m.code.len(), out);
        write_list("TABLE_LIST", import_count(&m.imports, ExternalKind::Table) + m.tables.len(), out);
        write_list("MEMORY_LIST", import_count(&m.imports, ExternalKind::Memory) + m.memories.len(), out);
        write_list("GLOBAL_LIST", import_count(&m.imports, ExternalKind::Global) + m.globals.len(), out);
        let ghost lists = out@;
        assert(lists == head + list_text("FUNC_LIST"@, space(*m, ExternalKind::Function)) + list_text(
            "TABLE_LIST"@,
            space(*m, ExternalKind::Table),
        ) + list_text("MEMORY_LIST"@, space(*m, ExternalKind::Memory)) + list_text(
            "GLOBAL_LIST"@,
            space(*m, ExternalKind::Global),
        ));
        self.gen_func_list(out);
        self.gen_start_point(out);
    }
}

/// The program is a function of the module alone: equal modules give
/// character-for-character equal programs, whatever generator emits them.
pub proof fn lemma_transpile_deterministic(m1: Module, m2: Module, g1: Generator, g2: Generator)
    requires
        *g1.wasm == m1,
        *g2.wasm == m2,
        m1 == m2,
    ensures
        transpile_text(*g1.wasm) == transpile_text(*g2.wasm),
{
}

proof fn lemma_count_kind_prefix(imports: Seq<Import>, k: ExternalKind, i: int)
    requires
        0 <= i < imports.len(),
        imports[i].kind == k,
    ensures
        count_kind(imports.subrange(0, i), k) < count_kind(imports, k),
    decreases imports.len(),
{
    if i == imports.len() - 1 {
        assert(imports.drop_last() =~= imports.subrange(0, i));
    } else {
        let p = imports.drop_last();
        assert(p.subrange(0, i) =~= imports.subrange(0, i));
        lemma_count_kind_prefix(p, k, i);
    }
}

/// The indices that the program binds in each list lie within that list's
/// space: the `j`-th import of a kind is bound at `j`, and the `i`-th
/// definition of a kind at `i` plus the number of imports of that kind, both
/// below the number of imports and definitions of the kind together.
pub proof fn lemma_bound_indices_in_space(m: Module, k: ExternalKind, i: nat)
    ensures
        i < m.imports@.len() && m.imports@[i as int].kind == k ==> count_kind(
            m.imports@.subrange(0, i as int),
            k,
        ) < space(m, k),
        i < space(m, k) - count_kind(m.imports@, k) ==> i + count_kind(m.imports@, k) < space(m, k),
{
    if i < m.imports@.len() && m.imports@[i as int].kind == k {
        lemma_count_kind_prefix(m.imports@, k, i as int);
    }
}

/// Tells whether a module meets what `Generator::transpile` needs of it.
pub fn check_module(m: &Module) -> (r: bool)
    ensures
        r == module_wf(*m),
{
    let total: u128 = m.imports.len() as u128 + m.code.len() as u128 + m.tables.len() as u128
        + m.memories.len() as u128 + m.globals.len() as u128;
    if total >= usize::MAX as u128 {
        return false;
    }
    let mut i: usize = 0;
    while i < m.code.len()
        invariant
            i <= m.code@.len(),
            forall|j: int| 0 <= j < i ==> function_wf(#[trigger] m.code@[j]),
        decreases m.code.len() - i,
    {
        if !check_function(&m.code[i]) {
            return false;
        }
        i = i + 1;
    }
    true
}

} // verus!
