//! The C declarations of the glue header, line by line.
use crate::instance::{
    imported_refs, import_space, index_space, instantiate, EntityRef, InstanceView, ModuleInstance,
    Space, Value,
};
use crate::module::{views, FuncType, FuncTypeView, ImportKind, ImportView, Module, ModuleView, ValueKind};
use crate::naming::{cnaming, sanitize};
use crate::text::{dec_digits, dec_int, hex_fixed, push_dec, push_dec_signed, push_hex_fixed};
use vstd::prelude::*;
use vstd::string::StringExecFns;

verus! {

/// The C type of a value kind.
pub open spec fn ctype(k: ValueKind) -> Seq<char> {
    match k {
        ValueKind::I32 => "int32_t"@,
        ValueKind::I64 => "int64_t"@,
        ValueKind::F32 => "float"@,
        ValueKind::F64 => "double"@,
    }
}

/// A numbered symbol: `base` followed by `k` in decimal.
pub open spec fn numbered(base: Seq<char>, k: nat) -> Seq<char> {
    base + dec_digits(k)
}

/// The C name under which an import is known: `wavm_<module>_<field>`.
pub open spec fn import_symbol(imp: ImportView) -> Seq<char> {
    "wavm_"@ + sanitize(imp.module) + "_"@ + sanitize(imp.field)
}

pub open spec fn define_line(name: Seq<char>, value: Seq<char>) -> Seq<char> {
    "#define "@ + name + " "@ + value
}

/// The parameter list after the context pointer.
pub open spec fn params_text(params: Seq<ValueKind>) -> Seq<char>
    decreases params.len(),
{
    if params.len() == 0 {
        seq![]
    } else {
        params_text(params.drop_last()) + ", "@ + ctype(params.last())
    }
}

/// The C function type of a WebAssembly function type, as a declarator of `name`:
/// a context pointer first, and a `wavm_ret_<ctype>` pair as the result.
pub open spec fn signature(t: FuncTypeView, name: Seq<char>) -> Seq<char> {
    let ret = match t.result {
        Some(k) => "wavm_ret_"@ + ctype(k),
        None => "void*"@,
    };
    ret + " ("@ + name + ") (void*"@ + params_text(t.params) + ")"@
}

/// The symbol that stands for function `f` of the function index space.
pub open spec fn function_symbol(inst: InstanceView, f: nat) -> Seq<char> {
    match inst.function_space[f as int] {
        EntityRef::Imported(_) => numbered("functionImport"@, f),
        EntityRef::Local(j) => numbered("functionDef"@, j as nat),
    }
}

/// Lines of one type index.
pub open spec fn type_line(i: nat) -> Seq<char> {
    "const uint64_t "@ + numbered("typeId"@, i) + " = 0;"@
}

/// The type placeholders, one per type of the module.
pub open spec fn type_lines(n: nat) -> Seq<Seq<char>> {
    Seq::new(n, |i: int| type_line(i as nat))
}

/// The declaration of one of the module's own globals, initialised with its value.
pub open spec fn global_decl(mutable: bool, name: Seq<char>, v: Value) -> Seq<char> {
    let prefix = if mutable {
        seq![]
    } else {
        "const "@
    };
    prefix + match v {
        Value::I32(x) => "int32_t "@ + name + " = "@ + dec_int(x as int) + ";"@,
        Value::I64(x) => "int64_t "@ + name + " = "@ + dec_int(x as int) + ";"@,
        Value::F32(b) => "union { uint32_t bits; float value; } "@ + name + " = { 0x"@ + hex_fixed(
            b as nat,
            8,
        ) + " };"@,
        Value::F64(b) => "union { uint64_t bits; double value; } "@ + name + " = { 0x"@
            + hex_fixed(b as nat, 16) + " };"@,
    }
}

/// The lines of the global at place `q` of the global index space.
pub open spec fn global_entry_lines(m: ModuleView, inst: InstanceView, q: nat) -> Seq<Seq<char>> {
    let name = numbered("global"@, q);
    match inst.global_space[q as int] {
        EntityRef::Imported(i) => {
            let imp = m.import_list[i as int];
            let k = match imp.kind {
                ImportKind::Global { kind, .. } => kind,
                _ => ValueKind::I32,
            };
            seq![define_line(import_symbol(imp), name), "extern "@ + ctype(k) + " "@ + name + ";"@]
        },
        EntityRef::Local(j) => seq![
            global_decl(m.global_list[j as int].mutable, name, inst.global_values[j as int]),
        ],
    }
}

/// The lines of the first `n` globals of the global index space.
pub open spec fn global_lines(m: ModuleView, inst: InstanceView, n: nat) -> Seq<Seq<char>>
    decreases n,
{
    if n == 0 {
        seq![]
    } else {
        global_lines(m, inst, (n - 1) as nat) + global_entry_lines(m, inst, (n - 1) as nat)
    }
}

/// The lines of the function at place `q` of the function index space.
pub open spec fn function_entry_lines(m: ModuleView, inst: InstanceView, q: nat) -> Seq<Seq<char>> {
    match inst.function_space[q as int] {
        EntityRef::Imported(i) => {
            let imp = m.import_list[i as int];
            let t = match imp.kind {
                ImportKind::Function { type_index } => type_index,
                _ => 0,
            };
            let name = numbered("functionImport"@, q);
            seq![
                define_line(import_symbol(imp), name),
                "extern "@ + signature(m.type_list[t as int], name) + ";"@,
            ]
        },
        EntityRef::Local(j) => {
            let t = m.function_list[j as int];
            seq![
                "extern "@ + signature(m.type_list[t as int], numbered("functionDef"@, j as nat))
                    + ";"@,
                "const uint64_t "@ + numbered("functionDefMutableDatas"@, j as nat) + " = 0;"@,
            ]
        },
    }
}

/// The lines of the first `n` functions of the function index space.
pub open spec fn function_lines(m: ModuleView, inst: InstanceView, n: nat) -> Seq<Seq<char>>
    decreases n,
{
    if n == 0 {
        seq![]
    } else {
        function_lines(m, inst, (n - 1) as nat) + function_entry_lines(m, inst, (n - 1) as nat)
    }
}

/// Every entry of an index space is an import of the space's kind or one of
/// the module's own `n_local` entities.
pub open spec fn space_wf(space: Seq<EntityRef>, imports: Seq<ImportView>, sp: Space, n_local: nat) -> bool {
    forall|q: int|
        0 <= q < space.len() ==> match #[trigger] space[q] {
            EntityRef::Imported(i) => i < imports.len() && import_space(imports[i as int].kind)
                == sp,
            EntityRef::Local(j) => j < n_local,
        }
}

proof fn lemma_imported_refs_wf(imports: Seq<ImportView>, sp: Space)
    requires
        imports.len() <= usize::MAX,
    ensures
        space_wf(imported_refs(imports, sp), imports, sp, 0),
    decreases imports.len(),
{
    if imports.len() > 0 {
        let t = imports.drop_last();
        lemma_imported_refs_wf(t, sp);
        let r = imported_refs(imports, sp);
        let rest = imported_refs(t, sp);
        assert forall|q: int| 0 <= q < r.len() implies match #[trigger] r[q] {
            EntityRef::Imported(i) => i < imports.len() && import_space(imports[i as int].kind)
                == sp,
            EntityRef::Local(j) => j < 0,
        } by {
            if q < rest.len() {
                assert(r[q] == rest[q]);
                let x = rest[q];
                match x {
                    EntityRef::Imported(i) => {
                        assert(i < t.len() && import_space(t[i as int].kind) == sp);
                        assert(imports[i as int] == t[i as int]);
                    },
                    EntityRef::Local(j) => {
                        assert(j < 0);
                    },
                }
            } else {
                assert(import_space(imports.last().kind) == sp);
                assert(r == rest.push(EntityRef::Imported((imports.len() - 1) as usize)));
                assert(r[q] == EntityRef::Imported((imports.len() - 1) as usize));
            }
        }
    }
}

/// Index spaces built by `index_space` are well formed.
pub proof fn lemma_index_space_wf(imports: Seq<ImportView>, sp: Space, n_local: nat)
    requires
        imports.len() <= usize::MAX,
    ensures
        space_wf(index_space(imports, sp, n_local), imports, sp, n_local),
{
    lemma_imported_refs_wf(imports, sp);
    let a = imported_refs(imports, sp);
    let s = index_space(imports, sp, n_local);
    assert forall|q: int| 0 <= q < s.len() implies match #[trigger] s[q] {
        EntityRef::Imported(i) => i < imports.len() && import_space(imports[i as int].kind) == sp,
        EntityRef::Local(j) => j < n_local,
    } by {
        if q < a.len() {
            assert(s[q] == a[q]);
        }
    }
}

/// The instance is the one of the module, and so every index space is well formed.
pub open spec fn instance_of(m: ModuleView, inst: InstanceView) -> bool {
    instantiate(m) == Ok::<InstanceView, crate::module::GlueError>(inst)
}

pub proof fn lemma_instance_wf(m: ModuleView, inst: InstanceView)
    requires
        instance_of(m, inst),
        m.import_list.len() <= usize::MAX,
    ensures
        space_wf(inst.function_space, m.import_list, Space::Function, m.function_list.len()),
        space_wf(inst.table_space, m.import_list, Space::Table, m.table_list.len()),
        space_wf(inst.memory_space, m.import_list, Space::Memory, m.memory_list.len()),
        space_wf(inst.global_space, m.import_list, Space::Global, m.global_list.len()),
        inst.global_values.len() == m.global_list.len(),
        crate::instance::types_known(m),
{
    lemma_index_space_wf(m.import_list, Space::Function, m.function_list.len());
    lemma_index_space_wf(m.import_list, Space::Table, m.table_list.len());
    lemma_index_space_wf(m.import_list, Space::Memory, m.memory_list.len());
    lemma_index_space_wf(m.import_list, Space::Global, m.global_list.len());
    crate::instance::lemma_global_values_len(
        crate::instance::global_space_of(m),
        m.global_list,
        m.global_list.len(),
    );
}

/// Appends one line to `out`.
pub fn push_line(out: &mut Vec<String>, line: String)
    ensures
        views(final(out)@) == views(old(out)@).push(line@),
{
    proof {
        crate::module::lemma_views_push(out@, line);
    }
    out.push(line);
}

/// A numbered symbol.
pub fn numbered_exec(base: &str, k: u64) -> (r: String)
    ensures
        r@ == numbered(base@, k as nat),
{
    let mut r = String::from_str(base);
    push_dec(&mut r, k);
    r
}

fn ctype_exec(k: ValueKind) -> (r: &'static str)
    ensures
        r@ == ctype(k),
{
    match k {
        ValueKind::I32 => "int32_t",
        ValueKind::I64 => "int64_t",
        ValueKind::F32 => "float",
        ValueKind::F64 => "double",
    }
}

/// The C name of an import.
pub fn import_symbol_exec(module: &String, field: &String) -> (r: String)
    ensures
        r@ == "wavm_"@ + sanitize(module@) + "_"@ + sanitize(field@),
{
    let mut r = String::from_str("wavm_");
    let a = cnaming(module.as_str());
    r.append(a.as_str());
    r.append("_");
    let b = cnaming(field.as_str());
    r.append(b.as_str());
    assert(r@ =~= "wavm_"@ + sanitize(module@) + "_"@ + sanitize(field@));
    r
}

pub fn define_exec(name: &String, value: &String) -> (r: String)
    ensures
        r@ == define_line(name@, value@),
{
    let mut r = String::from_str("#define ");
    r.append(name.as_str());
    r.append(" ");
    r.append(value.as_str());
    assert(r@ =~= define_line(name@, value@));
    r
}

fn signature_exec(t: &FuncType, name: &String) -> (r: String)
    ensures
        r@ == signature(t@, name@),
{
    let mut r = match t.result {
        Some(k) => {
            let mut s = String::from_str("wavm_ret_");
            s.append(ctype_exec(k));
            s
        },
        None => String::from_str("void*"),
    };
    r.append(" (");
    r.append(name.as_str());
    r.append(") (void*");
    let ghost head = r@;
    let mut i: usize = 0;
    while i < t.params.len()
        invariant
            i <= t.params@.len(),
            r@ == head + params_text(t.params@.take(i as int)),
        decreases t.params@.len() - i,
    {
        r.append(", ");
        r.append(ctype_exec(t.params[i]));
        proof {
            assert(t.params@.take(i as int + 1).drop_last() =~= t.params@.take(i as int));
        }
        i = i + 1;
        assert(r@ =~= head + params_text(t.params@.take(i as int)));
    }
    r.append(")");
    assert(t.params@.take(i as int) =~= t.params@);
    assert(r@ =~= signature(t@, name@));
    r
}

fn text_line(parts_a: &str, name: &String, parts_b: &str) -> (r: String)
    ensures
        r@ == parts_a@ + name@ + parts_b@,
{
    let mut r = String::from_str(parts_a);
    r.append(name.as_str());
    r.append(parts_b);
    r
}

/// The type placeholders.
pub fn emit_types(out: &mut Vec<String>, n: usize)
    ensures
        views(final(out)@) == views(old(out)@) + type_lines(n as nat),
{
    let mut i: usize = 0;
    while i < n
        invariant
            i <= n,
            views(out@) == views(old(out)@) + type_lines(i as nat),
        decreases n - i,
    {
        let name = numbered_exec("typeId", i as u64);
        let line = text_line("const uint64_t ", &name, " = 0;");
        push_line(out, line);
        i = i + 1;
        assert(views(out@) =~= views(old(out)@) + type_lines(i as nat));
    }
}

fn global_decl_exec(mutable: bool, name: &String, v: Value) -> (r: String)
    ensures
        r@ == global_decl(mutable, name@, v),
{
    let mut r = if mutable {
        String::new()
    } else {
        String::from_str("const ")
    };
    match v {
        Value::I32(x) => {
            r.append("int32_t ");
            r.append(name.as_str());
            r.append(" = ");
            push_dec_signed(&mut r, x as i64);
            r.append(";");
        },
        Value::I64(x) => {
            r.append("int64_t ");
            r.append(name.as_str());
            r.append(" = ");
            push_dec_signed(&mut r, x);
            r.append(";");
        },
        Value::F32(b) => {
            r.append("union { uint32_t bits; float value; } ");
            r.append(name.as_str());
            r.append(" = { 0x");
            push_hex_fixed(&mut r, b as u64, 8);
            r.append(" };");
        },
        Value::F64(b) => {
            r.append("union { uint64_t bits; double value; } ");
            r.append(name.as_str());
            r.append(" = { 0x");
            push_hex_fixed(&mut r, b, 16);
            r.append(" };");
        },
    }
    assert(r@ =~= global_decl(mutable, name@, v));
    r
}

/// The globals: a macro and a declaration for each import, a definition with
/// its value for each of the module's own.
pub fn emit_globals(out: &mut Vec<String>, m: &Module, inst: &ModuleInstance)
    requires
        instance_of(m@, inst@),
    ensures
        views(final(out)@) == views(old(out)@) + global_lines(m@, inst@, inst@.global_space.len()),
{
    let n_imports = m.import_list.len();
    proof {
        assert(m@.import_list.len() == n_imports);
        lemma_instance_wf(m@, inst@);
    }
    let mut q: usize = 0;
    while q < inst.global_space.len()
        invariant
            q <= inst@.global_space.len(),
            space_wf(inst@.global_space, m@.import_list, Space::Global, m@.global_list.len()),
            inst@.global_values.len() == m@.global_list.len(),
            views(out@) == views(old(out)@) + global_lines(m@, inst@, q as nat),
        decreases inst@.global_space.len() - q,
    {
        let name = numbered_exec("global", q as u64);
        match inst.global_space[q] {
            EntityRef::Imported(i) => {
                let imp = &m.import_list[i];
                assert(m@.import_list[i as int] == imp@);
                let k = match imp.kind {
                    ImportKind::Global { kind, .. } => kind,
                    _ => ValueKind::I32,
                };
                let sym = import_symbol_exec(&imp.module, &imp.field);
                push_line(out, define_exec(&sym, &name));
                let mut l = String::from_str("extern ");
                l.append(ctype_exec(k));
                l.append(" ");
                l.append(name.as_str());
                l.append(";");
                push_line(out, l);
            },
            EntityRef::Local(j) => {
                let g = m.global_list[j];
                push_line(out, global_decl_exec(g.mutable, &name, inst.global_values[j]));
            },
        }
        q = q + 1;
        assert(views(out@) =~= views(old(out)@) + global_lines(m@, inst@, q as nat));
    }
}

/// The functions: for each import a macro and a declaration of
/// `functionImport<k>`, for each of the module's own a declaration of
/// `functionDef<k>` and its zero-valued mutable-data placeholder.
pub fn emit_functions(out: &mut Vec<String>, m: &Module, inst: &ModuleInstance)
    requires
        instance_of(m@, inst@),
    ensures
        views(final(out)@) == views(old(out)@) + function_lines(
            m@,
            inst@,
            inst@.function_space.len(),
        ),
{
    let n_imports = m.import_list.len();
    proof {
        assert(m@.import_list.len() == n_imports);
        lemma_instance_wf(m@, inst@);
    }
    let mut q: usize = 0;
    while q < inst.function_space.len()
        invariant
            q <= inst@.function_space.len(),
            space_wf(inst@.function_space, m@.import_list, Space::Function, m@.function_list.len()),
            crate::instance::types_known(m@),
            views(out@) == views(old(out)@) + function_lines(m@, inst@, q as nat),
        decreases inst@.function_space.len() - q,
    {
        match inst.function_space[q] {
            EntityRef::Imported(i) => {
                let imp = &m.import_list[i];
                assert(m@.import_list[i as int] == imp@);
                let t = match imp.kind {
                    ImportKind::Function { type_index } => type_index,
                    _ => 0,
                };
                let name = numbered_exec("functionImport", q as u64);
                let sym = import_symbol_exec(&imp.module, &imp.field);
                push_line(out, define_exec(&sym, &name));
                let ty = &m.type_list[t as usize];
                assert(m@.type_list[t as int] == ty@);
                let sig = signature_exec(ty, &name);
                push_line(out, text_line("extern ", &sig, ";"));
            },
            EntityRef::Local(j) => {
                let t = m.function_list[j];
                let name = numbered_exec("functionDef", j as u64);
                let ty = &m.type_list[t as usize];
                assert(m@.type_list[t as int] == ty@);
                let sig = signature_exec(ty, &name);
                push_line(out, text_line("extern ", &sig, ";"));
                let data = numbered_exec("functionDefMutableDatas", j as u64);
                push_line(out, text_line("const uint64_t ", &data, " = 0;"));
            },
        }
        q = q + 1;
        assert(views(out@) =~= views(old(out)@) + function_lines(m@, inst@, q as nat));
    }
}

proof fn lemma_numbered_distinct(base: Seq<char>, a: nat, b: nat)
    requires
        a != b,
    ensures
        numbered(base, a) != numbered(base, b),
{
    if numbered(base, a) == numbered(base, b) {
        assert(numbered(base, a).skip(base.len() as int) =~= dec_digits(a));
        assert(numbered(base, b).skip(base.len() as int) =~= dec_digits(b));
        crate::text::lemma_dec_digits_injective(a, b);
    }
}

/// An import never shares its C symbol with one of the module's own
/// entities: globals, memories and tables are numbered by their distinct
/// places in the index space, and imported functions are `functionImport<k>`
/// where the module's own are `functionDef<k>`.
pub proof fn lemma_import_symbols_distinct(inst: InstanceView, q1: nat, q2: nat)
    ensures
        q1 < inst.global_space.len() && q2 < inst.global_space.len()
            && inst.global_space[q1 as int] is Imported && inst.global_space[q2 as int] is Local
            ==> numbered("global"@, q1) != numbered("global"@, q2),
        q1 < inst.memory_space.len() && q2 < inst.memory_space.len()
            && inst.memory_space[q1 as int] is Imported && inst.memory_space[q2 as int] is Local
            ==> numbered("memory"@, q1) != numbered("memory"@, q2),
        q1 < inst.table_space.len() && q2 < inst.table_space.len()
            && inst.table_space[q1 as int] is Imported && inst.table_space[q2 as int] is Local
            ==> numbered("table"@, q1) != numbered("table"@, q2),
        q1 < inst.function_space.len() && q2 < inst.function_space.len()
            && inst.function_space[q1 as int] is Imported && inst.function_space[q2 as int] is Local
            ==> function_symbol(inst, q1) != function_symbol(inst, q2),
{
    if q1 != q2 {
        lemma_numbered_distinct("global"@, q1, q2);
        lemma_numbered_distinct("memory"@, q1, q2);
        lemma_numbered_distinct("table"@, q1, q2);
    }
    if q1 < inst.function_space.len() && q2 < inst.function_space.len()
        && inst.function_space[q1 as int] is Imported && inst.function_space[q2 as int] is Local {
        reveal_strlit("functionImport");
        reveal_strlit("functionDef");
        let j = inst.function_space[q2 as int]->Local_0;
        let a = numbered("functionImport"@, q1);
        let b = numbered("functionDef"@, j as nat);
        assert(a[8] == "functionImport"@[8]);
        assert(b[8] == "functionDef"@[8]);
        assert(a[8] != b[8]);
    }
}

/// The initialiser of a float global is its exact bit pattern: two float
/// globals of one kind whose declarations read the same hold the same bits,
/// negative zero and every NaN payload included.
pub proof fn lemma_float_literal_exact(mutable: bool, name: Seq<char>, a: Value, b: Value)
    requires
        (a is F32 && b is F32) || (a is F64 && b is F64),
        global_decl(mutable, name, a) == global_decl(mutable, name, b),
    ensures
        a == b,
{
    let prefix: Seq<char> = if mutable {
        seq![]
    } else {
        "const "@
    };
    reveal_with_fuel(vstd::arithmetic::power::pow, 17);
    match (a, b) {
        (Value::F32(x), Value::F32(y)) => {
            let head = prefix + "union { uint32_t bits; float value; } "@ + name + " = { 0x"@;
            let (hx, hy) = (hex_fixed(x as nat, 8), hex_fixed(y as nat, 8));
            crate::text::lemma_hex_fixed_len(x as nat, 8);
            crate::text::lemma_hex_fixed_len(y as nat, 8);
            assert(global_decl(mutable, name, a) =~= head + hx + " };"@);
            assert(global_decl(mutable, name, b) =~= head + hy + " };"@);
            assert((head + hx + " };"@).subrange(head.len() as int, head.len() as int + 8) =~= hx);
            assert((head + hy + " };"@).subrange(head.len() as int, head.len() as int + 8) =~= hy);
            assert(vstd::arithmetic::power::pow(16, 8) == 0x1_0000_0000);
            crate::text::lemma_hex_fixed_injective(x as nat, y as nat, 8);
        },
        (Value::F64(x), Value::F64(y)) => {
            let head = prefix + "union { uint64_t bits; double value; } "@ + name + " = { 0x"@;
            let (hx, hy) = (hex_fixed(x as nat, 16), hex_fixed(y as nat, 16));
            crate::text::lemma_hex_fixed_len(x as nat, 16);
            crate::text::lemma_hex_fixed_len(y as nat, 16);
            assert(global_decl(mutable, name, a) =~= head + hx + " };"@);
            assert(global_decl(mutable, name, b) =~= head + hy + " };"@);
            assert((head + hx + " };"@).subrange(head.len() as int, head.len() as int + 16) =~= hx);
            assert((head + hy + " };"@).subrange(head.len() as int, head.len() as int + 16) =~= hy);
            assert(vstd::arithmetic::power::pow(16, 16) == 0x1_0000_0000_0000_0000);
            crate::text::lemma_hex_fixed_injective(x as nat, y as nat, 16);
        },
        _ => {},
    }
}

} // verus!
