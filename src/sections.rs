//! The memory and table parts of the glue header, and the lines of `init()`.
use crate::emit::{
    define_line, function_symbol, import_symbol, import_symbol_exec, instance_of,
    lemma_instance_wf, numbered, numbered_exec, push_line, space_wf,
};
use crate::instance::{EntityRef, InstanceView, ModuleInstance, Space};
use crate::materialize::{
    entries_known, lemma_state_err, materialize_memory, materialize_table, memory_state,
    overwrite, segment_offset, table_state, MemoryFixup, TableFixup,
};
use crate::module::{views, GlueError, Module, ModuleView};
use crate::text::{byte_literal, dec_digits, push_byte_literal, push_dec};
use vstd::prelude::*;
use vstd::string::StringExecFns;

verus! {

/// The length of `s` without its trailing `zero` items.
pub open spec fn trimmed_len<T>(s: Seq<T>, zero: T) -> nat
    decreases s.len(),
{
    if s.len() == 0 {
        0
    } else if s.last() != zero {
        s.len()
    } else {
        trimmed_len(s.drop_last(), zero)
    }
}

/// The rows of a byte-array initialiser, one byte each.
pub open spec fn byte_rows(b: Seq<u8>) -> Seq<Seq<char>> {
    Seq::new(b.len(), |i: int| byte_literal(b[i]) + ","@)
}

/// The target of a segment in an index space: `None` when it is one of the
/// module's own entities, else the error that stops the build.
pub open spec fn target_error(space: Seq<EntityRef>, idx: u32) -> Option<GlueError> {
    if idx >= space.len() {
        Some(GlueError::IndexOutOfRange)
    } else {
        match space[idx as int] {
            EntityRef::Imported(_) => Some(GlueError::UnsupportedConstruct),
            EntityRef::Local(_) => None,
        }
    }
}

/// The first error among the targets of the first `k` data segments.
pub open spec fn data_target_error(m: ModuleView, inst: InstanceView, k: nat) -> Option<GlueError>
    decreases k,
{
    if k == 0 {
        None
    } else {
        match data_target_error(m, inst, (k - 1) as nat) {
            Some(e) => Some(e),
            None => target_error(inst.memory_space, m.data_list[k - 1].memory_index),
        }
    }
}

/// The first error among the targets of the first `k` element segments.
pub open spec fn element_target_error(m: ModuleView, inst: InstanceView, k: nat) -> Option<
    GlueError,
>
    decreases k,
{
    if k == 0 {
        None
    } else {
        match element_target_error(m, inst, (k - 1) as nat) {
            Some(e) => Some(e),
            None => target_error(inst.table_space, m.element_list[k - 1].table_index),
        }
    }
}

/// The byte array of a data segment copied at load time.
pub open spec fn fixup_data_lines(m: ModuleView, f: MemoryFixup) -> Seq<Seq<char>> {
    let bytes = m.data_list[f.segment as int].init;
    seq!["uint8_t "@ + numbered("data"@, f.segment as nat) + "["@ + dec_digits(bytes.len()) + "] = {"@]
        + byte_rows(bytes) + seq!["};"@]
}

/// The copy, in `init()`, of a data segment whose offset the host supplies.
pub open spec fn fixup_copy_line(m: ModuleView, q: nat, f: MemoryFixup) -> Seq<char> {
    "memcpy("@ + numbered("memory"@, q) + " + "@ + import_symbol(m.import_list[f.import as int])
        + ", "@ + numbered("data"@, f.segment as nat) + ", "@ + dec_digits(
        m.data_list[f.segment as int].init.len(),
    ) + ");"@
}

pub open spec fn fixups_data(m: ModuleView, fs: Seq<MemoryFixup>) -> Seq<Seq<char>>
    decreases fs.len(),
{
    if fs.len() == 0 {
        seq![]
    } else {
        fixups_data(m, fs.drop_last()) + fixup_data_lines(m, fs.last())
    }
}

pub open spec fn fixups_copy(m: ModuleView, q: nat, fs: Seq<MemoryFixup>) -> Seq<Seq<char>> {
    Seq::new(fs.len(), |i: int| fixup_copy_line(m, q, fs[i]))
}

/// The declarations of one of the module's own memories, at place `q`, with
/// its image: the bytes up to the last non-zero one (the array has the full
/// length), the length, the `{base, pages}` descriptor, the page maximum when
/// there is one, and the arrays of the segments copied at load time.
pub open spec fn memory_decl_lines(
    m: ModuleView,
    q: nat,
    j: nat,
    bytes: Seq<u8>,
    fixups: Seq<MemoryFixup>,
) -> Seq<Seq<char>> {
    let limits = m.memory_list[j as int];
    let name = numbered("memory"@, q);
    let size = dec_digits(bytes.len());
    seq![
        "uint8_t "@ + name + "["@ + size
            + "] __attribute__((section(\".wasm_memory\"), aligned(4096))) = {"@,
    ] + byte_rows(bytes.take(trimmed_len(bytes, 0u8) as int)) + seq![
        "};"@,
        "const uint64_t "@ + name + "_length = "@ + size + ";"@,
        "struct memory_instance "@ + numbered("memoryOffset"@, q) + " = { "@ + name + ", "@
            + dec_digits(limits.initial as nat) + " };"@,
    ] + match limits.maximum {
        Some(x) => seq![numbered("#define MEMORY"@, q) + "_MAX_PAGE "@ + dec_digits(x as nat)],
        None => seq![],
    } + seq![numbered("#define MEMORY"@, q) + "_DEFINED 1"@] + fixups_data(m, fixups)
}

/// The declarations and the `init()` lines of the memory at place `q` of the
/// memory index space.
#[verifier::opaque]
pub open spec fn memory_entry(m: ModuleView, inst: InstanceView, q: nat) -> Result<
    (Seq<Seq<char>>, Seq<Seq<char>>),
    GlueError,
> {
    match inst.memory_space[q as int] {
        EntityRef::Imported(i) => {
            let name = numbered("memory"@, q);
            Ok(
                (
                    seq![
                        define_line(import_symbol(m.import_list[i as int]), name),
                        "extern uint8_t "@ + name + "[];"@,
                    ],
                    seq![],
                ),
            )
        },
        EntityRef::Local(j) => match memory_state(
            inst,
            m.data_list,
            q,
            m.memory_list[j as int].initial as nat,
            m.data_list.len(),
        ) {
            Ok((bytes, fixups)) => Ok(
                (memory_decl_lines(m, q, j as nat, bytes, fixups), fixups_copy(m, q, fixups)),
            ),
            Err(e) => Err(e),
        },
    }
}

/// The declarations and the `init()` lines of the first `n` memories of the
/// memory index space.
pub open spec fn memory_section(m: ModuleView, inst: InstanceView, n: nat) -> Result<
    (Seq<Seq<char>>, Seq<Seq<char>>),
    GlueError,
>
    decreases n,
{
    if n == 0 {
        Ok((seq![], seq![]))
    } else {
        match memory_section(m, inst, (n - 1) as nat) {
            Ok((decl, init)) => match memory_entry(m, inst, (n - 1) as nat) {
                Ok((d2, i2)) => Ok((decl + d2, init + i2)),
                Err(e) => Err(e),
            },
            Err(e) => Err(e),
        }
    }
}

fn target_error_exec(space: &Vec<EntityRef>, idx: u32) -> (r: Option<GlueError>)
    ensures
        r == target_error(space@, idx),
{
    if idx as usize >= space.len() {
        Some(GlueError::IndexOutOfRange)
    } else {
        match space[idx as usize] {
            EntityRef::Imported(_) => Some(GlueError::UnsupportedConstruct),
            EntityRef::Local(_) => None,
        }
    }
}

proof fn lemma_target_error_stays(f: spec_fn(nat) -> Option<GlueError>, i: nat, n: nat)
    requires
        i <= n,
        f(i) is Some,
        forall|k: nat| #![trigger f(k)] f(k) is Some && k < n ==> f((k + 1) as nat) == f(k),
    ensures
        f(n) == f(i),
    decreases n - i,
{
    if i < n {
        lemma_target_error_stays(f, i, (n - 1) as nat);
    }
}

/// Checks that every data segment and every element segment targets a memory
/// or a table of the module's own.
pub fn check_targets(m: &Module, inst: &ModuleInstance) -> (r: Option<GlueError>)
    ensures
        r == match data_target_error(m@, inst@, m@.data_list.len()) {
            Some(e) => Some(e),
            None => element_target_error(m@, inst@, m@.element_list.len()),
        },
{
    let ghost f = |k: nat| data_target_error(m@, inst@, k);
    let mut k: usize = 0;
    while k < m.data_list.len()
        invariant
            k <= m.data_list.len(),
            data_target_error(m@, inst@, k as nat) is None,
            f == (|k: nat| data_target_error(m@, inst@, k)),
        decreases m.data_list.len() - k,
    {
        assert(m@.data_list[k as int].memory_index == m.data_list@[k as int].memory_index);
        match target_error_exec(&inst.memory_space, m.data_list[k].memory_index) {
            Some(e) => {
                proof {
                    lemma_target_error_stays(f, (k + 1) as nat, m@.data_list.len());
                }
                return Some(e);
            },
            None => {},
        }
        k = k + 1;
    }
    let ghost g = |k: nat| element_target_error(m@, inst@, k);
    let mut k: usize = 0;
    while k < m.element_list.len()
        invariant
            k <= m.element_list.len(),
            data_target_error(m@, inst@, m@.data_list.len()) is None,
            element_target_error(m@, inst@, k as nat) is None,
            g == (|k: nat| element_target_error(m@, inst@, k)),
        decreases m.element_list.len() - k,
    {
        assert(m@.element_list[k as int].table_index == m.element_list@[k as int].table_index);
        match target_error_exec(&inst.table_space, m.element_list[k].table_index) {
            Some(e) => {
                proof {
                    lemma_target_error_stays(g, (k + 1) as nat, m@.element_list.len());
                }
                return Some(e);
            },
            None => {},
        }
        k = k + 1;
    }
    None
}

/// Appends one row per byte.
pub fn push_byte_rows(out: &mut Vec<String>, b: &Vec<u8>, n: usize)
    requires
        n <= b@.len(),
    ensures
        views(final(out)@) == views(old(out)@) + byte_rows(b@.take(n as int)),
{
    let mut i: usize = 0;
    while i < n
        invariant
            i <= n,
            n <= b@.len(),
            views(out@) == views(old(out)@) + byte_rows(b@.take(i as int)),
        decreases n - i,
    {
        let mut row = String::new();
        push_byte_literal(&mut row, b[i]);
        row.append(",");
        push_line(out, row);
        i = i + 1;
        assert(views(out@) =~= views(old(out)@) + byte_rows(b@.take(i as int)));
    }
}

/// The length of `b` without its trailing zero bytes.
pub fn trimmed_bytes(b: &Vec<u8>) -> (n: usize)
    ensures
        n == trimmed_len(b@, 0u8),
        n <= b@.len(),
{
    let mut n: usize = b.len();
    assert(b@.take(n as int) =~= b@);
    while n > 0 && b[n - 1] == 0
        invariant
            n <= b@.len(),
            trimmed_len(b@.take(n as int), 0u8) == trimmed_len(b@, 0u8),
        decreases n,
    {
        assert(b@.take(n as int).drop_last() =~= b@.take(n as int - 1));
        n = n - 1;
    }
    proof {
        if n > 0 {
            assert(b@.take(n as int).last() == b@[n as int - 1]);
        }
        assert(b@.take(n as int).len() == n);
    }
    n
}

fn simple_line(a: &str, name: &String, b: &str) -> (r: String)
    ensures
        r@ == a@ + name@ + b@,
{
    let mut r = String::from_str(a);
    r.append(name.as_str());
    r.append(b);
    r
}

/// The arrays of the segments copied at load time.
fn emit_fixups_data(out: &mut Vec<String>, m: &Module, fixups: &Vec<MemoryFixup>)
    requires
        forall|i: int| 0 <= i < fixups@.len() ==> #[trigger] fixups@[i].segment < m@.data_list.len(),
    ensures
        views(final(out)@) == views(old(out)@) + fixups_data(m@, fixups@),
{
    let mut i: usize = 0;
    while i < fixups.len()
        invariant
            i <= fixups@.len(),
            forall|i: int| 0 <= i < fixups@.len() ==> #[trigger] fixups@[i].segment < m@.data_list.len(),
            views(out@) == views(old(out)@) + fixups_data(m@, fixups@.take(i as int)),
        decreases fixups@.len() - i,
    {
        let f = fixups[i];
        let seg = &m.data_list[f.segment];
        assert(m@.data_list[f.segment as int] == seg@);
        let name = numbered_exec("data", f.segment as u64);
        let mut l = simple_line("uint8_t ", &name, "[");
        push_dec(&mut l, seg.init.len() as u64);
        l.append("] = {");
        push_line(out, l);
        push_byte_rows(out, &seg.init, seg.init.len());
        push_line(out, String::from_str("};"));
        proof {
            assert(seg.init@.take(seg.init@.len() as int) =~= seg.init@);
            assert(fixups@.take(i as int + 1).drop_last() =~= fixups@.take(i as int));
        }
        i = i + 1;
        assert(views(out@) =~= views(old(out)@) + fixups_data(m@, fixups@.take(i as int)));
    }
    assert(fixups@.take(i as int) =~= fixups@);
}

/// The copies, in `init()`, of the segments whose offsets the host supplies.
fn emit_fixups_copy(init: &mut Vec<String>, m: &Module, q: usize, fixups: &Vec<MemoryFixup>)
    requires
        forall|i: int|
            0 <= i < fixups@.len() ==> #[trigger] fixups@[i].segment < m@.data_list.len()
                && fixups@[i].import < m@.import_list.len(),
    ensures
        views(final(init)@) == views(old(init)@) + fixups_copy(m@, q as nat, fixups@),
{
    let mut i: usize = 0;
    while i < fixups.len()
        invariant
            i <= fixups@.len(),
            forall|i: int|
                0 <= i < fixups@.len() ==> #[trigger] fixups@[i].segment < m@.data_list.len()
                    && fixups@[i].import < m@.import_list.len(),
            views(init@) == views(old(init)@) + fixups_copy(m@, q as nat, fixups@.take(i as int)),
        decreases fixups@.len() - i,
    {
        let f = fixups[i];
        let seg = &m.data_list[f.segment];
        assert(m@.data_list[f.segment as int] == seg@);
        let imp = &m.import_list[f.import];
        assert(m@.import_list[f.import as int] == imp@);
        let mem = numbered_exec("memory", q as u64);
        let mut l = simple_line("memcpy(", &mem, " + ");
        let sym = import_symbol_exec(&imp.module, &imp.field);
        l.append(sym.as_str());
        l.append(", ");
        let data = numbered_exec("data", f.segment as u64);
        l.append(data.as_str());
        l.append(", ");
        push_dec(&mut l, seg.init.len() as u64);
        l.append(");");
        push_line(init, l);
        i = i + 1;
        assert(views(init@) =~= views(old(init)@) + fixups_copy(m@, q as nat, fixups@.take(i as int)));
    }
    assert(fixups@.take(i as int) =~= fixups@);
}

/// The fixups of a memory image name data segments and imports that exist.
proof fn lemma_memory_fixups_wf(
    m: ModuleView,
    inst: InstanceView,
    mem: nat,
    pages: nat,
    k: nat,
)
    requires
        k <= m.data_list.len(),
        space_wf(inst.global_space, m.import_list, Space::Global, m.global_list.len()),
        memory_state(inst, m.data_list, mem, pages, k) is Ok,
    ensures
        ({
            let fs = memory_state(inst, m.data_list, mem, pages, k)->Ok_0.1;
            forall|i: int|
                0 <= i < fs.len() ==> #[trigger] fs[i].segment < m.data_list.len()
                    && fs[i].import < m.import_list.len()
        }),
    decreases k,
{
    if k > 0 {
        lemma_memory_fixups_wf(m, inst, mem, pages, (k - 1) as nat);
        let d = m.data_list[k - 1];
        let fs = memory_state(inst, m.data_list, mem, pages, (k - 1) as nat)->Ok_0.1;
        if d.memory_index == mem {
            match segment_offset(inst, d.offset) {
                Ok(crate::instance::Resolved::ExternRef(imp)) => {
                    assert(imp < m.import_list.len()) by {
                        match d.offset {
                            Some(crate::module::ConstantOperator::GlobalGet { global_index }) => {
                                let x = inst.global_space[global_index as int];
                                assert(x == EntityRef::Imported(imp));
                            },
                            _ => {},
                        }
                    }
                    let nf = fs.push(MemoryFixup { segment: (k - 1) as usize, import: imp });
                    assert forall|i: int| 0 <= i < nf.len() implies #[trigger] nf[i].segment
                        < m.data_list.len() && nf[i].import < m.import_list.len() by {
                        if i < fs.len() {
                            assert(nf[i] == fs[i]);
                            assert(fs[i].segment < m.data_list.len());
                        }
                    }
                },
                _ => {},
            }
        }
    }
}

/// The macro and the declaration of an imported memory or table.
fn emit_imported(out: &mut Vec<String>, m: &Module, base: &str, decl: &str, q: usize, i: usize)
    requires
        i < m@.import_list.len(),
    ensures
        views(final(out)@) == views(old(out)@) + seq![
            define_line(import_symbol(m@.import_list[i as int]), numbered(base@, q as nat)),
            decl@ + numbered(base@, q as nat) + "[];"@,
        ],
{
    let imp = &m.import_list[i];
    assert(m@.import_list[i as int] == imp@);
    let name = numbered_exec(base, q as u64);
    let sym = import_symbol_exec(&imp.module, &imp.field);
    push_line(out, crate::emit::define_exec(&sym, &name));
    push_line(out, simple_line(decl, &name, "[];"));
    assert(views(out@) =~= views(old(out)@) + seq![
        define_line(import_symbol(m@.import_list[i as int]), numbered(base@, q as nat)),
        decl@ + numbered(base@, q as nat) + "[];"@,
    ]);
}

/// The declarations of one of the module's own memories, with its image.
fn emit_local_memory(
    decl: &mut Vec<String>,
    init: &mut Vec<String>,
    m: &Module,
    q: usize,
    j: usize,
    img: &crate::materialize::MemoryImage,
)
    requires
        j < m@.memory_list.len(),
        forall|i: int|
            0 <= i < img.fixups@.len() ==> #[trigger] img.fixups@[i].segment < m@.data_list.len()
                && img.fixups@[i].import < m@.import_list.len(),
    ensures
        views(final(decl)@) == views(old(decl)@) + memory_decl_lines(
            m@,
            q as nat,
            j as nat,
            img.bytes@,
            img.fixups@,
        ),
        views(final(init)@) == views(old(init)@) + fixups_copy(m@, q as nat, img.fixups@),
{
    let limits = m.memory_list[j];
    let name = numbered_exec("memory", q as u64);
    let mut l = simple_line("uint8_t ", &name, "[");
    push_dec(&mut l, img.bytes.len() as u64);
    l.append("] __attribute__((section(\".wasm_memory\"), aligned(4096))) = {");
    push_line(decl, l);
    let t = trimmed_bytes(&img.bytes);
    push_byte_rows(decl, &img.bytes, t);
    push_line(decl, String::from_str("};"));
    let mut l = simple_line("const uint64_t ", &name, "_length = ");
    push_dec(&mut l, img.bytes.len() as u64);
    l.append(";");
    push_line(decl, l);
    let off = numbered_exec("memoryOffset", q as u64);
    let mut l = simple_line("struct memory_instance ", &off, " = { ");
    l.append(name.as_str());
    l.append(", ");
    push_dec(&mut l, limits.initial as u64);
    l.append(" };");
    push_line(decl, l);
    match limits.maximum {
        Some(x) => {
            let mut l = numbered_exec("#define MEMORY", q as u64);
            l.append("_MAX_PAGE ");
            push_dec(&mut l, x as u64);
            push_line(decl, l);
        },
        None => {},
    }
    let mut l = numbered_exec("#define MEMORY", q as u64);
    l.append("_DEFINED 1");
    push_line(decl, l);
    emit_fixups_data(decl, m, &img.fixups);
    emit_fixups_copy(init, m, q, &img.fixups);
    proof {
        assert(m@.memory_list[j as int] == limits);
        assert(views(decl@) =~= views(old(decl)@) + memory_decl_lines(
            m@,
            q as nat,
            j as nat,
            img.bytes@,
            img.fixups@,
        ));
    }
}

/// The lines of the memory at place `q`.
fn emit_memory_entry(
    decl: &mut Vec<String>,
    init: &mut Vec<String>,
    m: &Module,
    inst: &ModuleInstance,
    q: usize,
) -> (r: Result<(), GlueError>)
    requires
        q < inst@.memory_space.len(),
        space_wf(inst@.memory_space, m@.import_list, Space::Memory, m@.memory_list.len()),
        space_wf(inst@.global_space, m@.import_list, Space::Global, m@.global_list.len()),
    ensures
        match memory_entry(m@, inst@, q as nat) {
            Ok((d2, i2)) => r is Ok && views(final(decl)@) == views(old(decl)@) + d2 && views(
                final(init)@,
            ) == views(old(init)@) + i2,
            Err(e) => r == Err::<(), GlueError>(e),
        },
{
    reveal(memory_entry);
    match inst.memory_space[q] {
        EntityRef::Imported(i) => {
            emit_imported(decl, m, "memory", "extern uint8_t ", q, i);
            assert(views(init@) =~= views(old(init)@) + seq![]);
            Ok(())
        },
        EntityRef::Local(j) => {
            let limits = m.memory_list[j];
            let img = match materialize_memory(m, inst, q, limits.initial) {
                Ok(img) => img,
                Err(e) => {
                    return Err(e);
                },
            };
            proof {
                lemma_memory_fixups_wf(m@, inst@, q as nat, limits.initial as nat, m@.data_list.len());
            }
            emit_local_memory(decl, init, m, q, j, &img);
            Ok(())
        },
    }
}

/// The memories: the image of each of the module's own, with the arrays of the
/// segments copied at load time, and a macro and a declaration for each
/// import; the copies go to `init`.
pub fn emit_memories(
    decl: &mut Vec<String>,
    init: &mut Vec<String>,
    m: &Module,
    inst: &ModuleInstance,
) -> (r: Result<(), GlueError>)
    requires
        instance_of(m@, inst@),
    ensures
        match memory_section(m@, inst@, inst@.memory_space.len()) {
            Ok((d, i)) => r is Ok && views(final(decl)@) == views(old(decl)@) + d && views(
                final(init)@,
            ) == views(old(init)@) + i,
            Err(e) => r == Err::<(), GlueError>(e),
        },
{
    let n_imports = m.import_list.len();
    proof {
        assert(m@.import_list.len() == n_imports);
        lemma_instance_wf(m@, inst@);
    }
    let ghost mut d: Seq<Seq<char>> = seq![];
    let ghost mut i0: Seq<Seq<char>> = seq![];
    let mut q: usize = 0;
    while q < inst.memory_space.len()
        invariant
            q <= inst@.memory_space.len(),
            space_wf(inst@.memory_space, m@.import_list, Space::Memory, m@.memory_list.len()),
            space_wf(inst@.global_space, m@.import_list, Space::Global, m@.global_list.len()),
            memory_section(m@, inst@, q as nat) == Ok::<(Seq<Seq<char>>, Seq<Seq<char>>), GlueError>((d, i0)),
            views(decl@) == views(old(decl)@) + d,
            views(init@) == views(old(init)@) + i0,
        decreases inst@.memory_space.len() - q,
    {
        let ghost dd = views(decl@);
        match emit_memory_entry(decl, init, m, inst, q) {
            Ok(()) => {},
            Err(e) => {
                proof {
                    let ghost f = |k: nat| memory_section(m@, inst@, k);
                    assert(f((q + 1) as nat) is Err);
                    lemma_state_err(f, (q + 1) as nat, inst@.memory_space.len());
                }
                return Err(e);
            },
        }
        proof {
            let (d2, i2) = memory_entry(m@, inst@, q as nat)->Ok_0;
            assert(views(decl@) == dd + d2);
            d = d + d2;
            i0 = i0 + i2;
            assert(views(decl@) =~= views(old(decl)@) + d);
            assert(views(init@) =~= views(old(init)@) + i0);
        }
        q = q + 1;
    }
    Ok(())
}

/// The C value of a table slot: null, or the address of a function.
pub open spec fn slot_value(inst: InstanceView, slot: Option<u32>) -> Seq<char> {
    match slot {
        None => "0"@,
        Some(f) => "((uintptr_t) ("@ + function_symbol(inst, f as nat) + "))"@,
    }
}

/// The declarations of one of the module's own tables, at place `q`: its
/// length, its slots up to the last non-null one (the array has the full
/// length), the offset alias and the marker.
pub open spec fn table_decl_lines(inst: InstanceView, q: nat, slots: Seq<Option<u32>>) -> Seq<
    Seq<char>,
> {
    let name = numbered("table"@, q);
    let size = dec_digits(slots.len());
    seq!["uint32_t "@ + name + "_length = "@ + size + ";"@, "uintptr_t "@ + name + "["@ + size + "] = {"@]
        + Seq::new(
        trimmed_len(slots, None),
        |i: int| slot_value(inst, slots[i]) + ","@,
    ) + seq![
        "};"@,
        "uintptr_t* "@ + numbered("tableOffset"@, q) + " = "@ + name + ";"@,
        numbered("#define TABLE"@, q) + "_DEFINED 1"@,
    ]
}

/// The assignment, in `init()`, of a slot whose place the host supplies.
pub open spec fn table_fixup_line(m: ModuleView, inst: InstanceView, q: nat, f: TableFixup) -> Seq<
    char,
> {
    numbered("table"@, q) + "["@ + import_symbol(m.import_list[f.import as int]) + " + "@
        + dec_digits(f.shift as nat) + "] = "@ + slot_value(inst, f.function) + ";"@
}

/// The load-time correction of every slot of the table at place `q`: each slot,
/// null ones included, loses the address of the reference symbol and 0x20.
pub open spec fn relocation_lines(q: nat) -> Seq<Seq<char>> {
    let name = numbered("table"@, q);
    seq![
        "for (int i = 0; i < "@ + name + "_length; i++) {"@,
        name + "[i] = "@ + name + "[i] - ((uintptr_t) &tableReferenceBias) - 0x20;"@,
        "}"@,
    ]
}

/// The declarations, the `init()` fixups and the `init()` relocation of the
/// table at place `q` of the table index space.
#[verifier::opaque]
pub open spec fn table_entry(m: ModuleView, inst: InstanceView, q: nat) -> Result<
    (Seq<Seq<char>>, Seq<Seq<char>>, Seq<Seq<char>>),
    GlueError,
> {
    match inst.table_space[q as int] {
        EntityRef::Imported(i) => {
            let name = numbered("table"@, q);
            Ok(
                (
                    seq![
                        define_line(import_symbol(m.import_list[i as int]), name),
                        "extern uintptr_t "@ + name + "[];"@,
                    ],
                    seq![],
                    seq![],
                ),
            )
        },
        EntityRef::Local(j) => match table_state(
            inst,
            m.element_list,
            q,
            m.table_list[j as int].initial as nat,
            m.element_list.len(),
        ) {
            Ok((slots, fixups)) => Ok(
                (
                    table_decl_lines(inst, q, slots),
                    Seq::new(fixups.len(), |i: int| table_fixup_line(m, inst, q, fixups[i])),
                    relocation_lines(q),
                ),
            ),
            Err(e) => Err(e),
        },
    }
}

/// The table lines of the first `n` tables of the table index space.
pub open spec fn table_section(m: ModuleView, inst: InstanceView, n: nat) -> Result<
    (Seq<Seq<char>>, Seq<Seq<char>>, Seq<Seq<char>>),
    GlueError,
>
    decreases n,
{
    if n == 0 {
        Ok((seq![], seq![], seq![]))
    } else {
        match table_section(m, inst, (n - 1) as nat) {
            Ok((d, f, r)) => match table_entry(m, inst, (n - 1) as nat) {
                Ok((d2, f2, r2)) => Ok((d + d2, f + f2, r + r2)),
                Err(e) => Err(e),
            },
            Err(e) => Err(e),
        }
    }
}

/// Slots and fixups of a table image name functions and imports that exist.
proof fn lemma_table_wf(m: ModuleView, inst: InstanceView, tbl: nat, size: nat, k: nat)
    requires
        k <= m.element_list.len(),
        space_wf(inst.global_space, m.import_list, Space::Global, m.global_list.len()),
        table_state(inst, m.element_list, tbl, size, k) is Ok,
    ensures
        ({
            let (slots, fs) = table_state(inst, m.element_list, tbl, size, k)->Ok_0;
            &&& forall|i: int|
                0 <= i < slots.len() ==> match #[trigger] slots[i] {
                    Some(f) => f < inst.function_space.len(),
                    None => true,
                }
            &&& forall|i: int|
                0 <= i < fs.len() ==> #[trigger] fs[i].import < m.import_list.len() && match fs[i].function {
                    Some(f) => f < inst.function_space.len(),
                    None => true,
                }
        }),
    decreases k,
{
    if k > 0 {
        lemma_table_wf(m, inst, tbl, size, (k - 1) as nat);
        let e = m.element_list[k - 1];
        let (slots, fs) = table_state(inst, m.element_list, tbl, size, (k - 1) as nat)->Ok_0;
        if e.table_index == tbl {
            assert(entries_known(inst, e.init));
            match segment_offset(inst, e.offset) {
                Ok(crate::instance::Resolved::Literal(crate::instance::Value::I32(v))) => {
                    let off = (#[verifier::truncate] (v as u32)) as int;
                    let ns = overwrite(slots, off, e.init);
                    assert forall|i: int| 0 <= i < ns.len() implies match #[trigger] ns[i] {
                        Some(f) => f < inst.function_space.len(),
                        None => true,
                    } by {
                        if i < off {
                            assert(ns[i] == slots[i]);
                        } else if i < off + e.init.len() {
                            assert(ns[i] == e.init[i - off]);
                        } else {
                            assert(ns[i] == slots[i]);
                        }
                    }
                },
                Ok(crate::instance::Resolved::ExternRef(imp)) => {
                    assert(imp < m.import_list.len()) by {
                        match e.offset {
                            Some(crate::module::ConstantOperator::GlobalGet { global_index }) => {
                                let x = inst.global_space[global_index as int];
                                assert(x == EntityRef::Imported(imp));
                            },
                            _ => {},
                        }
                    }
                    let tf = crate::materialize::table_fixups(imp, e.init);
                    let nf = fs + tf;
                    assert forall|i: int| 0 <= i < nf.len() implies #[trigger] nf[i].import
                        < m.import_list.len() && match nf[i].function {
                        Some(f) => f < inst.function_space.len(),
                        None => true,
                    } by {
                        if i >= fs.len() {
                            assert(nf[i] == tf[i - fs.len()]);
                            assert(tf[i - fs.len()].import == imp);
                            assert(tf[i - fs.len()].function == e.init[i - fs.len()]);
                            assert(match e.init[i - fs.len()] {
                                Some(f) => f < inst.function_space.len(),
                                None => true,
                            });
                        } else {
                            assert(nf[i] == fs[i]);
                            assert(fs[i].import < m.import_list.len());
                            assert(match fs[i].function {
                                Some(f) => f < inst.function_space.len(),
                                None => true,
                            });
                        }
                    }
                },
                _ => {},
            }
        }
    }
}

fn slot_value_exec(inst: &ModuleInstance, slot: Option<u32>) -> (r: String)
    requires
        match slot {
            Some(f) => f < inst@.function_space.len(),
            None => true,
        },
    ensures
        r@ == slot_value(inst@, slot),
{
    match slot {
        None => String::from_str("0"),
        Some(f) => {
            let sym = match inst.function_space[f as usize] {
                EntityRef::Imported(_) => numbered_exec("functionImport", f as u64),
                EntityRef::Local(j) => numbered_exec("functionDef", j as u64),
            };
            simple_line("((uintptr_t) (", &sym, "))")
        },
    }
}

/// The length of `s` without its trailing null slots.
fn trimmed_slots(s: &Vec<Option<u32>>) -> (n: usize)
    ensures
        n == trimmed_len(s@, None),
        n <= s@.len(),
{
    let mut n: usize = s.len();
    assert(s@.take(n as int) =~= s@);
    while n > 0 && s[n - 1].is_none()
        invariant
            n <= s@.len(),
            trimmed_len(s@.take(n as int), None) == trimmed_len(s@, None),
        decreases n,
    {
        assert(s@.take(n as int).drop_last() =~= s@.take(n as int - 1));
        n = n - 1;
    }
    proof {
        if n > 0 {
            assert(s@.take(n as int).last() == s@[n as int - 1]);
        }
        assert(s@.take(n as int).len() == n);
    }
    n
}

fn emit_table_fixups(
    fix: &mut Vec<String>,
    m: &Module,
    inst: &ModuleInstance,
    q: usize,
    fixups: &Vec<TableFixup>,
)
    requires
        forall|i: int|
            0 <= i < fixups@.len() ==> #[trigger] fixups@[i].import < m@.import_list.len()
                && match fixups@[i].function {
                Some(f) => f < inst@.function_space.len(),
                None => true,
            },
    ensures
        views(final(fix)@) == views(old(fix)@) + Seq::new(
            fixups@.len(),
            |i: int| table_fixup_line(m@, inst@, q as nat, fixups@[i]),
        ),
{
    let name = numbered_exec("table", q as u64);
    let mut k: usize = 0;
    while k < fixups.len()
        invariant
            k <= fixups@.len(),
            name@ == numbered("table"@, q as nat),
            forall|i: int|
                0 <= i < fixups@.len() ==> #[trigger] fixups@[i].import
                    < m@.import_list.len() && match fixups@[i].function {
                    Some(f) => f < inst@.function_space.len(),
                    None => true,
                },
            views(fix@) == views(old(fix)@) + Seq::new(
                k as nat,
                |i: int| table_fixup_line(m@, inst@, q as nat, fixups@[i]),
            ),
        decreases fixups@.len() - k,
    {
        let f = fixups[k];
        let imp = &m.import_list[f.import];
        assert(m@.import_list[f.import as int] == imp@);
        let mut l = name.clone();
        l.append("[");
        let sym = import_symbol_exec(&imp.module, &imp.field);
        l.append(sym.as_str());
        l.append(" + ");
        push_dec(&mut l, f.shift as u64);
        l.append("] = ");
        let v = slot_value_exec(inst, f.function);
        l.append(v.as_str());
        l.append(";");
        assert(l@ =~= table_fixup_line(m@, inst@, q as nat, fixups@[k as int]));
        push_line(fix, l);
        k = k + 1;
        assert(views(fix@) =~= views(old(fix)@) + Seq::new(
            k as nat,
            |i: int| table_fixup_line(m@, inst@, q as nat, fixups@[i]),
        ));
    }
}

fn emit_local_table(
    decl: &mut Vec<String>,
    fix: &mut Vec<String>,
    reloc: &mut Vec<String>,
    m: &Module,
    inst: &ModuleInstance,
    q: usize,
    img: &crate::materialize::TableImage,
)
    requires
        forall|i: int|
            0 <= i < img.slots@.len() ==> match #[trigger] img.slots@[i] {
                Some(f) => f < inst@.function_space.len(),
                None => true,
            },
        forall|i: int|
            0 <= i < img.fixups@.len() ==> #[trigger] img.fixups@[i].import < m@.import_list.len()
                && match img.fixups@[i].function {
                Some(f) => f < inst@.function_space.len(),
                None => true,
            },
    ensures
        views(final(decl)@) == views(old(decl)@) + table_decl_lines(inst@, q as nat, img.slots@),
        views(final(fix)@) == views(old(fix)@) + Seq::new(
            img.fixups@.len(),
            |i: int| table_fixup_line(m@, inst@, q as nat, img.fixups@[i]),
        ),
        views(final(reloc)@) == views(old(reloc)@) + relocation_lines(q as nat),
{
    let name = numbered_exec("table", q as u64);
    let mut l = simple_line("uint32_t ", &name, "_length = ");
    push_dec(&mut l, img.slots.len() as u64);
    l.append(";");
    push_line(decl, l);
    let mut l = simple_line("uintptr_t ", &name, "[");
    push_dec(&mut l, img.slots.len() as u64);
    l.append("] = {");
    push_line(decl, l);
    let t = trimmed_slots(&img.slots);
    let ghost head = views(decl@);
    let mut i: usize = 0;
    while i < t
        invariant
            i <= t,
            t <= img.slots@.len(),
            forall|i: int|
                0 <= i < img.slots@.len() ==> match #[trigger] img.slots@[i] {
                    Some(f) => f < inst@.function_space.len(),
                    None => true,
                },
            views(decl@) == head + Seq::new(
                i as nat,
                |x: int| slot_value(inst@, img.slots@[x]) + ","@,
            ),
        decreases t - i,
    {
        let mut row = slot_value_exec(inst, img.slots[i]);
        row.append(",");
        push_line(decl, row);
        i = i + 1;
        assert(views(decl@) =~= head + Seq::new(
            i as nat,
            |x: int| slot_value(inst@, img.slots@[x]) + ","@,
        ));
    }
    push_line(decl, String::from_str("};"));
    let off = numbered_exec("tableOffset", q as u64);
    let mut l = simple_line("uintptr_t* ", &off, " = ");
    l.append(name.as_str());
    l.append(";");
    push_line(decl, l);
    let mut l = numbered_exec("#define TABLE", q as u64);
    l.append("_DEFINED 1");
    push_line(decl, l);
    assert(views(decl@) =~= views(old(decl)@) + table_decl_lines(inst@, q as nat, img.slots@));
    emit_table_fixups(fix, m, inst, q, &img.fixups);
    let l1 = simple_line("for (int i = 0; i < ", &name, "_length; i++) {");
    push_line(reloc, l1);
    let mut l2 = name.clone();
    l2.append("[i] = ");
    l2.append(name.as_str());
    l2.append("[i] - ((uintptr_t) &tableReferenceBias) - 0x20;");
    push_line(reloc, l2);
    push_line(reloc, String::from_str("}"));
    assert(views(reloc@) =~= views(old(reloc)@) + relocation_lines(q as nat));
}

fn emit_table_entry(
    decl: &mut Vec<String>,
    fix: &mut Vec<String>,
    reloc: &mut Vec<String>,
    m: &Module,
    inst: &ModuleInstance,
    q: usize,
) -> (r: Result<(), GlueError>)
    requires
        q < inst@.table_space.len(),
        space_wf(inst@.table_space, m@.import_list, Space::Table, m@.table_list.len()),
        space_wf(inst@.global_space, m@.import_list, Space::Global, m@.global_list.len()),
    ensures
        match table_entry(m@, inst@, q as nat) {
            Ok((d2, f2, r2)) => r is Ok && views(final(decl)@) == views(old(decl)@) + d2 && views(
                final(fix)@,
            ) == views(old(fix)@) + f2 && views(final(reloc)@) == views(old(reloc)@) + r2,
            Err(e) => r == Err::<(), GlueError>(e),
        },
{
    reveal(table_entry);
    match inst.table_space[q] {
        EntityRef::Imported(i) => {
            emit_imported(decl, m, "table", "extern uintptr_t ", q, i);
            assert(views(fix@) =~= views(old(fix)@) + seq![]);
            assert(views(reloc@) =~= views(old(reloc)@) + seq![]);
            Ok(())
        },
        EntityRef::Local(j) => {
            let limits = m.table_list[j];
            let img = match materialize_table(m, inst, q, limits.initial) {
                Ok(img) => img,
                Err(e) => {
                    return Err(e);
                },
            };
            proof {
                lemma_table_wf(m@, inst@, q as nat, limits.initial as nat, m@.element_list.len());
            }
            emit_local_table(decl, fix, reloc, m, inst, q, &img);
            Ok(())
        },
    }
}

/// The tables: for each of the module's own its slots, its load-time fixups
/// (to `fix`) and its relocation loop (to `reloc`); for each import a macro
/// and a declaration.
pub fn emit_tables(
    decl: &mut Vec<String>,
    fix: &mut Vec<String>,
    reloc: &mut Vec<String>,
    m: &Module,
    inst: &ModuleInstance,
) -> (r: Result<(), GlueError>)
    requires
        instance_of(m@, inst@),
    ensures
        match table_section(m@, inst@, inst@.table_space.len()) {
            Ok((d, f, rl)) => r is Ok && views(final(decl)@) == views(old(decl)@) + d && views(
                final(fix)@,
            ) == views(old(fix)@) + f && views(final(reloc)@) == views(old(reloc)@) + rl,
            Err(e) => r == Err::<(), GlueError>(e),
        },
{
    let n_imports = m.import_list.len();
    proof {
        assert(m@.import_list.len() == n_imports);
        lemma_instance_wf(m@, inst@);
    }
    let ghost mut d: Seq<Seq<char>> = seq![];
    let ghost mut f0: Seq<Seq<char>> = seq![];
    let ghost mut r0: Seq<Seq<char>> = seq![];
    let mut q: usize = 0;
    while q < inst.table_space.len()
        invariant
            q <= inst@.table_space.len(),
            space_wf(inst@.table_space, m@.import_list, Space::Table, m@.table_list.len()),
            space_wf(inst@.global_space, m@.import_list, Space::Global, m@.global_list.len()),
            table_section(m@, inst@, q as nat) == Ok::<
                (Seq<Seq<char>>, Seq<Seq<char>>, Seq<Seq<char>>),
                GlueError,
            >((d, f0, r0)),
            views(decl@) == views(old(decl)@) + d,
            views(fix@) == views(old(fix)@) + f0,
            views(reloc@) == views(old(reloc)@) + r0,
        decreases inst@.table_space.len() - q,
    {
        match emit_table_entry(decl, fix, reloc, m, inst, q) {
            Ok(()) => {},
            Err(e) => {
                proof {
                    let ghost g = |k: nat| table_section(m@, inst@, k);
                    assert(g((q + 1) as nat) is Err);
                    lemma_state_err(g, (q + 1) as nat, inst@.table_space.len());
                }
                return Err(e);
            },
        }
        proof {
            let (d2, f2, r2) = table_entry(m@, inst@, q as nat)->Ok_0;
            d = d + d2;
            f0 = f0 + f2;
            r0 = r0 + r2;
            assert(views(decl@) =~= views(old(decl)@) + d);
            assert(views(fix@) =~= views(old(fix)@) + f0);
            assert(views(reloc@) =~= views(old(reloc)@) + r0);
        }
        q = q + 1;
    }
    Ok(())
}

/// One relocation loop for each of the module's own tables among the first
/// `n` of the table index space, in order.
pub open spec fn relocations(inst: InstanceView, n: nat) -> Seq<Seq<char>>
    decreases n,
{
    if n == 0 {
        seq![]
    } else {
        relocations(inst, (n - 1) as nat) + match inst.table_space[n - 1] {
            EntityRef::Local(_) => relocation_lines((n - 1) as nat),
            EntityRef::Imported(_) => seq![],
        }
    }
}

/// The relocation part of `init()` corrects each of the module's own tables
/// exactly once, over all its slots (null ones included), and nothing else.
pub proof fn lemma_relocation_once_per_table(m: ModuleView, inst: InstanceView, n: nat)
    requires
        n <= inst.table_space.len(),
        table_section(m, inst, n) is Ok,
    ensures
        table_section(m, inst, n)->Ok_0.2 == relocations(inst, n),
    decreases n,
{
    reveal(table_entry);
    if n > 0 {
        lemma_relocation_once_per_table(m, inst, (n - 1) as nat);
        match inst.table_space[n - 1] {
            EntityRef::Imported(_) => {
                assert(table_section(m, inst, n)->Ok_0.2 =~= relocations(inst, n));
            },
            EntityRef::Local(_) => {},
        }
    }
}

} // verus!
