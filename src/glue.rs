//! The whole glue header of a module, and the native object it carries.
use crate::emit::{
    define_line, emit_functions, emit_globals, emit_types, function_lines, function_symbol,
    global_lines, instance_of, numbered_exec, push_line, type_lines,
};
use crate::instance::{instantiate, EntityRef, InstanceView, ModuleInstance};
use crate::module::{views, CustomView, ExportKind, GlueError, Module, ModuleView};
use crate::naming::{cnaming, sanitize};
use crate::sections::{
    check_targets, data_target_error, element_target_error, emit_memories, emit_tables,
    memory_section, table_section,
};
use crate::code_builder::{write_lines, CodeBuilder};
use vstd::prelude::*;
use vstd::string::StringExecFns;

verus! {

/// The name of the custom section that carries the native object code.
pub open spec fn object_section_name() -> Seq<char> {
    "wavm.precompiled_object"@
}

/// The native object: the payloads of the custom sections named
/// `wavm.precompiled_object`, among the first `n`, one after another.
pub open spec fn object_payload(cs: Seq<CustomView>, n: nat) -> Seq<u8>
    decreases n,
{
    if n == 0 {
        seq![]
    } else {
        object_payload(cs, (n - 1) as nat) + if cs[n - 1].name == object_section_name() {
            cs[n - 1].data
        } else {
            seq![]
        }
    }
}

/// The export macros of the first `n` exports: one for each function export,
/// named after the sanitized export name.
pub open spec fn export_section(m: ModuleView, inst: InstanceView, n: nat) -> Result<
    Seq<Seq<char>>,
    GlueError,
>
    decreases n,
{
    if n == 0 {
        Ok(seq![])
    } else {
        match export_section(m, inst, (n - 1) as nat) {
            Ok(l) => {
                let x = m.export_list[n - 1];
                if x.kind == ExportKind::Function {
                    if x.index >= inst.function_space.len() {
                        Err(GlueError::IndexOutOfRange)
                    } else {
                        Ok(
                            l.push(
                                define_line(
                                    "wavm_exported_function_"@ + sanitize(x.field),
                                    function_symbol(inst, x.index as nat),
                                ),
                            ),
                        )
                    }
                } else {
                    Ok(l)
                }
            },
            Err(e) => Err(e),
        }
    }
}

/// Whether the module exports a function under the name `_start`.
pub open spec fn has_start(m: ModuleView) -> bool {
    exists|i: int|
        0 <= i < m.export_list.len() && #[trigger] m.export_list[i].kind == ExportKind::Function
            && m.export_list[i].field == "_start"@
}

/// The call of the start function at the end of `init()`, if there is one.
pub open spec fn start_lines(m: ModuleView, inst: InstanceView) -> Result<Seq<Seq<char>>, GlueError> {
    match m.start {
        None => Ok(seq![]),
        Some(f) => if f >= inst.function_space.len() {
            Err(GlueError::IndexOutOfRange)
        } else {
            Ok(seq![function_symbol(inst, f as nat) + "(NULL);"@])
        },
    }
}

/// The native entry point: present only for a module that exports `_start`.
pub open spec fn main_lines(present: bool) -> Seq<Seq<char>> {
    if present {
        seq![
            "int main() {"@,
            "init();"@,
            "wavm_exported_function__start(NULL);"@,
            "return -1;"@,
            "}"@,
        ]
    } else {
        seq![]
    }
}

pub open spec fn prologue(id: Seq<char>) -> Seq<Seq<char>> {
    seq![
        "#ifndef "@ + id,
        "#define "@ + id,
        "#include <stddef.h>"@,
        "#include <stdint.h>"@,
        "#include <string.h>"@,
    ]
}

pub open spec fn epilogue(id: Seq<char>) -> Seq<Seq<char>> {
    seq!["#endif /* "@ + id + " */"@]
}

/// The declarations that need no materialised data: the guard, the type
/// placeholders, the globals and the functions.
pub open spec fn head_lines(m: ModuleView, inst: InstanceView, id: Seq<char>) -> Seq<Seq<char>> {
    prologue(id) + type_lines(m.type_list.len()) + global_lines(m, inst, inst.global_space.len())
        + function_lines(m, inst, inst.function_space.len())
}

/// `init()`: load-time copies of data, load-time table slots, the relocation
/// of every table of the module's own, then the start call.
pub open spec fn init_lines(
    copies: Seq<Seq<char>>,
    slots: Seq<Seq<char>>,
    relocation: Seq<Seq<char>>,
    start: Seq<Seq<char>>,
) -> Seq<Seq<char>> {
    seq!["void init() {"@] + copies + slots + relocation + start + seq!["}"@]
}

/// The glue header of a module whose instance is `inst`.
pub open spec fn glue_body(m: ModuleView, inst: InstanceView, id: Seq<char>) -> Result<
    Seq<Seq<char>>,
    GlueError,
> {
    match memory_section(m, inst, inst.memory_space.len()) {
        Err(e) => Err(e),
        Ok((md, mi)) => match table_section(m, inst, inst.table_space.len()) {
            Err(e) => Err(e),
            Ok((td, tf, tr)) => match export_section(m, inst, m.export_list.len()) {
                Err(e) => Err(e),
                Ok(xl) => match start_lines(m, inst) {
                    Err(e) => Err(e),
                    Ok(sl) => Ok(
                        head_lines(m, inst, id) + md + td + xl + init_lines(mi, tf, tr, sl)
                            + main_lines(has_start(m)) + epilogue(id),
                    ),
                },
            },
        },
    }
}

/// The glue header of a module, guarded by `id`, line by line: the type
/// placeholders, globals, functions, memories, tables and export macros, then
/// `init()`, and `main()` when `_start` is exported. A segment on an imported
/// memory or table, or on none, stops the build.
pub open spec fn glue_lines(m: ModuleView, id: Seq<char>) -> Result<Seq<Seq<char>>, GlueError> {
    match instantiate(m) {
        Err(e) => Err(e),
        Ok(inst) => match (match data_target_error(m, inst, m.data_list.len()) {
            Some(e) => Some(e),
            None => element_target_error(m, inst, m.element_list.len()),
        }) {
            Some(e) => Err(e),
            None => glue_body(m, inst, id),
        },
    }
}

/// The native object code that the module carries.
pub fn precompiled_object(m: &Module) -> (r: Vec<u8>)
    ensures
        r@ == object_payload(m@.custom_list, m@.custom_list.len()),
{
    let name = String::from_str("wavm.precompiled_object");
    let mut r: Vec<u8> = Vec::new();
    let mut i: usize = 0;
    while i < m.custom_list.len()
        invariant
            i <= m.custom_list.len(),
            name@ == object_section_name(),
            r@ == object_payload(m@.custom_list, i as nat),
        decreases m.custom_list.len() - i,
    {
        let c = &m.custom_list[i];
        assert(m@.custom_list[i as int] == c@);
        if c.name == name {
            let mut j: usize = 0;
            let ghost before = r@;
            while j < c.data.len()
                invariant
                    j <= c.data@.len(),
                    r@ == before + c.data@.take(j as int),
                decreases c.data@.len() - j,
            {
                r.push(c.data[j]);
                j = j + 1;
                assert(r@ =~= before + c.data@.take(j as int));
            }
            assert(c.data@.take(j as int) =~= c.data@);
        } else {
            assert(r@ =~= r@ + Seq::<u8>::empty());
        }
        i = i + 1;
    }
    r
}

fn function_symbol_exec(inst: &ModuleInstance, f: u32) -> (r: String)
    requires
        f < inst@.function_space.len(),
    ensures
        r@ == function_symbol(inst@, f as nat),
{
    match inst.function_space[f as usize] {
        EntityRef::Imported(_) => numbered_exec("functionImport", f as u64),
        EntityRef::Local(j) => numbered_exec("functionDef", j as u64),
    }
}

/// The export macros.
pub fn emit_exports(out: &mut Vec<String>, m: &Module, inst: &ModuleInstance) -> (r: Result<
    (),
    GlueError,
>)
    ensures
        match export_section(m@, inst@, m@.export_list.len()) {
            Ok(l) => r is Ok && views(final(out)@) == views(old(out)@) + l,
            Err(e) => r == Err::<(), GlueError>(e),
        },
{
    let ghost mut l: Seq<Seq<char>> = seq![];
    let mut i: usize = 0;
    while i < m.export_list.len()
        invariant
            i <= m.export_list.len(),
            export_section(m@, inst@, i as nat) == Ok::<Seq<Seq<char>>, GlueError>(l),
            views(out@) == views(old(out)@) + l,
        decreases m.export_list.len() - i,
    {
        let x = &m.export_list[i];
        assert(m@.export_list[i as int] == x@);
        if x.kind == ExportKind::Function {
            if x.index as usize >= inst.function_space.len() {
                proof {
                    let g = |k: nat| export_section(m@, inst@, k);
                    crate::materialize::lemma_state_err(
                        g,
                        (i + 1) as nat,
                        m@.export_list.len(),
                    );
                }
                return Err(GlueError::IndexOutOfRange);
            }
            let mut name = String::from_str("wavm_exported_function_");
            let c = cnaming(x.field.as_str());
            name.append(c.as_str());
            let sym = function_symbol_exec(inst, x.index);
            let line = crate::emit::define_exec(&name, &sym);
            push_line(out, line);
            proof {
                l = l.push(
                    define_line(
                        "wavm_exported_function_"@ + sanitize(x@.field),
                        function_symbol(inst@, x.index as nat),
                    ),
                );
            }
        }
        i = i + 1;
    }
    Ok(())
}

/// Whether the module exports a function under the name `_start`.
pub fn exports_start(m: &Module) -> (r: bool)
    ensures
        r == has_start(m@),
{
    let start = String::from_str("_start");
    let mut i: usize = 0;
    while i < m.export_list.len()
        invariant
            i <= m.export_list.len(),
            start@ == "_start"@,
            forall|k: int|
                0 <= k < i ==> !(#[trigger] m@.export_list[k].kind == ExportKind::Function
                    && m@.export_list[k].field == "_start"@),
        decreases m.export_list.len() - i,
    {
        let x = &m.export_list[i];
        assert(m@.export_list[i as int] == x@);
        if x.kind == ExportKind::Function && x.field == start {
            assert(m@.export_list[i as int].kind == ExportKind::Function && m@.export_list[i as int].field == "_start"@);
            return true;
        }
        i = i + 1;
    }
    false
}

fn text_line(a: &str, id: &str, b: &str) -> (r: String)
    ensures
        r@ == a@ + id@ + b@,
{
    let mut r = String::from_str(a);
    r.append(id);
    r.append(b);
    r
}

fn emit_head(out: &mut Vec<String>, m: &Module, inst: &ModuleInstance, id: &str)
    requires
        instance_of(m@, inst@),
    ensures
        views(final(out)@) == views(old(out)@) + head_lines(m@, inst@, id@),
{
    let mut l = String::from_str("#ifndef ");
    l.append(id);
    push_line(out, l);
    let mut l = String::from_str("#define ");
    l.append(id);
    push_line(out, l);
    push_line(out, String::from_str("#include <stddef.h>"));
    push_line(out, String::from_str("#include <stdint.h>"));
    push_line(out, String::from_str("#include <string.h>"));
    assert(views(out@) =~= views(old(out)@) + prologue(id@));
    emit_types(out, m.type_list.len());
    emit_globals(out, m, inst);
    emit_functions(out, m, inst);
    assert(views(out@) =~= views(old(out)@) + head_lines(m@, inst@, id@));
}

fn emit_init(
    out: &mut Vec<String>,
    m: &Module,
    inst: &ModuleInstance,
    copies: Vec<String>,
    slots: Vec<String>,
    relocation: Vec<String>,
) -> (r: Result<(), GlueError>)
    ensures
        match start_lines(m@, inst@) {
            Ok(sl) => r is Ok && views(final(out)@) == views(old(out)@) + init_lines(
                views(copies@),
                views(slots@),
                views(relocation@),
                sl,
            ),
            Err(e) => r == Err::<(), GlueError>(e),
        },
{
    let ghost (c0, s0, r0) = (views(copies@), views(slots@), views(relocation@));
    push_line(out, String::from_str("void init() {"));
    append_lines(out, copies);
    append_lines(out, slots);
    append_lines(out, relocation);
    let ghost mut sl: Seq<Seq<char>> = seq![];
    match m.start {
        None => {},
        Some(f) => {
            if f as usize >= inst.function_space.len() {
                return Err(GlueError::IndexOutOfRange);
            }
            let mut l = function_symbol_exec(inst, f);
            l.append("(NULL);");
            push_line(out, l);
            proof {
                sl = seq![function_symbol(inst@, f as nat) + "(NULL);"@];
            }
        },
    }
    push_line(out, String::from_str("}"));
    assert(views(out@) =~= views(old(out)@) + init_lines(c0, s0, r0, sl));
    Ok(())
}

fn emit_tail(out: &mut Vec<String>, m: &Module, id: &str)
    ensures
        views(final(out)@) == views(old(out)@) + main_lines(has_start(m@)) + epilogue(id@),
{
    if exports_start(m) {
        push_line(out, String::from_str("int main() {"));
        push_line(out, String::from_str("init();"));
        push_line(out, String::from_str("wavm_exported_function__start(NULL);"));
        push_line(out, String::from_str("return -1;"));
        push_line(out, String::from_str("}"));
    }
    push_line(out, text_line("#endif /* ", id, " */"));
    assert(views(out@) =~= views(old(out)@) + main_lines(has_start(m@)) + epilogue(id@));
}

fn emit_body(m: &Module, inst: &ModuleInstance, id: &str) -> (r: Result<Vec<String>, GlueError>)
    requires
        instance_of(m@, inst@),
    ensures
        match glue_body(m@, inst@, id@) {
            Ok(ls) => r matches Ok(v) && views(v@) == ls,
            Err(e) => r matches Err(e2) && e2 == e,
        },
{
    let mut out: Vec<String> = Vec::new();
    let mut copies: Vec<String> = Vec::new();
    let mut slots: Vec<String> = Vec::new();
    let mut relocation: Vec<String> = Vec::new();
    emit_head(&mut out, m, inst, id);
    match emit_memories(&mut out, &mut copies, m, inst) {
        Ok(()) => {},
        Err(e) => {
            return Err(e);
        },
    }
    match emit_tables(&mut out, &mut slots, &mut relocation, m, inst) {
        Ok(()) => {},
        Err(e) => {
            return Err(e);
        },
    }
    match emit_exports(&mut out, m, inst) {
        Ok(()) => {},
        Err(e) => {
            return Err(e);
        },
    }
    match emit_init(&mut out, m, inst, copies, slots, relocation) {
        Ok(()) => {},
        Err(e) => {
            return Err(e);
        },
    }
    emit_tail(&mut out, m, id);
    assert(views(out@) =~= glue_body(m@, inst@, id@)->Ok_0);
    Ok(out)
}

/// Builds the glue header of a module, guarded by `id`, line by line.
pub fn generate_lines(m: &Module, id: &str) -> (r: Result<Vec<String>, GlueError>)
    ensures
        match glue_lines(m@, id@) {
            Ok(ls) => r matches Ok(v) && views(v@) == ls,
            Err(e) => r matches Err(e2) && e2 == e,
        },
{
    let inst = match ModuleInstance::from(m) {
        Ok(inst) => inst,
        Err(e) => {
            return Err(e);
        },
    };
    match check_targets(m, &inst) {
        Some(e) => {
            return Err(e);
        },
        None => {},
    }
    emit_body(m, &inst, id)
}

/// Appends the lines of `more` to `out`.
fn append_lines(out: &mut Vec<String>, more: Vec<String>)
    ensures
        views(final(out)@) == views(old(out)@) + views(more@),
{
    let mut more = more;
    let ghost m0 = more@;
    out.append(&mut more);
    assert(views(out@) =~= views(old(out)@) + views(m0));
}

/// What a build produces: the glue header and the native object.
pub struct Glue {
    pub header: String,
    pub object: Vec<u8>,
}

/// The text of a header made of `lines`, indented by their braces.
pub open spec fn header_text(lines: Seq<Seq<char>>) -> Seq<char> {
    write_lines(seq![], 0, lines).0
}

/// Renders the glue header of a module, guarded by `id`.
pub fn render_glue(m: &Module, id: &str) -> (r: Result<Glue, GlueError>)
    ensures
        match glue_lines(m@, id@) {
            Ok(ls) => r matches Ok(g) && g.header@ == header_text(ls) && g.object@
                == object_payload(m@.custom_list, m@.custom_list.len()),
            Err(e) => r matches Err(e2) && e2 == e,
        },
{
    let lines = match generate_lines(m, id) {
        Ok(lines) => lines,
        Err(e) => {
            return Err(e);
        },
    };
    let mut cb = CodeBuilder::create(String::new());
    cb.write_all(&lines);
    Ok(Glue { header: cb.data, object: precompiled_object(m) })
}

/// What `str::to_uppercase` gives for a text.
pub uninterp spec fn upper_of(s: Seq<char>) -> Seq<char>;

/// Relies on str::to_uppercase: the result depends on the characters alone.
#[verifier::external_body]
fn uppercase(s: &str) -> (r: String)
    ensures
        r@ == upper_of(s@),
{
    s.to_uppercase()
}

/// The guard macro of the header of a module whose file stem is `stem`.
pub fn header_guard(stem: &str) -> (r: String)
    ensures
        r@ == upper_of(sanitize(stem@)) + "_GLUE_H"@,
{
    let c = cnaming(stem);
    let mut r = uppercase(c.as_str());
    r.append("_GLUE_H");
    r
}

/// Builds the glue header and the native object of a module read from a
/// file whose stem is `stem`.
pub fn generate(m: &Module, stem: &str) -> (r: Result<Glue, GlueError>)
    ensures
        match glue_lines(m@, upper_of(sanitize(stem@)) + "_GLUE_H"@) {
            Ok(ls) => r matches Ok(g) && g.header@ == header_text(ls) && g.object@
                == object_payload(m@.custom_list, m@.custom_list.len()),
            Err(e) => r matches Err(e2) && e2 == e,
        },
{
    let id = header_guard(stem);
    render_glue(m, id.as_str())
}

} // verus!
