//! Concrete contents of the module's own memories and tables, and the fixups
//! that only the host can complete at load time.
use crate::instance::{resolve, resolve_expr, InstanceView, ModuleInstance, Resolved, Value};
use crate::module::{ConstantOperator, DataView, ElementView, GlueError, Module};
use vstd::prelude::*;

verus! {

/// Bytes in one page of linear memory.
pub const PAGE_SIZE: u64 = 65536;

/// A data segment whose offset is the value of an imported global: its bytes
/// are copied at load time, at the offset that the host supplies.
#[derive(Clone, Copy, Debug, PartialEq, Eq, Structural)]
pub struct MemoryFixup {
    /// The data segment, by its place in the module.
    pub segment: usize,
    /// The import whose value is the offset.
    pub import: usize,
}

/// A table slot filled at load time: slot `value of import + shift` gets
/// `function` (or null).
#[derive(Clone, Copy, Debug, PartialEq, Eq, Structural)]
pub struct TableFixup {
    pub import: usize,
    pub shift: usize,
    pub function: Option<u32>,
}

/// The contents of one of the module's own memories.
#[derive(Debug)]
pub struct MemoryImage {
    pub bytes: Vec<u8>,
    pub fixups: Vec<MemoryFixup>,
}

/// The contents of one of the module's own tables: each slot holds a function
/// index or null.
#[derive(Debug)]
pub struct TableImage {
    pub slots: Vec<Option<u32>>,
    pub fixups: Vec<TableFixup>,
}

/// The resolved offset of a segment.
pub open spec fn segment_offset(inst: InstanceView, offset: Option<ConstantOperator>) -> Result<
    Resolved,
    GlueError,
> {
    match offset {
        None => Err(GlueError::ParseError),
        Some(op) => resolve(inst.global_space, inst.global_values, op),
    }
}

/// `buf` with `src` written over it from `off` on.
pub open spec fn overwrite<T>(buf: Seq<T>, off: int, src: Seq<T>) -> Seq<T> {
    buf.take(off) + src + buf.skip(off + src.len())
}

/// The image of the memory at `mem` in the memory index space, of `pages`
/// pages, after the first `k` data segments of the module.
pub open spec fn memory_state(
    inst: InstanceView,
    data: Seq<DataView>,
    mem: nat,
    pages: nat,
    k: nat,
) -> Result<(Seq<u8>, Seq<MemoryFixup>), GlueError>
    decreases k,
{
    if k == 0 {
        if pages * PAGE_SIZE > usize::MAX {
            Err(GlueError::UnsupportedConstruct)
        } else {
            Ok((Seq::new((pages * PAGE_SIZE) as nat, |i: int| 0u8), seq![]))
        }
    } else {
        match memory_state(inst, data, mem, pages, (k - 1) as nat) {
            Ok((buf, fixups)) => {
                let d = data[k - 1];
                if d.memory_index != mem {
                    Ok((buf, fixups))
                } else {
                    match segment_offset(inst, d.offset) {
                        Ok(Resolved::Literal(Value::I32(v))) => {
                            let off = v as u32;
                            if off + d.init.len() > buf.len() {
                                Err(GlueError::IndexOutOfRange)
                            } else {
                                Ok((overwrite(buf, off as int, d.init), fixups))
                            }
                        },
                        Ok(Resolved::ExternRef(imp)) => Ok(
                            (buf, fixups.push(MemoryFixup { segment: (k - 1) as usize, import: imp })),
                        ),
                        Ok(Resolved::Literal(_)) => Err(GlueError::UnsupportedConstruct),
                        Err(e) => Err(e),
                    }
                }
            },
            Err(e) => Err(e),
        }
    }
}

/// Whether every element entry names a function of the index space.
pub open spec fn entries_known(inst: InstanceView, items: Seq<Option<u32>>) -> bool {
    forall|j: int|
        0 <= j < items.len() ==> match #[trigger] items[j] {
            Some(f) => f < inst.function_space.len(),
            None => true,
        }
}

/// The fixups of an element segment whose offset is the value of import `imp`.
pub open spec fn table_fixups(imp: usize, items: Seq<Option<u32>>) -> Seq<TableFixup> {
    Seq::new(items.len(), |j: int| TableFixup { import: imp, shift: j as usize, function: items[j] })
}

/// The image of the table at `tbl` in the table index space, of `size` slots,
/// after the first `k` element segments of the module.
pub open spec fn table_state(
    inst: InstanceView,
    elems: Seq<ElementView>,
    tbl: nat,
    size: nat,
    k: nat,
) -> Result<(Seq<Option<u32>>, Seq<TableFixup>), GlueError>
    decreases k,
{
    if k == 0 {
        Ok((Seq::new(size, |i: int| None), seq![]))
    } else {
        match table_state(inst, elems, tbl, size, (k - 1) as nat) {
            Ok((slots, fixups)) => {
                let e = elems[k - 1];
                if e.table_index != tbl {
                    Ok((slots, fixups))
                } else if !entries_known(inst, e.init) {
                    Err(GlueError::IndexOutOfRange)
                } else {
                    match segment_offset(inst, e.offset) {
                        Ok(Resolved::Literal(Value::I32(v))) => {
                            let off = v as u32;
                            if off + e.init.len() > slots.len() {
                                Err(GlueError::IndexOutOfRange)
                            } else {
                                Ok((overwrite(slots, off as int, e.init), fixups))
                            }
                        },
                        Ok(Resolved::ExternRef(imp)) => Ok(
                            (slots, fixups + table_fixups(imp, e.init)),
                        ),
                        Ok(Resolved::Literal(_)) => Err(GlueError::UnsupportedConstruct),
                        Err(e) => Err(e),
                    }
                }
            },
            Err(e) => Err(e),
        }
    }
}

/// A fold that has failed keeps its first error.
pub proof fn lemma_state_err<A>(f: spec_fn(nat) -> Result<A, GlueError>, i: nat, n: nat)
    requires
        i <= n,
        f(i) is Err,
        forall|k: nat| #![trigger f(k)] f(k) is Err && k < n ==> f((k + 1) as nat) == f(k),
    ensures
        f(n) == f(i),
    decreases n - i,
{
    if i < n {
        lemma_state_err(f, i, (n - 1) as nat);
    }
}

/// Writes `src` into `buf` from `off` on.
fn copy_into<T: Copy>(buf: &mut Vec<T>, off: usize, src: &Vec<T>)
    requires
        off + src@.len() <= old(buf)@.len(),
    ensures
        final(buf)@ == overwrite(old(buf)@, off as int, src@),
{
    let n: usize = buf.len();
    let mut j: usize = 0;
    while j < src.len()
        invariant
            j <= src@.len(),
            n == old(buf)@.len(),
            off + src@.len() <= old(buf)@.len(),
            buf@.len() == old(buf)@.len(),
            forall|x: int| 0 <= x < off ==> buf@[x] == old(buf)@[x],
            forall|x: int| off <= x < off + j ==> buf@[x] == src@[x - off],
            forall|x: int| off + j <= x < buf@.len() ==> buf@[x] == old(buf)@[x],
        decreases src@.len() - j,
    {
        buf[off + j] = src[j];
        j = j + 1;
    }
    assert(buf@ =~= overwrite(old(buf)@, off as int, src@));
}

fn segment_offset_exec(inst: &ModuleInstance, offset: Option<ConstantOperator>) -> (r:
    Result<Resolved, GlueError>)
    ensures
        r == segment_offset(inst@, offset),
{
    match offset {
        None => Err(GlueError::ParseError),
        Some(op) => resolve_expr(&inst.global_space, &inst.global_values, op),
    }
}

/// Builds the image of the memory at `mem` in the memory index space, with
/// `pages` pages: zero bytes, then each data segment on it in module order,
/// copied when its offset is a literal and recorded as a fixup when the offset
/// is an imported global.
pub fn materialize_memory(m: &Module, inst: &ModuleInstance, mem: usize, pages: u32) -> (r: Result<
    MemoryImage,
    GlueError,
>)
    ensures
        match memory_state(inst@, m@.data_list, mem as nat, pages as nat, m@.data_list.len()) {
            Ok((bytes, fixups)) => r matches Ok(img) && img.bytes@ == bytes && img.fixups@
                == fixups,
            Err(e) => r matches Err(e2) && e2 == e,
        },
{
    let ghost f = |k: nat| memory_state(inst@, m@.data_list, mem as nat, pages as nat, k);
    let size: u64 = pages as u64 * PAGE_SIZE;
    if size > usize::MAX as u64 {
        proof {
            lemma_state_err(f, 0, m@.data_list.len());
        }
        return Err(GlueError::UnsupportedConstruct);
    }
    let mut bytes: Vec<u8> = vec![0u8; size as usize];
    assert(bytes@ =~= Seq::new((pages * PAGE_SIZE) as nat, |i: int| 0u8));
    let mut fixups: Vec<MemoryFixup> = Vec::new();
    let mut k: usize = 0;
    while k < m.data_list.len()
        invariant
            k <= m.data_list.len(),
            f(k as nat) == Ok::<(Seq<u8>, Seq<MemoryFixup>), GlueError>((bytes@, fixups@)),
            f == (|k: nat| memory_state(inst@, m@.data_list, mem as nat, pages as nat, k)),
        decreases m.data_list.len() - k,
    {
        let d = &m.data_list[k];
        assert(m@.data_list[k as int] == d@);
        if d.memory_index as usize == mem {
            let r = segment_offset_exec(inst, d.offset);
            proof {
                if f((k + 1) as nat) is Err {
                    lemma_state_err(f, (k + 1) as nat, m@.data_list.len());
                }
            }
            match r {
                Ok(Resolved::Literal(Value::I32(v))) => {
                    let off: u32 = #[verifier::truncate] (v as u32);
                    if off as usize > bytes.len() || d.init.len() > bytes.len() - off as usize {
                        return Err(GlueError::IndexOutOfRange);
                    }
                    copy_into(&mut bytes, off as usize, &d.init);
                },
                Ok(Resolved::ExternRef(imp)) => {
                    fixups.push(MemoryFixup { segment: k, import: imp });
                },
                Ok(Resolved::Literal(_)) => {
                    return Err(GlueError::UnsupportedConstruct);
                },
                Err(e) => {
                    return Err(e);
                },
            }
        }
        k = k + 1;
    }
    Ok(MemoryImage { bytes, fixups })
}

fn check_entries(inst: &ModuleInstance, items: &Vec<Option<u32>>) -> (ok: bool)
    ensures
        ok == entries_known(inst@, items@),
{
    let mut j: usize = 0;
    while j < items.len()
        invariant
            j <= items@.len(),
            forall|x: int|
                0 <= x < j ==> match #[trigger] items@[x] {
                    Some(fi) => fi < inst@.function_space.len(),
                    None => true,
                },
        decreases items@.len() - j,
    {
        match items[j] {
            Some(fi) => {
                if fi as usize >= inst.function_space.len() {
                    assert(items@[j as int] == Some(fi));
                    return false;
                }
            },
            None => {},
        }
        j = j + 1;
    }
    true
}

/// Builds the image of the table at `tbl` in the table index space, with
/// `size` slots: null slots, then each element segment on it in module order,
/// written when its offset is a literal and recorded as fixups when the offset
/// is an imported global.
pub fn materialize_table(m: &Module, inst: &ModuleInstance, tbl: usize, size: u32) -> (r: Result<
    TableImage,
    GlueError,
>)
    ensures
        match table_state(inst@, m@.element_list, tbl as nat, size as nat, m@.element_list.len()) {
            Ok((slots, fixups)) => r matches Ok(img) && img.slots@ == slots && img.fixups@
                == fixups,
            Err(e) => r matches Err(e2) && e2 == e,
        },
{
    let ghost f = |k: nat| table_state(inst@, m@.element_list, tbl as nat, size as nat, k);
    let mut slots: Vec<Option<u32>> = Vec::new();
    let mut i: u32 = 0;
    while i < size
        invariant
            i <= size,
            slots@ =~= Seq::new(i as nat, |x: int| None::<u32>),
        decreases size - i,
    {
        slots.push(None);
        i = i + 1;
    }
    let mut fixups: Vec<TableFixup> = Vec::new();
    let mut k: usize = 0;
    while k < m.element_list.len()
        invariant
            k <= m.element_list.len(),
            f(k as nat) == Ok::<(Seq<Option<u32>>, Seq<TableFixup>), GlueError>(
                (slots@, fixups@),
            ),
            f == (|k: nat| table_state(inst@, m@.element_list, tbl as nat, size as nat, k)),
        decreases m.element_list.len() - k,
    {
        let e = &m.element_list[k];
        assert(m@.element_list[k as int] == e@);
        if e.table_index as usize == tbl {
            proof {
                if f((k + 1) as nat) is Err {
                    lemma_state_err(f, (k + 1) as nat, m@.element_list.len());
                }
            }
            if !check_entries(inst, &e.init) {
                return Err(GlueError::IndexOutOfRange);
            }
            let r = segment_offset_exec(inst, e.offset);
            match r {
                Ok(Resolved::Literal(Value::I32(v))) => {
                    let off: u32 = #[verifier::truncate] (v as u32);
                    if off as usize > slots.len() || e.init.len() > slots.len() - off as usize {
                        return Err(GlueError::IndexOutOfRange);
                    }
                    copy_into(&mut slots, off as usize, &e.init);
                },
                Ok(Resolved::ExternRef(imp)) => {
                    let ghost before = fixups@;
                    let mut j: usize = 0;
                    while j < e.init.len()
                        invariant
                            j <= e.init@.len(),
                            fixups@ == before + table_fixups(imp, e.init@.take(j as int)),
                        decreases e.init@.len() - j,
                    {
                        fixups.push(TableFixup { import: imp, shift: j, function: e.init[j] });
                        j = j + 1;
                        assert(fixups@ =~= before + table_fixups(imp, e.init@.take(j as int)));
                    }
                    assert(e.init@.take(j as int) =~= e.init@);
                },
                Ok(Resolved::Literal(_)) => {
                    return Err(GlueError::UnsupportedConstruct);
                },
                Err(err) => {
                    return Err(err);
                },
            }
        }
        k = k + 1;
    }
    Ok(TableImage { slots, fixups })
}

/// The size law of memories: a memory image that was built has exactly
/// `pages × 65536` bytes, and every data segment on it with a literal offset
/// fits inside it (`offset + length ≤ size`); a segment that does not fit
/// makes the build fail.
pub proof fn lemma_memory_bounds(
    inst: InstanceView,
    data: Seq<DataView>,
    mem: nat,
    pages: nat,
    k: nat,
)
    requires
        memory_state(inst, data, mem, pages, k) is Ok,
    ensures
        memory_state(inst, data, mem, pages, k)->Ok_0.0.len() == pages * PAGE_SIZE,
        forall|i: int|
            #![trigger data[i]]
            0 <= i < k && data[i].memory_index == mem ==> match segment_offset(inst, data[i].offset) {
                Ok(Resolved::Literal(Value::I32(v))) => (v as u32) + data[i].init.len() <= pages
                    * PAGE_SIZE,
                _ => true,
            },
    decreases k,
{
    if k > 0 {
        lemma_memory_bounds(inst, data, mem, pages, (k - 1) as nat);
    }
}

} // verus!
