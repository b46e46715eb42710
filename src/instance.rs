//! Index spaces of a module, and the resolution of constant expressions.
use crate::module::{
    views, ConstantOperator, Global, GlueError, Import, ImportKind, ImportView, Module, ModuleView,
    ValueKind,
};
use vstd::prelude::*;

verus! {

/// An entry of an index space: the `k`-th import of the module, or the `k`-th
/// entity that the module itself declares (of the space's kind).
#[derive(Clone, Copy, Debug, PartialEq, Eq, Structural)]
pub enum EntityRef {
    Imported(usize),
    Local(usize),
}

/// A value, floats as their bit patterns.
#[derive(Clone, Copy, Debug, PartialEq, Eq, Structural)]
pub enum Value {
    I32(i32),
    I64(i64),
    F32(u32),
    F64(u64),
}

/// What a constant expression stands for: a value known now, or the value of
/// the `k`-th import, known only once the host supplies it.
#[derive(Clone, Copy, Debug, PartialEq, Eq, Structural)]
pub enum Resolved {
    Literal(Value),
    ExternRef(usize),
}

/// The four index spaces.
#[derive(Clone, Copy, Debug, PartialEq, Eq, Structural)]
pub enum Space {
    Function,
    Table,
    Memory,
    Global,
}

/// The resolved index spaces of a module, and the values of its own globals.
#[derive(Debug)]
pub struct ModuleInstance {
    pub function_space: Vec<EntityRef>,
    pub table_space: Vec<EntityRef>,
    pub memory_space: Vec<EntityRef>,
    pub global_space: Vec<EntityRef>,
    pub global_values: Vec<Value>,
}

pub open spec fn value_kind(v: Value) -> ValueKind {
    match v {
        Value::I32(_) => ValueKind::I32,
        Value::I64(_) => ValueKind::I64,
        Value::F32(_) => ValueKind::F32,
        Value::F64(_) => ValueKind::F64,
    }
}

pub open spec fn import_space(k: ImportKind) -> Space {
    match k {
        ImportKind::Function { .. } => Space::Function,
        ImportKind::Table { .. } => Space::Table,
        ImportKind::Memory { .. } => Space::Memory,
        ImportKind::Global { .. } => Space::Global,
    }
}

/// The imports that enter space `sp`, in declaration order.
pub open spec fn imported_refs(imports: Seq<ImportView>, sp: Space) -> Seq<EntityRef>
    decreases imports.len(),
{
    if imports.len() == 0 {
        seq![]
    } else {
        let rest = imported_refs(imports.drop_last(), sp);
        if import_space(imports.last().kind) == sp {
            rest.push(EntityRef::Imported((imports.len() - 1) as usize))
        } else {
            rest
        }
    }
}

/// An index space: its imports first, then `n_local` entities of the module's own.
pub open spec fn index_space(imports: Seq<ImportView>, sp: Space, n_local: nat) -> Seq<EntityRef> {
    imported_refs(imports, sp) + Seq::new(n_local, |j: int| EntityRef::Local(j as usize))
}

/// Evaluates a constant expression, where `globals` is the global index space
/// and `known` the values of the module's own globals defined so far.
pub open spec fn resolve(globals: Seq<EntityRef>, known: Seq<Value>, op: ConstantOperator) -> Result<
    Resolved,
    GlueError,
> {
    match op {
        ConstantOperator::I32Const { value } => Ok(Resolved::Literal(Value::I32(value))),
        ConstantOperator::I64Const { value } => Ok(Resolved::Literal(Value::I64(value))),
        ConstantOperator::F32Const { value } => Ok(Resolved::Literal(Value::F32(value))),
        ConstantOperator::F64Const { value } => Ok(Resolved::Literal(Value::F64(value))),
        ConstantOperator::GlobalGet { global_index } => if global_index >= globals.len() {
            Err(GlueError::IndexOutOfRange)
        } else {
            match globals[global_index as int] {
                EntityRef::Imported(k) => Ok(Resolved::ExternRef(k)),
                EntityRef::Local(j) => if j < known.len() {
                    Ok(Resolved::Literal(known[j as int]))
                } else {
                    Err(GlueError::UnsupportedConstruct)
                },
            }
        },
    }
}

/// The value of one of the module's own globals, from its initialiser.
pub open spec fn global_init(globals: Seq<EntityRef>, known: Seq<Value>, g: Global) -> Result<
    Value,
    GlueError,
> {
    match g.expr {
        None => Err(GlueError::ParseError),
        Some(op) => match resolve(globals, known, op) {
            Ok(Resolved::Literal(v)) => if value_kind(v) == g.kind {
                Ok(v)
            } else {
                Err(GlueError::UnsupportedConstruct)
            },
            Ok(Resolved::ExternRef(_)) => Err(GlueError::UnsupportedConstruct),
            Err(e) => Err(e),
        },
    }
}

/// The values of the first `n` globals of the module's own, each initialiser
/// evaluated with the values before it known.
pub open spec fn global_values(globals: Seq<EntityRef>, defs: Seq<Global>, n: nat) -> Result<
    Seq<Value>,
    GlueError,
>
    decreases n,
{
    if n == 0 {
        Ok(seq![])
    } else {
        match global_values(globals, defs, (n - 1) as nat) {
            Ok(known) => match global_init(globals, known, defs[n - 1]) {
                Ok(v) => Ok(known.push(v)),
                Err(e) => Err(e),
            },
            Err(e) => Err(e),
        }
    }
}

/// Every function, imported or not, names a type of the module.
pub open spec fn types_known(m: ModuleView) -> bool {
    &&& forall|i: int|
        0 <= i < m.import_list.len() ==> match #[trigger] m.import_list[i].kind {
            ImportKind::Function { type_index } => type_index < m.type_list.len(),
            _ => true,
        }
    &&& forall|i: int|
        0 <= i < m.function_list.len() ==> #[trigger] m.function_list[i] < m.type_list.len()
}

pub ghost struct InstanceView {
    pub function_space: Seq<EntityRef>,
    pub table_space: Seq<EntityRef>,
    pub memory_space: Seq<EntityRef>,
    pub global_space: Seq<EntityRef>,
    pub global_values: Seq<Value>,
}

impl View for ModuleInstance {
    type V = InstanceView;

    open spec fn view(&self) -> InstanceView {
        InstanceView {
            function_space: self.function_space@,
            table_space: self.table_space@,
            memory_space: self.memory_space@,
            global_space: self.global_space@,
            global_values: self.global_values@,
        }
    }
}

pub open spec fn global_space_of(m: ModuleView) -> Seq<EntityRef> {
    index_space(m.import_list, Space::Global, m.global_list.len())
}

/// The instance of a module: imports before the module's own entities in every
/// index space, and the values of the module's own globals.
pub open spec fn instantiate(m: ModuleView) -> Result<InstanceView, GlueError> {
    if !types_known(m) {
        Err(GlueError::IndexOutOfRange)
    } else {
        match global_values(global_space_of(m), m.global_list, m.global_list.len()) {
            Ok(vals) => Ok(
                InstanceView {
                    function_space: index_space(
                        m.import_list,
                        Space::Function,
                        m.function_list.len(),
                    ),
                    table_space: index_space(m.import_list, Space::Table, m.table_list.len()),
                    memory_space: index_space(m.import_list, Space::Memory, m.memory_list.len()),
                    global_space: global_space_of(m),
                    global_values: vals,
                },
            ),
            Err(e) => Err(e),
        }
    }
}

/// Evaluates a constant expression against the global index space and the
/// values of the module's own globals known so far.
pub fn resolve_expr(globals: &Vec<EntityRef>, known: &Vec<Value>, op: ConstantOperator) -> (r:
    Result<Resolved, GlueError>)
    ensures
        r == resolve(globals@, known@, op),
{
    match op {
        ConstantOperator::I32Const { value } => Ok(Resolved::Literal(Value::I32(value))),
        ConstantOperator::I64Const { value } => Ok(Resolved::Literal(Value::I64(value))),
        ConstantOperator::F32Const { value } => Ok(Resolved::Literal(Value::F32(value))),
        ConstantOperator::F64Const { value } => Ok(Resolved::Literal(Value::F64(value))),
        ConstantOperator::GlobalGet { global_index } => {
            if global_index as usize >= globals.len() {
                Err(GlueError::IndexOutOfRange)
            } else {
                match globals[global_index as usize] {
                    EntityRef::Imported(k) => Ok(Resolved::ExternRef(k)),
                    EntityRef::Local(j) => {
                        if j < known.len() {
                            Ok(Resolved::Literal(known[j]))
                        } else {
                            Err(GlueError::UnsupportedConstruct)
                        }
                    },
                }
            }
        },
    }
}

fn space_of(k: &ImportKind) -> (r: Space)
    ensures
        r == import_space(*k),
{
    match k {
        ImportKind::Function { .. } => Space::Function,
        ImportKind::Table { .. } => Space::Table,
        ImportKind::Memory { .. } => Space::Memory,
        ImportKind::Global { .. } => Space::Global,
    }
}

/// Builds the index space `sp`: the imports of its kind, then `n_local` entries
/// of the module's own.
fn build_space(imports: &Vec<Import>, sp: Space, n_local: usize) -> (r: Vec<EntityRef>)
    ensures
        r@ == index_space(views(imports@), sp, n_local as nat),
{
    let mut r: Vec<EntityRef> = Vec::new();
    let mut i: usize = 0;
    while i < imports.len()
        invariant
            i <= imports.len(),
            r@ == imported_refs(views(imports@).take(i as int), sp),
        decreases imports.len() - i,
    {
        proof {
            assert(views(imports@).take(i as int + 1).drop_last() =~= views(imports@).take(
                i as int,
            ));
        }
        if space_of(&imports[i].kind) == sp {
            r.push(EntityRef::Imported(i));
        }
        i = i + 1;
    }
    assert(views(imports@).take(i as int) =~= views(imports@));
    let ghost base = r@;
    let mut j: usize = 0;
    while j < n_local
        invariant
            j <= n_local,
            base == imported_refs(views(imports@), sp),
            r@ == base + Seq::new(j as nat, |x: int| EntityRef::Local(x as usize)),
        decreases n_local - j,
    {
        r.push(EntityRef::Local(j));
        j = j + 1;
        assert(r@ =~= base + Seq::new(j as nat, |x: int| EntityRef::Local(x as usize)));
    }
    r
}

fn kind_of(v: Value) -> (k: ValueKind)
    ensures
        k == value_kind(v),
{
    match v {
        Value::I32(_) => ValueKind::I32,
        Value::I64(_) => ValueKind::I64,
        Value::F32(_) => ValueKind::F32,
        Value::F64(_) => ValueKind::F64,
    }
}

fn check_types(m: &Module) -> (ok: bool)
    ensures
        ok == types_known(m@),
{
    let mut i: usize = 0;
    while i < m.import_list.len()
        invariant
            i <= m.import_list.len(),
            forall|x: int|
                0 <= x < i ==> match #[trigger] m@.import_list[x].kind {
                    ImportKind::Function { type_index } => type_index < m@.type_list.len(),
                    _ => true,
                },
        decreases m.import_list.len() - i,
    {
        match m.import_list[i].kind {
            ImportKind::Function { type_index } => {
                if type_index as usize >= m.type_list.len() {
                    assert(m@.import_list[i as int].kind == m.import_list@[i as int].kind);
                    return false;
                }
            },
            _ => {},
        }
        assert(m@.import_list[i as int].kind == m.import_list@[i as int].kind);
        i = i + 1;
    }
    let mut j: usize = 0;
    while j < m.function_list.len()
        invariant
            j <= m.function_list.len(),
            forall|x: int| 0 <= x < j ==> #[trigger] m@.function_list[x] < m@.type_list.len(),
        decreases m.function_list.len() - j,
    {
        if m.function_list[j] as usize >= m.type_list.len() {
            assert(!(m@.function_list[j as int] < m@.type_list.len()));
            return false;
        }
        j = j + 1;
    }
    true
}

/// Once the fold over the globals has failed, it keeps the first error.
proof fn lemma_global_values_err(globals: Seq<EntityRef>, defs: Seq<Global>, i: nat, n: nat)
    requires
        i <= n,
        global_values(globals, defs, i) is Err,
    ensures
        global_values(globals, defs, n) == global_values(globals, defs, i),
    decreases n - i,
{
    if i < n {
        lemma_global_values_err(globals, defs, i, (n - 1) as nat);
    }
}

/// A successful fold over the first `n` globals gives `n` values.
pub proof fn lemma_global_values_len(globals: Seq<EntityRef>, defs: Seq<Global>, n: nat)
    ensures
        global_values(globals, defs, n) is Ok ==> global_values(globals, defs, n)->Ok_0.len()
            == n,
    decreases n,
{
    if n > 0 {
        lemma_global_values_len(globals, defs, (n - 1) as nat);
    }
}

impl ModuleInstance {
    /// Assigns every function, table, memory and global its place in its index
    /// space, and evaluates the initialisers of the module's own globals.
    pub fn from(m: &Module) -> (r: Result<ModuleInstance, GlueError>)
        ensures
            match instantiate(m@) {
                Ok(v) => r matches Ok(inst) && inst@ == v,
                Err(e) => r == Err::<ModuleInstance, GlueError>(e),
            },
    {
        if !check_types(m) {
            return Err(GlueError::IndexOutOfRange);
        }
        let global_space = build_space(&m.import_list, Space::Global, m.global_list.len());
        let mut known: Vec<Value> = Vec::new();
        let mut i: usize = 0;
        while i < m.global_list.len()
            invariant
                i <= m.global_list.len(),
                types_known(m@),
                global_space@ == global_space_of(m@),
                global_values(global_space@, m@.global_list, i as nat) == Ok::<
                    Seq<Value>,
                    GlueError,
                >(known@),
            decreases m.global_list.len() - i,
        {
            let g = m.global_list[i];
            proof {
                assert(g == m@.global_list[i as int]);
                if global_init(global_space@, known@, g) is Err {
                    assert(global_values(global_space@, m@.global_list, (i + 1) as nat)
                        == Err::<Seq<Value>, GlueError>(
                        global_init(global_space@, known@, g)->Err_0,
                    ));
                    lemma_global_values_err(
                        global_space@,
                        m@.global_list,
                        (i + 1) as nat,
                        m@.global_list.len(),
                    );
                }
            }
            let v = match g.expr {
                None => {
                    return Err(GlueError::ParseError);
                },
                Some(op) => match resolve_expr(&global_space, &known, op) {
                    Ok(Resolved::Literal(v)) => {
                        if kind_of(v) == g.kind {
                            v
                        } else {
                            return Err(GlueError::UnsupportedConstruct);
                        }
                    },
                    Ok(Resolved::ExternRef(_)) => {
                        return Err(GlueError::UnsupportedConstruct);
                    },
                    Err(e) => {
                        return Err(e);
                    },
                },
            };
            known.push(v);
            i = i + 1;
        }
        let function_space = build_space(&m.import_list, Space::Function, m.function_list.len());
        let table_space = build_space(&m.import_list, Space::Table, m.table_list.len());
        let memory_space = build_space(&m.import_list, Space::Memory, m.memory_list.len());
        Ok(
            ModuleInstance {
                function_space,
                table_space,
                memory_space,
                global_space,
                global_values: known,
            },
        )
    }
}

} // verus!
