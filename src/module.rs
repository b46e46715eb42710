//! The structural description of a WebAssembly module, and the decoder that
//! builds it from a stream of section events.
use vstd::prelude::*;

verus! {

/// The value kinds of WebAssembly that the glue code can carry.
#[derive(Clone, Copy, Debug, PartialEq, Eq, Structural)]
pub enum ValueKind {
    I32,
    I64,
    F32,
    F64,
}

/// A function type: parameter kinds and at most one result kind.
#[derive(Clone, Debug)]
pub struct FuncType {
    pub params: Vec<ValueKind>,
    pub result: Option<ValueKind>,
}

/// Size limits of a memory (in pages) or a table (in slots).
#[derive(Clone, Copy, Debug, PartialEq, Eq, Structural)]
pub struct Limits {
    pub initial: u32,
    pub maximum: Option<u32>,
}

/// What an import brings in.
#[derive(Clone, Copy, Debug, PartialEq, Eq, Structural)]
pub enum ImportKind {
    Function { type_index: u32 },
    Memory { limits: Limits },
    Table { limits: Limits },
    Global { kind: ValueKind, mutable: bool },
}

/// The single-instruction constant expressions that initialise globals and
/// give segment offsets. Floats are carried as their bit patterns.
#[derive(Clone, Copy, Debug, PartialEq, Eq, Structural)]
pub enum ConstantOperator {
    I32Const { value: i32 },
    I64Const { value: i64 },
    F32Const { value: u32 },
    F64Const { value: u64 },
    GlobalGet { global_index: u32 },
}

/// The kinds of entity an export can name.
#[derive(Clone, Copy, Debug, PartialEq, Eq, Structural)]
pub enum ExportKind {
    Function,
    Table,
    Memory,
    Global,
}

/// The sections of a module, by their code.
#[derive(Clone, Copy, Debug, PartialEq, Eq, Structural)]
pub enum SectionCode {
    Custom,
    Type,
    Import,
    Function,
    Table,
    Memory,
    Global,
    Export,
    Start,
    Element,
    Code,
    Data,
    DataCount,
}

/// The fatal errors of a build.
#[derive(Clone, Copy, Debug, PartialEq, Eq, Structural)]
pub enum GlueError {
    /// Malformed or unexpected section structure.
    ParseError,
    /// A valid construct that the glue generator does not handle.
    UnsupportedConstruct,
    /// An index that names no entry of its index space.
    IndexOutOfRange,
    /// Reading or writing a file failed.
    IoError,
    /// An external tool ended with a failure.
    ExternalToolError,
}

/// A custom section: its name and its uninterpreted bytes.
#[derive(Clone, Debug)]
pub struct Custom {
    pub name: String,
    pub data: Vec<u8>,
}

#[derive(Clone, Debug)]
pub struct Import {
    pub module: String,
    pub field: String,
    pub kind: ImportKind,
}

/// A locally defined global and its initialiser, once the initialiser was seen.
#[derive(Clone, Copy, Debug)]
pub struct Global {
    pub kind: ValueKind,
    pub mutable: bool,
    pub expr: Option<ConstantOperator>,
}

/// An active data segment.
#[derive(Clone, Debug)]
pub struct Data {
    pub memory_index: u32,
    pub offset: Option<ConstantOperator>,
    pub init: Vec<u8>,
}

/// An active element segment of function references; `None` is a null entry.
#[derive(Clone, Debug)]
pub struct Element {
    pub table_index: u32,
    pub offset: Option<ConstantOperator>,
    pub init: Vec<Option<u32>>,
}

#[derive(Clone, Debug)]
pub struct Export {
    pub field: String,
    pub kind: ExportKind,
    pub index: u32,
}

/// A WebAssembly module, as far as glue generation needs it.
#[derive(Debug)]
pub struct Module {
    pub custom_list: Vec<Custom>,
    pub type_list: Vec<FuncType>,
    pub function_list: Vec<u32>,
    pub table_list: Vec<Limits>,
    pub memory_list: Vec<Limits>,
    pub global_list: Vec<Global>,
    pub element_list: Vec<Element>,
    pub data_list: Vec<Data>,
    pub start: Option<u32>,
    pub import_list: Vec<Import>,
    pub export_list: Vec<Export>,
}

/// One step of a forward pass over a module's binary.
#[derive(Debug)]
pub enum Event {
    /// A section opens; `name` is the name of a custom section, empty otherwise.
    BeginSection { code: SectionCode, name: String },
    EndSection,
    /// The payload of the open section, when it is read whole.
    SectionRawData(Vec<u8>),
    TypeEntry { params: Vec<ValueKind>, results: Vec<ValueKind> },
    ImportEntry { module: String, field: String, kind: ImportKind },
    FunctionEntry(u32),
    TableEntry(Limits),
    MemoryEntry(Limits),
    BeginGlobal { kind: ValueKind, mutable: bool },
    /// An operator of a constant expression, within the constant subset.
    InitExpr(ConstantOperator),
    /// An operator of a constant expression outside the constant subset.
    InitExprOther,
    BeginActiveData(u32),
    BeginPassiveData,
    /// Bytes of the open data segment; a long segment comes in several chunks.
    DataChunk(Vec<u8>),
    /// An active element segment of function references on the given table.
    BeginActiveFuncElements(u32),
    /// A passive or declared element segment, or one of another element kind.
    BeginOtherElements,
    ElementBody(Vec<Option<u32>>),
    ExportEntry { field: String, kind: ExportKind, index: u32 },
    StartEntry(u32),
    /// A construct outside what the glue generator models (another value kind, a vector type).
    Unsupported,
    /// The binary could not be read.
    Malformed,
    /// Anything the glue generator does not need.
    Other,
}

/// The state of the decoder between two events.
pub struct Decoder {
    pub module: Module,
    pub section: Option<SectionCode>,
    pub custom_name: String,
}

pub ghost struct FuncTypeView {
    pub params: Seq<ValueKind>,
    pub result: Option<ValueKind>,
}

pub ghost struct CustomView {
    pub name: Seq<char>,
    pub data: Seq<u8>,
}

pub ghost struct ImportView {
    pub module: Seq<char>,
    pub field: Seq<char>,
    pub kind: ImportKind,
}

pub ghost struct DataView {
    pub memory_index: u32,
    pub offset: Option<ConstantOperator>,
    pub init: Seq<u8>,
}

pub ghost struct ElementView {
    pub table_index: u32,
    pub offset: Option<ConstantOperator>,
    pub init: Seq<Option<u32>>,
}

pub ghost struct ExportView {
    pub field: Seq<char>,
    pub kind: ExportKind,
    pub index: u32,
}

impl View for FuncType {
    type V = FuncTypeView;

    open spec fn view(&self) -> FuncTypeView {
        FuncTypeView { params: self.params@, result: self.result }
    }
}

impl View for Custom {
    type V = CustomView;

    open spec fn view(&self) -> CustomView {
        CustomView { name: self.name@, data: self.data@ }
    }
}

impl View for Import {
    type V = ImportView;

    open spec fn view(&self) -> ImportView {
        ImportView { module: self.module@, field: self.field@, kind: self.kind }
    }
}

impl View for Data {
    type V = DataView;

    open spec fn view(&self) -> DataView {
        DataView { memory_index: self.memory_index, offset: self.offset, init: self.init@ }
    }
}

impl View for Element {
    type V = ElementView;

    open spec fn view(&self) -> ElementView {
        ElementView { table_index: self.table_index, offset: self.offset, init: self.init@ }
    }
}

impl View for Export {
    type V = ExportView;

    open spec fn view(&self) -> ExportView {
        ExportView { field: self.field@, kind: self.kind, index: self.index }
    }
}

/// The views of the items of a list, in order.
pub open spec fn views<T: View>(s: Seq<T>) -> Seq<T::V> {
    s.map_values(|x: T| x@)
}

pub ghost struct ModuleView {
    pub custom_list: Seq<CustomView>,
    pub type_list: Seq<FuncTypeView>,
    pub function_list: Seq<u32>,
    pub table_list: Seq<Limits>,
    pub memory_list: Seq<Limits>,
    pub global_list: Seq<Global>,
    pub element_list: Seq<ElementView>,
    pub data_list: Seq<DataView>,
    pub start: Option<u32>,
    pub import_list: Seq<ImportView>,
    pub export_list: Seq<ExportView>,
}

impl View for Module {
    type V = ModuleView;

    open spec fn view(&self) -> ModuleView {
        ModuleView {
            custom_list: views(self.custom_list@),
            type_list: views(self.type_list@),
            function_list: self.function_list@,
            table_list: self.table_list@,
            memory_list: self.memory_list@,
            global_list: self.global_list@,
            element_list: views(self.element_list@),
            data_list: views(self.data_list@),
            start: self.start,
            import_list: views(self.import_list@),
            export_list: views(self.export_list@),
        }
    }
}

pub ghost struct DecoderView {
    pub module: ModuleView,
    pub section: Option<SectionCode>,
    pub custom_name: Seq<char>,
}

impl View for Decoder {
    type V = DecoderView;

    open spec fn view(&self) -> DecoderView {
        DecoderView { module: self.module@, section: self.section, custom_name: self.custom_name@ }
    }
}
/// The module with no entries at all.
pub open spec fn empty_module() -> ModuleView {
    ModuleView {
        custom_list: seq![],
        type_list: seq![],
        function_list: seq![],
        table_list: seq![],
        memory_list: seq![],
        global_list: seq![],
        element_list: seq![],
        data_list: seq![],
        start: None,
        import_list: seq![],
        export_list: seq![],
    }
}

/// How an operator of a constant expression attaches to the entry that is open
/// in the current section.
pub open spec fn attach_expr(m: ModuleView, section: Option<SectionCode>, op: ConstantOperator) -> Result<
    ModuleView,
    GlueError,
> {
    match section {
        Some(SectionCode::Global) => if m.global_list.len() == 0 {
            Err(GlueError::ParseError)
        } else {
            let g = m.global_list.last();
            Ok(
                ModuleView {
                    global_list: m.global_list.update(
                        m.global_list.len() - 1,
                        Global { expr: Some(op), ..g },
                    ),
                    ..m
                },
            )
        },
        Some(SectionCode::Data) => if m.data_list.len() == 0 {
            Err(GlueError::ParseError)
        } else {
            let d = m.data_list.last();
            Ok(
                ModuleView {
                    data_list: m.data_list.update(
                        m.data_list.len() - 1,
                        DataView { offset: Some(op), ..d },
                    ),
                    ..m
                },
            )
        },
        Some(SectionCode::Element) => if m.element_list.len() == 0 {
            Err(GlueError::ParseError)
        } else {
            let e = m.element_list.last();
            Ok(
                ModuleView {
                    element_list: m.element_list.update(
                        m.element_list.len() - 1,
                        ElementView { offset: Some(op), ..e },
                    ),
                    ..m
                },
            )
        },
        _ => Ok(m),
    }
}

/// Whether the current section holds constant expressions that the module keeps.
pub open spec fn holds_exprs(section: Option<SectionCode>) -> bool {
    section == Some(SectionCode::Global) || section == Some(SectionCode::Data) || section
        == Some(SectionCode::Element)
}

/// What one event does to the module under construction.
pub open spec fn step_module(v: DecoderView, ev: Event) -> Result<ModuleView, GlueError> {
    let m = v.module;
    match ev {
        Event::SectionRawData(data) => if v.section == Some(SectionCode::Custom) {
            Ok(
                ModuleView {
                    custom_list: m.custom_list.push(CustomView { name: v.custom_name, data: data@ }),
                    ..m
                },
            )
        } else {
            Ok(m)
        },
        Event::TypeEntry { params, results } => if results.len() > 1 {
            Err(GlueError::UnsupportedConstruct)
        } else {
            let result = if results.len() == 1 {
                Some(results@[0])
            } else {
                None
            };
            Ok(ModuleView { type_list: m.type_list.push(FuncTypeView { params: params@, result }), ..m })
        },
        Event::ImportEntry { module, field, kind } => Ok(
            ModuleView { import_list: m.import_list.push(ImportView { module: module@, field: field@, kind }), ..m },
        ),
        Event::FunctionEntry(t) => Ok(ModuleView { function_list: m.function_list.push(t), ..m }),
        Event::TableEntry(l) => Ok(ModuleView { table_list: m.table_list.push(l), ..m }),
        Event::MemoryEntry(l) => Ok(ModuleView { memory_list: m.memory_list.push(l), ..m }),
        Event::BeginGlobal { kind, mutable } => Ok(
            ModuleView {
                global_list: m.global_list.push(Global { kind, mutable, expr: None }),
                ..m
            },
        ),
        Event::InitExpr(op) => attach_expr(m, v.section, op),
        Event::InitExprOther => if holds_exprs(v.section) {
            Err(GlueError::UnsupportedConstruct)
        } else {
            Ok(m)
        },
        Event::BeginActiveData(mi) => Ok(
            ModuleView {
                data_list: m.data_list.push(
                    DataView { memory_index: mi, offset: None, init: seq![] },
                ),
                ..m
            },
        ),
        Event::DataChunk(bytes) => if m.data_list.len() == 0 {
            Err(GlueError::ParseError)
        } else {
            let d = m.data_list.last();
            Ok(
                ModuleView {
                    data_list: m.data_list.update(
                        m.data_list.len() - 1,
                        DataView { init: d.init + bytes@, ..d },
                    ),
                    ..m
                },
            )
        },
        Event::BeginActiveFuncElements(ti) => Ok(
            ModuleView {
                element_list: m.element_list.push(
                    ElementView { table_index: ti, offset: None, init: seq![] },
                ),
                ..m
            },
        ),
        Event::ElementBody(items) => if m.element_list.len() == 0 {
            Err(GlueError::ParseError)
        } else {
            let e = m.element_list.last();
            Ok(
                ModuleView {
                    element_list: m.element_list.update(
                        m.element_list.len() - 1,
                        ElementView { init: items@, ..e },
                    ),
                    ..m
                },
            )
        },
        Event::ExportEntry { field, kind, index } => Ok(
            ModuleView { export_list: m.export_list.push(ExportView { field: field@, kind, index }), ..m },
        ),
        Event::StartEntry(f) => Ok(ModuleView { start: Some(f), ..m }),
        Event::BeginPassiveData => Err(GlueError::UnsupportedConstruct),
        Event::BeginOtherElements => Err(GlueError::UnsupportedConstruct),
        Event::Unsupported => Err(GlueError::UnsupportedConstruct),
        Event::Malformed => Err(GlueError::ParseError),
        _ => Ok(m),
    }
}

/// What one event does to the decoder: the module as `step_module` says, and
/// the section that is open afterwards.
pub open spec fn step(v: DecoderView, ev: Event) -> Result<DecoderView, GlueError> {
    match step_module(v, ev) {
        Ok(m) => match ev {
            Event::BeginSection { code, name } => Ok(
                DecoderView { module: m, section: Some(code), custom_name: name@ },
            ),
            Event::EndSection => Ok(DecoderView { module: m, section: None, ..v }),
            _ => Ok(DecoderView { module: m, ..v }),
        },
        Err(e) => Err(e),
    }
}

pub proof fn lemma_views_push<T: View>(s: Seq<T>, x: T)
    ensures
        views(s.push(x)) == views(s).push(x@),
{
    assert(views(s.push(x)) =~= views(s).push(x@));
}

pub proof fn lemma_views_drop_last<T: View>(s: Seq<T>)
    requires
        s.len() > 0,
    ensures
        views(s.drop_last()) == views(s).drop_last(),
        views(s).last() == s.last()@,
{
    assert(views(s.drop_last()) =~= views(s).drop_last());
}

impl Module {
    /// The module with no entries.
    pub fn new() -> (m: Module)
        ensures
            m@ == empty_module(),
    {
        let m = Module {
            custom_list: Vec::new(),
            type_list: Vec::new(),
            function_list: Vec::new(),
            table_list: Vec::new(),
            memory_list: Vec::new(),
            global_list: Vec::new(),
            element_list: Vec::new(),
            data_list: Vec::new(),
            start: None,
            import_list: Vec::new(),
            export_list: Vec::new(),
        };
        assert(m@.custom_list =~= seq![]);
        assert(m@.type_list =~= seq![]);
        assert(m@.element_list =~= seq![]);
        assert(m@.data_list =~= seq![]);
        assert(m@.import_list =~= seq![]);
        assert(m@.export_list =~= seq![]);
        m
    }
}

impl Decoder {
    /// A decoder before the first event.
    pub fn new() -> (d: Decoder)
        ensures
            d@.module == empty_module(),
            d@.section.is_none(),
    {
        Decoder { module: Module::new(), section: None, custom_name: String::new() }
    }

    /// Feeds one event to the decoder. On an error the build stops, and the
    /// decoder is not used again.
    pub fn apply(&mut self, ev: Event) -> (r: Result<(), GlueError>)
        ensures
            match step(old(self)@, ev) {
                Ok(v) => r == Ok::<(), GlueError>(()) && final(self)@ == v,
                Err(e) => r == Err::<(), GlueError>(e),
            },
    {
        match ev {
            Event::BeginSection { code, name } => {
                self.section = Some(code);
                self.custom_name = name;
                Ok(())
            },
            Event::EndSection => {
                self.section = None;
                Ok(())
            },
            Event::SectionRawData(data) => {
                if self.section == Some(SectionCode::Custom) {
                    let name = self.custom_name.clone();
                    let c = Custom { name, data };
                    proof {
                        lemma_views_push(self.module.custom_list@, c);
                    }
                    self.module.custom_list.push(c);
                }
                Ok(())
            },
            Event::TypeEntry { params, results } => {
                if results.len() > 1 {
                    return Err(GlueError::UnsupportedConstruct);
                }
                let result = if results.len() == 1 {
                    Some(results[0])
                } else {
                    None
                };
                let t = FuncType { params, result };
                proof {
                    lemma_views_push(self.module.type_list@, t);
                }
                self.module.type_list.push(t);
                Ok(())
            },
            Event::ImportEntry { module, field, kind } => {
                let i = Import { module, field, kind };
                proof {
                    lemma_views_push(self.module.import_list@, i);
                }
                self.module.import_list.push(i);
                Ok(())
            },
            Event::FunctionEntry(t) => {
                self.module.function_list.push(t);
                Ok(())
            },
            Event::TableEntry(l) => {
                self.module.table_list.push(l);
                Ok(())
            },
            Event::MemoryEntry(l) => {
                self.module.memory_list.push(l);
                Ok(())
            },
            Event::BeginGlobal { kind, mutable } => {
                self.module.global_list.push(Global { kind, mutable, expr: None });
                Ok(())
            },
            Event::InitExpr(op) => self.attach(op),
            Event::InitExprOther => {
                if self.section == Some(SectionCode::Global) || self.section == Some(
                    SectionCode::Data,
                ) || self.section == Some(SectionCode::Element) {
                    Err(GlueError::UnsupportedConstruct)
                } else {
                    Ok(())
                }
            },
            Event::BeginActiveData(mi) => {
                let d = Data { memory_index: mi, offset: None, init: Vec::new() };
                proof {
                    lemma_views_push(self.module.data_list@, d);
                    assert(d@.init =~= seq![]);
                }
                self.module.data_list.push(d);
                Ok(())
            },
            Event::DataChunk(bytes) => {
                proof {
                    if self.module.data_list@.len() > 0 {
                        lemma_views_drop_last(self.module.data_list@);
                    }
                }
                match self.module.data_list.pop() {
                    Some(d) => {
                        let mut d2 = d;
                        let mut more = bytes;
                        d2.init.append(&mut more);
                        proof {
                            lemma_views_push(self.module.data_list@, d2);
                            assert(views(self.module.data_list@.push(d2)) =~= views(
                                old(self).module.data_list@,
                            ).update(old(self).module.data_list@.len() - 1, d2@));
                        }
                        self.module.data_list.push(d2);
                        Ok(())
                    },
                    None => Err(GlueError::ParseError),
                }
            },
            Event::BeginActiveFuncElements(ti) => {
                let e = Element { table_index: ti, offset: None, init: Vec::new() };
                proof {
                    lemma_views_push(self.module.element_list@, e);
                    assert(e@.init =~= seq![]);
                }
                self.module.element_list.push(e);
                Ok(())
            },
            Event::ElementBody(items) => {
                proof {
                    if self.module.element_list@.len() > 0 {
                        lemma_views_drop_last(self.module.element_list@);
                    }
                }
                match self.module.element_list.pop() {
                    Some(e) => {
                        let e2 = Element { init: items, ..e };
                        proof {
                            lemma_views_push(self.module.element_list@, e2);
                            assert(views(self.module.element_list@.push(e2)) =~= views(
                                old(self).module.element_list@,
                            ).update(old(self).module.element_list@.len() - 1, e2@));
                        }
                        self.module.element_list.push(e2);
                        Ok(())
                    },
                    None => Err(GlueError::ParseError),
                }
            },
            Event::ExportEntry { field, kind, index } => {
                let x = Export { field, kind, index };
                proof {
                    lemma_views_push(self.module.export_list@, x);
                }
                self.module.export_list.push(x);
                Ok(())
            },
            Event::StartEntry(f) => {
                self.module.start = Some(f);
                Ok(())
            },
            Event::BeginPassiveData => Err(GlueError::UnsupportedConstruct),
            Event::BeginOtherElements => Err(GlueError::UnsupportedConstruct),
            Event::Unsupported => Err(GlueError::UnsupportedConstruct),
            Event::Malformed => Err(GlueError::ParseError),
            Event::Other => Ok(()),
        }
    }

    /// Attaches a constant expression to the entry open in the current section.
    fn attach(&mut self, op: ConstantOperator) -> (r: Result<(), GlueError>)
        ensures
            match attach_expr(old(self)@.module, old(self)@.section, op) {
                Ok(m) => r == Ok::<(), GlueError>(()) && final(self)@ == DecoderView {
                    module: m,
                    ..old(self)@
                },
                Err(e) => r == Err::<(), GlueError>(e),
            },
    {
        if self.section == Some(SectionCode::Global) {
            match self.module.global_list.pop() {
                Some(g) => {
                    self.module.global_list.push(Global { expr: Some(op), ..g });
                    assert(self.module.global_list@ =~= old(self).module.global_list@.update(
                        old(self).module.global_list@.len() - 1,
                        Global { expr: Some(op), ..g },
                    ));
                    Ok(())
                },
                None => Err(GlueError::ParseError),
            }
        } else if self.section == Some(SectionCode::Data) {
            proof {
                if self.module.data_list@.len() > 0 {
                    lemma_views_drop_last(self.module.data_list@);
                }
            }
            match self.module.data_list.pop() {
                Some(d) => {
                    let d2 = Data { offset: Some(op), ..d };
                    proof {
                        lemma_views_push(self.module.data_list@, d2);
                        assert(views(self.module.data_list@.push(d2)) =~= views(
                            old(self).module.data_list@,
                        ).update(old(self).module.data_list@.len() - 1, d2@));
                    }
                    self.module.data_list.push(d2);
                    Ok(())
                },
                None => Err(GlueError::ParseError),
            }
        } else if self.section == Some(SectionCode::Element) {
            proof {
                if self.module.element_list@.len() > 0 {
                    lemma_views_drop_last(self.module.element_list@);
                }
            }
            match self.module.element_list.pop() {
                Some(e) => {
                    let e2 = Element { offset: Some(op), ..e };
                    proof {
                        lemma_views_push(self.module.element_list@, e2);
                        assert(views(self.module.element_list@.push(e2)) =~= views(
                            old(self).module.element_list@,
                        ).update(old(self).module.element_list@.len() - 1, e2@));
                    }
                    self.module.element_list.push(e2);
                    Ok(())
                },
                None => Err(GlueError::ParseError),
            }
        } else {
            Ok(())
        }
    }

    /// The module decoded so far.
    pub fn finish(self) -> (m: Module)
        ensures
            m@ == self@.module,
    {
        self.module
    }
}

} // verus!
