use wasc::code_builder::CodeBuilder;
use wasc::context::{init, Config, Middle, Platform};
use wasc::glue::{generate, header_guard, render_glue};
use wasc::module::{
    ConstantOperator, Decoder, Event, ExportKind, GlueError, ImportKind, Limits, Module,
    SectionCode, ValueKind,
};
use wasc::naming::cnaming;

fn section(code: SectionCode) -> Event {
    Event::BeginSection { code, name: String::new() }
}

fn decode(events: Vec<Event>) -> Result<Module, GlueError> {
    let mut d = Decoder::new();
    for e in events {
        d.apply(e)?;
    }
    Ok(d.finish())
}

fn void_type() -> Event {
    Event::TypeEntry { params: vec![], results: vec![] }
}

fn header_of(events: Vec<Event>) -> String {
    let m = decode(events).unwrap();
    render_glue(&m, "M_GLUE_H").unwrap().header
}

fn lines(header: &str) -> Vec<String> {
    header.lines().map(|l| l.trim().to_string()).collect()
}

#[test]
fn dynamic_data_offset_is_copied_in_init() {
    let h = header_of(vec![
        section(SectionCode::Type),
        void_type(),
        Event::EndSection,
        section(SectionCode::Import),
        Event::ImportEntry {
            module: "env".to_string(),
            field: "base".to_string(),
            kind: ImportKind::Global { kind: ValueKind::I32, mutable: false },
        },
        Event::EndSection,
        section(SectionCode::Function),
        Event::FunctionEntry(0),
        Event::EndSection,
        section(SectionCode::Memory),
        Event::MemoryEntry(Limits { initial: 1, maximum: None }),
        Event::EndSection,
        section(SectionCode::Start),
        Event::StartEntry(0),
        Event::EndSection,
        section(SectionCode::Data),
        Event::BeginActiveData(0),
        Event::InitExpr(ConstantOperator::GlobalGet { global_index: 0 }),
        Event::DataChunk(vec![1, 2, 3, 4]),
        Event::EndSection,
    ]);
    let ls = lines(&h);
    assert!(ls.contains(&"memcpy(memory0 + wavm_env_base, data0, 4);".to_string()));
    assert!(ls.contains(&"#define wavm_env_base global0".to_string()));
    assert!(ls.contains(&"extern int32_t global0;".to_string()));
    assert_eq!(ls.iter().filter(|l| l.starts_with("memcpy(")).count(), 1);
    let mem = ls.iter().position(|l| l.starts_with("uint8_t memory0[65536]")).unwrap();
    assert_eq!(ls[mem + 1], "};");
    let init = ls.iter().position(|l| l == "void init() {").unwrap();
    let copy = ls.iter().position(|l| l.starts_with("memcpy(")).unwrap();
    assert!(copy > init);
    assert!(ls.contains(&"functionDef0(NULL);".to_string()));
    assert!(!ls.contains(&"int main() {".to_string()));
}

#[test]
fn exported_function_gets_its_macro() {
    let h = header_of(vec![
        section(SectionCode::Type),
        void_type(),
        Event::EndSection,
        section(SectionCode::Function),
        Event::FunctionEntry(0),
        Event::FunctionEntry(0),
        Event::FunctionEntry(0),
        Event::EndSection,
        section(SectionCode::Export),
        Event::ExportEntry { field: "run".to_string(), kind: ExportKind::Function, index: 2 },
        Event::EndSection,
    ]);
    assert!(lines(&h).contains(&"#define wavm_exported_function_run functionDef2".to_string()));
}

#[test]
fn exported_import_resolves_to_its_import_symbol() {
    let h = header_of(vec![
        section(SectionCode::Type),
        void_type(),
        Event::EndSection,
        section(SectionCode::Import),
        Event::ImportEntry {
            module: "env".to_string(),
            field: "f".to_string(),
            kind: ImportKind::Function { type_index: 0 },
        },
        Event::EndSection,
        section(SectionCode::Function),
        Event::FunctionEntry(0),
        Event::FunctionEntry(0),
        Event::EndSection,
        section(SectionCode::Export),
        Event::ExportEntry { field: "run".to_string(), kind: ExportKind::Function, index: 2 },
        Event::ExportEntry { field: "imp".to_string(), kind: ExportKind::Function, index: 0 },
        Event::EndSection,
    ]);
    let ls = lines(&h);
    assert!(ls.contains(&"#define wavm_exported_function_run functionDef1".to_string()));
    assert!(ls.contains(&"#define wavm_exported_function_imp functionImport0".to_string()));
    assert!(ls.contains(&"#define wavm_env_f functionImport0".to_string()));
    assert!(ls.contains(&"extern void* (functionImport0) (void*);".to_string()));
}

fn with_export(name: &str) -> String {
    header_of(vec![
        section(SectionCode::Type),
        void_type(),
        Event::EndSection,
        section(SectionCode::Function),
        Event::FunctionEntry(0),
        Event::EndSection,
        section(SectionCode::Export),
        Event::ExportEntry { field: name.to_string(), kind: ExportKind::Function, index: 0 },
        Event::EndSection,
    ])
}

#[test]
fn main_only_with_start_export() {
    let with = lines(&with_export("_start"));
    let at = with.iter().position(|l| l == "int main() {").unwrap();
    assert_eq!(with[at + 1], "init();");
    assert_eq!(with[at + 2], "wavm_exported_function__start(NULL);");
    assert_eq!(with[at + 3], "return -1;");
    assert_eq!(with[at + 4], "}");
    let without = lines(&with_export("start"));
    assert!(!without.contains(&"int main() {".to_string()));
}

#[test]
fn imports_give_one_define_and_one_declaration() {
    let h = header_of(vec![
        section(SectionCode::Type),
        Event::TypeEntry { params: vec![ValueKind::I32, ValueKind::F64], results: vec![ValueKind::I64] },
        Event::EndSection,
        section(SectionCode::Import),
        Event::ImportEntry {
            module: "env".to_string(),
            field: "g".to_string(),
            kind: ImportKind::Global { kind: ValueKind::F32, mutable: true },
        },
        Event::ImportEntry {
            module: "env".to_string(),
            field: "h".to_string(),
            kind: ImportKind::Function { type_index: 0 },
        },
        Event::EndSection,
        section(SectionCode::Function),
        Event::FunctionEntry(0),
        Event::EndSection,
        section(SectionCode::Global),
        Event::BeginGlobal { kind: ValueKind::I32, mutable: true },
        Event::InitExpr(ConstantOperator::I32Const { value: -7 }),
        Event::EndSection,
    ]);
    let ls = lines(&h);
    assert_eq!(ls.iter().filter(|l| l.starts_with("#define wavm_env_g ")).count(), 1);
    assert!(ls.contains(&"#define wavm_env_g global0".to_string()));
    assert!(ls.contains(&"extern float global0;".to_string()));
    assert!(ls.contains(&"int32_t global1 = -7;".to_string()));
    assert!(ls.contains(&"#define wavm_env_h functionImport0".to_string()));
    assert!(ls
        .contains(&"extern wavm_ret_int64_t (functionImport0) (void*, int32_t, double);".to_string()));
    assert!(ls.contains(&"extern wavm_ret_int64_t (functionDef0) (void*, int32_t, double);".to_string()));
    assert!(ls.contains(&"const uint64_t functionDefMutableDatas0 = 0;".to_string()));
    assert!(ls.contains(&"const uint64_t typeId0 = 0;".to_string()));
}

#[test]
fn float_globals_keep_their_bits() {
    let h = header_of(vec![
        section(SectionCode::Global),
        Event::BeginGlobal { kind: ValueKind::F32, mutable: false },
        Event::InitExpr(ConstantOperator::F32Const { value: 0x8000_0000 }),
        Event::BeginGlobal { kind: ValueKind::F32, mutable: false },
        Event::InitExpr(ConstantOperator::F32Const { value: 0x7fc0_0001 }),
        Event::BeginGlobal { kind: ValueKind::F64, mutable: true },
        Event::InitExpr(ConstantOperator::F64Const { value: 0xfff8_0000_0000_0abc }),
        Event::EndSection,
    ]);
    let ls = lines(&h);
    assert!(ls.contains(&"const union { uint32_t bits; float value; } global0 = { 0x80000000 };".to_string()));
    assert!(ls.contains(&"const union { uint32_t bits; float value; } global1 = { 0x7fc00001 };".to_string()));
    assert!(ls.contains(&"union { uint64_t bits; double value; } global2 = { 0xfff8000000000abc };".to_string()));
    let bits = (-0.0f32).to_bits();
    assert_eq!(bits, 0x8000_0000);
}

#[test]
fn memory_has_full_length_and_static_data() {
    let h = header_of(vec![
        section(SectionCode::Memory),
        Event::MemoryEntry(Limits { initial: 2, maximum: Some(3) }),
        Event::EndSection,
        section(SectionCode::Data),
        Event::BeginActiveData(0),
        Event::InitExpr(ConstantOperator::I32Const { value: 1 }),
        Event::DataChunk(vec![0xab, 0, 0xcd]),
        Event::EndSection,
    ]);
    let ls = lines(&h);
    let at = ls.iter().position(|l| l.starts_with("uint8_t memory0[131072]")).unwrap();
    assert_eq!(ls[at + 1], "0x00,");
    assert_eq!(ls[at + 2], "0xab,");
    assert_eq!(ls[at + 3], "0x00,");
    assert_eq!(ls[at + 4], "0xcd,");
    assert_eq!(ls[at + 5], "};");
    assert!(ls.contains(&"const uint64_t memory0_length = 131072;".to_string()));
    assert!(ls.contains(&"struct memory_instance memoryOffset0 = { memory0, 2 };".to_string()));
    assert!(ls.contains(&"#define MEMORY0_MAX_PAGE 3".to_string()));
    assert!(ls.contains(&"#define MEMORY0_DEFINED 1".to_string()));
    assert!(!ls.iter().any(|l| l.starts_with("memcpy(")));
}

#[test]
fn data_chunks_are_joined() {
    let m = decode(vec![
        section(SectionCode::Memory),
        Event::MemoryEntry(Limits { initial: 1, maximum: None }),
        Event::EndSection,
        section(SectionCode::Data),
        Event::BeginActiveData(0),
        Event::InitExpr(ConstantOperator::I32Const { value: 0 }),
        Event::DataChunk(vec![1, 2]),
        Event::DataChunk(vec![3]),
        Event::EndSection,
    ])
    .unwrap();
    assert_eq!(m.data_list[0].init, vec![1, 2, 3]);
    let ls = lines(&render_glue(&m, "X").unwrap().header);
    let at = ls.iter().position(|l| l.starts_with("uint8_t memory0[65536]")).unwrap();
    assert_eq!(ls[at + 1], "0x01,");
    assert_eq!(ls[at + 2], "0x02,");
    assert_eq!(ls[at + 3], "0x03,");
    assert_eq!(ls[at + 4], "};");
}

#[test]
fn data_past_the_end_fails() {
    let m = decode(vec![
        section(SectionCode::Memory),
        Event::MemoryEntry(Limits { initial: 1, maximum: None }),
        Event::EndSection,
        section(SectionCode::Data),
        Event::BeginActiveData(0),
        Event::InitExpr(ConstantOperator::I32Const { value: 65534 }),
        Event::DataChunk(vec![1, 2, 3]),
        Event::EndSection,
    ])
    .unwrap();
    assert!(matches!(render_glue(&m, "X"), Err(GlueError::IndexOutOfRange)));
    let fits = decode(vec![
        section(SectionCode::Memory),
        Event::MemoryEntry(Limits { initial: 1, maximum: None }),
        Event::EndSection,
        section(SectionCode::Data),
        Event::BeginActiveData(0),
        Event::InitExpr(ConstantOperator::I32Const { value: 65533 }),
        Event::DataChunk(vec![1, 2, 3]),
        Event::EndSection,
    ])
    .unwrap();
    assert!(render_glue(&fits, "X").is_ok());
}

fn table_module(offset: ConstantOperator) -> Vec<Event> {
    vec![
        section(SectionCode::Type),
        void_type(),
        Event::EndSection,
        section(SectionCode::Import),
        Event::ImportEntry {
            module: "env".to_string(),
            field: "tb".to_string(),
            kind: ImportKind::Global { kind: ValueKind::I32, mutable: false },
        },
        Event::EndSection,
        section(SectionCode::Function),
        Event::FunctionEntry(0),
        Event::FunctionEntry(0),
        Event::EndSection,
        section(SectionCode::Table),
        Event::TableEntry(Limits { initial: 4, maximum: None }),
        Event::EndSection,
        section(SectionCode::Element),
        Event::BeginActiveFuncElements(0),
        Event::InitExpr(offset),
        Event::ElementBody(vec![Some(1), None, Some(0)]),
        Event::EndSection,
    ]
}

#[test]
fn table_slots_and_relocation() {
    let ls = lines(&header_of(table_module(ConstantOperator::I32Const { value: 0 })));
    assert!(ls.contains(&"uint32_t table0_length = 4;".to_string()));
    let at = ls.iter().position(|l| l == "uintptr_t table0[4] = {").unwrap();
    assert_eq!(ls[at + 1], "((uintptr_t) (functionDef1)),");
    assert_eq!(ls[at + 2], "0,");
    assert_eq!(ls[at + 3], "((uintptr_t) (functionDef0)),");
    assert_eq!(ls[at + 4], "};");
    assert!(ls.contains(&"uintptr_t* tableOffset0 = table0;".to_string()));
    assert!(ls.contains(&"#define TABLE0_DEFINED 1".to_string()));
    let reloc = "table0[i] = table0[i] - ((uintptr_t) &tableReferenceBias) - 0x20;";
    assert_eq!(ls.iter().filter(|l| *l == reloc).count(), 1);
    assert!(ls.contains(&"for (int i = 0; i < table0_length; i++) {".to_string()));
}

#[test]
fn table_with_imported_offset_is_filled_in_init() {
    let ls = lines(&header_of(table_module(ConstantOperator::GlobalGet { global_index: 0 })));
    let at = ls.iter().position(|l| l == "uintptr_t table0[4] = {").unwrap();
    assert_eq!(ls[at + 1], "};");
    let fix = ls.iter().position(|l| l == "table0[wavm_env_tb + 0] = ((uintptr_t) (functionDef1));").unwrap();
    assert_eq!(ls[fix + 1], "table0[wavm_env_tb + 1] = 0;");
    assert_eq!(ls[fix + 2], "table0[wavm_env_tb + 2] = ((uintptr_t) (functionDef0));");
    assert_eq!(ls[fix + 3], "for (int i = 0; i < table0_length; i++) {");
}

#[test]
fn table_overflow_and_unknown_function_fail() {
    let mut ev = table_module(ConstantOperator::I32Const { value: 2 });
    let m = decode(ev.drain(..).collect()).unwrap();
    assert!(matches!(render_glue(&m, "X"), Err(GlueError::IndexOutOfRange)));
    let mut ev = table_module(ConstantOperator::I32Const { value: 0 });
    ev[16] = Event::ElementBody(vec![Some(5)]);
    let m = decode(ev).unwrap();
    assert!(matches!(render_glue(&m, "X"), Err(GlueError::IndexOutOfRange)));
}

#[test]
fn decoder_errors() {
    assert!(matches!(decode(vec![Event::Malformed]), Err(GlueError::ParseError)));
    assert!(matches!(
        decode(vec![section(SectionCode::Data), Event::BeginPassiveData]),
        Err(GlueError::UnsupportedConstruct)
    ));
    assert!(matches!(
        decode(vec![section(SectionCode::Element), Event::BeginOtherElements]),
        Err(GlueError::UnsupportedConstruct)
    ));
    assert!(matches!(
        decode(vec![
            section(SectionCode::Global),
            Event::InitExpr(ConstantOperator::I32Const { value: 1 })
        ]),
        Err(GlueError::ParseError)
    ));
    assert!(matches!(
        decode(vec![section(SectionCode::Data), Event::DataChunk(vec![1])]),
        Err(GlueError::ParseError)
    ));
    assert!(matches!(
        decode(vec![
            section(SectionCode::Global),
            Event::BeginGlobal { kind: ValueKind::I32, mutable: false },
            Event::InitExprOther
        ]),
        Err(GlueError::UnsupportedConstruct)
    ));
    assert!(matches!(
        decode(vec![Event::TypeEntry { params: vec![], results: vec![ValueKind::I32, ValueKind::I32] }]),
        Err(GlueError::UnsupportedConstruct)
    ));
    assert!(matches!(decode(vec![Event::Unsupported]), Err(GlueError::UnsupportedConstruct)));
}

#[test]
fn instance_errors() {
    let bad_type = decode(vec![
        section(SectionCode::Function),
        Event::FunctionEntry(3),
        Event::EndSection,
    ])
    .unwrap();
    assert!(matches!(render_glue(&bad_type, "X"), Err(GlueError::IndexOutOfRange)));
    let forward = decode(vec![
        section(SectionCode::Global),
        Event::BeginGlobal { kind: ValueKind::I32, mutable: false },
        Event::InitExpr(ConstantOperator::GlobalGet { global_index: 1 }),
        Event::BeginGlobal { kind: ValueKind::I32, mutable: false },
        Event::InitExpr(ConstantOperator::I32Const { value: 1 }),
        Event::EndSection,
    ])
    .unwrap();
    assert!(matches!(render_glue(&forward, "X"), Err(GlueError::UnsupportedConstruct)));
    let backward = decode(vec![
        section(SectionCode::Global),
        Event::BeginGlobal { kind: ValueKind::I32, mutable: false },
        Event::InitExpr(ConstantOperator::I32Const { value: 9 }),
        Event::BeginGlobal { kind: ValueKind::I32, mutable: false },
        Event::InitExpr(ConstantOperator::GlobalGet { global_index: 0 }),
        Event::EndSection,
    ])
    .unwrap();
    assert!(lines(&render_glue(&backward, "X").unwrap().header).contains(&"const int32_t global1 = 9;".to_string()));
    let wrong_kind = decode(vec![
        section(SectionCode::Global),
        Event::BeginGlobal { kind: ValueKind::I64, mutable: false },
        Event::InitExpr(ConstantOperator::I32Const { value: 1 }),
        Event::EndSection,
    ])
    .unwrap();
    assert!(matches!(render_glue(&wrong_kind, "X"), Err(GlueError::UnsupportedConstruct)));
    let bad_export = decode(vec![
        section(SectionCode::Export),
        Event::ExportEntry { field: "x".to_string(), kind: ExportKind::Function, index: 0 },
        Event::EndSection,
    ])
    .unwrap();
    assert!(matches!(render_glue(&bad_export, "X"), Err(GlueError::IndexOutOfRange)));
    let bad_start = decode(vec![Event::StartEntry(0)]).unwrap();
    assert!(matches!(render_glue(&bad_start, "X"), Err(GlueError::IndexOutOfRange)));
    let no_memory = decode(vec![
        section(SectionCode::Data),
        Event::BeginActiveData(0),
        Event::InitExpr(ConstantOperator::I32Const { value: 0 }),
        Event::EndSection,
    ])
    .unwrap();
    assert!(matches!(render_glue(&no_memory, "X"), Err(GlueError::IndexOutOfRange)));
}

#[test]
fn segments_on_imported_memory_are_unsupported() {
    let m = decode(vec![
        section(SectionCode::Import),
        Event::ImportEntry {
            module: "env".to_string(),
            field: "mem".to_string(),
            kind: ImportKind::Memory { limits: Limits { initial: 1, maximum: None } },
        },
        Event::EndSection,
        section(SectionCode::Data),
        Event::BeginActiveData(0),
        Event::InitExpr(ConstantOperator::I32Const { value: 0 }),
        Event::EndSection,
    ])
    .unwrap();
    assert!(matches!(render_glue(&m, "X"), Err(GlueError::UnsupportedConstruct)));
}

#[test]
fn imported_memory_and_table_are_declared() {
    let ls = lines(&header_of(vec![
        section(SectionCode::Import),
        Event::ImportEntry {
            module: "env".to_string(),
            field: "mem".to_string(),
            kind: ImportKind::Memory { limits: Limits { initial: 1, maximum: None } },
        },
        Event::ImportEntry {
            module: "env".to_string(),
            field: "tab".to_string(),
            kind: ImportKind::Table { limits: Limits { initial: 1, maximum: None } },
        },
        Event::EndSection,
    ]));
    assert!(ls.contains(&"#define wavm_env_mem memory0".to_string()));
    assert!(ls.contains(&"extern uint8_t memory0[];".to_string()));
    assert!(ls.contains(&"#define wavm_env_tab table0".to_string()));
    assert!(ls.contains(&"extern uintptr_t table0[];".to_string()));
}

#[test]
fn header_is_guarded_and_indented() {
    let m = decode(vec![
        section(SectionCode::Type),
        void_type(),
        Event::EndSection,
        section(SectionCode::Function),
        Event::FunctionEntry(0),
        Event::EndSection,
        section(SectionCode::Start),
        Event::StartEntry(0),
        Event::EndSection,
    ])
    .unwrap();
    let g = generate(&m, "hello-world").unwrap();
    assert!(g.header.starts_with("#ifndef HELLO_WORLD_GLUE_H\n#define HELLO_WORLD_GLUE_H\n"));
    assert!(g.header.contains("void init() {\n  functionDef0(NULL);\n}\n"));
    assert!(g.header.ends_with("#endif /* HELLO_WORLD_GLUE_H */\n"));
    assert_eq!(header_guard("a.b"), "A2EB_GLUE_H");
}

#[test]
fn object_payload_is_extracted() {
    let m = decode(vec![
        Event::BeginSection { code: SectionCode::Custom, name: "name".to_string() },
        Event::SectionRawData(vec![9, 9]),
        Event::EndSection,
        Event::BeginSection { code: SectionCode::Custom, name: "wavm.precompiled_object".to_string() },
        Event::SectionRawData(vec![1, 2, 3]),
        Event::EndSection,
        section(SectionCode::Type),
        Event::SectionRawData(vec![7]),
        Event::EndSection,
    ])
    .unwrap();
    assert_eq!(render_glue(&m, "X").unwrap().object, vec![1, 2, 3]);
}

#[test]
fn sanitizer() {
    assert_eq!(cnaming("hello42World"), "hello42World");
    assert_eq!(cnaming(&cnaming("hello42World")), "hello42World");
    assert_eq!(cnaming("a-b"), "a_b");
    assert_eq!(cnaming("a.b"), "a2eb");
    assert_eq!(cnaming("_start"), "5fstart");
    assert_eq!(cnaming("é"), "c3a9");
    assert_eq!(cnaming(""), "");
    let corpus = ["main", "run", "a-b", "a_b", "a.b", "memory", "_start", "x-y-z", "caf\u{e9}"];
    for (i, a) in corpus.iter().enumerate() {
        for b in corpus.iter().skip(i + 1) {
            assert_ne!(cnaming(a), cnaming(b));
        }
    }
}

#[test]
fn code_builder_indents_by_braces() {
    let mut cb = CodeBuilder::create("out.h".to_string());
    cb.write("void f() {");
    cb.write("int x[2] = {");
    cb.write_array(&vec!["1".to_string(), "2".to_string(), "3".to_string()], 2);
    cb.write("};");
    cb.write("}");
    cb.write("}");
    cb.write("x;");
    assert_eq!(cb.data, "void f() {\n  int x[2] = {\n    1, 2, \n    3\n  };\n}\n}\nx;\n");
    assert_eq!(cb.path, "out.h");
}

#[test]
fn build_paths() {
    let mut middle = Middle::default();
    let mut config = Config::default();
    assert_eq!(config.binary_cc, "gcc");
    assert_eq!(config.binary_wavm, "wavm");
    config.platform = Platform::PosixX8664Spectest;
    middle.init_config(config);
    middle.init_file(
        "/w".to_string(),
        "res/a.wasm".to_string(),
        "res".to_string(),
        "a".to_string(),
    );
    assert_eq!(middle.path_prog, "res/a_build");
    assert_eq!(middle.path_platform_header, "res/a_build/platform/posix_x86_64_spectest.h");
    assert_eq!(middle.path_platform_s, "res/a_build/platform/posix_x86_64_spectest_runtime.S");
    assert_eq!(middle.path_glue, "res/a_build/a_glue.h");
    assert_eq!(middle.path_object, "res/a_build/a.o");
    assert_eq!(middle.path_platform_common_wavm_h, "res/a_build/platform/common/wavm.h");
    assert!(middle.path_platform_lds.is_none());
    init(&mut middle);
    assert_eq!(middle.dummy, "res/a_build/a.c");
    assert_eq!(Platform::from_name("posix_x86_64_wasi", Platform::Unknown), Some(Platform::PosixX8664Wasi));
    assert_eq!(Platform::from_name("", Platform::PosixX8664), Some(Platform::PosixX8664));
    assert_eq!(Platform::from_name("nope", Platform::Unknown), None);
    assert_eq!(Platform::CKBVMSpectest.default_cc(), "riscv64-unknown-elf-gcc");
    assert_eq!(Platform::PosixX8664.default_cc(), "gcc");
}
