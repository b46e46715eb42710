//! The configuration of a build and the paths it works with.
use vstd::prelude::*;
use vstd::string::StringExecFns;

verus! {

/// The targets a module can be built for.
#[derive(Clone, Copy, Debug, PartialEq, Eq, Structural)]
pub enum Platform {
    CKBVMAssemblyScript,
    CKBVMSpectest,
    PosixX8664,
    PosixX8664Spectest,
    PosixX8664Wasi,
    Unknown,
}

/// The global configuration of a build.
#[derive(Clone, Debug)]
pub struct Config {
    /// The C compiler, usually what `which gcc` finds.
    pub binary_cc: String,
    /// The ahead-of-time WebAssembly compiler.
    pub binary_wavm: String,
    pub platform: Platform,
}

/// Everything a build knows about its input and the files it makes. Paths are
/// text, their parts joined by `/`.
#[derive(Clone, Debug)]
pub struct Middle {
    pub config: Config,
    /// The caller's working directory.
    pub current_dir: String,
    /// The source wasm/wast file.
    pub file: String,
    /// The source file's name without its extension.
    pub file_stem: String,
    /// `<stem>_build`, beside the source file.
    pub path_prog: String,
    pub path_platform_code_folder: String,
    pub path_platform_common_code_folder: String,
    pub path_platform_common_wavm_h: String,
    pub path_platform_common_wasi_h: String,
    pub path_platform_header: String,
    pub path_platform_s: String,
    pub path_platform_lds: Option<String>,
    pub path_object: String,
    pub path_glue: String,
    pub path_c: String,
    pub path_precompiled: String,
    pub path_output: String,
    /// The C file of a test driver.
    pub dummy: String,
}

/// `b` inside directory `a`.
pub open spec fn join_path(a: Seq<char>, b: Seq<char>) -> Seq<char> {
    if a.len() == 0 {
        b
    } else {
        a + "/"@ + b
    }
}

/// The name of a platform on the command line.
pub open spec fn platform_name(p: Platform) -> Seq<char> {
    match p {
        Platform::CKBVMAssemblyScript => "ckb_vm_assemblyscript"@,
        Platform::CKBVMSpectest => "ckb_vm_spectest"@,
        Platform::PosixX8664 => "posix_x86_64"@,
        Platform::PosixX8664Spectest => "posix_x86_64_spectest"@,
        Platform::PosixX8664Wasi => "posix_x86_64_wasi"@,
        Platform::Unknown => seq![],
    }
}

/// The C compiler a platform builds with unless told otherwise.
pub open spec fn default_cc(p: Platform) -> Seq<char> {
    match p {
        Platform::CKBVMAssemblyScript | Platform::CKBVMSpectest => "riscv64-unknown-elf-gcc"@,
        Platform::Unknown => seq![],
        _ => "gcc"@,
    }
}

/// Whether a platform links with a linker script of its own.
pub open spec fn has_linker_script(p: Platform) -> bool {
    p == Platform::CKBVMAssemblyScript || p == Platform::CKBVMSpectest
}

pub fn join(a: &String, b: &String) -> (r: String)
    ensures
        r@ == join_path(a@, b@),
{
    if a.as_str().unicode_len() == 0 {
        b.clone()
    } else {
        let mut r = a.clone();
        r.append("/");
        r.append(b.as_str());
        r
    }
}

fn suffixed(a: &String, b: &str) -> (r: String)
    ensures
        r@ == a@ + b@,
{
    let mut r = a.clone();
    r.append(b);
    r
}

impl Platform {
    /// The platform named `name` on the command line; the empty name stands
    /// for `default`.
    pub fn from_name(name: &str, default: Platform) -> (r: Option<Platform>)
        ensures
            name@.len() == 0 ==> r == Some(default),
            name@.len() > 0 ==> match r {
                Some(p) => p != Platform::Unknown && platform_name(p) == name@,
                None => forall|p: Platform| p != Platform::Unknown ==> platform_name(p) != name@,
            },
    {
        let n = String::from_str(name);
        if n.as_str().unicode_len() == 0 {
            return Some(default);
        }
        let all = [
            Platform::CKBVMAssemblyScript,
            Platform::CKBVMSpectest,
            Platform::PosixX8664,
            Platform::PosixX8664Spectest,
            Platform::PosixX8664Wasi,
        ];
        let mut i: usize = 0;
        while i < 5
            invariant
                i <= 5,
                n@ == name@,
                name@.len() > 0,
                all@ == seq![
                    Platform::CKBVMAssemblyScript,
                    Platform::CKBVMSpectest,
                    Platform::PosixX8664,
                    Platform::PosixX8664Spectest,
                    Platform::PosixX8664Wasi,
                ],
                forall|k: int| 0 <= k < i ==> platform_name(#[trigger] all@[k]) != name@,
            decreases 5 - i,
        {
            let p = all[i];
            if p.name() == n {
                return Some(p);
            }
            i = i + 1;
        }
        proof {
            assert forall|p: Platform| p != Platform::Unknown implies platform_name(p) != name@ by {
                match p {
                    Platform::CKBVMAssemblyScript => assert(all@[0] == p),
                    Platform::CKBVMSpectest => assert(all@[1] == p),
                    Platform::PosixX8664 => assert(all@[2] == p),
                    Platform::PosixX8664Spectest => assert(all@[3] == p),
                    Platform::PosixX8664Wasi => assert(all@[4] == p),
                    Platform::Unknown => {},
                }
            }
        }
        None
    }

    /// The name of the platform on the command line.
    pub fn name(&self) -> (r: String)
        ensures
            r@ == platform_name(*self),
    {
        match self {
            Platform::CKBVMAssemblyScript => String::from_str("ckb_vm_assemblyscript"),
            Platform::CKBVMSpectest => String::from_str("ckb_vm_spectest"),
            Platform::PosixX8664 => String::from_str("posix_x86_64"),
            Platform::PosixX8664Spectest => String::from_str("posix_x86_64_spectest"),
            Platform::PosixX8664Wasi => String::from_str("posix_x86_64_wasi"),
            Platform::Unknown => String::new(),
        }
    }

    /// The C compiler the platform builds with unless told otherwise.
    pub fn default_cc(&self) -> (r: String)
        ensures
            r@ == default_cc(*self),
    {
        match self {
            Platform::CKBVMAssemblyScript | Platform::CKBVMSpectest => String::from_str(
                "riscv64-unknown-elf-gcc",
            ),
            Platform::Unknown => String::new(),
            _ => String::from_str("gcc"),
        }
    }
}

impl Config {
    /// `gcc` and `wavm`, for no platform yet.
    pub fn new() -> (r: Config)
        ensures
            r.binary_cc@ == "gcc"@,
            r.binary_wavm@ == "wavm"@,
            r.platform == Platform::Unknown,
    {
        Config {
            binary_cc: String::from_str("gcc"),
            binary_wavm: String::from_str("wavm"),
            platform: Platform::Unknown,
        }
    }
}

impl Default for Config {
    fn default() -> (r: Config)
        ensures
            r.binary_cc@ == "gcc"@,
            r.binary_wavm@ == "wavm"@,
            r.platform == Platform::Unknown,
    {
        Config::new()
    }
}

impl Default for Middle {
    fn default() -> (r: Middle)
        ensures
            r.config.binary_cc@ == "gcc"@,
            r.config.binary_wavm@ == "wavm"@,
            r.config.platform == Platform::Unknown,
            r.file@.len() == 0,
            r.path_prog@.len() == 0,
    {
        Middle::new()
    }
}

impl Middle {
    /// A build with the default configuration and no paths yet.
    pub fn new() -> (r: Middle)
        ensures
            r.config.binary_cc@ == "gcc"@,
            r.config.binary_wavm@ == "wavm"@,
            r.config.platform == Platform::Unknown,
            r.file@.len() == 0,
            r.path_prog@.len() == 0,
    {
        Middle {
            config: Config::new(),
            current_dir: String::new(),
            file: String::new(),
            file_stem: String::new(),
            path_prog: String::new(),
            path_platform_code_folder: String::new(),
            path_platform_common_code_folder: String::new(),
            path_platform_common_wavm_h: String::new(),
            path_platform_common_wasi_h: String::new(),
            path_platform_header: String::new(),
            path_platform_s: String::new(),
            path_platform_lds: None,
            path_object: String::new(),
            path_glue: String::new(),
            path_c: String::new(),
            path_precompiled: String::new(),
            path_output: String::new(),
            dummy: String::new(),
        }
    }

    /// Sets the global configuration of the build.
    pub fn init_config(&mut self, config: Config)
        ensures
            final(self).config == config,
            final(self).file == old(self).file,
            final(self).file_stem == old(self).file_stem,
            final(self).path_prog == old(self).path_prog,
    {
        self.config = config;
    }

    /// Lays out the paths of a build of `file`, whose directory is `dir` and
    /// whose name without extension is `file_stem`: everything goes to
    /// `<dir>/<stem>_build`, the platform's files to its `platform` folder.
    pub fn init_file(&mut self, current_dir: String, file: String, dir: String, file_stem: String)
        requires
            old(self).config.platform != Platform::Unknown,
        ensures
            final(self).config == old(self).config,
            final(self).current_dir@ == current_dir@,
            final(self).file@ == file@,
            final(self).file_stem@ == file_stem@,
            final(self).path_prog@ == join_path(dir@, file_stem@ + "_build"@),
            final(self).path_platform_code_folder@ == join_path(
                final(self).path_prog@,
                "platform"@,
            ),
            final(self).path_platform_common_code_folder@ == join_path(
                final(self).path_platform_code_folder@,
                "common"@,
            ),
            final(self).path_platform_header@ == join_path(
                final(self).path_platform_code_folder@,
                platform_name(old(self).config.platform) + ".h"@,
            ),
            final(self).path_platform_s@ == join_path(
                final(self).path_platform_code_folder@,
                platform_name(old(self).config.platform) + "_runtime.S"@,
            ),
            match final(self).path_platform_lds {
                Some(p) => has_linker_script(old(self).config.platform) && p@ == join_path(
                    final(self).path_platform_code_folder@,
                    platform_name(old(self).config.platform) + ".lds"@,
                ),
                None => !has_linker_script(old(self).config.platform),
            },
            final(self).path_object@ == join_path(final(self).path_prog@, file_stem@ + ".o"@),
            final(self).path_glue@ == join_path(final(self).path_prog@, file_stem@ + "_glue.h"@),
            final(self).path_c@ == join_path(final(self).path_prog@, file_stem@ + ".c"@),
            final(self).path_precompiled@ == join_path(
                final(self).path_prog@,
                file_stem@ + "_precompiled.wasm"@,
            ),
            final(self).path_output@ == join_path(final(self).path_prog@, file_stem@),
            final(self).path_platform_common_wavm_h@ == join_path(
                final(self).path_platform_common_code_folder@,
                "wavm.h"@,
            ),
            final(self).path_platform_common_wasi_h@ == join_path(
                final(self).path_platform_common_code_folder@,
                "wasi.h"@,
            ),
    {
        self.current_dir = current_dir;
        self.path_prog = join(&dir, &suffixed(&file_stem, "_build"));
        self.path_platform_code_folder = join(&self.path_prog, &String::from_str("platform"));
        self.path_platform_common_code_folder = join(
            &self.path_platform_code_folder,
            &String::from_str("common"),
        );
        let name = self.config.platform.name();
        self.path_platform_header = join(&self.path_platform_code_folder, &suffixed(&name, ".h"));
        self.path_platform_s = join(
            &self.path_platform_code_folder,
            &suffixed(&name, "_runtime.S"),
        );
        self.path_platform_lds = if self.config.platform == Platform::CKBVMAssemblyScript
            || self.config.platform == Platform::CKBVMSpectest {
            Some(join(&self.path_platform_code_folder, &suffixed(&name, ".lds")))
        } else {
            None
        };
        self.path_object = join(&self.path_prog, &suffixed(&file_stem, ".o"));
        self.path_glue = join(&self.path_prog, &suffixed(&file_stem, "_glue.h"));
        self.path_c = join(&self.path_prog, &suffixed(&file_stem, ".c"));
        self.path_precompiled = join(&self.path_prog, &suffixed(&file_stem, "_precompiled.wasm"));
        self.path_output = join(&self.path_prog, &file_stem);
        self.path_platform_common_wavm_h = join(
            &self.path_platform_common_code_folder,
            &String::from_str("wavm.h"),
        );
        self.path_platform_common_wasi_h = join(
            &self.path_platform_common_code_folder,
            &String::from_str("wasi.h"),
        );
        self.file = file;
        self.file_stem = file_stem;
    }
}

/// Names the C file of a test driver: `<stem>.c` in the build folder.
pub fn init(middle: &mut Middle)
    ensures
        final(middle).dummy@ == join_path(old(middle).path_prog@, old(middle).file_stem@ + ".c"@),
        final(middle).path_prog == old(middle).path_prog,
        final(middle).file_stem == old(middle).file_stem,
        final(middle).config == old(middle).config,
{
    middle.dummy = join(&middle.path_prog, &suffixed(&middle.file_stem, ".c"));
}

} // verus!
