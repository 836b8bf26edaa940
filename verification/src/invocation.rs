//! The external commands of a run, as values: which program, which
//! arguments in which order, and which search path the program is given.
//! Nothing here starts a process.

use vstd::prelude::*;
use vstd::string::*;
use crate::config::GenProtos;
use crate::paths::{join_path, joined_path, lemma_texts_add, lemma_texts_push, texts};

verus! {

/// The kind of system a run takes place on: it decides how the interpreter
/// and the isolated environment's executables are called.
#[derive(Clone, Copy, Debug, PartialEq, Eq, Structural)]
pub enum Platform {
    Unix,
    Windows,
}

/// One call of an external program.
#[derive(Debug)]
pub struct Invocation {
    /// The program, by name or by path.
    pub program: String,
    /// Its arguments, in order.
    pub args: Vec<String>,
    /// The directories of the search path that the program is started with,
    /// first to last; `None` leaves the caller's own in place.
    pub search_path: Option<Vec<String>>,
    /// Whether what the program prints is kept for the caller rather than
    /// passed through.
    pub capture: bool,
}

/// A call of an external program as plain values.
pub struct Command {
    pub program: Seq<char>,
    pub arguments: Seq<Seq<char>>,
    pub searched: Option<Seq<Seq<char>>>,
    pub captured: bool,
}

impl View for Invocation {
    type V = Command;

    open spec fn view(&self) -> Command {
        Command {
            program: self.program@,
            arguments: texts(self.args@),
            searched: match self.search_path {
                Some(dirs) => Some(texts(dirs@)),
                None => None,
            },
            captured: self.capture,
        }
    }
}

/// The interpreter that creates the isolated environment.
pub open spec fn interpreter_name(platform: Platform) -> Seq<char> {
    match platform {
        Platform::Unix => "python3"@,
        Platform::Windows => "python.exe"@,
    }
}

/// The name of the directory in which an isolated environment keeps its
/// executables.
pub open spec fn bin_dir_name(platform: Platform) -> Seq<char> {
    match platform {
        Platform::Unix => "bin"@,
        Platform::Windows => "Scripts"@,
    }
}

/// The interpreter inside the isolated environment.
pub open spec fn environment_interpreter_name(platform: Platform) -> Seq<char> {
    match platform {
        Platform::Unix => "python"@,
        Platform::Windows => "python.exe"@,
    }
}

/// The installer inside the isolated environment.
pub open spec fn installer_name(platform: Platform) -> Seq<char> {
    match platform {
        Platform::Unix => "pip"@,
        Platform::Windows => "pip.exe"@,
    }
}

/// The isolated environment's directory inside `workspace`.
pub open spec fn environment_path(workspace: Seq<char>) -> Seq<char> {
    joined_path(workspace, ".codegen_venv"@)
}

/// The directory of the isolated environment's executables. `platform`
/// decides the directory's name only: the path is joined by the rules of the
/// system that the crate is built for, whatever `platform` says.
pub open spec fn environment_bin_path(platform: Platform, workspace: Seq<char>) -> Seq<char> {
    joined_path(environment_path(workspace), bin_dir_name(platform))
}

/// One `-I` flag for each directory, each followed by its directory, in the
/// directories' order.
pub open spec fn search_flags(dirs: Seq<Seq<char>>) -> Seq<Seq<char>> {
    Seq::new(
        2 * dirs.len(),
        |i: int|
            if i % 2 == 0 {
                "-I"@
            } else {
                dirs[i / 2]
            },
    )
}

/// The arguments of the compiler run that generates the bindings: the
/// sources as search directories, then the workspace if extensions are
/// wanted, then the extra search directories, then the output directory,
/// then the schema files.
pub open spec fn binding_arguments(
    sources: Seq<Seq<char>>,
    extensions: bool,
    workspace: Seq<char>,
    extra: Seq<Seq<char>>,
    output: Seq<char>,
    files: Seq<Seq<char>>,
) -> Seq<Seq<char>> {
    search_flags(sources) + (if extensions {
        seq!["-I"@, workspace]
    } else {
        Seq::empty()
    }) + search_flags(extra) + seq!["--rust_out"@, output] + files
}

/// The call that asks the compiler for its version.
pub open spec fn version_query_command() -> Command {
    Command { program: "protoc"@, arguments: seq!["--version"@], searched: None, captured: true }
}

/// The call that creates the isolated environment inside `workspace`.
pub open spec fn create_environment_command(platform: Platform, workspace: Seq<char>) -> Command {
    Command {
        program: interpreter_name(platform),
        arguments: seq!["-m"@, "venv"@, environment_path(workspace)],
        searched: None,
        captured: false,
    }
}

/// The call that brings the environment's installer up to date and installs
/// the support library in exactly `version`.
pub open spec fn install_support_command(
    platform: Platform,
    workspace: Seq<char>,
    version: Seq<char>,
) -> Command {
    Command {
        program: joined_path(
            environment_bin_path(platform, workspace),
            environment_interpreter_name(platform),
        ),
        arguments: seq![
            "-m"@,
            "pip"@,
            "install"@,
            "--upgrade"@,
            "pip"@,
            "protobuf=="@ + version,
        ],
        searched: None,
        captured: false,
    }
}

/// The call that installs the package at the workspace root into the
/// environment, in editable mode.
pub open spec fn install_package_command(platform: Platform, workspace: Seq<char>) -> Command {
    Command {
        program: joined_path(environment_bin_path(platform, workspace), installer_name(platform)),
        arguments: seq!["install"@, "-e"@, workspace],
        searched: None,
        captured: false,
    }
}

/// The first compiler run: the bundled extension schema, searched for in
/// the workspace alone, compiled for the preprocessing script into the
/// workspace's `proto` directory, with `search_path` as the program's
/// search path.
pub open spec fn compile_extensions_command(
    workspace: Seq<char>,
    search_path: Seq<Seq<char>>,
) -> Command {
    Command {
        program: "protoc"@,
        arguments: seq![
            "-I"@,
            workspace,
            "--python_out"@,
            joined_path(workspace, "proto"@),
            joined_path(joined_path(workspace, "rust"@), "extensions.proto"@),
        ],
        searched: Some(search_path),
        captured: false,
    }
}

/// The second compiler run: bindings for `files`, written to the configured
/// output directory, with `search_path` as the program's search path.
pub open spec fn generate_bindings_command(
    config: GenProtos,
    workspace: Seq<char>,
    search_path: Seq<Seq<char>>,
    files: Seq<Seq<char>>,
) -> Command {
    Command {
        program: "protoc"@,
        arguments: binding_arguments(
            config.sources(),
            config.include_extensions,
            workspace,
            config.includes(),
            config.gen_path@,
            files,
        ),
        searched: Some(search_path),
        captured: true,
    }
}

fn bin_dir(platform: Platform) -> (name: &'static str)
    ensures
        name@ == bin_dir_name(platform),
{
    match platform {
        Platform::Unix => "bin",
        Platform::Windows => "Scripts",
    }
}

/// The directory of the isolated environment inside `workspace`.
pub fn environment_dir(workspace: &str) -> (dir: String)
    ensures
        dir@ == environment_path(workspace@),
{
    join_path(workspace, ".codegen_venv")
}

/// The directory in which the isolated environment keeps its executables.
pub fn environment_bin_dir(platform: Platform, workspace: &str) -> (dir: String)
    ensures
        dir@ == environment_bin_path(platform, workspace@),
{
    let venv = join_path(workspace, ".codegen_venv");
    join_path(venv.as_str(), bin_dir(platform))
}

/// The search path for the compiler: the environment's executables first,
/// then the caller's own directories as they were.
pub fn prepend_search_path(bin_dir: String, ambient: Vec<String>) -> (dirs: Vec<String>)
    ensures
        texts(dirs@) == seq![bin_dir@] + texts(ambient@),
{
    let mut dirs: Vec<String> = Vec::new();
    let mut ambient = ambient;
    dirs.push(bin_dir);
    proof {
        lemma_texts_add(dirs@, ambient@);
        assert(texts(dirs@) =~= seq![bin_dir@]);
    }
    dirs.append(&mut ambient);
    dirs
}

/// Asks the compiler for its version.
pub fn version_query() -> (call: Invocation)
    ensures
        call@ == version_query_command(),
{
    let mut args: Vec<String> = Vec::new();
    args.push(String::from_str("--version"));
    proof {
        assert(texts(args@) =~= seq!["--version"@]);
    }
    Invocation { program: String::from_str("protoc"), args, search_path: None, capture: true }
}

/// Creates the isolated environment inside `workspace`.
pub fn create_environment(platform: Platform, workspace: &str) -> (call: Invocation)
    ensures
        call@ == create_environment_command(platform, workspace@),
{
    let program = match platform {
        Platform::Unix => String::from_str("python3"),
        Platform::Windows => String::from_str("python.exe"),
    };
    let mut args: Vec<String> = Vec::new();
    args.push(String::from_str("-m"));
    args.push(String::from_str("venv"));
    args.push(environment_dir(workspace));
    proof {
        assert(texts(args@) =~= seq!["-m"@, "venv"@, environment_path(workspace@)]);
    }
    Invocation { program, args, search_path: None, capture: false }
}

/// Brings the environment's installer up to date and installs the support
/// library in exactly the compiler's `version`.
pub fn install_support(platform: Platform, workspace: &str, version: &str) -> (call: Invocation)
    ensures
        call@ == install_support_command(platform, workspace@, version@),
{
    let bin = environment_bin_dir(platform, workspace);
    let name = match platform {
        Platform::Unix => "python",
        Platform::Windows => "python.exe",
    };
    let mut args: Vec<String> = Vec::new();
    args.push(String::from_str("-m"));
    args.push(String::from_str("pip"));
    args.push(String::from_str("install"));
    args.push(String::from_str("--upgrade"));
    args.push(String::from_str("pip"));
    args.push(String::from_str("protobuf==").concat(version));
    proof {
        assert(texts(args@) =~= seq![
            "-m"@,
            "pip"@,
            "install"@,
            "--upgrade"@,
            "pip"@,
            "protobuf=="@ + version@,
        ]);
    }
    Invocation { program: join_path(bin.as_str(), name), args, search_path: None, capture: false }
}

/// Installs the package at the workspace root into the environment, in
/// editable mode.
pub fn install_package(platform: Platform, workspace: &str) -> (call: Invocation)
    ensures
        call@ == install_package_command(platform, workspace@),
{
    let bin = environment_bin_dir(platform, workspace);
    let name = match platform {
        Platform::Unix => "pip",
        Platform::Windows => "pip.exe",
    };
    let mut args: Vec<String> = Vec::new();
    args.push(String::from_str("install"));
    args.push(String::from_str("-e"));
    args.push(String::from_str(workspace));
    proof {
        assert(texts(args@) =~= seq!["install"@, "-e"@, workspace@]);
    }
    Invocation { program: join_path(bin.as_str(), name), args, search_path: None, capture: false }
}

/// The first compiler run, on the bundled extension schema.
pub fn compile_extensions(workspace: &str, search_path: Vec<String>) -> (call: Invocation)
    ensures
        call@ == compile_extensions_command(workspace@, texts(search_path@)),
{
    let rust_dir = join_path(workspace, "rust");
    let mut args: Vec<String> = Vec::new();
    args.push(String::from_str("-I"));
    args.push(String::from_str(workspace));
    args.push(String::from_str("--python_out"));
    args.push(join_path(workspace, "proto"));
    args.push(join_path(rust_dir.as_str(), "extensions.proto"));
    proof {
        assert(texts(args@) =~= seq![
            "-I"@,
            workspace@,
            "--python_out"@,
            joined_path(workspace@, "proto"@),
            joined_path(joined_path(workspace@, "rust"@), "extensions.proto"@),
        ]);
    }
    Invocation {
        program: String::from_str("protoc"),
        args,
        search_path: Some(search_path),
        capture: false,
    }
}

/// Appends one `-I` flag and its directory for each of `dirs`.
fn push_search_flags(args: &mut Vec<String>, dirs: &Vec<String>)
    ensures
        texts(final(args)@) == texts(old(args)@) + search_flags(texts(dirs@)),
{
    let n = dirs.len();
    let mut i: usize = 0;
    proof {
        assert(texts(args@) =~= texts(old(args)@) + search_flags(texts(dirs@).take(0)));
    }
    while i < n
        invariant
            n == dirs.len(),
            i <= n,
            texts(args@) == texts(old(args)@) + search_flags(texts(dirs@).take(i as int)),
        decreases n - i,
    {
        let flag = String::from_str("-I");
        let dir = dirs[i].clone();
        proof {
            let before = texts(args@);
            lemma_texts_push(args@, flag);
            lemma_texts_push(args@.push(flag), dir);
            let shorter = search_flags(texts(dirs@).take(i as int));
            let longer = search_flags(texts(dirs@).take(i + 1));
            assert(longer =~= shorter + seq!["-I"@, dir@]);
            assert(before.push(flag@).push(dir@) =~= texts(old(args)@) + longer);
        }
        args.push(flag);
        args.push(dir);
        i += 1;
    }
    proof {
        assert(texts(dirs@).take(n as int) =~= texts(dirs@));
    }
}

/// The second compiler run, which generates the bindings for `files`.
pub fn generate_bindings(
    config: &GenProtos,
    workspace: &str,
    search_path: Vec<String>,
    files: Vec<String>,
) -> (call: Invocation)
    ensures
        call@ == generate_bindings_command(*config, workspace@, texts(search_path@), texts(files@)),
{
    let mut args: Vec<String> = Vec::new();
    let mut files = files;
    proof {
        assert(texts(args@) =~= Seq::<Seq<char>>::empty());
    }
    push_search_flags(&mut args, &config.src_paths);
    if config.include_extensions {
        let flag = String::from_str("-I");
        let root = String::from_str(workspace);
        proof {
            lemma_texts_push(args@, flag);
            lemma_texts_push(args@.push(flag), root);
        }
        args.push(flag);
        args.push(root);
    }
    proof {
        assert(texts(args@) =~= search_flags(config.sources()) + (if config.include_extensions {
            seq!["-I"@, workspace@]
        } else {
            Seq::empty()
        }));
    }
    push_search_flags(&mut args, &config.include_paths);
    let flag = String::from_str("--rust_out");
    let output = config.gen_path.clone();
    proof {
        lemma_texts_push(args@, flag);
        lemma_texts_push(args@.push(flag), output);
        lemma_texts_add(args@.push(flag).push(output), files@);
    }
    args.push(flag);
    args.push(output);
    proof {
        assert(texts(args@) =~= search_flags(config.sources()) + (if config.include_extensions {
            seq!["-I"@, workspace@]
        } else {
            Seq::empty()
        }) + search_flags(config.includes()) + seq!["--rust_out"@, config.gen_path@]);
    }
    args.append(&mut files);
    Invocation {
        program: String::from_str("protoc"),
        args,
        search_path: Some(search_path),
        capture: true,
    }
}

/// The search flags name the directories one by one in the order given:
/// twice as many arguments as directories, a `-I` before each directory.
pub proof fn law_search_flags_keep_the_order(dirs: Seq<Seq<char>>)
    ensures
        search_flags(dirs).len() == 2 * dirs.len(),
        forall|i: int|
            0 <= i < dirs.len() ==> search_flags(dirs)[2 * i] == "-I"@ && #[trigger] search_flags(
                dirs,
            )[2 * i + 1] == dirs[i],
{
}

} // verus!
