//! The configuration of one generation run, built by chained calls.

use vstd::prelude::*;
use vstd::string::*;
use crate::paths::{join_path, joined_path, lemma_texts_add, lemma_texts_push, texts};
use crate::pipeline::Step;
use crate::run::Run;

verus! {

/// Why a configuration could not be made.
#[derive(Clone, Copy, Debug, PartialEq, Eq, Structural)]
pub enum ConfigError {
    /// The directory of the crate being built is not known.
    MissingManifestDir,
}

/// A builder that says where the schema files are and where the generated
/// code goes. One value describes one run.
#[derive(Debug)]
pub struct GenProtos {
    /// The directory of the crate being built; relative output paths start here.
    pub manifest_dir: String,
    /// Where the generated code is written.
    pub gen_path: String,
    /// Schema files, or directories that hold them, in the order given.
    pub src_paths: Vec<String>,
    /// Further directories the compiler searches, in the order given.
    pub include_paths: Vec<String>,
    /// Whether the bundled extension schema is put on the compiler's search path.
    pub include_extensions: bool,
    /// Whether whatever is at `gen_path` is removed before the run.
    pub cleanup_out_path: bool,
}

impl GenProtos {
    /// The schema sources, as text.
    pub open spec fn sources(&self) -> Seq<Seq<char>> {
        texts(self.src_paths@)
    }

    /// The extra search directories, as text.
    pub open spec fn includes(&self) -> Seq<Seq<char>> {
        texts(self.include_paths@)
    }

    /// The configuration a builder starts from: output in `./gen` under the
    /// manifest directory, no sources, no extra search directories,
    /// extensions on, cleanup off.
    pub open spec fn is_default_for(&self, manifest_dir: Seq<char>) -> bool {
        &&& self.manifest_dir@ == manifest_dir
        &&& self.gen_path@ == joined_path(manifest_dir, "./gen"@)
        &&& self.src_paths@.len() == 0
        &&& self.include_paths@.len() == 0
        &&& self.include_extensions
        &&& !self.cleanup_out_path
    }

    /// Starts a builder for the crate whose manifest lies in `manifest_dir`.
    /// Without that directory there is nothing to resolve the output path
    /// against, and no builder.
    pub fn builder(manifest_dir: Option<String>) -> (made: Result<GenProtos, ConfigError>)
        ensures
            match manifest_dir {
                Some(dir) => made.is_ok() && made.unwrap().is_default_for(dir@),
                None => made == Err::<GenProtos, ConfigError>(ConfigError::MissingManifestDir),
            },
    {
        match manifest_dir {
            None => Err(ConfigError::MissingManifestDir),
            Some(dir) => {
                let gen_path = join_path(dir.as_str(), "./gen");
                Ok(
                    GenProtos {
                        manifest_dir: dir,
                        gen_path,
                        src_paths: Vec::new(),
                        include_paths: Vec::new(),
                        include_extensions: true,
                        cleanup_out_path: false,
                    },
                )
            },
        }
    }

    /// Sets the output path, taken relative to the manifest directory.
    pub fn out_path(self, path: &str) -> (next: GenProtos)
        ensures
            next.gen_path@ == joined_path(self.manifest_dir@, path@),
            next.manifest_dir == self.manifest_dir,
            next.src_paths == self.src_paths,
            next.include_paths == self.include_paths,
            next.include_extensions == self.include_extensions,
            next.cleanup_out_path == self.cleanup_out_path,
    {
        let mut next = self;
        next.gen_path = join_path(next.manifest_dir.as_str(), path);
        next
    }

    /// Sets the output path to `path` as it stands.
    pub fn abs_out_path(self, path: &str) -> (next: GenProtos)
        ensures
            next.gen_path@ == path@,
            next.manifest_dir == self.manifest_dir,
            next.src_paths == self.src_paths,
            next.include_paths == self.include_paths,
            next.include_extensions == self.include_extensions,
            next.cleanup_out_path == self.cleanup_out_path,
    {
        let mut next = self;
        next.gen_path = String::from_str(path);
        next
    }

    /// Adds a schema file, or a directory of schema files, after those
    /// already there.
    pub fn src_path(self, path: &str) -> (next: GenProtos)
        ensures
            next.sources() == self.sources().push(path@),
            next.manifest_dir == self.manifest_dir,
            next.gen_path == self.gen_path,
            next.include_paths == self.include_paths,
            next.include_extensions == self.include_extensions,
            next.cleanup_out_path == self.cleanup_out_path,
    {
        let mut next = self;
        let added = String::from_str(path);
        proof {
            lemma_texts_push(next.src_paths@, added);
        }
        next.src_paths.push(added);
        next
    }

    /// Adds several schema sources, in their order, after those already there.
    pub fn src_paths(self, paths: Vec<String>) -> (next: GenProtos)
        ensures
            next.sources() == self.sources() + texts(paths@),
            next.manifest_dir == self.manifest_dir,
            next.gen_path == self.gen_path,
            next.include_paths == self.include_paths,
            next.include_extensions == self.include_extensions,
            next.cleanup_out_path == self.cleanup_out_path,
    {
        let mut next = self;
        let mut paths = paths;
        proof {
            lemma_texts_add(next.src_paths@, paths@);
        }
        next.src_paths.append(&mut paths);
        next
    }

    /// Adds a directory that the compiler searches for imported schemas. No
    /// code is generated for what lies there.
    pub fn include_path(self, path: &str) -> (next: GenProtos)
        ensures
            next.includes() == self.includes().push(path@),
            next.manifest_dir == self.manifest_dir,
            next.gen_path == self.gen_path,
            next.src_paths == self.src_paths,
            next.include_extensions == self.include_extensions,
            next.cleanup_out_path == self.cleanup_out_path,
    {
        let mut next = self;
        let added = String::from_str(path);
        proof {
            lemma_texts_push(next.include_paths@, added);
        }
        next.include_paths.push(added);
        next
    }

    /// Adds several search directories, in their order, after those already
    /// there.
    pub fn include_paths(self, paths: Vec<String>) -> (next: GenProtos)
        ensures
            next.includes() == self.includes() + texts(paths@),
            next.manifest_dir == self.manifest_dir,
            next.gen_path == self.gen_path,
            next.src_paths == self.src_paths,
            next.include_extensions == self.include_extensions,
            next.cleanup_out_path == self.cleanup_out_path,
    {
        let mut next = self;
        let mut paths = paths;
        proof {
            lemma_texts_add(next.include_paths@, paths@);
        }
        next.include_paths.append(&mut paths);
        next
    }

    /// Says whether the bundled extension schema is put on the compiler's
    /// search path.
    pub fn include_extensions(self, enabled: bool) -> (next: GenProtos)
        ensures
            next.include_extensions == enabled,
            next.manifest_dir == self.manifest_dir,
            next.gen_path == self.gen_path,
            next.src_paths == self.src_paths,
            next.include_paths == self.include_paths,
            next.cleanup_out_path == self.cleanup_out_path,
    {
        let mut next = self;
        next.include_extensions = enabled;
        next
    }

    /// Says whether whatever is at the output path is removed before the run.
    pub fn cleanup_out_path(self, cleanup: bool) -> (next: GenProtos)
        ensures
            next.cleanup_out_path == cleanup,
            next.manifest_dir == self.manifest_dir,
            next.gen_path == self.gen_path,
            next.src_paths == self.src_paths,
            next.include_paths == self.include_paths,
            next.include_extensions == self.include_extensions,
    {
        let mut next = self;
        next.cleanup_out_path = cleanup;
        next
    }

    /// Ends the building and begins the run: the run holds this
    /// configuration, stands at its first step, and has brought nothing yet.
    pub fn gen_protos(self) -> (run: Run)
        ensures
            run.config == self,
            run.step == Step::PrepareOutput,
            run.workspace@.len() == 0,
            run.version@.len() == 0,
            run.files@.len() == 0,
            run.failed_path is None,
            run.failed_code is None,
    {
        Run::begin(self)
    }
}

/// The short way to a run: the default configuration for `manifest_dir` with
/// `src_paths` as its schema sources, begun at once.
pub fn gen_protos(manifest_dir: Option<String>, src_paths: Vec<String>) -> (begun: Result<
    Run,
    ConfigError,
>)
    ensures
        match manifest_dir {
            Some(dir) => {
                &&& begun.is_ok()
                &&& begun.unwrap().step == Step::PrepareOutput
                &&& begun.unwrap().workspace@.len() == 0
                &&& begun.unwrap().version@.len() == 0
                &&& begun.unwrap().files@.len() == 0
                &&& begun.unwrap().failed_path is None
                &&& begun.unwrap().failed_code is None
                &&& begun.unwrap().config.manifest_dir@ == dir@
                &&& begun.unwrap().config.gen_path@ == joined_path(dir@, "./gen"@)
                &&& begun.unwrap().config.sources() == texts(src_paths@)
                &&& begun.unwrap().config.includes().len() == 0
                &&& begun.unwrap().config.include_extensions
                &&& !begun.unwrap().config.cleanup_out_path
            },
            None => begun is Err && begun.unwrap_err() == ConfigError::MissingManifestDir,
        },
{
    match GenProtos::builder(manifest_dir) {
        Err(e) => Err(e),
        Ok(config) => {
            proof {
                assert(config.sources() + texts(src_paths@) =~= texts(src_paths@));
            }
            Ok(config.src_paths(src_paths).gen_protos())
        },
    }
}

} // verus!
