use vstd::prelude::*;

use crate::ids::CreateConfig;

verus! {

/// One configured bundle: a name, a source directory relative to the
/// session directory, the glob patterns selecting its source files, and
/// the artifact's destination extension.
pub struct FileBundle {
    pub bundle_name: String,
    pub src_dir: String,
    pub src_globs: Vec<String>,
    pub dst_ext: String,
}

/// The session configuration, loaded once per session from the session
/// directory.
pub struct Config {
    pub name: String,
    pub model: String,
    pub instructions_file: String,
    pub file_bundles: Vec<FileBundle>,
}

impl CreateConfig {
    /// The creation request a configuration gives rise to: its name and
    /// model.
    pub fn from_config(config: &Config) -> (r: CreateConfig)
        ensures
            r.name@ == config.name@,
            r.model@ == config.model@,
    {
        CreateConfig { name: config.name.clone(), model: config.model.clone() }
    }
}

} // verus!
