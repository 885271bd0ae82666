//! The scaffold plan: the complete, ordered description of what a
//! successful run materializes under the context's base directory.
//! The caller creates each directory of `dirs` (with parents, in
//! order), then writes each file: one guarded module-declaration file
//! per directory, the package manifest, and the root module file.

use vstd::prelude::*;
use vstd::string::StringExecFns;
use crate::content::manifest_content;
use crate::content::manifest_text;
use crate::content::mod_content_for;
use crate::content::mod_file_content;
use crate::content::root_module_content;
use crate::content::root_module_text;
use crate::strutil::leaf_name;
use crate::strutil::leaf_of;
use crate::template::template_dirs;
use crate::template::template_paths;

verus! {

/// One file to write, relative to the context's base directory. When
/// `if_absent` holds, the file is written only where none exists at
/// `path`; an existing file is left byte-for-byte untouched.
pub struct FileSpec {
    pub path: String,
    pub content: String,
    pub if_absent: bool,
}

/// Everything a successful run creates under the base directory:
/// the template directories, their module-declaration files, the
/// package manifest, and the root module file.
pub struct ScaffoldPlan {
    pub dirs: Vec<String>,
    pub mod_files: Vec<FileSpec>,
    pub manifest: FileSpec,
    pub root_module: FileSpec,
}

/// What the plan for a context named `name` says: all seventeen
/// template directories; for each, a guarded module-declaration file
/// whose content the directory's leaf name selects; the manifest
/// naming the package `name`; and the root module declaring the three
/// top-level layers.
pub open spec fn plan_matches(plan: ScaffoldPlan, name: Seq<char>) -> bool {
    &&& plan.dirs@.len() == template_paths().len()
    &&& (forall|i: int| 0 <= i < plan.dirs@.len() ==> plan.dirs@[i]@ == template_paths()[i])
    &&& plan.mod_files@.len() == template_paths().len()
    &&& (forall|i: int|
        0 <= i < plan.mod_files@.len() ==> plan.mod_files@[i].path@ == template_paths()[i]
            + "/mod.rs"@)
    &&& (forall|i: int|
        0 <= i < plan.mod_files@.len() ==> plan.mod_files@[i].content@ == mod_content_for(
            leaf_of(template_paths()[i]),
        ))
    &&& (forall|i: int| 0 <= i < plan.mod_files@.len() ==> plan.mod_files@[i].if_absent)
    &&& plan.manifest.path@ == "Cargo.toml"@
    &&& plan.manifest.content@ == manifest_text(name)
    &&& !plan.manifest.if_absent
    &&& plan.root_module.path@ == "src/lib.rs"@
    &&& plan.root_module.content@ == root_module_text()
    &&& !plan.root_module.if_absent
}

/// The scaffold plan for a context named `name`.
pub fn scaffold_plan(name: &str) -> (r: ScaffoldPlan)
    ensures
        plan_matches(r, name@),
{
    let dirs = template_dirs();
    let mut mod_files: Vec<FileSpec> = Vec::new();
    let mut i: usize = 0;
    while i < dirs.len()
        invariant
            dirs@.len() == template_paths().len(),
            forall|k: int| 0 <= k < dirs@.len() ==> dirs@[k]@ == template_paths()[k],
            i <= dirs@.len(),
            mod_files@.len() == i,
            forall|k: int|
                0 <= k < i ==> mod_files@[k].path@ == template_paths()[k] + "/mod.rs"@,
            forall|k: int|
                0 <= k < i ==> mod_files@[k].content@ == mod_content_for(
                    leaf_of(template_paths()[k]),
                ),
            forall|k: int| 0 <= k < i ==> mod_files@[k].if_absent,
        decreases dirs@.len() - i,
    {
        let dir: &String = &dirs[i];
        let leaf = leaf_name(dir.as_str());
        let content = mod_file_content(leaf);
        let mut path = dir.clone();
        path.append("/mod.rs");
        mod_files.push(FileSpec { path, content, if_absent: true });
        i = i + 1;
    }
    ScaffoldPlan {
        dirs,
        mod_files,
        manifest: FileSpec {
            path: String::from_str("Cargo.toml"),
            content: manifest_content(name),
            if_absent: false,
        },
        root_module: FileSpec {
            path: String::from_str("src/lib.rs"),
            content: root_module_content(),
            if_absent: false,
        },
    }
}

} // verus!
