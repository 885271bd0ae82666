//! The texts the scaffolder writes: per-directory module-declaration
//! content selected by the directory's leaf name, the package
//! manifest, and the root module that wires the three layers together.

use vstd::prelude::*;
use vstd::string::StringExecFns;
use crate::strutil::str_eq;

verus! {

/// Module-declaration content for a `domain` directory.
pub open spec fn domain_mod_text() -> Seq<char> {
    "pub mod aggregates;\npub mod entities;\npub mod errors;\npub mod events;\npub mod value_objects;\n"@
}

/// Module-declaration content for an `application` directory.
pub open spec fn application_mod_text() -> Seq<char> {
    "pub mod commands;\npub mod errors;\npub mod policies;\npub mod ports;\npub mod results;\npub mod use_cases;\n"@
}

/// Module-declaration content for a `ports` directory.
pub open spec fn ports_mod_text() -> Seq<char> {
    "pub mod inbound;\npub mod outbound;\n"@
}

/// Module-declaration content for an `infrastructure` directory.
pub open spec fn infrastructure_mod_text() -> Seq<char> {
    "pub mod persistence;\n"@
}

/// Module-declaration content for every other directory.
pub open spec fn placeholder_mod_text() -> Seq<char> {
    "// module\n"@
}

/// The content-selection table: module-declaration content keyed by a
/// directory's leaf name, with the generic placeholder as default.
pub open spec fn mod_content_for(leaf: Seq<char>) -> Seq<char> {
    if leaf == "domain"@ {
        domain_mod_text()
    } else if leaf == "application"@ {
        application_mod_text()
    } else if leaf == "ports"@ {
        ports_mod_text()
    } else if leaf == "infrastructure"@ {
        infrastructure_mod_text()
    } else {
        placeholder_mod_text()
    }
}

/// The package manifest for a context named `name`: package section
/// with a fixed version and edition, then an empty dependency section.
pub open spec fn manifest_text(name: Seq<char>) -> Seq<char> {
    "[package]\nname = \""@ + name
        + "\"\nversion = \"0.1.0\"\nedition = \"2024\"\n\n[dependencies]\n"@
}

/// The root module file: the three top-level layers, in order.
pub open spec fn root_module_text() -> Seq<char> {
    "pub mod domain;\npub mod application;\npub mod infrastructure;\n"@
}

/// Module-declaration content for the directory whose leaf name is
/// `leaf`, per the content-selection table.
pub fn mod_file_content(leaf: &str) -> (r: String)
    ensures
        r@ == mod_content_for(leaf@),
{
    if str_eq(leaf, "domain") {
        String::from_str(
            "pub mod aggregates;\npub mod entities;\npub mod errors;\npub mod events;\npub mod value_objects;\n",
        )
    } else if str_eq(leaf, "application") {
        String::from_str(
            "pub mod commands;\npub mod errors;\npub mod policies;\npub mod ports;\npub mod results;\npub mod use_cases;\n",
        )
    } else if str_eq(leaf, "ports") {
        String::from_str("pub mod inbound;\npub mod outbound;\n")
    } else if str_eq(leaf, "infrastructure") {
        String::from_str("pub mod persistence;\n")
    } else {
        String::from_str("// module\n")
    }
}

/// The package manifest for a context named `name`.
pub fn manifest_content(name: &str) -> (r: String)
    ensures
        r@ == manifest_text(name@),
{
    let mut s = String::from_str("[package]\nname = \"");
    s.append(name);
    s.append("\"\nversion = \"0.1.0\"\nedition = \"2024\"\n\n[dependencies]\n");
    proof {
        assert(s@ =~= manifest_text(name@));
    }
    s
}

/// The root module file content.
pub fn root_module_content() -> (r: String)
    ensures
        r@ == root_module_text(),
{
    String::from_str("pub mod domain;\npub mod application;\npub mod infrastructure;\n")
}

} // verus!
