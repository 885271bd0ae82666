//! The fixed directory template of the layered skeleton: seventeen
//! relative paths covering the domain, application and infrastructure
//! layers.

use vstd::prelude::*;
use vstd::string::StringExecFns;

verus! {

/// The seventeen template-relative directory paths, in creation order.
pub open spec fn template_paths() -> Seq<Seq<char>> {
    seq![
        "src/domain"@,
        "src/domain/aggregates"@,
        "src/domain/entities"@,
        "src/domain/errors"@,
        "src/domain/events"@,
        "src/domain/value_objects"@,
        "src/application"@,
        "src/application/commands"@,
        "src/application/errors"@,
        "src/application/policies"@,
        "src/application/ports"@,
        "src/application/ports/inbound"@,
        "src/application/ports/outbound"@,
        "src/application/results"@,
        "src/application/use_cases"@,
        "src/infrastructure"@,
        "src/infrastructure/persistence"@,
    ]
}

/// The template as executable values, element for element the paths of
/// `template_paths`.
pub fn template_dirs() -> (r: Vec<String>)
    ensures
        r@.len() == template_paths().len(),
        forall|i: int| 0 <= i < r@.len() ==> r@[i]@ == template_paths()[i],
{
    let mut v: Vec<String> = Vec::new();
    v.push(String::from_str("src/domain"));
    v.push(String::from_str("src/domain/aggregates"));
    v.push(String::from_str("src/domain/entities"));
    v.push(String::from_str("src/domain/errors"));
    v.push(String::from_str("src/domain/events"));
    v.push(String::from_str("src/domain/value_objects"));
    v.push(String::from_str("src/application"));
    v.push(String::from_str("src/application/commands"));
    v.push(String::from_str("src/application/errors"));
    v.push(String::from_str("src/application/policies"));
    v.push(String::from_str("src/application/ports"));
    v.push(String::from_str("src/application/ports/inbound"));
    v.push(String::from_str("src/application/ports/outbound"));
    v.push(String::from_str("src/application/results"));
    v.push(String::from_str("src/application/use_cases"));
    v.push(String::from_str("src/infrastructure"));
    v.push(String::from_str("src/infrastructure/persistence"));
    v
}

} // verus!
