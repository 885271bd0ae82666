//! Laws of the scaffold plan, stated over the plan's own contract:
//! which concrete content each of the seventeen module-declaration
//! files carries, and that the template paths are pairwise distinct.

use vstd::prelude::*;
use crate::content::application_mod_text;
use crate::content::domain_mod_text;
use crate::content::infrastructure_mod_text;
use crate::content::mod_content_for;
use crate::content::placeholder_mod_text;
use crate::content::ports_mod_text;
use crate::plan::plan_matches;
use crate::plan::ScaffoldPlan;
use crate::strutil::leaf_of;
use crate::strutil::lemma_leaf_after_slash;
use crate::template::template_paths;

verus! {

/// The leaf name of each concrete template path.
pub proof fn lemma_template_leaves()
    ensures
        leaf_of(template_paths()[0]) == "domain"@,
        leaf_of(template_paths()[1]) == "aggregates"@,
        leaf_of(template_paths()[2]) == "entities"@,
        leaf_of(template_paths()[3]) == "errors"@,
        leaf_of(template_paths()[4]) == "events"@,
        leaf_of(template_paths()[5]) == "value_objects"@,
        leaf_of(template_paths()[6]) == "application"@,
        leaf_of(template_paths()[7]) == "commands"@,
        leaf_of(template_paths()[8]) == "errors"@,
        leaf_of(template_paths()[9]) == "policies"@,
        leaf_of(template_paths()[10]) == "ports"@,
        leaf_of(template_paths()[11]) == "inbound"@,
        leaf_of(template_paths()[12]) == "outbound"@,
        leaf_of(template_paths()[13]) == "results"@,
        leaf_of(template_paths()[14]) == "use_cases"@,
        leaf_of(template_paths()[15]) == "infrastructure"@,
        leaf_of(template_paths()[16]) == "persistence"@,
{
    reveal_strlit("src/domain");
    reveal_strlit("src/domain/aggregates");
    reveal_strlit("src/domain/entities");
    reveal_strlit("src/domain/errors");
    reveal_strlit("src/domain/events");
    reveal_strlit("src/domain/value_objects");
    reveal_strlit("src/application");
    reveal_strlit("src/application/commands");
    reveal_strlit("src/application/errors");
    reveal_strlit("src/application/policies");
    reveal_strlit("src/application/ports");
    reveal_strlit("src/application/ports/inbound");
    reveal_strlit("src/application/ports/outbound");
    reveal_strlit("src/application/results");
    reveal_strlit("src/application/use_cases");
    reveal_strlit("src/infrastructure");
    reveal_strlit("src/infrastructure/persistence");
    reveal_strlit("domain");
    reveal_strlit("aggregates");
    reveal_strlit("entities");
    reveal_strlit("errors");
    reveal_strlit("events");
    reveal_strlit("value_objects");
    reveal_strlit("application");
    reveal_strlit("commands");
    reveal_strlit("policies");
    reveal_strlit("ports");
    reveal_strlit("inbound");
    reveal_strlit("outbound");
    reveal_strlit("results");
    reveal_strlit("use_cases");
    reveal_strlit("infrastructure");
    reveal_strlit("persistence");
    lemma_leaf_after_slash("src/domain"@, 3);
    assert("src/domain"@.subrange(4, 10) =~= "domain"@);
    lemma_leaf_after_slash("src/domain/aggregates"@, 10);
    assert("src/domain/aggregates"@.subrange(11, 21) =~= "aggregates"@);
    lemma_leaf_after_slash("src/domain/entities"@, 10);
    assert("src/domain/entities"@.subrange(11, 19) =~= "entities"@);
    lemma_leaf_after_slash("src/domain/errors"@, 10);
    assert("src/domain/errors"@.subrange(11, 17) =~= "errors"@);
    lemma_leaf_after_slash("src/domain/events"@, 10);
    assert("src/domain/events"@.subrange(11, 17) =~= "events"@);
    lemma_leaf_after_slash("src/domain/value_objects"@, 10);
    assert("src/domain/value_objects"@.subrange(11, 24) =~= "value_objects"@);
    lemma_leaf_after_slash("src/application"@, 3);
    assert("src/application"@.subrange(4, 15) =~= "application"@);
    lemma_leaf_after_slash("src/application/commands"@, 15);
    assert("src/application/commands"@.subrange(16, 24) =~= "commands"@);
    lemma_leaf_after_slash("src/application/errors"@, 15);
    assert("src/application/errors"@.subrange(16, 22) =~= "errors"@);
    lemma_leaf_after_slash("src/application/policies"@, 15);
    assert("src/application/policies"@.subrange(16, 24) =~= "policies"@);
    lemma_leaf_after_slash("src/application/ports"@, 15);
    assert("src/application/ports"@.subrange(16, 21) =~= "ports"@);
    lemma_leaf_after_slash("src/application/ports/inbound"@, 21);
    assert("src/application/ports/inbound"@.subrange(22, 29) =~= "inbound"@);
    lemma_leaf_after_slash("src/application/ports/outbound"@, 21);
    assert("src/application/ports/outbound"@.subrange(22, 30) =~= "outbound"@);
    lemma_leaf_after_slash("src/application/results"@, 15);
    assert("src/application/results"@.subrange(16, 23) =~= "results"@);
    lemma_leaf_after_slash("src/application/use_cases"@, 15);
    assert("src/application/use_cases"@.subrange(16, 25) =~= "use_cases"@);
    lemma_leaf_after_slash("src/infrastructure"@, 3);
    assert("src/infrastructure"@.subrange(4, 18) =~= "infrastructure"@);
    lemma_leaf_after_slash("src/infrastructure/persistence"@, 18);
    assert("src/infrastructure/persistence"@.subrange(19, 30) =~= "persistence"@);
}

/// The content-selection table on each leaf name that occurs in the
/// template: the four layer names select their re-export lines, the
/// twelve other leaf names select the generic placeholder line.
proof fn lemma_table_on_template_leaves()
    ensures
        mod_content_for("domain"@) == domain_mod_text(),
        mod_content_for("application"@) == application_mod_text(),
        mod_content_for("ports"@) == ports_mod_text(),
        mod_content_for("infrastructure"@) == infrastructure_mod_text(),
        mod_content_for("aggregates"@) == placeholder_mod_text(),
        mod_content_for("entities"@) == placeholder_mod_text(),
        mod_content_for("errors"@) == placeholder_mod_text(),
        mod_content_for("events"@) == placeholder_mod_text(),
        mod_content_for("value_objects"@) == placeholder_mod_text(),
        mod_content_for("commands"@) == placeholder_mod_text(),
        mod_content_for("policies"@) == placeholder_mod_text(),
        mod_content_for("inbound"@) == placeholder_mod_text(),
        mod_content_for("outbound"@) == placeholder_mod_text(),
        mod_content_for("results"@) == placeholder_mod_text(),
        mod_content_for("use_cases"@) == placeholder_mod_text(),
        mod_content_for("persistence"@) == placeholder_mod_text(),
{
    reveal_strlit("domain");
    reveal_strlit("application");
    reveal_strlit("ports");
    reveal_strlit("infrastructure");
    reveal_strlit("aggregates");
    reveal_strlit("entities");
    reveal_strlit("errors");
    reveal_strlit("events");
    reveal_strlit("value_objects");
    reveal_strlit("commands");
    reveal_strlit("policies");
    reveal_strlit("inbound");
    reveal_strlit("outbound");
    reveal_strlit("results");
    reveal_strlit("use_cases");
    reveal_strlit("persistence");
    assert("domain"@.len() == 6);
    assert("application"@.len() == 11);
    assert("ports"@.len() == 5);
    assert("infrastructure"@.len() == 14);
    assert("aggregates"@.len() == 10);
    assert("entities"@.len() == 8);
    assert("errors"@.len() == 6);
    assert("events"@.len() == 6);
    assert("value_objects"@.len() == 13);
    assert("commands"@.len() == 8);
    assert("policies"@.len() == 8);
    assert("inbound"@.len() == 7);
    assert("outbound"@.len() == 8);
    assert("results"@.len() == 7);
    assert("use_cases"@.len() == 9);
    assert("persistence"@.len() == 11);
    assert("application"@ != "domain"@);
    assert("ports"@ != "domain"@ && "ports"@ != "application"@);
    assert("infrastructure"@ != "domain"@ && "infrastructure"@ != "application"@
        && "infrastructure"@ != "ports"@);
    assert("aggregates"@ != "domain"@ && "aggregates"@ != "application"@ && "aggregates"@
        != "ports"@ && "aggregates"@ != "infrastructure"@);
    assert("entities"@ != "domain"@ && "entities"@ != "application"@ && "entities"@ != "ports"@
        && "entities"@ != "infrastructure"@);
    assert("errors"@[0] != "domain"@[0]);
    assert("errors"@ != "domain"@ && "errors"@ != "application"@ && "errors"@ != "ports"@
        && "errors"@ != "infrastructure"@);
    assert("events"@[0] != "domain"@[0]);
    assert("events"@ != "domain"@ && "events"@ != "application"@ && "events"@ != "ports"@
        && "events"@ != "infrastructure"@);
    assert("value_objects"@ != "domain"@ && "value_objects"@ != "application"@ && "value_objects"@
        != "ports"@ && "value_objects"@ != "infrastructure"@);
    assert("commands"@ != "domain"@ && "commands"@ != "application"@ && "commands"@ != "ports"@
        && "commands"@ != "infrastructure"@);
    assert("policies"@ != "domain"@ && "policies"@ != "application"@ && "policies"@ != "ports"@
        && "policies"@ != "infrastructure"@);
    assert("inbound"@ != "domain"@ && "inbound"@ != "application"@ && "inbound"@ != "ports"@
        && "inbound"@ != "infrastructure"@);
    assert("outbound"@ != "domain"@ && "outbound"@ != "application"@ && "outbound"@ != "ports"@
        && "outbound"@ != "infrastructure"@);
    assert("results"@ != "domain"@ && "results"@ != "application"@ && "results"@ != "ports"@
        && "results"@ != "infrastructure"@);
    assert("use_cases"@ != "domain"@ && "use_cases"@ != "application"@ && "use_cases"@ != "ports"@
        && "use_cases"@ != "infrastructure"@);
    assert("persistence"@[0] != "application"@[0]);
    assert("persistence"@ != "domain"@ && "persistence"@ != "application"@ && "persistence"@
        != "ports"@ && "persistence"@ != "infrastructure"@);
}

/// Law: in any plan that meets the plan contract, the `domain`,
/// `application`, `ports` and `infrastructure` directories carry
/// their layer's re-export lines, and every other directory carries
/// the generic placeholder line.
pub proof fn lemma_plan_contents(plan: ScaffoldPlan, name: Seq<char>)
    requires
        plan_matches(plan, name),
    ensures
        plan.mod_files@[0].content@ == domain_mod_text(),
        plan.mod_files@[1].content@ == placeholder_mod_text(),
        plan.mod_files@[2].content@ == placeholder_mod_text(),
        plan.mod_files@[3].content@ == placeholder_mod_text(),
        plan.mod_files@[4].content@ == placeholder_mod_text(),
        plan.mod_files@[5].content@ == placeholder_mod_text(),
        plan.mod_files@[6].content@ == application_mod_text(),
        plan.mod_files@[7].content@ == placeholder_mod_text(),
        plan.mod_files@[8].content@ == placeholder_mod_text(),
        plan.mod_files@[9].content@ == placeholder_mod_text(),
        plan.mod_files@[10].content@ == ports_mod_text(),
        plan.mod_files@[11].content@ == placeholder_mod_text(),
        plan.mod_files@[12].content@ == placeholder_mod_text(),
        plan.mod_files@[13].content@ == placeholder_mod_text(),
        plan.mod_files@[14].content@ == placeholder_mod_text(),
        plan.mod_files@[15].content@ == infrastructure_mod_text(),
        plan.mod_files@[16].content@ == placeholder_mod_text(),
{
    lemma_template_leaves();
    lemma_table_on_template_leaves();
}

/// Law: the seventeen template paths are pairwise distinct, so the
/// plan never aims two directories, nor two module-declaration
/// files, at one path.
#[verifier::rlimit(60)]
pub proof fn lemma_template_paths_distinct()
    ensures
        forall|i: int, j: int|
            0 <= i < j < template_paths().len() ==> template_paths()[i] != template_paths()[j],
{
    reveal_strlit("src/domain");
    reveal_strlit("src/domain/aggregates");
    reveal_strlit("src/domain/entities");
    reveal_strlit("src/domain/errors");
    reveal_strlit("src/domain/events");
    reveal_strlit("src/domain/value_objects");
    reveal_strlit("src/application");
    reveal_strlit("src/application/commands");
    reveal_strlit("src/application/errors");
    reveal_strlit("src/application/policies");
    reveal_strlit("src/application/ports");
    reveal_strlit("src/application/ports/inbound");
    reveal_strlit("src/application/ports/outbound");
    reveal_strlit("src/application/results");
    reveal_strlit("src/application/use_cases");
    reveal_strlit("src/infrastructure");
    reveal_strlit("src/infrastructure/persistence");
    assert("src/domain"@.len() == 10);
    assert("src/domain/aggregates"@.len() == 21);
    assert("src/domain/entities"@.len() == 19);
    assert("src/domain/errors"@.len() == 17);
    assert("src/domain/events"@.len() == 17);
    assert("src/domain/value_objects"@.len() == 24);
    assert("src/application"@.len() == 15);
    assert("src/application/commands"@.len() == 24);
    assert("src/application/errors"@.len() == 22);
    assert("src/application/policies"@.len() == 24);
    assert("src/application/ports"@.len() == 21);
    assert("src/application/ports/inbound"@.len() == 29);
    assert("src/application/ports/outbound"@.len() == 30);
    assert("src/application/results"@.len() == 23);
    assert("src/application/use_cases"@.len() == 25);
    assert("src/infrastructure"@.len() == 18);
    assert("src/infrastructure/persistence"@.len() == 30);
    assert("src/domain/errors"@[12] != "src/domain/events"@[12]);
    assert("src/domain/errors"@ != "src/domain/events"@);
    assert("src/domain/aggregates"@[4] != "src/application/ports"@[4]);
    assert("src/domain/aggregates"@ != "src/application/ports"@);
    assert("src/domain/value_objects"@[4] != "src/application/commands"@[4]);
    assert("src/domain/value_objects"@ != "src/application/commands"@);
    assert("src/domain/value_objects"@[4] != "src/application/policies"@[4]);
    assert("src/domain/value_objects"@ != "src/application/policies"@);
    assert("src/application/commands"@[16] != "src/application/policies"@[16]);
    assert("src/application/commands"@ != "src/application/policies"@);
    assert("src/application/ports/outbound"@[4] != "src/infrastructure/persistence"@[4]);
    assert("src/application/ports/outbound"@ != "src/infrastructure/persistence"@);
}

} // verus!
