//! Where generated files go, and when they are written.

use crate::emit::{lowercase, to_lowercase};
use crate::text::join3;
use vstd::prelude::*;

verus! {

/// The kinds of file that are generated for a model. Each kind is named
/// after what it is generated for: a record of the model, or the project.
#[derive(Debug, Clone, Copy, PartialEq, Eq, Structural)]
pub enum Template {
    Ros2IdlMetaMsg,
    ServiceImplCpp,
    ServiceImplH,
    ServiceMetaH,
    ServiceMetaCpp,
    AgentImplCpp,
    AgentImplH,
    AgentMetaH,
    AgentMetaCpp,
    TeamImplCpp,
    TeamImplH,
    TeamMetaH,
    TeamMetaCpp,
    BeliefMetaH,
    BeliefMetaCpp,
    GoalImplH,
    GoalImplCpp,
    GoalMetaH,
    GoalMetaCpp,
    PlanImplH,
    PlanImplCpp,
    PlanMetaH,
    PlanMetaCpp,
    ProjectH,
    ProjectCpp,
    ProjectCMake,
    MainCpp,
    EnumsMetaH,
    EnumsMetaCpp,
    ResourceMetaH,
    EventMetaJson,
    EntityTemplateMetaJson,
    ModuleH,
    ModuleCpp,
    ServiceComponentsMeta,
}

impl Template {
    /// The directory of the files of the kind, with a slash at its end.
    pub open spec fn spec_directory(self) -> Seq<char> {
        match self {
            Template::Ros2IdlMetaMsg => "meta/msgs/"@,
            Template::ServiceImplCpp => "impl/services/"@,
            Template::ServiceImplH => "impl/services/"@,
            Template::ServiceMetaH => "meta/services/"@,
            Template::ServiceMetaCpp => "meta/services/"@,
            Template::AgentImplCpp => "impl/agents/"@,
            Template::AgentImplH => "impl/agents/"@,
            Template::AgentMetaH => "meta/agents/"@,
            Template::AgentMetaCpp => "meta/agents/"@,
            Template::TeamImplCpp => "impl/teams/"@,
            Template::TeamImplH => "impl/teams/"@,
            Template::TeamMetaH => "meta/teams/"@,
            Template::TeamMetaCpp => "meta/teams/"@,
            Template::BeliefMetaH => "meta/messages/"@,
            Template::BeliefMetaCpp => "meta/messages/"@,
            Template::GoalImplH => "impl/goals/"@,
            Template::GoalImplCpp => "impl/goals/"@,
            Template::GoalMetaH => "meta/goals/"@,
            Template::GoalMetaCpp => "meta/goals/"@,
            Template::PlanImplH => "impl/plans/"@,
            Template::PlanImplCpp => "impl/plans/"@,
            Template::PlanMetaH => "meta/plans/"@,
            Template::PlanMetaCpp => "meta/plans/"@,
            Template::ProjectH => "meta/"@,
            Template::ProjectCpp => "meta/"@,
            Template::ProjectCMake => "meta/"@,
            Template::MainCpp => "impl/"@,
            Template::EnumsMetaH => "meta/"@,
            Template::EnumsMetaCpp => "meta/"@,
            Template::ResourceMetaH => "meta/resources/"@,
            Template::EventMetaJson => "meta/"@,
            Template::EntityTemplateMetaJson => "meta/"@,
            Template::ModuleH => "meta/"@,
            Template::ModuleCpp => "meta/"@,
            Template::ServiceComponentsMeta => "meta/"@,
        }
    }

    /// The directory of the files of the kind, with a slash at its end.
    pub fn directory(self) -> (r: &'static str)
        ensures
            r@ == self.spec_directory(),
    {
        match self {
            Template::Ros2IdlMetaMsg => "meta/msgs/",
            Template::ServiceImplCpp => "impl/services/",
            Template::ServiceImplH => "impl/services/",
            Template::ServiceMetaH => "meta/services/",
            Template::ServiceMetaCpp => "meta/services/",
            Template::AgentImplCpp => "impl/agents/",
            Template::AgentImplH => "impl/agents/",
            Template::AgentMetaH => "meta/agents/",
            Template::AgentMetaCpp => "meta/agents/",
            Template::TeamImplCpp => "impl/teams/",
            Template::TeamImplH => "impl/teams/",
            Template::TeamMetaH => "meta/teams/",
            Template::TeamMetaCpp => "meta/teams/",
            Template::BeliefMetaH => "meta/messages/",
            Template::BeliefMetaCpp => "meta/messages/",
            Template::GoalImplH => "impl/goals/",
            Template::GoalImplCpp => "impl/goals/",
            Template::GoalMetaH => "meta/goals/",
            Template::GoalMetaCpp => "meta/goals/",
            Template::PlanImplH => "impl/plans/",
            Template::PlanImplCpp => "impl/plans/",
            Template::PlanMetaH => "meta/plans/",
            Template::PlanMetaCpp => "meta/plans/",
            Template::ProjectH => "meta/",
            Template::ProjectCpp => "meta/",
            Template::ProjectCMake => "meta/",
            Template::MainCpp => "impl/",
            Template::EnumsMetaH => "meta/",
            Template::EnumsMetaCpp => "meta/",
            Template::ResourceMetaH => "meta/resources/",
            Template::EventMetaJson => "meta/",
            Template::EntityTemplateMetaJson => "meta/",
            Template::ModuleH => "meta/",
            Template::ModuleCpp => "meta/",
            Template::ServiceComponentsMeta => "meta/",
        }
    }

    /// What follows the name in the names of the files of the kind.
    pub open spec fn spec_ending(self) -> Seq<char> {
        match self {
            Template::Ros2IdlMetaMsg => ".msg"@,
            Template::ServiceImplCpp => "impl.cpp"@,
            Template::ServiceImplH => "impl.h"@,
            Template::ServiceMetaH => "meta.h"@,
            Template::ServiceMetaCpp => "meta.cpp"@,
            Template::AgentImplCpp => "impl.cpp"@,
            Template::AgentImplH => "impl.h"@,
            Template::AgentMetaH => "meta.h"@,
            Template::AgentMetaCpp => "meta.cpp"@,
            Template::TeamImplCpp => "impl.cpp"@,
            Template::TeamImplH => "impl.h"@,
            Template::TeamMetaH => "meta.h"@,
            Template::TeamMetaCpp => "meta.cpp"@,
            Template::BeliefMetaH => "meta.h"@,
            Template::BeliefMetaCpp => "meta.cpp"@,
            Template::GoalImplH => "impl.h"@,
            Template::GoalImplCpp => "impl.cpp"@,
            Template::GoalMetaH => "meta.h"@,
            Template::GoalMetaCpp => "meta.cpp"@,
            Template::PlanImplH => "impl.h"@,
            Template::PlanImplCpp => "impl.cpp"@,
            Template::PlanMetaH => "meta.h"@,
            Template::PlanMetaCpp => "meta.cpp"@,
            Template::ProjectH => "project.h"@,
            Template::ProjectCpp => "project.cpp"@,
            Template::ProjectCMake => ".cmake"@,
            Template::MainCpp => "sampleentrypoint.cpp"@,
            Template::EnumsMetaH => "enumsmeta.h"@,
            Template::EnumsMetaCpp => "enumsmeta.cpp"@,
            Template::ResourceMetaH => "meta.h"@,
            Template::EventMetaJson => "events.h"@,
            Template::EntityTemplateMetaJson => "templates.json"@,
            Template::ModuleH => "module.h"@,
            Template::ModuleCpp => "module.cpp"@,
            Template::ServiceComponentsMeta => "servicecomponents.h"@,
        }
    }

    /// What follows the name in the names of the files of the kind.
    pub fn ending(self) -> (r: &'static str)
        ensures
            r@ == self.spec_ending(),
    {
        match self {
            Template::Ros2IdlMetaMsg => ".msg",
            Template::ServiceImplCpp => "impl.cpp",
            Template::ServiceImplH => "impl.h",
            Template::ServiceMetaH => "meta.h",
            Template::ServiceMetaCpp => "meta.cpp",
            Template::AgentImplCpp => "impl.cpp",
            Template::AgentImplH => "impl.h",
            Template::AgentMetaH => "meta.h",
            Template::AgentMetaCpp => "meta.cpp",
            Template::TeamImplCpp => "impl.cpp",
            Template::TeamImplH => "impl.h",
            Template::TeamMetaH => "meta.h",
            Template::TeamMetaCpp => "meta.cpp",
            Template::BeliefMetaH => "meta.h",
            Template::BeliefMetaCpp => "meta.cpp",
            Template::GoalImplH => "impl.h",
            Template::GoalImplCpp => "impl.cpp",
            Template::GoalMetaH => "meta.h",
            Template::GoalMetaCpp => "meta.cpp",
            Template::PlanImplH => "impl.h",
            Template::PlanImplCpp => "impl.cpp",
            Template::PlanMetaH => "meta.h",
            Template::PlanMetaCpp => "meta.cpp",
            Template::ProjectH => "project.h",
            Template::ProjectCpp => "project.cpp",
            Template::ProjectCMake => ".cmake",
            Template::MainCpp => "sampleentrypoint.cpp",
            Template::EnumsMetaH => "enumsmeta.h",
            Template::EnumsMetaCpp => "enumsmeta.cpp",
            Template::ResourceMetaH => "meta.h",
            Template::EventMetaJson => "events.h",
            Template::EntityTemplateMetaJson => "templates.json",
            Template::ModuleH => "module.h",
            Template::ModuleCpp => "module.cpp",
            Template::ServiceComponentsMeta => "servicecomponents.h",
        }
    }

    /// The path of the file of this kind that is generated for what has the
    /// display name `name`: the directory of the kind, the name in lower
    /// case, and the ending of the kind. Only the message files of ROS keep
    /// the name as it is.
    pub open spec fn spec_output_filename(self, name: Seq<char>) -> Seq<char> {
        if self == Template::Ros2IdlMetaMsg {
            self.spec_directory() + name + self.spec_ending()
        } else {
            self.spec_directory() + lowercase(name) + self.spec_ending()
        }
    }

    /// The path of the file of this kind that is generated for what has the
    /// display name `name`.
    pub fn output_filename(self, name: &str) -> (r: String)
        ensures
            r@ == self.spec_output_filename(name@),
    {
        match self {
            Template::Ros2IdlMetaMsg => join3(self.directory(), name, self.ending()),
            _ => {
                let lower = to_lowercase(name);
                join3(self.directory(), lower.as_str(), self.ending())
            },
        }
    }
}

/// Whether a generated file is to be written. A forced file always is. A
/// file of the generated interface is written where its text differs from
/// the text on disk, or none could be read; any other file only where none
/// is on disk, so that what a user has written into it is kept.
pub open spec fn must_write(
    force: bool,
    is_meta_file: bool,
    on_disk: Option<Seq<char>>,
    exists: bool,
    new_contents: Seq<char>,
) -> bool {
    if force {
        true
    } else if is_meta_file {
        match on_disk {
            Some(old_contents) => new_contents != old_contents,
            None => true,
        }
    } else {
        !exists
    }
}

/// Decides whether a generated file is to be written. `on_disk` is the
/// text of the file where it could be read, `exists` whether there is a
/// file at its path.
pub fn should_write(
    force: bool,
    is_meta_file: bool,
    on_disk: &Option<String>,
    exists: bool,
    new_contents: &String,
) -> (r: bool)
    ensures
        r == must_write(
            force,
            is_meta_file,
            match *on_disk {
                Some(old_contents) => Some(old_contents@),
                None => None,
            },
            exists,
            new_contents@,
        ),
{
    if force {
        true
    } else if is_meta_file {
        match on_disk {
            Some(old_contents) => !(*new_contents == *old_contents),
            None => true,
        }
    } else {
        !exists
    }
}

} // verus!
