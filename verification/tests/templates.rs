use jack_make::templates::{should_write, Template};

#[test]
fn files_are_named_after_what_they_are_generated_for() {
    assert_eq!(Template::Ros2IdlMetaMsg.output_filename("RobotPose"), "meta/msgs/RobotPose.msg");
    assert_eq!(
        Template::ServiceImplCpp.output_filename("TheGarage"),
        "impl/services/thegarageimpl.cpp"
    );
    assert_eq!(Template::AgentMetaH.output_filename("Courier"), "meta/agents/couriermeta.h");
    assert_eq!(Template::TeamImplH.output_filename("Squad"), "impl/teams/squadimpl.h");
    assert_eq!(Template::BeliefMetaCpp.output_filename("Pose"), "meta/messages/posemeta.cpp");
    assert_eq!(Template::GoalImplH.output_filename("Deliver"), "impl/goals/deliverimpl.h");
    assert_eq!(Template::PlanMetaCpp.output_filename("CarryOut"), "meta/plans/carryoutmeta.cpp");
    assert_eq!(Template::ProjectH.output_filename("My_Fleet"), "meta/my_fleetproject.h");
    assert_eq!(Template::ProjectCMake.output_filename("Fleet"), "meta/fleet.cmake");
    assert_eq!(Template::MainCpp.output_filename("Fleet"), "impl/fleetsampleentrypoint.cpp");
    assert_eq!(Template::EnumsMetaH.output_filename("Fleet"), "meta/fleetenumsmeta.h");
    assert_eq!(Template::ResourceMetaH.output_filename("Fuel"), "meta/resources/fuelmeta.h");
    assert_eq!(Template::EventMetaJson.output_filename("Fleet"), "meta/fleetevents.h");
    assert_eq!(
        Template::EntityTemplateMetaJson.output_filename("Fleet"),
        "meta/fleettemplates.json"
    );
    assert_eq!(Template::ModuleCpp.output_filename("Fleet"), "meta/fleetmodule.cpp");
    assert_eq!(
        Template::ServiceComponentsMeta.output_filename("Fleet"),
        "meta/fleetservicecomponents.h"
    );
}

#[test]
fn every_kind_of_file_has_a_directory_and_an_ending() {
    let all = [
        (Template::Ros2IdlMetaMsg, "meta/msgs/", ".msg"),
        (Template::ServiceImplCpp, "impl/services/", "impl.cpp"),
        (Template::ServiceImplH, "impl/services/", "impl.h"),
        (Template::ServiceMetaH, "meta/services/", "meta.h"),
        (Template::ServiceMetaCpp, "meta/services/", "meta.cpp"),
        (Template::AgentImplCpp, "impl/agents/", "impl.cpp"),
        (Template::AgentImplH, "impl/agents/", "impl.h"),
        (Template::AgentMetaH, "meta/agents/", "meta.h"),
        (Template::AgentMetaCpp, "meta/agents/", "meta.cpp"),
        (Template::TeamImplCpp, "impl/teams/", "impl.cpp"),
        (Template::TeamImplH, "impl/teams/", "impl.h"),
        (Template::TeamMetaH, "meta/teams/", "meta.h"),
        (Template::TeamMetaCpp, "meta/teams/", "meta.cpp"),
        (Template::BeliefMetaH, "meta/messages/", "meta.h"),
        (Template::BeliefMetaCpp, "meta/messages/", "meta.cpp"),
        (Template::GoalImplH, "impl/goals/", "impl.h"),
        (Template::GoalImplCpp, "impl/goals/", "impl.cpp"),
        (Template::GoalMetaH, "meta/goals/", "meta.h"),
        (Template::GoalMetaCpp, "meta/goals/", "meta.cpp"),
        (Template::PlanImplH, "impl/plans/", "impl.h"),
        (Template::PlanImplCpp, "impl/plans/", "impl.cpp"),
        (Template::PlanMetaH, "meta/plans/", "meta.h"),
        (Template::PlanMetaCpp, "meta/plans/", "meta.cpp"),
        (Template::ProjectH, "meta/", "project.h"),
        (Template::ProjectCpp, "meta/", "project.cpp"),
        (Template::ProjectCMake, "meta/", ".cmake"),
        (Template::MainCpp, "impl/", "sampleentrypoint.cpp"),
        (Template::EnumsMetaH, "meta/", "enumsmeta.h"),
        (Template::EnumsMetaCpp, "meta/", "enumsmeta.cpp"),
        (Template::ResourceMetaH, "meta/resources/", "meta.h"),
        (Template::EventMetaJson, "meta/", "events.h"),
        (Template::EntityTemplateMetaJson, "meta/", "templates.json"),
        (Template::ModuleH, "meta/", "module.h"),
        (Template::ModuleCpp, "meta/", "module.cpp"),
        (Template::ServiceComponentsMeta, "meta/", "servicecomponents.h"),
    ];
    for (kind, directory, ending) in all {
        assert_eq!(kind.directory(), directory);
        assert_eq!(kind.ending(), ending);
        assert_eq!(kind.output_filename("x"), format!("{}x{}", directory, ending));
    }
}

#[test]
fn when_a_generated_file_is_written() {
    let new = "new".to_string();
    let same = Some("new".to_string());
    let other = Some("old".to_string());
    assert!(should_write(true, true, &same, true, &new));
    assert!(should_write(true, false, &same, true, &new));
    assert!(!should_write(false, true, &same, true, &new));
    assert!(should_write(false, true, &other, true, &new));
    assert!(should_write(false, true, &None, false, &new));
    assert!(should_write(false, true, &None, true, &new));
    assert!(!should_write(false, false, &other, true, &new));
    assert!(should_write(false, false, &None, false, &new));
}
