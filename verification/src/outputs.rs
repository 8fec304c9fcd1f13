//! Which files are generated for a module, and in which order.

use crate::concept::Identified;
use crate::model::Model;
use crate::templates::Template;
use vstd::prelude::*;

verus! {

/// One file to generate.
#[derive(Debug)]
pub struct Output {
    pub template: Template,
    /// The place of what the file is generated for in its collection; 0
    /// for a file of the whole project.
    pub subject: usize,
    /// The display name after which the file is named.
    pub name: String,
    /// Whether the file belongs to the generated interface, which is
    /// written anew whenever its text differs.
    pub is_meta_file: bool,
}

/// A file to generate as plain mathematical data.
pub struct OutputView {
    pub template: Template,
    pub subject: int,
    pub name: Seq<char>,
    pub is_meta_file: bool,
}

impl View for Output {
    type V = OutputView;

    open spec fn view(&self) -> OutputView {
        OutputView {
            template: self.template,
            subject: self.subject as int,
            name: self.name@,
            is_meta_file: self.is_meta_file,
        }
    }
}

/// The files that a list holds, in order.
pub open spec fn outputs(v: Seq<Output>) -> Seq<OutputView> {
    v.map_values(|o: Output| o@)
}

/// The file of kind `template` for the record at `subject`, named `name`.
pub open spec fn output(
    template: Template,
    subject: int,
    name: Seq<char>,
    is_meta_file: bool,
) -> OutputView {
    OutputView { template, subject, name, is_meta_file }
}

/// One file of the kind `template` for each of the first `n` records, in
/// their order.
pub open spec fn one_each<T: Identified>(
    items: Seq<T>,
    template: Template,
    is_meta_file: bool,
    n: int,
) -> Seq<OutputView>
    decreases n,
{
    if n <= 0 {
        Seq::empty()
    } else {
        one_each(items, template, is_meta_file, n - 1).push(
            output(template, n - 1, items[n - 1].spec_id().bumpy_case@, is_meta_file),
        )
    }
}

/// Two files for each of the first `n` records, in their order: one of the
/// kind `first`, then one of the kind `second`.
pub open spec fn two_each<T: Identified>(
    items: Seq<T>,
    first: Template,
    second: Template,
    is_meta_file: bool,
    n: int,
) -> Seq<OutputView>
    decreases n,
{
    if n <= 0 {
        Seq::empty()
    } else {
        two_each(items, first, second, is_meta_file, n - 1).push(
            output(first, n - 1, items[n - 1].spec_id().bumpy_case@, is_meta_file),
        ).push(output(second, n - 1, items[n - 1].spec_id().bumpy_case@, is_meta_file))
    }
}

fn plan_output(
    out: &mut Vec<Output>,
    template: Template,
    subject: usize,
    name: &String,
    is_meta_file: bool,
)
    ensures
        outputs(final(out)@) == outputs(old(out)@).push(
            output(template, subject as int, name@, is_meta_file),
        ),
{
    out.push(Output { template, subject, name: name.clone(), is_meta_file });
    assert(outputs(out@) =~= outputs(old(out)@).push(
        output(template, subject as int, name@, is_meta_file),
    ));
}

fn plan_one_each<T: Identified>(
    out: &mut Vec<Output>,
    items: &Vec<T>,
    template: Template,
    is_meta_file: bool,
)
    ensures
        outputs(final(out)@) == outputs(old(out)@) + one_each(
            items@,
            template,
            is_meta_file,
            items@.len() as int,
        ),
{
    let mut i: usize = 0;
    assert(outputs(out@) =~= outputs(old(out)@) + one_each(items@, template, is_meta_file, 0));
    while i < items.len()
        invariant
            i <= items@.len(),
            outputs(out@) == outputs(old(out)@) + one_each(
                items@,
                template,
                is_meta_file,
                i as int,
            ),
        decreases items@.len() - i,
    {
        plan_output(out, template, i, &items[i].get_id().bumpy_case, is_meta_file);
        assert(outputs(out@) =~= outputs(old(out)@) + one_each(
            items@,
            template,
            is_meta_file,
            i + 1,
        ));
        i = i + 1;
    }
}

fn plan_two_each<T: Identified>(
    out: &mut Vec<Output>,
    items: &Vec<T>,
    first: Template,
    second: Template,
    is_meta_file: bool,
)
    ensures
        outputs(final(out)@) == outputs(old(out)@) + two_each(
            items@,
            first,
            second,
            is_meta_file,
            items@.len() as int,
        ),
{
    let mut i: usize = 0;
    assert(outputs(out@) =~= outputs(old(out)@) + two_each(
        items@,
        first,
        second,
        is_meta_file,
        0,
    ));
    while i < items.len()
        invariant
            i <= items@.len(),
            outputs(out@) == outputs(old(out)@) + two_each(
                items@,
                first,
                second,
                is_meta_file,
                i as int,
            ),
        decreases items@.len() - i,
    {
        plan_output(out, first, i, &items[i].get_id().bumpy_case, is_meta_file);
        plan_output(out, second, i, &items[i].get_id().bumpy_case, is_meta_file);
        assert(outputs(out@) =~= outputs(old(out)@) + two_each(
            items@,
            first,
            second,
            is_meta_file,
            i + 1,
        ));
        i = i + 1;
    }
}

impl Model {
    /// The files with the code that a user completes, in the order in
    /// which they are generated: the entry point of a program, then a
    /// header and a source file for every team, agent, service, goal and
    /// plan. A module has no entry point.
    pub open spec fn spec_user_outputs(&self, engine: bool) -> Seq<OutputView> {
        let name = self.project.bumpy_case@;
        (if engine {
            seq![output(Template::MainCpp, 0, name, false)]
        } else {
            Seq::empty()
        }) + two_each(
            self.teams@,
            Template::TeamImplH,
            Template::TeamImplCpp,
            false,
            self.teams@.len() as int,
        ) + two_each(
            self.agents@,
            Template::AgentImplH,
            Template::AgentImplCpp,
            false,
            self.agents@.len() as int,
        ) + two_each(
            self.services@,
            Template::ServiceImplH,
            Template::ServiceImplCpp,
            false,
            self.services@.len() as int,
        ) + two_each(
            self.goals@,
            Template::GoalImplH,
            Template::GoalImplCpp,
            false,
            self.goals@.len() as int,
        ) + two_each(
            self.plans@,
            Template::PlanImplH,
            Template::PlanImplCpp,
            false,
            self.plans@.len() as int,
        )
    }

    /// The files of the generated interface, in the order in which they
    /// are generated: the build file; the header and source file of the
    /// program, or of the module; a message file for every message where
    /// those of ROS are asked for; a header and a source file for every
    /// team, agent, service and message; a header for every resource; a
    /// header and a source file for every goal and plan; those of the
    /// enums; the entity templates, the events and the service components.
    pub open spec fn spec_interface_outputs(&self, engine: bool, ros: bool) -> Seq<OutputView> {
        let name = self.project.bumpy_case@;
        seq![output(Template::ProjectCMake, 0, name, true)] + (if engine {
            seq![
                output(Template::ProjectH, 0, name, true),
                output(Template::ProjectCpp, 0, name, true),
            ]
        } else {
            seq![
                output(Template::ModuleH, 0, name, true),
                output(Template::ModuleCpp, 0, name, true),
            ]
        }) + (if ros {
            one_each(self.messages@, Template::Ros2IdlMetaMsg, true, self.messages@.len() as int)
        } else {
            Seq::empty()
        }) + two_each(
            self.teams@,
            Template::TeamMetaH,
            Template::TeamMetaCpp,
            true,
            self.teams@.len() as int,
        ) + two_each(
            self.agents@,
            Template::AgentMetaH,
            Template::AgentMetaCpp,
            true,
            self.agents@.len() as int,
        ) + two_each(
            self.services@,
            Template::ServiceMetaH,
            Template::ServiceMetaCpp,
            true,
            self.services@.len() as int,
        ) + two_each(
            self.messages@,
            Template::BeliefMetaH,
            Template::BeliefMetaCpp,
            true,
            self.messages@.len() as int,
        ) + one_each(self.resources@, Template::ResourceMetaH, true, self.resources@.len() as int)
            + two_each(
            self.goals@,
            Template::GoalMetaH,
            Template::GoalMetaCpp,
            true,
            self.goals@.len() as int,
        ) + two_each(
            self.plans@,
            Template::PlanMetaH,
            Template::PlanMetaCpp,
            true,
            self.plans@.len() as int,
        ) + seq![
            output(Template::EnumsMetaH, 0, name, true),
            output(Template::EnumsMetaCpp, 0, name, true),
            output(Template::EntityTemplateMetaJson, 0, name, true),
            output(Template::EventMetaJson, 0, name, true),
            output(Template::ServiceComponentsMeta, 0, name, true),
        ]
    }

    /// The files that are generated for the module, in their order: those
    /// that a user completes, then those of the generated interface.
    /// `engine` says that a program is generated and not a module, `ros`
    /// that the message files of ROS are asked for.
    pub open spec fn spec_planned_outputs(&self, engine: bool, ros: bool) -> Seq<OutputView> {
        self.spec_user_outputs(engine) + self.spec_interface_outputs(engine, ros)
    }

    /// Lists the files that are generated for the module, in their order.
    pub fn planned_outputs(&self, engine: bool, ros: bool) -> (r: Vec<Output>)
        ensures
            outputs(r@) == self.spec_planned_outputs(engine, ros),
    {
        let name = &self.project.bumpy_case;
        let mut out: Vec<Output> = Vec::new();
        assert(outputs(out@) =~= Seq::empty());
        if engine {
            plan_output(&mut out, Template::MainCpp, 0, name, false);
        }
        assert(outputs(out@) =~= (if engine {
            seq![output(Template::MainCpp, 0, name@, false)]
        } else {
            Seq::empty()
        }));
        plan_two_each(&mut out, &self.teams, Template::TeamImplH, Template::TeamImplCpp, false);
        plan_two_each(&mut out, &self.agents, Template::AgentImplH, Template::AgentImplCpp, false);
        plan_two_each(
            &mut out,
            &self.services,
            Template::ServiceImplH,
            Template::ServiceImplCpp,
            false,
        );
        plan_two_each(&mut out, &self.goals, Template::GoalImplH, Template::GoalImplCpp, false);
        plan_two_each(&mut out, &self.plans, Template::PlanImplH, Template::PlanImplCpp, false);
        assert(outputs(out@) == self.spec_user_outputs(engine));
        let mut meta: Vec<Output> = Vec::new();
        assert(outputs(meta@) =~= Seq::empty());
        plan_output(&mut meta, Template::ProjectCMake, 0, name, true);
        assert(outputs(meta@) =~= seq![output(Template::ProjectCMake, 0, name@, true)]);
        let ghost start = outputs(meta@);
        if engine {
            plan_output(&mut meta, Template::ProjectH, 0, name, true);
            plan_output(&mut meta, Template::ProjectCpp, 0, name, true);
            assert(outputs(meta@) =~= start + seq![
                output(Template::ProjectH, 0, name@, true),
                output(Template::ProjectCpp, 0, name@, true),
            ]);
        } else {
            plan_output(&mut meta, Template::ModuleH, 0, name, true);
            plan_output(&mut meta, Template::ModuleCpp, 0, name, true);
            assert(outputs(meta@) =~= start + seq![
                output(Template::ModuleH, 0, name@, true),
                output(Template::ModuleCpp, 0, name@, true),
            ]);
        }
        let ghost headed = outputs(meta@);
        if ros {
            plan_one_each(&mut meta, &self.messages, Template::Ros2IdlMetaMsg, true);
        } else {
            assert(outputs(meta@) =~= headed + Seq::<OutputView>::empty());
        }
        plan_two_each(&mut meta, &self.teams, Template::TeamMetaH, Template::TeamMetaCpp, true);
        plan_two_each(&mut meta, &self.agents, Template::AgentMetaH, Template::AgentMetaCpp, true);
        plan_two_each(
            &mut meta,
            &self.services,
            Template::ServiceMetaH,
            Template::ServiceMetaCpp,
            true,
        );
        plan_two_each(
            &mut meta,
            &self.messages,
            Template::BeliefMetaH,
            Template::BeliefMetaCpp,
            true,
        );
        plan_one_each(&mut meta, &self.resources, Template::ResourceMetaH, true);
        plan_two_each(&mut meta, &self.goals, Template::GoalMetaH, Template::GoalMetaCpp, true);
        plan_two_each(&mut meta, &self.plans, Template::PlanMetaH, Template::PlanMetaCpp, true);
        let ghost listed = outputs(meta@);
        plan_output(&mut meta, Template::EnumsMetaH, 0, name, true);
        plan_output(&mut meta, Template::EnumsMetaCpp, 0, name, true);
        plan_output(&mut meta, Template::EntityTemplateMetaJson, 0, name, true);
        plan_output(&mut meta, Template::EventMetaJson, 0, name, true);
        plan_output(&mut meta, Template::ServiceComponentsMeta, 0, name, true);
        assert(outputs(meta@) =~= listed + seq![
            output(Template::EnumsMetaH, 0, name@, true),
            output(Template::EnumsMetaCpp, 0, name@, true),
            output(Template::EntityTemplateMetaJson, 0, name@, true),
            output(Template::EventMetaJson, 0, name@, true),
            output(Template::ServiceComponentsMeta, 0, name@, true),
        ]);
        assert(outputs(meta@) == self.spec_interface_outputs(engine, ros));
        let ghost first = outputs(out@);
        let ghost second = outputs(meta@);
        out.append(&mut meta);
        assert(outputs(out@) =~= first + second);
        out
    }
}

} // verus!
