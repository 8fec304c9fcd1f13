//! The plain records that make up one module's declarations.

use crate::identifier::Identifier;
use vstd::prelude::*;
use vstd::string::StringExecFns;

verus! {

/// How a generated name is qualified.
#[derive(Debug, Clone, Copy, PartialEq, Eq, Structural)]
pub enum EmitNamespace {
    Nil,
    Cpp,
    ROS,
}

/// The type of a message field.
#[derive(Debug)]
pub enum FieldType {
    Bool,
    I8,
    I16,
    I32,
    I64,
    U8,
    U16,
    U32,
    U64,
    F32,
    F64,
    /// Text.
    String,
    /// Another message, nested in this one.
    Custom(Identifier),
    /// An enumeration.
    Enum(Identifier),
    /// A pair of coordinates.
    Vec2,
    /// No type: the state of a field that was never set.
    Nil,
}

impl Default for FieldType {
    fn default() -> (r: Self)
        ensures
            r == FieldType::Nil,
    {
        FieldType::Nil
    }
}

impl Clone for FieldType {
    fn clone(&self) -> (r: Self)
        ensures
            r == *self,
    {
        match self {
            FieldType::Bool => FieldType::Bool,
            FieldType::I8 => FieldType::I8,
            FieldType::I16 => FieldType::I16,
            FieldType::I32 => FieldType::I32,
            FieldType::I64 => FieldType::I64,
            FieldType::U8 => FieldType::U8,
            FieldType::U16 => FieldType::U16,
            FieldType::U32 => FieldType::U32,
            FieldType::U64 => FieldType::U64,
            FieldType::F32 => FieldType::F32,
            FieldType::F64 => FieldType::F64,
            FieldType::String => FieldType::String,
            FieldType::Custom(id) => FieldType::Custom(id.clone()),
            FieldType::Enum(id) => FieldType::Enum(id.clone()),
            FieldType::Vec2 => FieldType::Vec2,
            FieldType::Nil => FieldType::Nil,
        }
    }
}

/// An editor widget bound to fields of a message. Validation does not look
/// at widgets.
#[derive(Debug)]
pub enum MessageEditorWidget {
    ColourPicker(ColourPickerAttributes),
    EntityPicker(EntityPickerAttributes),
    SliderF32(SliderF32Attributes),
    SliderI32(SliderI32Attributes),
}

impl Clone for MessageEditorWidget {
    fn clone(&self) -> (r: Self)
        ensures
            r == *self,
    {
        match self {
            MessageEditorWidget::ColourPicker(a) => MessageEditorWidget::ColourPicker(a.clone()),
            MessageEditorWidget::EntityPicker(a) => MessageEditorWidget::EntityPicker(a.clone()),
            MessageEditorWidget::SliderF32(a) => MessageEditorWidget::SliderF32(a.clone()),
            MessageEditorWidget::SliderI32(a) => MessageEditorWidget::SliderI32(a.clone()),
        }
    }
}

/// Whether a record stands among the teams or among the agents.
#[derive(Debug, Clone, Copy, PartialEq, Eq, Structural)]
pub enum AgentType {
    Team,
    Agent,
}

/// The type of a task.
#[allow(non_camel_case_types)]
#[derive(Debug, Clone, Copy, PartialEq, Eq, Structural)]
pub enum TaskType {
    /// Perform an action.
    action,
    /// Sleep for a duration.
    sleep,
    /// Pursue a sub-goal.
    goal,
    /// Branch on a condition.
    condition,
    /// No type: always a finding.
    Nil,
}

impl TaskType {
    /// The name of the type.
    pub open spec fn spec_name(self) -> Seq<char> {
        match self {
            TaskType::action => "action"@,
            TaskType::sleep => "sleep"@,
            TaskType::goal => "goal"@,
            TaskType::condition => "condition"@,
            TaskType::Nil => "None"@,
        }
    }

    /// The name as text.
    pub fn to_string(&self) -> (r: String)
        ensures
            r@ == self.spec_name(),
    {
        match self {
            TaskType::action => String::from_str("action"),
            TaskType::sleep => String::from_str("sleep"),
            TaskType::goal => String::from_str("goal"),
            TaskType::condition => String::from_str("condition"),
            TaskType::Nil => String::from_str("None"),
        }
    }
}

impl Default for TaskType {
    fn default() -> (r: Self)
        ensures
            r == TaskType::Nil,
    {
        TaskType::Nil
    }
}

/// How a tactic orders and excludes its plans.
#[derive(Debug, Clone, Copy, PartialEq, Eq, Structural)]
pub enum TacticPolicy {
    ExcludePlanAfterAttempt,
    Strict,
    ChooseBestPlan,
}

impl TacticPolicy {
    /// The name of the policy.
    pub open spec fn spec_name(self) -> Seq<char> {
        match self {
            TacticPolicy::ExcludePlanAfterAttempt => "ExcludePlanAfterAttempt"@,
            TacticPolicy::Strict => "Strict"@,
            TacticPolicy::ChooseBestPlan => "ChooseBestPlan"@,
        }
    }

    /// The name as text.
    pub fn to_string(&self) -> (r: String)
        ensures
            r@ == self.spec_name(),
    {
        match self {
            TacticPolicy::ExcludePlanAfterAttempt => String::from_str("ExcludePlanAfterAttempt"),
            TacticPolicy::Strict => String::from_str("Strict"),
            TacticPolicy::ChooseBestPlan => String::from_str("ChooseBestPlan"),
        }
    }
}

impl Default for TacticPolicy {
    fn default() -> (r: Self)
        ensures
            r == TacticPolicy::ExcludePlanAfterAttempt,
    {
        TacticPolicy::ExcludePlanAfterAttempt
    }
}

/// A composition of agent, messages and services from which a simulation is scaffolded.
#[derive(Debug, Default, Clone)]
pub struct Entity {
    pub id: Identifier,
    pub note: String,
    pub children: Vec<Identifier>,
    /// Whether the entity carries an agent.
    pub agent: bool,
    /// The component messages of the entity.
    pub messages: Vec<Identifier>,
    /// The services of the entity.
    pub services: Vec<Identifier>,
}

/// A preset for one field of an event's message.
#[derive(Debug, Default)]
pub struct EventMessageDefaultValue {
    pub name: String,
    pub note: String,
    pub value: String,
}

impl Clone for EventMessageDefaultValue {
    fn clone(&self) -> (r: Self)
        ensures
            r == *self,
    {
        EventMessageDefaultValue {
            name: self.name.clone(),
            note: self.note.clone(),
            value: self.value.clone(),
        }
    }
}

/// The message that an event sends, with the presets of its fields.
#[derive(Debug, Default, Clone)]
pub struct EventMessage {
    pub id: Identifier,
    pub defaults: Vec<EventMessageDefaultValue>,
}

/// An event that a scenario can raise.
#[derive(Debug, Default, Clone)]
pub struct Event {
    pub id: Identifier,
    pub note: String,
    pub requires_entity: bool,
    pub message: EventMessage,
}

/// A reference to an imported module.
#[derive(Debug, Default)]
pub struct Module {
    pub name: String,
    pub filepath: String,
}

impl Clone for Module {
    fn clone(&self) -> (r: Self)
        ensures
            r == *self,
    {
        Module {
            name: self.name.clone(),
            filepath: self.filepath.clone(),
        }
    }
}

/// What identifies a module: its name, namespace path, version and imports.
#[derive(Debug, Default, Clone)]
pub struct Project {
    pub name: String,
    pub bumpy_case: String,
    pub namespaces: Vec<String>,
    pub major_version: String,
    pub minor_version: String,
    pub patch_version: String,
    pub generator: String,
    pub modules: Vec<Module>,
    pub search_paths: Vec<String>,
}

/// One field of a message.
#[derive(Debug, Default)]
pub struct Field {
    pub name: String,
    pub bumpy_case: String,
    pub note: String,
    /// The type of the field's values.
    pub field_type: FieldType,
    /// Whether the field holds a list of values of its type.
    pub is_array: bool,
    /// The default value as text; empty where there is none.
    pub default: String,
    /// Whether editors hide the field.
    pub hidden: bool,
}

impl Clone for Field {
    fn clone(&self) -> (r: Self)
        ensures
            r == *self,
    {
        Field {
            name: self.name.clone(),
            bumpy_case: self.bumpy_case.clone(),
            note: self.note.clone(),
            field_type: self.field_type.clone(),
            is_array: self.is_array,
            default: self.default.clone(),
            hidden: self.hidden,
        }
    }
}

/// An editor widget that writes a chosen entity into a field.
#[derive(Debug, Default)]
pub struct EntityPickerAttributes {
    pub field: String,
}

impl Clone for EntityPickerAttributes {
    fn clone(&self) -> (r: Self)
        ensures
            r == *self,
    {
        EntityPickerAttributes {
            field: self.field.clone(),
        }
    }
}

/// An editor widget that writes a colour into four fields.
#[derive(Debug, Default)]
pub struct ColourPickerAttributes {
    pub r_field: String,
    pub g_field: String,
    pub b_field: String,
    pub a_field: String,
}

impl Clone for ColourPickerAttributes {
    fn clone(&self) -> (r: Self)
        ensures
            r == *self,
    {
        ColourPickerAttributes {
            r_field: self.r_field.clone(),
            g_field: self.g_field.clone(),
            b_field: self.b_field.clone(),
            a_field: self.a_field.clone(),
        }
    }
}

/// An editor slider over single-precision numbers, each held as its bit pattern.
#[derive(Debug, Default)]
pub struct SliderF32Attributes {
    pub field: String,
    pub min: u32,
    pub max: u32,
    pub step: u32,
}

impl Clone for SliderF32Attributes {
    fn clone(&self) -> (r: Self)
        ensures
            r == *self,
    {
        SliderF32Attributes {
            field: self.field.clone(),
            min: self.min,
            max: self.max,
            step: self.step,
        }
    }
}

/// An editor slider over integers.
#[derive(Debug, Default)]
pub struct SliderI32Attributes {
    pub field: String,
    pub min: i32,
    pub max: i32,
    pub step: i32,
}

impl Clone for SliderI32Attributes {
    fn clone(&self) -> (r: Self)
        ensures
            r == *self,
    {
        SliderI32Attributes {
            field: self.field.clone(),
            min: self.min,
            max: self.max,
            step: self.step,
        }
    }
}

/// A message: the schema of a belief, a goal's parameters or an action's request and reply.
#[derive(Debug, Default, Clone)]
pub struct Message {
    pub id: Identifier,
    pub note: String,
    pub editor: Vec<MessageEditorWidget>,
    pub component: bool,
    pub fields: Vec<Field>,
}

/// A named channel of a service and the message that it carries.
#[derive(Debug, Default)]
pub struct Topic {
    pub name: String,
    pub message: Identifier,
}

impl Clone for Topic {
    fn clone(&self) -> (r: Self)
        ensures
            r == *self,
    {
        Topic {
            name: self.name.clone(),
            message: self.message.clone(),
        }
    }
}

/// A service: the actions it handles and the topics it offers.
#[derive(Debug, Default, Clone)]
pub struct Service {
    pub id: Identifier,
    pub note: String,
    pub action_handlers: Vec<Identifier>,
    pub topics: Vec<Topic>,
}

/// A goal that an agent pursues, and how it starts.
#[derive(Debug, Default)]
pub struct AgentGoal {
    pub id: Identifier,
    pub startup_goal: bool,
    pub startup_tactic: Identifier,
}

impl Clone for AgentGoal {
    fn clone(&self) -> (r: Self)
        ensures
            r == *self,
    {
        AgentGoal {
            id: self.id.clone(),
            startup_goal: self.startup_goal,
            startup_tactic: self.startup_tactic.clone(),
        }
    }
}

/// An agent or a team; which of the two is decided by the collection that holds the record.
#[derive(Debug, Default, Clone)]
pub struct Agent {
    pub id: Identifier,
    pub note: String,
    pub roles: Vec<Identifier>,
    pub beliefs: Vec<Identifier>,
    pub goals: Vec<AgentGoal>,
    pub services: Vec<Identifier>,
    pub plans: Vec<Identifier>,
    pub message_handlers: Vec<Identifier>,
    pub resources: Vec<Identifier>,
    pub action_handlers: Vec<Identifier>,
}

/// How the plans of a goal are chosen.
#[derive(Debug, Default, Clone)]
pub struct GoalPolicy {
    pub persistent: bool,
    pub plan_order: Vec<Identifier>,
    pub plan_exclude: bool,
    pub plan_loop: bool,
}

/// A condition of a goal or plan, written as a query.
#[derive(Debug, Default)]
pub struct GoalPlanQuery {
    pub custom: bool,
    pub query: String,
}

impl Clone for GoalPlanQuery {
    fn clone(&self) -> (r: Self)
        ensures
            r == *self,
    {
        GoalPlanQuery {
            custom: self.custom,
            query: self.query.clone(),
        }
    }
}

/// A goal: what it reads, what it requires and the message that carries its parameters.
#[derive(Debug, Default, Clone)]
pub struct Goal {
    pub id: Identifier,
    pub note: String,
    pub query_messages: Vec<Identifier>,
    pub heuristic: bool,
    pub precondition: GoalPlanQuery,
    pub dropcondition: GoalPlanQuery,
    pub satisfied: GoalPlanQuery,
    pub resources: Vec<Identifier>,
    pub message: Identifier,
    pub policy: GoalPolicy,
}

/// A binding of one field to another across a task.
#[derive(Debug, Default)]
pub struct Mapping {
    pub from: String,
    pub to: String,
}

impl Clone for Mapping {
    fn clone(&self) -> (r: Self)
        ensures
            r == *self,
    {
        Mapping {
            from: self.from.clone(),
            to: self.to.clone(),
        }
    }
}

/// A dependency between two tasks of a plan.
#[derive(Debug, Default)]
pub struct TaskEdge {
    pub condition: String,
    pub sourceid: String,
    pub targetid: String,
}

impl Clone for TaskEdge {
    fn clone(&self) -> (r: Self)
        ensures
            r == *self,
    {
        TaskEdge {
            condition: self.condition.clone(),
            sourceid: self.sourceid.clone(),
            targetid: self.targetid.clone(),
        }
    }
}

/// One step of a plan. Which of the optional fields must be present depends on the task's type.
#[derive(Debug, Default, Clone)]
pub struct Task {
    pub id: String,
    pub note: String,
    pub task_type: TaskType,
    /// The action to perform, for an action task.
    pub action: Option<Identifier>,
    /// The goal to pursue, for a goal task.
    pub goal: Option<Identifier>,
    /// Whether the task runs asynchronously.
    pub is_async: Option<bool>,
    /// The field bindings of an action or goal task.
    pub mappings: Option<Vec<Mapping>>,
    /// The milliseconds that a sleep task lasts.
    pub duration: Option<u32>,
    /// The free text of a condition task.
    pub conditiontext: Option<String>,
}

/// A plan: the goal it handles and the tasks that carry it out.
#[derive(Debug, Default, Clone)]
pub struct Plan {
    pub id: Identifier,
    pub note: String,
    pub query_messages: Vec<Identifier>,
    /// The goal that the plan services; an unset identifier is a finding.
    pub handles: Identifier,
    pub effects: bool,
    pub tasks: Vec<Task>,
    pub edges: Vec<TaskEdge>,
    pub precondition: GoalPlanQuery,
    pub dropcondition: GoalPlanQuery,
}

/// A role's grant of access to a belief.
#[derive(Debug, Default)]
pub struct MessagePerm {
    pub id: Identifier,
    pub read: bool,
    pub write: bool,
}

impl Clone for MessagePerm {
    fn clone(&self) -> (r: Self)
        ensures
            r == *self,
    {
        MessagePerm {
            id: self.id.clone(),
            read: self.read,
            write: self.write,
        }
    }
}

/// A role: the goals and belief grants that tie an agent to a team.
#[derive(Debug, Default, Clone)]
pub struct Role {
    pub id: Identifier,
    pub goals: Vec<Identifier>,
    pub messages: Vec<MessagePerm>,
}

/// A bounded supply.
#[derive(Debug, Default)]
pub struct Resource {
    pub id: Identifier,
    /// The type of the resource's value.
    pub value_type: String,
    pub min: i32,
    pub max: i32,
}

impl Clone for Resource {
    fn clone(&self) -> (r: Self)
        ensures
            r == *self,
    {
        Resource {
            id: self.id.clone(),
            value_type: self.value_type.clone(),
            min: self.min,
            max: self.max,
        }
    }
}

/// A filter over the plans of one goal.
#[derive(Debug, Default, Clone)]
pub struct Tactic {
    pub id: Identifier,
    pub note: String,
    pub goal: Identifier,
    pub use_plan_list: bool,
    pub plan_list: Vec<Identifier>,
    pub plan_order: TacticPolicy,
    /// How often the plans are tried: -1 for ever, else a count below 2^32.
    pub plan_loop: i64,
}

/// An action and the messages of its request, reply and feedback.
#[derive(Debug, Default)]
pub struct Action {
    pub id: Identifier,
    pub note: String,
    pub request: Identifier,
    pub reply: Identifier,
    pub feedback: Identifier,
}

impl Clone for Action {
    fn clone(&self) -> (r: Self)
        ensures
            r == *self,
    {
        Action {
            id: self.id.clone(),
            note: self.note.clone(),
            request: self.request.clone(),
            reply: self.reply.clone(),
            feedback: self.feedback.clone(),
        }
    }
}

/// One named value of an enumeration.
#[derive(Debug, Default)]
pub struct EnumField {
    pub name: String,
    pub note: String,
    pub bumpy_case: String,
    pub value: i32,
}

impl Clone for EnumField {
    fn clone(&self) -> (r: Self)
        ensures
            r == *self,
    {
        EnumField {
            name: self.name.clone(),
            note: self.note.clone(),
            bumpy_case: self.bumpy_case.clone(),
            value: self.value,
        }
    }
}

/// An enumeration.
#[derive(Debug, Default, Clone)]
pub struct Enum {
    pub id: Identifier,
    pub note: String,
    pub fields: Vec<EnumField>,
}

} // verus!
