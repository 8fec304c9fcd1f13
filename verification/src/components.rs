//! What becomes of the parts of a model of an earlier schema that have no
//! place of their own any more: the messages that a service carried become
//! its topics, and the components of an entity become its agent mark, its
//! services and its messages.

use crate::identifier::Identifier;
use crate::schema::{Entity, Service, Topic};
use crate::text::join2;
use vstd::prelude::*;
use vstd::string::StrSliceExecFns;

verus! {

/// Whether `text` ends in `ending`.
pub open spec fn ends_in(text: Seq<char>, ending: Seq<char>) -> bool {
    text.len() >= ending.len() && text.subrange(text.len() - ending.len(), text.len() as int)
        == ending
}

/// What stands before the last `n` characters of `text`.
pub open spec fn without_last(text: Seq<char>, n: int) -> Seq<char> {
    text.subrange(0, text.len() - n)
}

/// Whether `text` ends in `ending`.
pub fn ends_with(text: &str, ending: &str) -> (r: bool)
    ensures
        r == ends_in(text@, ending@),
{
    let n = text.unicode_len();
    let m = ending.unicode_len();
    if n < m {
        return false;
    }
    let start = n - m;
    let mut i: usize = 0;
    while i < m
        invariant
            i <= m,
            n == text@.len(),
            m == ending@.len(),
            start == n - m,
            forall|k: int| 0 <= k < i ==> text@[start + k] == #[trigger] ending@[k],
        decreases m - i,
    {
        if text.get_char(start + i) != ending.get_char(i) {
            proof {
                let tail = text@.subrange(text@.len() - ending@.len(), text@.len() as int);
                assert(tail[i as int] == text@[start + i]);
            }
            return false;
        }
        i = i + 1;
    }
    assert(text@.subrange(text@.len() - ending@.len(), text@.len() as int) =~= ending@);
    true
}

/// Whether one of `names` is `name`.
pub fn is_among(names: &Vec<String>, name: &String) -> (r: bool)
    ensures
        r == exists|i: int| 0 <= i < names@.len() && (#[trigger] names@[i])@ == name@,
{
    let mut i: usize = 0;
    while i < names.len()
        invariant
            i <= names@.len(),
            forall|k: int| 0 <= k < i ==> (#[trigger] names@[k])@ != name@,
        decreases names@.len() - i,
    {
        if names[i] == *name {
            return true;
        }
        i = i + 1;
    }
    false
}

impl Service {
    /// Whether `topic` is the topic that carries `message`: it is named
    /// after the qualified name of the message.
    pub open spec fn spec_topic_for(message: Identifier, topic: Topic) -> bool {
        topic.name@ == message.spec_qualified_name() + " Topic"@ && topic.message == message
    }

    /// The topic of a service that carries `message`.
    pub fn topic_for(message: Identifier) -> (r: Topic)
        ensures
            Service::spec_topic_for(message, r),
    {
        let name = message.qualified_name();
        Topic { name: join2(name.as_str(), " Topic"), message }
    }
}

impl Entity {
    /// Whether the component is the one that marks an entity as carrying
    /// an agent.
    pub open spec fn spec_marks_agent(component: Identifier) -> bool {
        component.name@ == "AgentComponent"@
    }

    /// Whether the component stands for one of the services named
    /// `services`: its name is that of the service with " Component" after
    /// it.
    pub open spec fn spec_names_service(component: Identifier, services: Seq<String>) -> bool {
        &&& ends_in(component.name@, " Component"@)
        &&& exists|i: int|
            0 <= i < services.len() && (#[trigger] services[i])@ == without_last(
                component.name@,
                10,
            )
    }

    /// Whether `after` is the entity `before` with `component` put in its
    /// place: the component that marks an agent sets the mark and is
    /// dropped; one that stands for a service joins the services under the
    /// name of the service; any other joins the messages as it is.
    pub open spec fn spec_took_component(
        before: Entity,
        after: Entity,
        component: Identifier,
        services: Seq<String>,
    ) -> bool {
        if Entity::spec_marks_agent(component) {
            after == (Entity { agent: true, ..before })
        } else if Entity::spec_names_service(component, services) {
            &&& after == (Entity { services: after.services, ..before })
            &&& after.services@.len() == before.services@.len() + 1
            &&& after.services@.subrange(0, before.services@.len() as int) == before.services@
            &&& after.services@.last().name@ == without_last(component.name@, 10)
            &&& after.services@.last() == (Identifier {
                name: after.services@.last().name,
                ..component
            })
        } else {
            &&& after == (Entity { messages: after.messages, ..before })
            &&& after.messages@ == before.messages@.push(component)
        }
    }

    /// Puts a component, as an earlier schema listed it, in its place in
    /// the entity.
    /// `services` holds the names of the services of the model.
    pub fn take_component(&mut self, component: Identifier, services: &Vec<String>)
        ensures
            Entity::spec_took_component(*old(self), *final(self), component, services@),
    {
        proof {
            reveal_strlit("AgentComponent");
            reveal_strlit(" Component");
        }
        if component.name == String::from_str("AgentComponent") {
            self.agent = true;
            return ;
        }
        if ends_with(component.name.as_str(), " Component") {
            let n = component.name.as_str().unicode_len();
            let stem = String::from_str(component.name.as_str().substring_char(0, n - 10));
            if is_among(services, &stem) {
                let mut id = component;
                id.name = stem;
                self.services.push(id);
                assert(self.services@.subrange(0, old(self).services@.len() as int) =~= old(
                    self,
                ).services@);
                return ;
            }
        }
        self.messages.push(component);
    }
}

} // verus!
