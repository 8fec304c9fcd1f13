//! The include lines and forward declarations that generated headers
//! need for the messages they mention.

use crate::cpp::{custom_cpp_type, owner_namespace};
use crate::emit::{lowercase, to_lowercase};
use crate::identifier::Identifier;
use crate::model::Model;
use crate::order::{gathered, keys, put_line};
use crate::schema::{EmitNamespace, Field, FieldType, Goal, Message, Service};
use crate::text::{bumpy_case, convert_to_bumpy_case, join5};
use crate::workspace::{owner_display_name, workspace_message, ProjectWorkspace};
use vstd::prelude::*;
use vstd::string::StringExecFns;

verus! {

/// The first `n` of `parts` in a row, with `divider` between neighbours.
pub open spec fn joined_texts(parts: Seq<Seq<char>>, divider: Seq<char>, n: int) -> Seq<char>
    decreases n,
{
    if n <= 0 {
        Seq::empty()
    } else if n == 1 {
        parts[0]
    } else {
        joined_texts(parts, divider, n - 1) + divider + parts[n - 1]
    }
}

/// Puts lines in a row, with `divider` between neighbours.
pub fn join_lines(lines: &Vec<String>, divider: &str) -> (r: String)
    ensures
        r@ == joined_texts(keys(lines@), divider@, lines@.len() as int),
{
    let mut result = String::new();
    let mut i: usize = 0;
    assert(result@ =~= joined_texts(keys(lines@), divider@, 0));
    while i < lines.len()
        invariant
            i <= lines@.len(),
            result@ == joined_texts(keys(lines@), divider@, i as int),
        decreases lines@.len() - i,
    {
        if i > 0 {
            result.append(divider);
        }
        result.append(lines[i].as_str());
        assert(keys(lines@)[i as int] == lines@[i as int]@);
        assert(result@ =~= joined_texts(keys(lines@), divider@, i + 1));
        i = i + 1;
    }
    result
}

/// The line that a field asks for: the header of the message that is its
/// type, or the header of the enumerations of the module of its type; none
/// for a field of a plain type.
pub open spec fn include_line(models: Seq<Model>, field: Field) -> Option<Seq<char>> {
    match field.field_type {
        FieldType::Custom(id) => Some(
            "#include <"@ + lowercase(owner_display_name(models, id.uuid@)) + "/meta/messages/"@
                + lowercase(bumpy_case(id.name@, id.name@.len() as int)) + "meta.h>"@,
        ),
        FieldType::Enum(id) => Some(
            "#include <"@ + lowercase(owner_display_name(models, id.uuid@)) + "/meta/"@
                + lowercase(owner_display_name(models, id.uuid@)) + "enumsmeta.h>"@,
        ),
        _ => None,
    }
}

/// The lines that the first `n` of `fields` ask for, field by field.
pub open spec fn include_lines(models: Seq<Model>, fields: Seq<Field>, n: int) -> Seq<Seq<char>>
    decreases n,
{
    if n <= 0 {
        Seq::empty()
    } else {
        match include_line(models, fields[n - 1]) {
            Some(line) => include_lines(models, fields, n - 1).push(line),
            None => include_lines(models, fields, n - 1),
        }
    }
}

fn line_of(workspace: &ProjectWorkspace, field: &Field) -> (r: Option<String>)
    ensures
        r is Some <==> include_line(workspace@, *field) is Some,
        r is Some ==> r->0@ == include_line(workspace@, *field)->0,
{
    match &field.field_type {
        FieldType::Custom(id) => {
            let model = workspace.lookup_model_with_id(id);
            assert(model.project.bumpy_case@ =~= owner_display_name(workspace@, id.uuid@));
            let module = to_lowercase(model.project.bumpy_case.as_str());
            let name = to_lowercase(convert_to_bumpy_case(id.name.as_str()).as_str());
            Some(join5("#include <", module.as_str(), "/meta/messages/", name.as_str(), "meta.h>"))
        },
        FieldType::Enum(id) => {
            let model = workspace.lookup_model_with_id(id);
            assert(model.project.bumpy_case@ =~= owner_display_name(workspace@, id.uuid@));
            let module = to_lowercase(model.project.bumpy_case.as_str());
            Some(
                join5("#include <", module.as_str(), "/meta/", module.as_str(), "enumsmeta.h>"),
            )
        },
        _ => None,
    }
}

impl Message {
    /// The include lines that the fields of the message ask for: each line
    /// once, in the order of texts, one line below the other.
    pub open spec fn spec_cpp_includes(&self, models: Seq<Model>) -> Seq<char> {
        let asked = include_lines(models, self.fields@, self.fields@.len() as int);
        let lines = gathered(asked, asked.len() as int);
        joined_texts(lines, "\n"@, lines.len() as int)
    }

    /// The include lines that the fields of the message ask for.
    pub fn emit_cpp_includes(&self, workspace: &ProjectWorkspace) -> (r: String)
        ensures
            r@ == self.spec_cpp_includes(workspace@),
    {
        let mut lines: Vec<String> = Vec::new();
        let mut i: usize = 0;
        let ghost mut asked: Seq<Seq<char>> = Seq::empty();
        assert(keys(lines@) =~= gathered(asked, 0));
        while i < self.fields.len()
            invariant
                i <= self.fields@.len(),
                asked == include_lines(workspace@, self.fields@, i as int),
                keys(lines@) == gathered(asked, asked.len() as int),
            decreases self.fields@.len() - i,
        {
            match line_of(workspace, &self.fields[i]) {
                Some(line) => {
                    proof {
                        let next = asked.push(line@);
                        assert(next.drop_last() =~= asked);
                        assert(gathered(next, next.len() - 1) == gathered(
                            asked,
                            asked.len() as int,
                        )) by {
                            lemma_gathered_prefix(asked, next, asked.len() as int);
                        }
                        asked = next;
                    }
                    put_line(&mut lines, line);
                },
                None => {},
            }
            i = i + 1;
        }
        assert(keys(lines@).len() == lines@.len());
        join_lines(&lines, "\n")
    }
}

/// What is gathered of the first `n` values depends on these alone.
pub proof fn lemma_gathered_prefix(shorter: Seq<Seq<char>>, longer: Seq<Seq<char>>, n: int)
    requires
        0 <= n <= shorter.len() <= longer.len(),
        forall|i: int| 0 <= i < shorter.len() ==> shorter[i] == longer[i],
    ensures
        gathered(shorter, n) == gathered(longer, n),
    decreases n,
{
    if n > 0 {
        lemma_gathered_prefix(shorter, longer, n - 1);
    }
}

/// The namespace in which the message `id` is declared, as C++ writes it.
pub open spec fn message_namespace(models: Seq<Model>, id: Identifier) -> Seq<char> {
    owner_namespace(models, id.uuid@, "::"@)
}

/// The namespaces of the first `n` of `messages`.
pub open spec fn namespaces_of(models: Seq<Model>, messages: Seq<Identifier>, n: int) -> Seq<
    Seq<char>,
>
    decreases n,
{
    if n <= 0 {
        Seq::empty()
    } else {
        namespaces_of(models, messages, n - 1).push(message_namespace(models, messages[n - 1]))
    }
}

/// The declarations of those of the first `n` of `messages` that are
/// declared in `namespace`, one on each line.
pub open spec fn class_lines(
    models: Seq<Model>,
    messages: Seq<Identifier>,
    namespace: Seq<char>,
    n: int,
) -> Seq<char>
    decreases n,
{
    if n <= 0 {
        Seq::empty()
    } else if message_namespace(models, messages[n - 1]) == namespace {
        class_lines(models, messages, namespace, n - 1) + "class "@ + custom_cpp_type(
            models,
            workspace_message(models, messages[n - 1])->0.id,
            EmitNamespace::Cpp,
        ) + ";"@ + "\n"@
    } else {
        class_lines(models, messages, namespace, n - 1)
    }
}

/// The block of one namespace: its messages declared one below the other,
/// between the opening and the closing of the namespace where it has a
/// name.
pub open spec fn namespace_block(
    models: Seq<Model>,
    messages: Seq<Identifier>,
    namespace: Seq<char>,
) -> Seq<char> {
    let classes = class_lines(models, messages, namespace, messages.len() as int);
    if namespace.len() > 0 {
        namespace + "\n"@ + "{"@ + "\n"@ + classes + "\n"@ + "}"@ + "\n"@
    } else {
        classes
    }
}

/// The blocks of the first `n` of `namespaces`, one after the other.
pub open spec fn namespace_blocks(
    models: Seq<Model>,
    messages: Seq<Identifier>,
    namespaces: Seq<Seq<char>>,
    n: int,
) -> Seq<char>
    decreases n,
{
    if n <= 0 {
        Seq::empty()
    } else {
        namespace_blocks(models, messages, namespaces, n - 1) + namespace_block(
            models,
            messages,
            namespaces[n - 1],
        )
    }
}

/// The forward declarations of `messages`: a block for each namespace in
/// which one of them is declared, the namespaces in the order of texts.
pub open spec fn forward_decls(models: Seq<Model>, messages: Seq<Identifier>) -> Seq<char> {
    let asked = namespaces_of(models, messages, messages.len() as int);
    let namespaces = gathered(asked, asked.len() as int);
    namespace_blocks(models, messages, namespaces, namespaces.len() as int)
}

/// Whether every one of `messages` names a message of the workspace.
pub open spec fn all_resolve(models: Seq<Model>, messages: Seq<Identifier>) -> bool {
    forall|i: int| 0 <= i < messages.len() ==> workspace_message(models, #[trigger] messages[i]) is Some
}

/// Whether every one of `messages` names a message of the workspace.
pub fn messages_resolve(workspace: &ProjectWorkspace, messages: &Vec<Identifier>) -> (r: bool)
    ensures
        r == all_resolve(workspace@, messages@),
{
    let mut i: usize = 0;
    while i < messages.len()
        invariant
            i <= messages@.len(),
            forall|k: int| 0 <= k < i ==> workspace_message(workspace@, #[trigger] messages@[k]) is Some,
        decreases messages@.len() - i,
    {
        if workspace.get_message(&messages[i]).is_err() {
            return false;
        }
        i = i + 1;
    }
    true
}

fn namespace_of(workspace: &ProjectWorkspace, id: &Identifier) -> (r: String)
    ensures
        r@ == message_namespace(workspace@, *id),
{
    let model = workspace.lookup_model_with_id(id);
    let r = model.project.cpp_namespace_string();
    assert(r@ =~= message_namespace(workspace@, *id));
    r
}

/// The forward declarations of `messages`, which must all name messages of
/// the workspace.
pub fn emit_cpp_forward_decls_for_messages(
    workspace: &ProjectWorkspace,
    messages: &Vec<Identifier>,
) -> (r: String)
    requires
        all_resolve(workspace@, messages@),
    ensures
        r@ == forward_decls(workspace@, messages@),
{
    let mut namespaces: Vec<String> = Vec::new();
    let mut i: usize = 0;
    assert(keys(namespaces@) =~= gathered(namespaces_of(workspace@, messages@, 0), 0));
    while i < messages.len()
        invariant
            i <= messages@.len(),
            namespaces_of(workspace@, messages@, i as int).len() == i,
            keys(namespaces@) == gathered(namespaces_of(workspace@, messages@, i as int), i as int),
        decreases messages@.len() - i,
    {
        let namespace = namespace_of(workspace, &messages[i]);
        proof {
            lemma_gathered_prefix(
                namespaces_of(workspace@, messages@, i as int),
                namespaces_of(workspace@, messages@, i + 1),
                i as int,
            );
        }
        put_line(&mut namespaces, namespace);
        i = i + 1;
    }
    assert(keys(namespaces@).len() == namespaces@.len());
    let ghost spaces = keys(namespaces@);
    let mut result = String::new();
    let mut k: usize = 0;
    assert(result@ =~= namespace_blocks(workspace@, messages@, spaces, 0));
    while k < namespaces.len()
        invariant
            k <= namespaces@.len(),
            spaces == keys(namespaces@),
            spaces.len() == namespaces@.len(),
            all_resolve(workspace@, messages@),
            result@ == namespace_blocks(workspace@, messages@, spaces, k as int),
        decreases namespaces@.len() - k,
    {
        let ghost before = result@;
        let namespace = &namespaces[k];
        assert(spaces[k as int] == namespace@);
        if !namespace.as_str().is_empty() {
            result.append(namespace.as_str());
            result.append("\n");
            result.append("{");
            result.append("\n");
        }
        let ghost opened = result@;
        let mut m: usize = 0;
        assert(result@ =~= opened + class_lines(workspace@, messages@, namespace@, 0));
        while m < messages.len()
            invariant
                m <= messages@.len(),
                all_resolve(workspace@, messages@),
                result@ == opened + class_lines(workspace@, messages@, namespace@, m as int),
            decreases messages@.len() - m,
        {
            let here = namespace_of(workspace, &messages[m]);
            if here == *namespace {
                assert(workspace_message(workspace@, messages@[m as int]) is Some);
                match workspace.get_message(&messages[m]) {
                    Ok(message) => {
                        let name = message.to_cpp_type(workspace);
                        result.append("class ");
                        result.append(name.as_str());
                        result.append(";");
                        result.append("\n");
                    },
                    Err(_) => {},
                }
            }
            assert(result@ =~= opened + class_lines(workspace@, messages@, namespace@, m + 1));
            m = m + 1;
        }
        if !namespace.as_str().is_empty() {
            result.append("\n");
            result.append("}");
            result.append("\n");
        }
        assert(result@ =~= before + namespace_block(workspace@, messages@, namespace@));
        k = k + 1;
    }
    result
}

impl Goal {
    /// The forward declarations of the beliefs that the goal reads, which
    /// must all name messages of the workspace.
    pub fn emit_cpp_forward_decls(&self, workspace: &ProjectWorkspace) -> (r: String)
        requires
            all_resolve(workspace@, self.query_messages@),
        ensures
            r@ == forward_decls(workspace@, self.query_messages@),
    {
        emit_cpp_forward_decls_for_messages(workspace, &self.query_messages)
    }
}

impl Service {
    /// The messages that the service uses, in order.
    pub open spec fn spec_used_messages(&self, models: Seq<Model>) -> Seq<Identifier> {
        gathered(self.spec_messages(models), self.spec_messages(models).len() as int)
    }

    /// The forward declarations of the messages that the service uses,
    /// which must all name messages of the workspace.
    pub fn emit_cpp_forward_decls(&self, workspace: &ProjectWorkspace) -> (r: String)
        requires
            all_resolve(workspace@, self.spec_used_messages(workspace@)),
        ensures
            r@ == forward_decls(workspace@, self.spec_used_messages(workspace@)),
    {
        let messages = self.get_messages_id(workspace);
        emit_cpp_forward_decls_for_messages(workspace, &messages)
    }
}

} // verus!
