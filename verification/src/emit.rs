//! The pieces of generated source text that a project contributes.

use crate::schema::Project;
use crate::text::{join2, join4, join5, replace_char, replaced};
use vstd::prelude::*;
use vstd::string::StringExecFns;

verus! {

/// The upper-case form of a text, as the standard library's
/// `str::to_uppercase` gives it.
pub uninterp spec fn uppercase(text: Seq<char>) -> Seq<char>;

/// Puts a text in upper case. This is `str::to_uppercase` of the standard
/// library, whose result depends on the text alone; the result is named,
/// not described.
#[verifier::external_body]
pub(crate) fn to_uppercase(text: &str) -> (r: String)
    ensures
        r@ == uppercase(text@),
{
    text.to_uppercase()
}

/// The lower-case form of a text, as the standard library's
/// `str::to_lowercase` gives it.
pub uninterp spec fn lowercase(text: Seq<char>) -> Seq<char>;

/// Puts a text in lower case. This is `str::to_lowercase` of the standard
/// library, whose result depends on the text alone; the result is named,
/// not described.
#[verifier::external_body]
pub(crate) fn to_lowercase(text: &str) -> (r: String)
    ensures
        r@ == lowercase(text@),
{
    text.to_lowercase()
}

/// The first `n` of `parts` in a row, with `divider` between neighbours.
pub open spec fn joined(parts: Seq<String>, divider: Seq<char>, n: int) -> Seq<char>
    decreases n,
{
    if n <= 0 {
        Seq::empty()
    } else if n == 1 {
        parts[0]@
    } else {
        joined(parts, divider, n - 1) + divider + parts[n - 1]@
    }
}

/// The name of an include guard: the upper-case forms of two names, with
/// underscores for spaces, then a suffix.
pub open spec fn header_name(project: Seq<char>, name: Seq<char>, suffix: Seq<char>) -> Seq<char> {
    uppercase(replaced(project, ' ', '_')) + "_"@ + uppercase(replaced(name, ' ', '_')) + suffix
        + "_H"@
}

impl Project {
    /// The namespace path, with `namespace_divider` between its segments.
    pub fn namespace_string(&self, namespace_divider: &str) -> (r: String)
        ensures
            r@ == joined(self.namespaces@, namespace_divider@, self.namespaces@.len() as int),
    {
        let mut result = String::new();
        let mut i: usize = 0;
        assert(result@ =~= joined(self.namespaces@, namespace_divider@, 0));
        while i < self.namespaces.len()
            invariant
                i <= self.namespaces@.len(),
                result@ == joined(self.namespaces@, namespace_divider@, i as int),
            decreases self.namespaces@.len() - i,
        {
            if i > 0 {
                result.append(namespace_divider);
            }
            result.append(self.namespaces[i].as_str());
            assert(result@ =~= joined(self.namespaces@, namespace_divider@, i + 1));
            i = i + 1;
        }
        result
    }

    /// The namespace path as C++ writes it.
    pub fn cpp_namespace_string(&self) -> (r: String)
        ensures
            r@ == joined(self.namespaces@, "::"@, self.namespaces@.len() as int),
    {
        self.namespace_string("::")
    }

    fn header_name(&self, name: &str, suffix: &str) -> (r: String)
        ensures
            r@ == header_name(self.name@, name@, suffix@),
    {
        let project = to_uppercase(replace_char(self.name.as_str(), ' ', '_').as_str());
        let header = to_uppercase(replace_char(name, ' ', '_').as_str());
        join5(project.as_str(), "_", header.as_str(), suffix, "_H")
    }

    /// The two lines that open the include guard of a header.
    pub fn emit_cpp_header_guard_begin(&self, name: &str, suffix: &str) -> (r: String)
        ensures
            r@ == "#ifndef "@ + header_name(self.name@, name@, suffix@) + "\n"@ + "#define "@
                + header_name(self.name@, name@, suffix@),
    {
        let guard = self.header_name(name, suffix);
        join5("#ifndef ", guard.as_str(), "\n", "#define ", guard.as_str())
    }

    /// The line that closes the include guard of a header.
    pub fn emit_cpp_header_guard_end(&self, name: &str, suffix: &str) -> (r: String)
        ensures
            r@ == "#endif /// "@ + header_name(self.name@, name@, suffix@),
    {
        let guard = self.header_name(name, suffix);
        join2("#endif /// ", guard.as_str())
    }

    /// The comment that marks a file as generated.
    pub fn emit_cpp_is_automatically_generated_comment(&self) -> (r: String)
        ensures
            r@ == "/******************************************************************************"@
                + "\n"@ + " * This file has been automatically generated by jack-make"@ + "\n"@
                + " ******************************************************************************/"@,
    {
        join5(
            "/******************************************************************************",
            "\n",
            " * This file has been automatically generated by jack-make",
            "\n",
            " ******************************************************************************/",
        )
    }

    /// The lines that open the namespace of the project; nothing where the
    /// project has no namespace.
    pub fn emit_cpp_namespace_begin(&self) -> (r: String)
        ensures
            self.namespaces@.len() == 0 ==> r@ == Seq::<char>::empty(),
            self.namespaces@.len() > 0 ==> r@ == "namespace "@ + joined(
                self.namespaces@,
                "::"@,
                self.namespaces@.len() as int,
            ) + "\n"@ + "{"@,
    {
        if self.namespaces.len() > 0 {
            let path = self.cpp_namespace_string();
            join4("namespace ", path.as_str(), "\n", "{")
        } else {
            String::new()
        }
    }

    /// The line that closes the namespace of the project; nothing where the
    /// project has no namespace.
    pub fn emit_cpp_namespace_end(&self) -> (r: String)
        ensures
            self.namespaces@.len() == 0 ==> r@ == Seq::<char>::empty(),
            self.namespaces@.len() > 0 ==> r@ == "} /// namespace "@ + joined(
                self.namespaces@,
                "::"@,
                self.namespaces@.len() as int,
            ),
    {
        if self.namespaces.len() > 0 {
            let path = self.cpp_namespace_string();
            join2("} /// namespace ", path.as_str())
        } else {
            String::new()
        }
    }
}

} // verus!
