//! The stable handle of every named concept.

use crate::order::{
    lemma_text_order_flip, lemma_text_order_range, lemma_text_order_same,
    lemma_text_order_transitive,
};
use crate::text::{order_texts, text_order};
use std::cmp::Ordering;
use vstd::prelude::*;
use vstd::std_specs::cmp::{PartialEqSpecImpl, PartialOrdSpecImpl};
use vstd::string::StringExecFns;

verus! {

/// The handle of a named concept: a permanent identity (`uuid`) and a human
/// name inside a module. Two identifiers are the same concept exactly when
/// their `uuid`s agree; names only serve display.
#[derive(Debug)]
pub struct Identifier {
    pub uuid: String,
    pub name: String,
    pub module: String,
    pub bumpy_case: String,
}

impl Default for Identifier {
    /// The unset identifier: every field empty.
    fn default() -> (r: Self)
        ensures
            r.uuid@.len() == 0,
            r.name@.len() == 0,
            r.module@.len() == 0,
            r.bumpy_case@.len() == 0,
    {
        Identifier {
            uuid: String::new(),
            name: String::new(),
            module: String::new(),
            bumpy_case: String::new(),
        }
    }
}

impl Clone for Identifier {
    fn clone(&self) -> (r: Self)
        ensures
            r == *self,
    {
        Identifier {
            uuid: self.uuid.clone(),
            name: self.name.clone(),
            module: self.module.clone(),
            bumpy_case: self.bumpy_case.clone(),
        }
    }
}

impl PartialEq for Identifier {
    fn eq(&self, other: &Self) -> (r: bool) {
        self.uuid == other.uuid
    }
}

impl Eq for Identifier {}

impl PartialEqSpecImpl for Identifier {
    open spec fn obeys_eq_spec() -> bool {
        true
    }

    open spec fn eq_spec(&self, other: &Self) -> bool {
        self.uuid@ == other.uuid@
    }
}

impl PartialOrd for Identifier {
    fn partial_cmp(&self, other: &Self) -> (r: Option<Ordering>) {
        let mine = self.qualified_name();
        let theirs = other.qualified_name();
        let order = order_texts(mine.as_str(), theirs.as_str());
        if order < 0 {
            Some(Ordering::Less)
        } else if order == 0 {
            Some(Ordering::Equal)
        } else {
            Some(Ordering::Greater)
        }
    }
}

impl PartialOrdSpecImpl for Identifier {
    open spec fn obeys_partial_cmp_spec() -> bool {
        true
    }

    open spec fn partial_cmp_spec(&self, other: &Self) -> Option<Ordering> {
        Some(self.order_with(*other))
    }
}

impl Identifier {
    /// How the identifier stands to `other`: identifiers are ordered by
    /// their qualified names, as a dictionary orders words. The order
    /// serves display; it says nothing of identity.
    pub open spec fn order_with(self, other: Identifier) -> Ordering {
        let order = text_order(self.spec_qualified_name(), other.spec_qualified_name(), 0);
        if order < 0 {
            Ordering::Less
        } else if order == 0 {
            Ordering::Equal
        } else {
            Ordering::Greater
        }
    }

    /// Whether the identifier is unset: an empty name denotes "absent".
    pub open spec fn is_unset(&self) -> bool {
        self.name@.len() == 0
    }

    /// The module-qualified name: `module.name`, the bare name where the
    /// module is empty, and empty where the name is.
    pub open spec fn spec_qualified_name(&self) -> Seq<char> {
        if self.name@.len() == 0 {
            Seq::<char>::empty()
        } else if self.module@.len() > 0 {
            self.module@ + "."@ + self.name@
        } else {
            self.name@
        }
    }

    /// The module-qualified name.
    pub fn qualified_name(&self) -> (r: String)
        ensures
            r@ == self.spec_qualified_name(),
    {
        let mut r = String::new();
        if self.name.as_str().is_empty() {
            return r;
        }
        if !self.module.as_str().is_empty() {
            r.append(self.module.as_str());
            r.append(".");
        }
        r.append(self.name.as_str());
        assert(r@ =~= self.spec_qualified_name());
        r
    }

    /// The name as generated code writes it: the module and the name with
    /// an underscore between them, the bare name where the module is empty.
    pub open spec fn spec_variable_name(&self) -> Seq<char> {
        if self.module@.len() > 0 {
            self.module@ + "_"@ + self.name@
        } else {
            self.name@
        }
    }

    /// The name as generated code writes it.
    pub fn variable_name(&self) -> (r: String)
        ensures
            r@ == self.spec_variable_name(),
    {
        let mut r = String::new();
        if !self.module.as_str().is_empty() {
            r.append(self.module.as_str());
            r.append("_");
        }
        r.append(self.name.as_str());
        assert(r@ =~= self.spec_variable_name());
        r
    }

    /// Whether this identifier comes before `other` in the order of
    /// qualified names.
    pub fn precedes(&self, other: &Identifier) -> (r: bool)
        ensures
            r == (text_order(self.spec_qualified_name(), other.spec_qualified_name(), 0) < 0),
    {
        let mine = self.qualified_name();
        let theirs = other.qualified_name();
        order_texts(mine.as_str(), theirs.as_str()) < 0
    }
}

/// The order of identifiers is a total order of their qualified names:
/// two identifiers are in no order exactly when their qualified names are
/// the same, each order turns round with its operands, and "before" is
/// transitive. It is independent of identity.
pub proof fn identifier_order_is_total(a: Identifier, b: Identifier, c: Identifier)
    ensures
        a.order_with(b) == Ordering::Equal <==> a.spec_qualified_name() == b.spec_qualified_name(),
        a.order_with(b) == Ordering::Less <==> b.order_with(a) == Ordering::Greater,
        a.order_with(b) == Ordering::Less && b.order_with(c) == Ordering::Less ==> a.order_with(c)
            == Ordering::Less,
{
    let x = a.spec_qualified_name();
    let y = b.spec_qualified_name();
    let z = c.spec_qualified_name();
    lemma_text_order_same(x, y);
    lemma_text_order_flip(x, y, 0);
    lemma_text_order_range(x, y, 0);
    if text_order(x, y, 0) < 0 && text_order(y, z, 0) < 0 {
        lemma_text_order_transitive(x, y, z, 0);
    }
}

} // verus!
