//! The order of texts is a strict total order; lists kept in it.

use crate::identifier::Identifier;
use crate::text::{order_texts, text_order};
use vstd::prelude::*;

verus! {

/// `text_order` answers -1, 0 or 1.
pub proof fn lemma_text_order_range(a: Seq<char>, b: Seq<char>, from: int)
    ensures
        -1 <= text_order(a, b, from) <= 1,
    decreases a.len() - from,
{
    if 0 <= from < a.len() && from < b.len() && a[from] == b[from] {
        lemma_text_order_range(a, b, from + 1);
    }
}

/// Turning the two texts round turns the answer round.
pub proof fn lemma_text_order_flip(a: Seq<char>, b: Seq<char>, from: int)
    ensures
        text_order(b, a, from) == -text_order(a, b, from),
    decreases a.len() - from,
{
    if 0 <= from < a.len() && from < b.len() && a[from] == b[from] {
        lemma_text_order_flip(a, b, from + 1);
    }
}

/// Two texts are in no order exactly when they agree from `from` on.
pub proof fn lemma_text_order_equal(a: Seq<char>, b: Seq<char>, from: int)
    requires
        0 <= from,
    ensures
        text_order(a, b, from) == 0 <==> (a.len() == b.len() || (from >= a.len() && from
            >= b.len())) && forall|i: int| from <= i < a.len() && i < b.len() ==> a[i] == b[i],
    decreases a.len() - from,
{
    if from < a.len() && from < b.len() {
        if a[from] == b[from] {
            lemma_text_order_equal(a, b, from + 1);
        }
    }
}

/// Texts that are in no order from the start are the same text.
pub proof fn lemma_text_order_same(a: Seq<char>, b: Seq<char>)
    ensures
        text_order(a, b, 0) == 0 <==> a == b,
{
    lemma_text_order_equal(a, b, 0);
    if text_order(a, b, 0) == 0 {
        assert(a =~= b);
    }
}

/// The order of texts is transitive.
pub proof fn lemma_text_order_transitive(a: Seq<char>, b: Seq<char>, c: Seq<char>, from: int)
    requires
        0 <= from,
        text_order(a, b, from) < 0,
        text_order(b, c, from) < 0,
    ensures
        text_order(a, c, from) < 0,
    decreases a.len() - from,
{
    if from < a.len() && from < b.len() && from < c.len() {
        if a[from] == b[from] && b[from] == c[from] {
            lemma_text_order_transitive(a, b, c, from + 1);
        }
    }
}

/// A text that comes before or with another comes before all that the
/// other comes before.
pub proof fn lemma_text_order_chain(a: Seq<char>, b: Seq<char>, c: Seq<char>)
    requires
        text_order(a, b, 0) <= 0,
        text_order(b, c, 0) < 0,
    ensures
        text_order(a, c, 0) < 0,
{
    lemma_text_order_range(a, b, 0);
    if text_order(a, b, 0) == 0 {
        lemma_text_order_same(a, b);
    } else {
        lemma_text_order_transitive(a, b, c, 0);
    }
}

/// What has a place in the order of texts.
pub trait Ordered {
    /// The text by which the value is ordered.
    spec fn spec_key(&self) -> Seq<char>;
}

/// A record that has a place in the order of texts and can tell its key.
pub trait Keyed: Ordered {
    fn key(&self) -> (r: String)
        ensures
            r@ == self.spec_key(),
    ;
}

/// An identifier is ordered by its qualified name.
impl Ordered for Identifier {
    open spec fn spec_key(&self) -> Seq<char> {
        self.spec_qualified_name()
    }
}

impl Keyed for Identifier {
    fn key(&self) -> (r: String) {
        self.qualified_name()
    }
}

/// A text is ordered by itself.
impl Ordered for String {
    open spec fn spec_key(&self) -> Seq<char> {
        self@
    }
}

impl Keyed for String {
    fn key(&self) -> (r: String) {
        self.clone()
    }
}

/// A text as a mathematical value is ordered by itself.
impl Ordered for Seq<char> {
    open spec fn spec_key(&self) -> Seq<char> {
        *self
    }
}

/// Whether a list is in ascending order of its keys, with no key twice.
pub open spec fn ascending<T: Ordered>(items: Seq<T>) -> bool {
    forall|i: int, j: int|
        0 <= i < j < items.len() ==> text_order(
            (#[trigger] items[i]).spec_key(),
            (#[trigger] items[j]).spec_key(),
            0,
        ) < 0
}

/// The position of the first of `items`, from `start` on, whose key does
/// not come before `key`; the length of `items` where all come before.
pub open spec fn place_from<T: Ordered>(items: Seq<T>, key: Seq<char>, start: int) -> int
    decreases items.len() - start,
{
    if start < 0 || start >= items.len() {
        items.len() as int
    } else if text_order(items[start].spec_key(), key, 0) >= 0 {
        start
    } else {
        place_from(items, key, start + 1)
    }
}

/// Where a record with the key `key` belongs in an ascending list.
pub open spec fn place<T: Ordered>(items: Seq<T>, key: Seq<char>) -> int {
    place_from(items, key, 0)
}

/// Whether one of `items` has the key `key`.
pub open spec fn has_key<T: Ordered>(items: Seq<T>, key: Seq<char>) -> bool {
    exists|i: int| 0 <= i < items.len() && (#[trigger] items[i]).spec_key() == key
}

/// An ascending list with `item` put in its place; the list as it is where
/// it holds a record with the key of `item` already.
pub open spec fn with_item<T: Ordered>(items: Seq<T>, item: T) -> Seq<T> {
    let at = place(items, item.spec_key());
    if at < items.len() && items[at].spec_key() == item.spec_key() {
        items
    } else {
        items.insert(at, item)
    }
}

/// `place_from` stops at the first record that does not come before the
/// key.
pub proof fn lemma_place_from<T: Ordered>(items: Seq<T>, key: Seq<char>, start: int)
    requires
        0 <= start <= items.len(),
    ensures
        start <= place_from(items, key, start) <= items.len(),
        place_from(items, key, start) < items.len() ==> text_order(
            items[place_from(items, key, start)].spec_key(),
            key,
            0,
        ) >= 0,
        forall|j: int|
            start <= j < place_from(items, key, start) ==> text_order(
                (#[trigger] items[j]).spec_key(),
                key,
                0,
            ) < 0,
    decreases items.len() - start,
{
    if start < items.len() && text_order(items[start].spec_key(), key, 0) < 0 {
        lemma_place_from(items, key, start + 1);
    }
}

/// Putting a record in its place keeps a list ascending, keeps every key
/// it had and adds the key of the record.
pub proof fn lemma_with_item<T: Ordered>(items: Seq<T>, item: T)
    requires
        ascending(items),
    ensures
        ascending(with_item(items, item)),
        has_key(with_item(items, item), item.spec_key()),
        forall|key: Seq<char>| has_key(items, key) ==> has_key(with_item(items, item), key),
        forall|key: Seq<char>|
            has_key(with_item(items, item), key) ==> has_key(items, key) || key == item.spec_key(),
{
    let key = item.spec_key();
    let at = place(items, key);
    let after = with_item(items, item);
    lemma_place_from(items, key, 0);
    if at < items.len() && items[at].spec_key() == key {
        assert(has_key(after, key));
    } else {
        assert(after == items.insert(at, item));
        assert(after[at] == item);
        assert forall|i: int, j: int| 0 <= i < j < after.len() implies text_order(
            (#[trigger] after[i]).spec_key(),
            (#[trigger] after[j]).spec_key(),
            0,
        ) < 0 by {
            if j < at {
                assert(after[i] == items[i] && after[j] == items[j]);
            } else if j == at {
                assert(after[i] == items[i]);
            } else if i == at {
                assert(after[j] == items[j - 1]);
                let other = items[j - 1].spec_key();
                lemma_text_order_flip(items[at].spec_key(), key, 0);
                lemma_text_order_same(key, items[at].spec_key());
                lemma_text_order_range(key, items[at].spec_key(), 0);
                if j - 1 > at {
                    assert(text_order(items[at].spec_key(), other, 0) < 0);
                    lemma_text_order_chain(key, items[at].spec_key(), other);
                }
            } else if i > at {
                assert(after[i] == items[i - 1] && after[j] == items[j - 1]);
            } else {
                assert(after[i] == items[i] && after[j] == items[j - 1]);
                if i < j - 1 {
                } else {
                    assert(false);
                }
            }
        }
        assert forall|k: Seq<char>| has_key(items, k) implies has_key(after, k) by {
            let i = choose|i: int| 0 <= i < items.len() && (#[trigger] items[i]).spec_key() == k;
            if i < at {
                assert(after[i] == items[i]);
            } else {
                assert(after[i + 1] == items[i]);
            }
        }
        assert forall|k: Seq<char>| has_key(after, k) implies has_key(items, k) || k == key by {
            let i = choose|i: int| 0 <= i < after.len() && (#[trigger] after[i]).spec_key() == k;
            if i < at {
                assert(after[i] == items[i]);
            } else if i > at {
                assert(after[i] == items[i - 1]);
            }
        }
    }
}

/// Puts `item` in its place in an ascending list, unless the list holds a
/// record with its key already.
pub fn put<T: Keyed>(items: &mut Vec<T>, item: T)
    ensures
        final(items)@ == with_item(old(items)@, item),
{
    let key = item.key();
    let mut at: usize = 0;
    while at < items.len()
        invariant
            at <= items@.len(),
            items@ == old(items)@,
            key@ == item.spec_key(),
            place_from(items@, key@, 0) == place_from(items@, key@, at as int),
        decreases items@.len() - at,
    {
        let there = items[at].key();
        let order = order_texts(there.as_str(), key.as_str());
        if order >= 0 {
            proof {
                lemma_text_order_same(there@, key@);
            }
            if order != 0 {
                items.insert(at, item);
            }
            return ;
        }
        at = at + 1;
    }
    items.insert(at, item);
}

/// The first `n` of `items` gathered into an ascending list, one after the
/// other: of records with one key, the first is kept.
pub open spec fn gathered<T: Ordered>(items: Seq<T>, n: int) -> Seq<T>
    decreases n,
{
    if n <= 0 {
        Seq::empty()
    } else {
        with_item(gathered(items, n - 1), items[n - 1])
    }
}

/// What is gathered is ascending, and holds exactly the keys of what was
/// gathered.
pub proof fn gathered_is_ascending<T: Ordered>(items: Seq<T>, n: int)
    requires
        0 <= n <= items.len(),
    ensures
        ascending(gathered(items, n)),
        forall|i: int| 0 <= i < n ==> has_key(gathered(items, n), (#[trigger] items[i]).spec_key()),
        forall|key: Seq<char>|
            has_key(gathered(items, n), key) ==> exists|i: int|
                0 <= i < n && (#[trigger] items[i]).spec_key() == key,
    decreases n,
{
    if n > 0 {
        gathered_is_ascending(items, n - 1);
        lemma_with_item(gathered(items, n - 1), items[n - 1]);
        assert forall|i: int| 0 <= i < n implies has_key(
            gathered(items, n),
            (#[trigger] items[i]).spec_key(),
        ) by {
            if i < n - 1 {
                assert(has_key(gathered(items, n - 1), items[i].spec_key()));
            }
        }
        assert forall|key: Seq<char>| has_key(gathered(items, n), key) implies exists|i: int|
            0 <= i < n && (#[trigger] items[i]).spec_key() == key by {
            if has_key(gathered(items, n - 1), key) {
                let i = choose|i: int| 0 <= i < n - 1 && (#[trigger] items[i]).spec_key() == key;
                assert(0 <= i < n && items[i].spec_key() == key);
            } else {
                assert(items[n - 1].spec_key() == key);
            }
        }
    } else {
        assert forall|key: Seq<char>| !has_key(gathered(items, 0), key) by {}
    }
}

/// The keys of a list, in order.
pub open spec fn keys<T: Ordered>(items: Seq<T>) -> Seq<Seq<char>> {
    Seq::new(items.len(), |i: int| items[i].spec_key())
}

proof fn lemma_place_of_keys<T: Ordered>(items: Seq<T>, key: Seq<char>, start: int)
    requires
        0 <= start,
    ensures
        place_from(keys(items), key, start) == place_from(items, key, start),
    decreases items.len() - start,
{
    if start < items.len() {
        assert(keys(items)[start].spec_key() == items[start].spec_key());
        if text_order(items[start].spec_key(), key, 0) < 0 {
            lemma_place_of_keys(items, key, start + 1);
        }
    }
}

/// Putting a record in its place does to the keys of a list what putting
/// its key does.
pub proof fn lemma_with_item_keys<T: Ordered>(items: Seq<T>, item: T)
    ensures
        keys(with_item(items, item)) == with_item(keys(items), item.spec_key()),
{
    lemma_place_of_keys(items, item.spec_key(), 0);
    lemma_place_from(items, item.spec_key(), 0);
    let at = place(items, item.spec_key());
    if at < items.len() {
        assert(keys(items)[at] == items[at].spec_key());
    }
    assert(keys(with_item(items, item)) =~= with_item(keys(items), item.spec_key()));
}

/// Puts a line in its place among lines in ascending order, unless it
/// stands there already.
pub fn put_line(lines: &mut Vec<String>, line: String)
    ensures
        keys(final(lines)@) == with_item(keys(old(lines)@), line@),
{
    proof {
        lemma_with_item_keys(lines@, line);
    }
    put(lines, line);
}

} // verus!
