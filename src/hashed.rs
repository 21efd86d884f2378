//! Renderings of hashed collections. Their text follows the collection's
//! walk order, which depends on the value's layout and not only on its
//! contents: two sets with the same members may render their items in
//! different orders, but one value always renders the same way.
use vstd::prelude::*;

use std::collections::{HashMap, HashSet};

use crate::compound::format_items;
use crate::render::SporePrint;
use crate::text;
use crate::text::join_strings;

verus! {

/// The members of `s` in its walk order: the sequence of the iterator that
/// `s.iter()` returns.
pub open spec fn walk<T>(s: &HashSet<T>) -> Seq<T> {
    vstd::std_specs::hash::into_iter_hash_keys(vstd::std_specs::hash::spec_hash_keys_iter(s))
}

/// The entries of `m` in its walk order: the sequence of the iterator that
/// `m.iter()` returns.
pub open spec fn entry_walk<K, V>(m: &HashMap<K, V>) -> Seq<(K, V)> {
    vstd::std_specs::hash::into_iter(vstd::std_specs::hash::spec_hash_map_iter(m))
}

/// `key: value`.
pub open spec fn entry_text(key: Seq<char>, value: Seq<char>) -> Seq<char> {
    key + seq![':', ' '] + value
}

/// The rendered entries of a walk, in order.
pub open spec fn entry_renders<K: SporePrint, V: SporePrint>(
    entries: Seq<(K, V)>,
) -> Seq<Seq<char>> {
    entries.map_values(|e: (K, V)| entry_text(e.0.rendered(), e.1.rendered()))
}

/// `{a, b, c}`: parts joined by `, ` inside braces.
pub open spec fn brace_text(parts: Seq<Seq<char>>) -> Seq<char> {
    seq!['{'] + text::join(parts, text::comma_sep()) + seq!['}']
}

/// Relies on `HashSet::iter`: it visits the members of `s` in the order of the
/// iterator it returns, which vstd models as `spec_hash_keys_iter(s)`; the
/// result holds a reference to each, in that order.
#[verifier::external_body]
fn members<'a, T>(s: &'a HashSet<T>) -> (r: Vec<&'a T>)
    ensures
        r@.len() == walk(s).len(),
        forall|i: int| 0 <= i < r@.len() ==> *#[trigger] r@[i] == walk(s)[i],
{
    s.iter().collect()
}

/// Relies on `HashMap::iter`: it visits the entries of `m` in the order of the
/// iterator it returns, which vstd models as `spec_hash_map_iter(m)`; the
/// result holds references to each key and value, in that order.
#[verifier::external_body]
fn entries<'a, K, V>(m: &'a HashMap<K, V>) -> (r: Vec<(&'a K, &'a V)>)
    ensures
        r@.len() == entry_walk(m).len(),
        forall|i: int|
            0 <= i < r@.len() ==> *(#[trigger] r@[i]).0 == entry_walk(m)[i].0 && *r@[i].1
                == entry_walk(m)[i].1,
{
    m.iter().collect()
}

impl<T: SporePrint> SporePrint for HashSet<T> {
    open spec fn rendered(&self) -> Seq<char> {
        text::list_text(crate::compound::renders(walk(self)))
    }

    fn spore_print(&self) -> (r: String) {
        let items = members(self);
        assert(crate::compound::renders(items@) =~= crate::compound::renders(walk(self)));
        format_items(items.as_slice())
    }
}

impl<K: SporePrint, V: SporePrint> SporePrint for HashMap<K, V> {
    open spec fn rendered(&self) -> Seq<char> {
        brace_text(entry_renders(entry_walk(self)))
    }

    fn spore_print(&self) -> (r: String) {
        let items = entries(self);
        let mut parts: Vec<String> = Vec::new();
        let mut i: usize = 0;
        while i < items.len()
            invariant
                0 <= i <= items@.len(),
                items@.len() == entry_walk(self).len(),
                forall|j: int|
                    0 <= j < items@.len() ==> *(#[trigger] items@[j]).0 == entry_walk(self)[j].0
                        && *items@[j].1 == entry_walk(self)[j].1,
                parts@.len() == i,
                forall|j: int|
                    0 <= j < i ==> #[trigger] parts@[j]@ == entry_text(
                        items@[j].0.rendered(),
                        items@[j].1.rendered(),
                    ),
            decreases items@.len() - i,
        {
            let (k, v) = items[i];
            let mut part = k.spore_print();
            let value = v.spore_print();
            proof {
                reveal_strlit(": ");
            }
            part.append(": ");
            part.append(value.as_str());
            assert(part@ =~= entry_text(k.rendered(), v.rendered()));
            parts.push(part);
            i += 1;
        }
        assert(text::views(parts@) =~= entry_renders(entry_walk(self)));
        let mut out = String::new();
        out.push('{');
        let inner = join_strings(&parts, ", ");
        proof {
            reveal_strlit(", ");
            assert(", "@ =~= text::comma_sep());
        }
        out.append(inner.as_str());
        out.push('}');
        assert(out@ =~= self.rendered());
        out
    }
}

} // verus!
