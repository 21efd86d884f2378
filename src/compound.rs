//! Renderings of ordered compound values: slices, vectors, arrays,
//! tuples and ranges.
use vstd::prelude::*;

use crate::render::SporePrint;
use crate::text;
use crate::text::{bracket_list, join_strings};

verus! {

/// The renderings of each element of `s`, in order.
pub open spec fn renders<T: SporePrint>(s: Seq<T>) -> Seq<Seq<char>> {
    s.map_values(|x: T| x.rendered())
}

/// `(a, b, c)`: parts joined by `, ` inside parentheses.
pub open spec fn tuple_text(parts: Seq<Seq<char>>) -> Seq<char> {
    seq!['('] + text::join(parts, text::comma_sep()) + seq![')']
}

/// `(a,)`: the one-element tuple form, with its trailing comma.
pub open spec fn single_text(part: Seq<char>) -> Seq<char> {
    seq!['('] + part + seq![',', ')']
}

/// `a..b`: the bounds of a half-open range.
pub open spec fn range_text(start: Seq<char>, end: Seq<char>) -> Seq<char> {
    start + seq!['.', '.'] + end
}

/// `a..=b`: the bounds of a closed range.
pub open spec fn closed_range_text(start: Seq<char>, end: Seq<char>) -> Seq<char> {
    start + seq!['.', '.', '='] + end
}

/// Relies on `RangeInclusive::start`: a reference to the stored lower bound.
pub assume_specification<Idx>[ core::ops::RangeInclusive::<Idx>::start ](
    range: &core::ops::RangeInclusive<Idx>,
) -> (r: &Idx)
    ensures
        *r == range@.start,
;

/// Relies on `RangeInclusive::end`: a reference to the stored upper bound.
pub assume_specification<Idx>[ core::ops::RangeInclusive::<Idx>::end ](
    range: &core::ops::RangeInclusive<Idx>,
) -> (r: &Idx)
    ensures
        *r == range@.end,
;

/// Renders `items` as `[a, b, c]`, in order.
pub fn format_items<T: SporePrint>(items: &[T]) -> (r: String)
    ensures
        r@ == text::list_text(renders(items@)),
{
    let mut parts: Vec<String> = Vec::new();
    let mut i: usize = 0;
    while i < items.len()
        invariant
            0 <= i <= items@.len(),
            parts@.len() == i,
            forall|j: int| 0 <= j < i ==> #[trigger] parts@[j]@ == items@[j].rendered(),
        decreases items@.len() - i,
    {
        parts.push(items[i].spore_print());
        i += 1;
    }
    assert(text::views(parts@) =~= renders(items@));
    bracket_list(&parts)
}

/// Renders rendered parts as `(a, b, c)`.
fn parenthesize(parts: &Vec<String>) -> (r: String)
    ensures
        r@ == tuple_text(text::views(parts@)),
{
    let mut out = String::new();
    out.push('(');
    let inner = join_strings(parts, ", ");
    proof {
        reveal_strlit(", ");
        assert(", "@ =~= text::comma_sep());
    }
    out.append(inner.as_str());
    out.push(')');
    assert(out@ =~= tuple_text(text::views(parts@)));
    out
}

impl<T: SporePrint> SporePrint for [T] {
    open spec fn rendered(&self) -> Seq<char> {
        text::list_text(renders(self@))
    }

    fn spore_print(&self) -> (r: String) {
        format_items(self)
    }
}

impl<T: SporePrint> SporePrint for Vec<T> {
    open spec fn rendered(&self) -> Seq<char> {
        text::list_text(renders(self@))
    }

    fn spore_print(&self) -> (r: String) {
        format_items(self.as_slice())
    }
}

impl<T: SporePrint, const N: usize> SporePrint for [T; N] {
    open spec fn rendered(&self) -> Seq<char> {
        text::list_text(renders(self@))
    }

    fn spore_print(&self) -> (r: String) {
        format_items(self.as_slice())
    }
}

impl<T: SporePrint> SporePrint for core::ops::Range<T> {
    open spec fn rendered(&self) -> Seq<char> {
        range_text(self.start.rendered(), self.end.rendered())
    }

    fn spore_print(&self) -> (r: String) {
        let mut out = self.start.spore_print();
        let end = self.end.spore_print();
        proof {
            reveal_strlit("..");
        }
        out.append("..");
        out.append(end.as_str());
        assert(out@ =~= self.rendered());
        out
    }
}

impl<T: SporePrint> SporePrint for core::ops::RangeInclusive<T> {
    open spec fn rendered(&self) -> Seq<char> {
        closed_range_text(self@.start.rendered(), self@.end.rendered())
    }

    fn spore_print(&self) -> (r: String) {
        let mut out = self.start().spore_print();
        let end = self.end().spore_print();
        proof {
            reveal_strlit("..=");
        }
        out.append("..=");
        out.append(end.as_str());
        assert(out@ =~= self.rendered());
        out
    }
}

impl<A: SporePrint> SporePrint for (A,) {
    open spec fn rendered(&self) -> Seq<char> {
        single_text(self.0.rendered())
    }

    fn spore_print(&self) -> (r: String) {
        let mut out = String::new();
        out.push('(');
        let part = self.0.spore_print();
        out.append(part.as_str());
        out.push(',');
        out.push(')');
        assert(out@ =~= self.rendered());
        out
    }
}

impl<A: SporePrint, B: SporePrint> SporePrint for (A, B) {
    open spec fn rendered(&self) -> Seq<char> {
        tuple_text(seq![self.0.rendered(), self.1.rendered()])
    }

    fn spore_print(&self) -> (r: String) {
        let mut parts: Vec<String> = Vec::new();
        parts.push(self.0.spore_print());
        parts.push(self.1.spore_print());
        assert(text::views(parts@) =~= seq![self.0.rendered(), self.1.rendered()]);
        parenthesize(&parts)
    }
}

impl<A: SporePrint, B: SporePrint, C: SporePrint> SporePrint for (A, B, C) {
    open spec fn rendered(&self) -> Seq<char> {
        tuple_text(seq![self.0.rendered(), self.1.rendered(), self.2.rendered()])
    }

    fn spore_print(&self) -> (r: String) {
        let mut parts: Vec<String> = Vec::new();
        parts.push(self.0.spore_print());
        parts.push(self.1.spore_print());
        parts.push(self.2.spore_print());
        assert(text::views(parts@) =~= seq![self.0.rendered(), self.1.rendered(), self.2.rendered()]);
        parenthesize(&parts)
    }
}

impl<A: SporePrint, B: SporePrint, C: SporePrint, D: SporePrint> SporePrint for (A, B, C, D) {
    open spec fn rendered(&self) -> Seq<char> {
        tuple_text(seq![self.0.rendered(), self.1.rendered(), self.2.rendered(), self.3.rendered()])
    }

    fn spore_print(&self) -> (r: String) {
        let mut parts: Vec<String> = Vec::new();
        parts.push(self.0.spore_print());
        parts.push(self.1.spore_print());
        parts.push(self.2.spore_print());
        parts.push(self.3.spore_print());
        assert(text::views(parts@) =~= seq![self.0.rendered(), self.1.rendered(), self.2.rendered(), self.3.rendered()]);
        parenthesize(&parts)
    }
}

impl<A: SporePrint, B: SporePrint, C: SporePrint, D: SporePrint, E: SporePrint> SporePrint for (A, B, C, D, E) {
    open spec fn rendered(&self) -> Seq<char> {
        tuple_text(seq![self.0.rendered(), self.1.rendered(), self.2.rendered(), self.3.rendered(), self.4.rendered()])
    }

    fn spore_print(&self) -> (r: String) {
        let mut parts: Vec<String> = Vec::new();
        parts.push(self.0.spore_print());
        parts.push(self.1.spore_print());
        parts.push(self.2.spore_print());
        parts.push(self.3.spore_print());
        parts.push(self.4.spore_print());
        assert(text::views(parts@) =~= seq![self.0.rendered(), self.1.rendered(), self.2.rendered(), self.3.rendered(), self.4.rendered()]);
        parenthesize(&parts)
    }
}

impl<A: SporePrint, B: SporePrint, C: SporePrint, D: SporePrint, E: SporePrint, F: SporePrint> SporePrint for (A, B, C, D, E, F) {
    open spec fn rendered(&self) -> Seq<char> {
        tuple_text(seq![self.0.rendered(), self.1.rendered(), self.2.rendered(), self.3.rendered(), self.4.rendered(), self.5.rendered()])
    }

    fn spore_print(&self) -> (r: String) {
        let mut parts: Vec<String> = Vec::new();
        parts.push(self.0.spore_print());
        parts.push(self.1.spore_print());
        parts.push(self.2.spore_print());
        parts.push(self.3.spore_print());
        parts.push(self.4.spore_print());
        parts.push(self.5.spore_print());
        assert(text::views(parts@) =~= seq![self.0.rendered(), self.1.rendered(), self.2.rendered(), self.3.rendered(), self.4.rendered(), self.5.rendered()]);
        parenthesize(&parts)
    }
}

impl<A: SporePrint, B: SporePrint, C: SporePrint, D: SporePrint, E: SporePrint, F: SporePrint, G: SporePrint> SporePrint for (A, B, C, D, E, F, G) {
    open spec fn rendered(&self) -> Seq<char> {
        tuple_text(seq![self.0.rendered(), self.1.rendered(), self.2.rendered(), self.3.rendered(), self.4.rendered(), self.5.rendered(), self.6.rendered()])
    }

    fn spore_print(&self) -> (r: String) {
        let mut parts: Vec<String> = Vec::new();
        parts.push(self.0.spore_print());
        parts.push(self.1.spore_print());
        parts.push(self.2.spore_print());
        parts.push(self.3.spore_print());
        parts.push(self.4.spore_print());
        parts.push(self.5.spore_print());
        parts.push(self.6.spore_print());
        assert(text::views(parts@) =~= seq![self.0.rendered(), self.1.rendered(), self.2.rendered(), self.3.rendered(), self.4.rendered(), self.5.rendered(), self.6.rendered()]);
        parenthesize(&parts)
    }
}

impl<A: SporePrint, B: SporePrint, C: SporePrint, D: SporePrint, E: SporePrint, F: SporePrint, G: SporePrint, H: SporePrint> SporePrint for (A, B, C, D, E, F, G, H) {
    open spec fn rendered(&self) -> Seq<char> {
        tuple_text(seq![self.0.rendered(), self.1.rendered(), self.2.rendered(), self.3.rendered(), self.4.rendered(), self.5.rendered(), self.6.rendered(), self.7.rendered()])
    }

    fn spore_print(&self) -> (r: String) {
        let mut parts: Vec<String> = Vec::new();
        parts.push(self.0.spore_print());
        parts.push(self.1.spore_print());
        parts.push(self.2.spore_print());
        parts.push(self.3.spore_print());
        parts.push(self.4.spore_print());
        parts.push(self.5.spore_print());
        parts.push(self.6.spore_print());
        parts.push(self.7.spore_print());
        assert(text::views(parts@) =~= seq![self.0.rendered(), self.1.rendered(), self.2.rendered(), self.3.rendered(), self.4.rendered(), self.5.rendered(), self.6.rendered(), self.7.rendered()]);
        parenthesize(&parts)
    }
}

impl<A: SporePrint, B: SporePrint, C: SporePrint, D: SporePrint, E: SporePrint, F: SporePrint, G: SporePrint, H: SporePrint, I: SporePrint> SporePrint for (A, B, C, D, E, F, G, H, I) {
    open spec fn rendered(&self) -> Seq<char> {
        tuple_text(seq![self.0.rendered(), self.1.rendered(), self.2.rendered(), self.3.rendered(), self.4.rendered(), self.5.rendered(), self.6.rendered(), self.7.rendered(), self.8.rendered()])
    }

    fn spore_print(&self) -> (r: String) {
        let mut parts: Vec<String> = Vec::new();
        parts.push(self.0.spore_print());
        parts.push(self.1.spore_print());
        parts.push(self.2.spore_print());
        parts.push(self.3.spore_print());
        parts.push(self.4.spore_print());
        parts.push(self.5.spore_print());
        parts.push(self.6.spore_print());
        parts.push(self.7.spore_print());
        parts.push(self.8.spore_print());
        assert(text::views(parts@) =~= seq![self.0.rendered(), self.1.rendered(), self.2.rendered(), self.3.rendered(), self.4.rendered(), self.5.rendered(), self.6.rendered(), self.7.rendered(), self.8.rendered()]);
        parenthesize(&parts)
    }
}

impl<A: SporePrint, B: SporePrint, C: SporePrint, D: SporePrint, E: SporePrint, F: SporePrint, G: SporePrint, H: SporePrint, I: SporePrint, J: SporePrint> SporePrint for (A, B, C, D, E, F, G, H, I, J) {
    open spec fn rendered(&self) -> Seq<char> {
        tuple_text(seq![self.0.rendered(), self.1.rendered(), self.2.rendered(), self.3.rendered(), self.4.rendered(), self.5.rendered(), self.6.rendered(), self.7.rendered(), self.8.rendered(), self.9.rendered()])
    }

    fn spore_print(&self) -> (r: String) {
        let mut parts: Vec<String> = Vec::new();
        parts.push(self.0.spore_print());
        parts.push(self.1.spore_print());
        parts.push(self.2.spore_print());
        parts.push(self.3.spore_print());
        parts.push(self.4.spore_print());
        parts.push(self.5.spore_print());
        parts.push(self.6.spore_print());
        parts.push(self.7.spore_print());
        parts.push(self.8.spore_print());
        parts.push(self.9.spore_print());
        assert(text::views(parts@) =~= seq![self.0.rendered(), self.1.rendered(), self.2.rendered(), self.3.rendered(), self.4.rendered(), self.5.rendered(), self.6.rendered(), self.7.rendered(), self.8.rendered(), self.9.rendered()]);
        parenthesize(&parts)
    }
}

impl<A: SporePrint, B: SporePrint, C: SporePrint, D: SporePrint, E: SporePrint, F: SporePrint, G: SporePrint, H: SporePrint, I: SporePrint, J: SporePrint, K: SporePrint> SporePrint for (A, B, C, D, E, F, G, H, I, J, K) {
    open spec fn rendered(&self) -> Seq<char> {
        tuple_text(seq![self.0.rendered(), self.1.rendered(), self.2.rendered(), self.3.rendered(), self.4.rendered(), self.5.rendered(), self.6.rendered(), self.7.rendered(), self.8.rendered(), self.9.rendered(), self.10.rendered()])
    }

    fn spore_print(&self) -> (r: String) {
        let mut parts: Vec<String> = Vec::new();
        parts.push(self.0.spore_print());
        parts.push(self.1.spore_print());
        parts.push(self.2.spore_print());
        parts.push(self.3.spore_print());
        parts.push(self.4.spore_print());
        parts.push(self.5.spore_print());
        parts.push(self.6.spore_print());
        parts.push(self.7.spore_print());
        parts.push(self.8.spore_print());
        parts.push(self.9.spore_print());
        parts.push(self.10.spore_print());
        assert(text::views(parts@) =~= seq![self.0.rendered(), self.1.rendered(), self.2.rendered(), self.3.rendered(), self.4.rendered(), self.5.rendered(), self.6.rendered(), self.7.rendered(), self.8.rendered(), self.9.rendered(), self.10.rendered()]);
        parenthesize(&parts)
    }
}

impl<A: SporePrint, B: SporePrint, C: SporePrint, D: SporePrint, E: SporePrint, F: SporePrint, G: SporePrint, H: SporePrint, I: SporePrint, J: SporePrint, K: SporePrint, L: SporePrint> SporePrint for (A, B, C, D, E, F, G, H, I, J, K, L) {
    open spec fn rendered(&self) -> Seq<char> {
        tuple_text(seq![self.0.rendered(), self.1.rendered(), self.2.rendered(), self.3.rendered(), self.4.rendered(), self.5.rendered(), self.6.rendered(), self.7.rendered(), self.8.rendered(), self.9.rendered(), self.10.rendered(), self.11.rendered()])
    }

    fn spore_print(&self) -> (r: String) {
        let mut parts: Vec<String> = Vec::new();
        parts.push(self.0.spore_print());
        parts.push(self.1.spore_print());
        parts.push(self.2.spore_print());
        parts.push(self.3.spore_print());
        parts.push(self.4.spore_print());
        parts.push(self.5.spore_print());
        parts.push(self.6.spore_print());
        parts.push(self.7.spore_print());
        parts.push(self.8.spore_print());
        parts.push(self.9.spore_print());
        parts.push(self.10.spore_print());
        parts.push(self.11.spore_print());
        assert(text::views(parts@) =~= seq![self.0.rendered(), self.1.rendered(), self.2.rendered(), self.3.rendered(), self.4.rendered(), self.5.rendered(), self.6.rendered(), self.7.rendered(), self.8.rendered(), self.9.rendered(), self.10.rendered(), self.11.rendered()]);
        parenthesize(&parts)
    }
}

/// A sequence of three items renders as `[a, b, c]`: each item's rendering,
/// in order, joined by `, ` inside square brackets.
pub proof fn lemma_three_items<T: SporePrint>(v: Vec<T>)
    requires
        v@.len() == 3,
    ensures
        v.rendered() == seq!['['] + v@[0].rendered() + seq![',', ' '] + v@[1].rendered() + seq![
            ',',
            ' ',
        ] + v@[2].rendered() + seq![']'],
{
    let parts = renders(v@);
    let first_two = parts.drop_last();
    assert(first_two.drop_last() =~= seq![v@[0].rendered()]);
    assert(text::join(first_two.drop_last(), text::comma_sep()) == v@[0].rendered());
    assert(text::join(first_two, text::comma_sep()) == v@[0].rendered() + text::comma_sep()
        + v@[1].rendered());
    assert(v.rendered() =~= seq!['['] + v@[0].rendered() + seq![',', ' '] + v@[1].rendered()
        + seq![',', ' '] + v@[2].rendered() + seq![']']);
}

/// An empty sequence renders as `[]`.
pub proof fn lemma_empty_sequence<T: SporePrint>(v: Vec<T>)
    requires
        v@.len() == 0,
    ensures
        v.rendered() == seq!['[', ']'],
{
    assert(v.rendered() =~= seq!['[', ']']);
}

/// Appending an item to a non-empty sequence appends `, ` and the item's
/// rendering just before the closing bracket: items keep their order.
pub proof fn lemma_push_item<T: SporePrint>(items: Seq<T>, x: T)
    requires
        items.len() > 0,
    ensures
        text::list_text(renders(items.push(x))) == seq!['['] + text::join(
            renders(items),
            text::comma_sep(),
        ) + seq![',', ' '] + x.rendered() + seq![']'],
{
    assert(renders(items.push(x)).drop_last() =~= renders(items));
    assert(text::list_text(renders(items.push(x))) =~= seq!['['] + text::join(
        renders(items),
        text::comma_sep(),
    ) + seq![',', ' '] + x.rendered() + seq![']']);
}

} // verus!
