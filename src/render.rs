//! The rendering trait and its implementations for std's primitives,
//! strings, references, optional and result values.
use vstd::prelude::*;

use crate::text;
use crate::text::{push_int, push_nat};

verus! {

/// A value with a deterministic, human-readable text rendering.
///
/// `rendered` is the rendering as a mathematical sequence of characters;
/// `spore_print` produces exactly that text.
pub trait SporePrint {
    /// The text this value renders as.
    ///
    /// Every implementation in this crate gives it. An implementation written
    /// outside verified code may leave it out: the default is an unknown text,
    /// so no verified implementation can meet its contract without giving it.
    closed spec fn rendered(&self) -> Seq<char> {
        arbitrary()
    }

    /// Renders the value as text.
    fn spore_print(&self) -> (r: String)
        ensures
            r@ == self.rendered(),
    ;
}

/// `true` or `false`.
pub open spec fn bool_text(b: bool) -> Seq<char> {
    if b {
        seq!['t', 'r', 'u', 'e']
    } else {
        seq!['f', 'a', 'l', 's', 'e']
    }
}

/// `Some(` + inner + `)`.
pub open spec fn some_text(inner: Seq<char>) -> Seq<char> {
    seq!['S', 'o', 'm', 'e', '('] + inner + seq![')']
}

/// `None`.
pub open spec fn none_text() -> Seq<char> {
    seq!['N', 'o', 'n', 'e']
}

/// `Ok(` + inner + `)`.
pub open spec fn ok_text(inner: Seq<char>) -> Seq<char> {
    seq!['O', 'k', '('] + inner + seq![')']
}

/// `Err(` + inner + `)`.
pub open spec fn err_text(inner: Seq<char>) -> Seq<char> {
    seq!['E', 'r', 'r', '('] + inner + seq![')']
}

/// A fresh string holding `prefix`, the rendering of `inner`, and `)`.
fn wrapped<T: SporePrint + ?Sized>(prefix: &str, inner: &T) -> (r: String)
    ensures
        r@ == prefix@ + inner.rendered() + seq![')'],
{
    let mut out = String::from_str(prefix);
    let body = inner.spore_print();
    out.append(body.as_str());
    out.push(')');
    out
}

impl SporePrint for u8 {
    open spec fn rendered(&self) -> Seq<char> {
        text::int_text(*self as int)
    }

    fn spore_print(&self) -> (r: String) {
        let mut out = String::new();
        push_nat(&mut out, *self as u64);
        assert(out@ =~= self.rendered());
        out
    }
}

impl SporePrint for u16 {
    open spec fn rendered(&self) -> Seq<char> {
        text::int_text(*self as int)
    }

    fn spore_print(&self) -> (r: String) {
        let mut out = String::new();
        push_nat(&mut out, *self as u64);
        assert(out@ =~= self.rendered());
        out
    }
}

impl SporePrint for u32 {
    open spec fn rendered(&self) -> Seq<char> {
        text::int_text(*self as int)
    }

    fn spore_print(&self) -> (r: String) {
        let mut out = String::new();
        push_nat(&mut out, *self as u64);
        assert(out@ =~= self.rendered());
        out
    }
}

impl SporePrint for u64 {
    open spec fn rendered(&self) -> Seq<char> {
        text::int_text(*self as int)
    }

    fn spore_print(&self) -> (r: String) {
        let mut out = String::new();
        push_nat(&mut out, *self);
        assert(out@ =~= self.rendered());
        out
    }
}

impl SporePrint for usize {
    open spec fn rendered(&self) -> Seq<char> {
        text::int_text(*self as int)
    }

    fn spore_print(&self) -> (r: String) {
        let mut out = String::new();
        push_nat(&mut out, *self as u64);
        assert(out@ =~= self.rendered());
        out
    }
}

impl SporePrint for i8 {
    open spec fn rendered(&self) -> Seq<char> {
        text::int_text(*self as int)
    }

    fn spore_print(&self) -> (r: String) {
        let mut out = String::new();
        push_int(&mut out, *self as i64);
        assert(out@ =~= self.rendered());
        out
    }
}

impl SporePrint for i16 {
    open spec fn rendered(&self) -> Seq<char> {
        text::int_text(*self as int)
    }

    fn spore_print(&self) -> (r: String) {
        let mut out = String::new();
        push_int(&mut out, *self as i64);
        assert(out@ =~= self.rendered());
        out
    }
}

impl SporePrint for i32 {
    open spec fn rendered(&self) -> Seq<char> {
        text::int_text(*self as int)
    }

    fn spore_print(&self) -> (r: String) {
        let mut out = String::new();
        push_int(&mut out, *self as i64);
        assert(out@ =~= self.rendered());
        out
    }
}

impl SporePrint for i64 {
    open spec fn rendered(&self) -> Seq<char> {
        text::int_text(*self as int)
    }

    fn spore_print(&self) -> (r: String) {
        let mut out = String::new();
        push_int(&mut out, *self);
        assert(out@ =~= self.rendered());
        out
    }
}

impl SporePrint for isize {
    open spec fn rendered(&self) -> Seq<char> {
        text::int_text(*self as int)
    }

    fn spore_print(&self) -> (r: String) {
        let mut out = String::new();
        push_int(&mut out, *self as i64);
        assert(out@ =~= self.rendered());
        out
    }
}

impl SporePrint for bool {
    open spec fn rendered(&self) -> Seq<char> {
        bool_text(*self)
    }

    fn spore_print(&self) -> (r: String) {
        proof {
            reveal_strlit("true");
            reveal_strlit("false");
        }
        if *self {
            String::from_str("true")
        } else {
            String::from_str("false")
        }
    }
}

impl SporePrint for char {
    open spec fn rendered(&self) -> Seq<char> {
        seq![*self]
    }

    fn spore_print(&self) -> (r: String) {
        let mut out = String::new();
        out.push(*self);
        assert(out@ =~= self.rendered());
        out
    }
}

impl SporePrint for str {
    open spec fn rendered(&self) -> Seq<char> {
        self@
    }

    fn spore_print(&self) -> (r: String) {
        String::from_str(self)
    }
}

impl SporePrint for String {
    open spec fn rendered(&self) -> Seq<char> {
        self@
    }

    fn spore_print(&self) -> (r: String) {
        self.clone()
    }
}

impl SporePrint for () {
    open spec fn rendered(&self) -> Seq<char> {
        seq!['(', ')']
    }

    fn spore_print(&self) -> (r: String) {
        let mut out = String::new();
        out.push('(');
        out.push(')');
        assert(out@ =~= self.rendered());
        out
    }
}

/// A reference renders as the value it points to.
impl<T: SporePrint + ?Sized> SporePrint for &T {
    open spec fn rendered(&self) -> Seq<char> {
        (**self).rendered()
    }

    fn spore_print(&self) -> (r: String) {
        (**self).spore_print()
    }
}

impl<T: SporePrint> SporePrint for Option<T> {
    open spec fn rendered(&self) -> Seq<char> {
        match self {
            Some(v) => some_text(v.rendered()),
            None => none_text(),
        }
    }

    fn spore_print(&self) -> (r: String) {
        proof {
            reveal_strlit("Some(");
            reveal_strlit("None");
        }
        match self {
            Some(v) => {
                let r = wrapped("Some(", v);
                assert(r@ =~= self.rendered());
                r
            },
            None => String::from_str("None"),
        }
    }
}

impl<T: SporePrint, E: SporePrint> SporePrint for Result<T, E> {
    open spec fn rendered(&self) -> Seq<char> {
        match self {
            Ok(v) => ok_text(v.rendered()),
            Err(e) => err_text(e.rendered()),
        }
    }

    fn spore_print(&self) -> (r: String) {
        proof {
            reveal_strlit("Ok(");
            reveal_strlit("Err(");
        }
        match self {
            Ok(v) => {
                let r = wrapped("Ok(", v);
                assert(r@ =~= self.rendered());
                r
            },
            Err(e) => {
                let r = wrapped("Err(", e);
                assert(r@ =~= self.rendered());
                r
            },
        }
    }
}

/// The rendering of `value` as a standalone string.
pub fn render_to_text<T: SporePrint + ?Sized>(value: &T) -> (r: String)
    ensures
        r@ == value.rendered(),
{
    value.spore_print()
}

/// A present value renders as `Some(` + its own rendering + `)`, and an
/// absent one as `None`.
pub proof fn lemma_present_absent<T: SporePrint>(v: T)
    ensures
        Some(v).rendered() == seq!['S', 'o', 'm', 'e', '('] + v.rendered() + seq![')'],
        None::<T>.rendered() == seq!['N', 'o', 'n', 'e'],
{
}

/// Rendering one value twice gives the same text, whatever its type: for
/// hashed collections too, whose item order comes from the value itself.
pub proof fn lemma_render_repeatable<T: SporePrint + ?Sized>(v: &T, first: String, second: String)
    requires
        first@ == v.rendered(),
        second@ == v.rendered(),
    ensures
        first@ == second@,
{
}

} // verus!
