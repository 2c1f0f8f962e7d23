//! Best-effort rendering of values for diagnostics.
//!
//! Whatever takes part in a call (arguments, matchers, return values) is rendered
//! through [`MaybeDebug`]. A type that has a textual form renders it; a type that has
//! none renders the [`placeholder`].

use crate::text::{decimal, decimal_string, join, joined, texts};
use vstd::prelude::*;

verus! {

/// What stands for a value that has no textual form.
pub open spec fn placeholder() -> Seq<char> {
    "?"@
}

/// The text of [`placeholder`].
pub fn placeholder_string() -> (text: String)
    ensures
        text@ == placeholder(),
{
    String::from_str("?")
}

/// The text that `std` gives to a string under `{:?}`: the string in double quotes,
/// with the characters escaped that its `Debug` escapes.
pub uninterp spec fn str_debug_text(content: Seq<char>) -> Seq<char>;

/// `<str as std::fmt::Debug>::fmt`, through `format!`: writes the string as a
/// string literal. What is written depends on the characters of the string alone;
/// the contract gives it the name [`str_debug_text`] and claims no more of it.
#[verifier::external_body]
fn debug_str(content: &str) -> (text: String)
    ensures
        text@ == str_debug_text(content@),
{
    format!("{:?}", content)
}

/// A whole number in decimal notation, with a minus sign where it is negative.
pub open spec fn signed_decimal(value: int) -> Seq<char> {
    if value < 0 {
        "-"@ + decimal((-value) as nat)
    } else {
        decimal(value as nat)
    }
}

/// Writes a signed number in decimal notation.
pub fn signed_decimal_string(value: i64) -> (text: String)
    ensures
        text@ == signed_decimal(value as int),
{
    if value < 0 {
        let magnitude: u64 = ((-(value + 1)) as u64) + 1;
        let digits = decimal_string(magnitude);
        String::from_str("-").concat(digits.as_str())
    } else {
        decimal_string(value as u64)
    }
}

/// The text of a tuple with the given fields: the fields in parentheses, a comma
/// and a space between each two.
pub open spec fn tuple_text(fields: Seq<Seq<char>>) -> Seq<char> {
    "("@ + joined(fields, ", "@) + ")"@
}

/// The text of a list with the given items: the items in square brackets, a comma
/// and a space between each two.
pub open spec fn list_text(items: Seq<Seq<char>>) -> Seq<char> {
    "["@ + joined(items, ", "@) + "]"@
}

/// Writes a tuple from the texts of its fields.
pub fn tuple_string(fields: &Vec<String>) -> (text: String)
    ensures
        text@ == tuple_text(texts(fields@)),
{
    String::from_str("(").concat(join(fields, ", ").as_str()).concat(")")
}

/// Writes a list from the texts of its items.
pub fn list_string(items: &Vec<String>) -> (text: String)
    ensures
        text@ == list_text(texts(items@)),
{
    String::from_str("[").concat(join(items, ", ").as_str()).concat("]")
}

/// A value that renders itself for diagnostics as well as its type allows.
///
/// A type that says nothing of its rendering renders the [`placeholder`]; a type
/// that has a textual form says so and renders that.
pub trait MaybeDebug {
    /// The rendering of the value: the placeholder, unless the type says otherwise.
    open spec fn debug_text(&self) -> Seq<char> {
        placeholder()
    }

    /// Renders the value.
    fn fmt(&self) -> (text: String)
        ensures
            text@ == self.debug_text(),
    ;
}

/// A boxed value that renders itself as what is in the box does.
pub trait MaybeDebugExt {
    /// The rendering of the boxed value: the placeholder, unless the type says
    /// otherwise.
    open spec fn boxed_debug_text(&self) -> Seq<char> {
        placeholder()
    }

    /// Renders the boxed value.
    fn fmt(&self) -> (text: String)
        ensures
            text@ == self.boxed_debug_text(),
    ;
}

/// A borrowed value of any type that renders itself.
pub struct MaybeDebugWrapper<'a>(pub &'a dyn MaybeDebug);

impl<'a> MaybeDebugWrapper<'a> {
    /// Renders the borrowed value.
    pub fn fmt(&self) -> (text: String)
        ensures
            text@ == self.0.debug_text(),
    {
        MaybeDebug::fmt(self.0)
    }
}

/// A borrowed box of any type that renders itself.
pub struct MaybeDebugExtWrapper<'a>(pub &'a dyn MaybeDebugExt);

impl<'a> MaybeDebugExtWrapper<'a> {
    /// Renders what is in the borrowed box.
    pub fn fmt(&self) -> (text: String)
        ensures
            text@ == self.0.boxed_debug_text(),
    {
        MaybeDebugExt::fmt(self.0)
    }
}

impl<T: MaybeDebug + ?Sized> MaybeDebugExt for Box<T> {
    open spec fn boxed_debug_text(&self) -> Seq<char> {
        (**self).debug_text()
    }

    fn fmt(&self) -> (text: String) {
        MaybeDebug::fmt(&**self)
    }
}

/// A value that may be absent: rendered as the value where there is one, and as
/// nothing where there is none.
pub struct DisplayOption<'a, D: MaybeDebug>(pub Option<&'a D>);

impl<'a, D: MaybeDebug> DisplayOption<'a, D> {
    /// The rendering: that of the value, or the empty text.
    pub open spec fn text(&self) -> Seq<char> {
        match self.0 {
            Some(value) => value.debug_text(),
            None => Seq::empty(),
        }
    }

    /// Renders the value, if there is one.
    pub fn fmt(&self) -> (text: String)
        ensures
            text@ == self.text(),
    {
        match self.0 {
            Some(value) => value.fmt(),
            None => String::new(),
        }
    }
}

impl MaybeDebug for () {
    open spec fn debug_text(&self) -> Seq<char> {
        "()"@
    }

    fn fmt(&self) -> (text: String) {
        String::from_str("()")
    }
}

impl MaybeDebug for bool {
    open spec fn debug_text(&self) -> Seq<char> {
        if *self {
            "true"@
        } else {
            "false"@
        }
    }

    fn fmt(&self) -> (text: String) {
        if *self {
            String::from_str("true")
        } else {
            String::from_str("false")
        }
    }
}

impl MaybeDebug for str {
    open spec fn debug_text(&self) -> Seq<char> {
        str_debug_text(self@)
    }

    fn fmt(&self) -> (text: String) {
        debug_str(self)
    }
}

impl MaybeDebug for String {
    open spec fn debug_text(&self) -> Seq<char> {
        str_debug_text(self@)
    }

    fn fmt(&self) -> (text: String) {
        debug_str(self.as_str())
    }
}

impl<'a, T: MaybeDebug + ?Sized> MaybeDebug for &'a T {
    open spec fn debug_text(&self) -> Seq<char> {
        (**self).debug_text()
    }

    fn fmt(&self) -> (text: String) {
        MaybeDebug::fmt(&**self)
    }
}

impl<T: MaybeDebug> MaybeDebug for Box<T> {
    open spec fn debug_text(&self) -> Seq<char> {
        (**self).debug_text()
    }

    fn fmt(&self) -> (text: String) {
        MaybeDebug::fmt(&**self)
    }
}

impl<T: MaybeDebug> MaybeDebug for Option<T> {
    open spec fn debug_text(&self) -> Seq<char> {
        match self {
            Some(value) => "Some("@ + value.debug_text() + ")"@,
            None => "None"@,
        }
    }

    fn fmt(&self) -> (text: String) {
        match self {
            Some(value) => String::from_str("Some(").concat(value.fmt().as_str()).concat(")"),
            None => String::from_str("None"),
        }
    }
}

/// The renderings of the items of a list.
pub open spec fn debug_texts<T: MaybeDebug>(items: Seq<T>) -> Seq<Seq<char>> {
    items.map_values(|item: T| item.debug_text())
}

/// Renders each item of a list.
pub fn fmt_each<T: MaybeDebug>(items: &Vec<T>) -> (rendered: Vec<String>)
    ensures
        texts(rendered@) == debug_texts(items@),
{
    let mut rendered: Vec<String> = Vec::new();
    let mut index: usize = 0;
    while index < items.len()
        invariant
            index <= items.len(),
            rendered@.len() == index,
            texts(rendered@) == debug_texts(items@.take(index as int)),
        decreases items.len() - index,
    {
        let ghost before = rendered@;
        rendered.push(items[index].fmt());
        proof {
            let goal = debug_texts(items@.take(index + 1));
            assert forall|at: int| 0 <= at < goal.len() implies texts(rendered@)[at]
                == goal[at] by {
                if at < index {
                    assert(texts(before)[at] == debug_texts(items@.take(index as int))[at]);
                }
            }
            assert(texts(rendered@) =~= goal);
        }
        index += 1;
    }
    assert(items@.take(index as int) =~= items@);
    rendered
}

impl<T: MaybeDebug> MaybeDebug for Vec<T> {
    open spec fn debug_text(&self) -> Seq<char> {
        list_text(debug_texts(self@))
    }

    fn fmt(&self) -> (text: String) {
        list_string(&fmt_each(self))
    }
}

impl MaybeDebug for u8 {
    open spec fn debug_text(&self) -> Seq<char> {
        decimal(*self as nat)
    }

    fn fmt(&self) -> (text: String) {
        decimal_string(*self as u64)
    }
}

impl MaybeDebug for u16 {
    open spec fn debug_text(&self) -> Seq<char> {
        decimal(*self as nat)
    }

    fn fmt(&self) -> (text: String) {
        decimal_string(*self as u64)
    }
}

impl MaybeDebug for u32 {
    open spec fn debug_text(&self) -> Seq<char> {
        decimal(*self as nat)
    }

    fn fmt(&self) -> (text: String) {
        decimal_string(*self as u64)
    }
}

impl MaybeDebug for u64 {
    open spec fn debug_text(&self) -> Seq<char> {
        decimal(*self as nat)
    }

    fn fmt(&self) -> (text: String) {
        decimal_string(*self)
    }
}

impl MaybeDebug for usize {
    open spec fn debug_text(&self) -> Seq<char> {
        decimal(*self as nat)
    }

    fn fmt(&self) -> (text: String) {
        decimal_string(*self as u64)
    }
}

impl MaybeDebug for i8 {
    open spec fn debug_text(&self) -> Seq<char> {
        signed_decimal(*self as int)
    }

    fn fmt(&self) -> (text: String) {
        signed_decimal_string(*self as i64)
    }
}

impl MaybeDebug for i16 {
    open spec fn debug_text(&self) -> Seq<char> {
        signed_decimal(*self as int)
    }

    fn fmt(&self) -> (text: String) {
        signed_decimal_string(*self as i64)
    }
}

impl MaybeDebug for i32 {
    open spec fn debug_text(&self) -> Seq<char> {
        signed_decimal(*self as int)
    }

    fn fmt(&self) -> (text: String) {
        signed_decimal_string(*self as i64)
    }
}

impl MaybeDebug for i64 {
    open spec fn debug_text(&self) -> Seq<char> {
        signed_decimal(*self as int)
    }

    fn fmt(&self) -> (text: String) {
        signed_decimal_string(*self)
    }
}

impl MaybeDebug for isize {
    open spec fn debug_text(&self) -> Seq<char> {
        signed_decimal(*self as int)
    }

    fn fmt(&self) -> (text: String) {
        signed_decimal_string(*self as i64)
    }
}

impl<A> MaybeDebug for (A,) where
    A: MaybeDebug,
 {
    open spec fn debug_text(&self) -> Seq<char> {
        tuple_text(
            seq![
                self.0.debug_text(),
            ],
        )
    }

    fn fmt(&self) -> (text: String) {
        let mut fields: Vec<String> = Vec::new();
        fields.push(self.0.fmt());
        assert(texts(fields@) =~= seq![
            self.0.debug_text(),
        ]);
        tuple_string(&fields)
    }
}

impl<A, B> MaybeDebug for (A, B) where
    A: MaybeDebug,
    B: MaybeDebug,
 {
    open spec fn debug_text(&self) -> Seq<char> {
        tuple_text(
            seq![
                self.0.debug_text(),
                self.1.debug_text(),
            ],
        )
    }

    fn fmt(&self) -> (text: String) {
        let mut fields: Vec<String> = Vec::new();
        fields.push(self.0.fmt());
        fields.push(self.1.fmt());
        assert(texts(fields@) =~= seq![
            self.0.debug_text(),
            self.1.debug_text(),
        ]);
        tuple_string(&fields)
    }
}

impl<A, B, C> MaybeDebug for (A, B, C) where
    A: MaybeDebug,
    B: MaybeDebug,
    C: MaybeDebug,
 {
    open spec fn debug_text(&self) -> Seq<char> {
        tuple_text(
            seq![
                self.0.debug_text(),
                self.1.debug_text(),
                self.2.debug_text(),
            ],
        )
    }

    fn fmt(&self) -> (text: String) {
        let mut fields: Vec<String> = Vec::new();
        fields.push(self.0.fmt());
        fields.push(self.1.fmt());
        fields.push(self.2.fmt());
        assert(texts(fields@) =~= seq![
            self.0.debug_text(),
            self.1.debug_text(),
            self.2.debug_text(),
        ]);
        tuple_string(&fields)
    }
}

impl<A, B, C, D> MaybeDebug for (A, B, C, D) where
    A: MaybeDebug,
    B: MaybeDebug,
    C: MaybeDebug,
    D: MaybeDebug,
 {
    open spec fn debug_text(&self) -> Seq<char> {
        tuple_text(
            seq![
                self.0.debug_text(),
                self.1.debug_text(),
                self.2.debug_text(),
                self.3.debug_text(),
            ],
        )
    }

    fn fmt(&self) -> (text: String) {
        let mut fields: Vec<String> = Vec::new();
        fields.push(self.0.fmt());
        fields.push(self.1.fmt());
        fields.push(self.2.fmt());
        fields.push(self.3.fmt());
        assert(texts(fields@) =~= seq![
            self.0.debug_text(),
            self.1.debug_text(),
            self.2.debug_text(),
            self.3.debug_text(),
        ]);
        tuple_string(&fields)
    }
}

impl<A, B, C, D, E> MaybeDebug for (A, B, C, D, E) where
    A: MaybeDebug,
    B: MaybeDebug,
    C: MaybeDebug,
    D: MaybeDebug,
    E: MaybeDebug,
 {
    open spec fn debug_text(&self) -> Seq<char> {
        tuple_text(
            seq![
                self.0.debug_text(),
                self.1.debug_text(),
                self.2.debug_text(),
                self.3.debug_text(),
                self.4.debug_text(),
            ],
        )
    }

    fn fmt(&self) -> (text: String) {
        let mut fields: Vec<String> = Vec::new();
        fields.push(self.0.fmt());
        fields.push(self.1.fmt());
        fields.push(self.2.fmt());
        fields.push(self.3.fmt());
        fields.push(self.4.fmt());
        assert(texts(fields@) =~= seq![
            self.0.debug_text(),
            self.1.debug_text(),
            self.2.debug_text(),
            self.3.debug_text(),
            self.4.debug_text(),
        ]);
        tuple_string(&fields)
    }
}

impl<A, B, C, D, E, F> MaybeDebug for (A, B, C, D, E, F) where
    A: MaybeDebug,
    B: MaybeDebug,
    C: MaybeDebug,
    D: MaybeDebug,
    E: MaybeDebug,
    F: MaybeDebug,
 {
    open spec fn debug_text(&self) -> Seq<char> {
        tuple_text(
            seq![
                self.0.debug_text(),
                self.1.debug_text(),
                self.2.debug_text(),
                self.3.debug_text(),
                self.4.debug_text(),
                self.5.debug_text(),
            ],
        )
    }

    fn fmt(&self) -> (text: String) {
        let mut fields: Vec<String> = Vec::new();
        fields.push(self.0.fmt());
        fields.push(self.1.fmt());
        fields.push(self.2.fmt());
        fields.push(self.3.fmt());
        fields.push(self.4.fmt());
        fields.push(self.5.fmt());
        assert(texts(fields@) =~= seq![
            self.0.debug_text(),
            self.1.debug_text(),
            self.2.debug_text(),
            self.3.debug_text(),
            self.4.debug_text(),
            self.5.debug_text(),
        ]);
        tuple_string(&fields)
    }
}

impl<A, B, C, D, E, F, G> MaybeDebug for (A, B, C, D, E, F, G) where
    A: MaybeDebug,
    B: MaybeDebug,
    C: MaybeDebug,
    D: MaybeDebug,
    E: MaybeDebug,
    F: MaybeDebug,
    G: MaybeDebug,
 {
    open spec fn debug_text(&self) -> Seq<char> {
        tuple_text(
            seq![
                self.0.debug_text(),
                self.1.debug_text(),
                self.2.debug_text(),
                self.3.debug_text(),
                self.4.debug_text(),
                self.5.debug_text(),
                self.6.debug_text(),
            ],
        )
    }

    fn fmt(&self) -> (text: String) {
        let mut fields: Vec<String> = Vec::new();
        fields.push(self.0.fmt());
        fields.push(self.1.fmt());
        fields.push(self.2.fmt());
        fields.push(self.3.fmt());
        fields.push(self.4.fmt());
        fields.push(self.5.fmt());
        fields.push(self.6.fmt());
        assert(texts(fields@) =~= seq![
            self.0.debug_text(),
            self.1.debug_text(),
            self.2.debug_text(),
            self.3.debug_text(),
            self.4.debug_text(),
            self.5.debug_text(),
            self.6.debug_text(),
        ]);
        tuple_string(&fields)
    }
}

impl<A, B, C, D, E, F, G, H> MaybeDebug for (A, B, C, D, E, F, G, H) where
    A: MaybeDebug,
    B: MaybeDebug,
    C: MaybeDebug,
    D: MaybeDebug,
    E: MaybeDebug,
    F: MaybeDebug,
    G: MaybeDebug,
    H: MaybeDebug,
 {
    open spec fn debug_text(&self) -> Seq<char> {
        tuple_text(
            seq![
                self.0.debug_text(),
                self.1.debug_text(),
                self.2.debug_text(),
                self.3.debug_text(),
                self.4.debug_text(),
                self.5.debug_text(),
                self.6.debug_text(),
                self.7.debug_text(),
            ],
        )
    }

    fn fmt(&self) -> (text: String) {
        let mut fields: Vec<String> = Vec::new();
        fields.push(self.0.fmt());
        fields.push(self.1.fmt());
        fields.push(self.2.fmt());
        fields.push(self.3.fmt());
        fields.push(self.4.fmt());
        fields.push(self.5.fmt());
        fields.push(self.6.fmt());
        fields.push(self.7.fmt());
        assert(texts(fields@) =~= seq![
            self.0.debug_text(),
            self.1.debug_text(),
            self.2.debug_text(),
            self.3.debug_text(),
            self.4.debug_text(),
            self.5.debug_text(),
            self.6.debug_text(),
            self.7.debug_text(),
        ]);
        tuple_string(&fields)
    }
}

impl<A, B, C, D, E, F, G, H, I> MaybeDebug for (A, B, C, D, E, F, G, H, I) where
    A: MaybeDebug,
    B: MaybeDebug,
    C: MaybeDebug,
    D: MaybeDebug,
    E: MaybeDebug,
    F: MaybeDebug,
    G: MaybeDebug,
    H: MaybeDebug,
    I: MaybeDebug,
 {
    open spec fn debug_text(&self) -> Seq<char> {
        tuple_text(
            seq![
                self.0.debug_text(),
                self.1.debug_text(),
                self.2.debug_text(),
                self.3.debug_text(),
                self.4.debug_text(),
                self.5.debug_text(),
                self.6.debug_text(),
                self.7.debug_text(),
                self.8.debug_text(),
            ],
        )
    }

    fn fmt(&self) -> (text: String) {
        let mut fields: Vec<String> = Vec::new();
        fields.push(self.0.fmt());
        fields.push(self.1.fmt());
        fields.push(self.2.fmt());
        fields.push(self.3.fmt());
        fields.push(self.4.fmt());
        fields.push(self.5.fmt());
        fields.push(self.6.fmt());
        fields.push(self.7.fmt());
        fields.push(self.8.fmt());
        assert(texts(fields@) =~= seq![
            self.0.debug_text(),
            self.1.debug_text(),
            self.2.debug_text(),
            self.3.debug_text(),
            self.4.debug_text(),
            self.5.debug_text(),
            self.6.debug_text(),
            self.7.debug_text(),
            self.8.debug_text(),
        ]);
        tuple_string(&fields)
    }
}

impl<A, B, C, D, E, F, G, H, I, J> MaybeDebug for (A, B, C, D, E, F, G, H, I, J) where
    A: MaybeDebug,
    B: MaybeDebug,
    C: MaybeDebug,
    D: MaybeDebug,
    E: MaybeDebug,
    F: MaybeDebug,
    G: MaybeDebug,
    H: MaybeDebug,
    I: MaybeDebug,
    J: MaybeDebug,
 {
    open spec fn debug_text(&self) -> Seq<char> {
        tuple_text(
            seq![
                self.0.debug_text(),
                self.1.debug_text(),
                self.2.debug_text(),
                self.3.debug_text(),
                self.4.debug_text(),
                self.5.debug_text(),
                self.6.debug_text(),
                self.7.debug_text(),
                self.8.debug_text(),
                self.9.debug_text(),
            ],
        )
    }

    fn fmt(&self) -> (text: String) {
        let mut fields: Vec<String> = Vec::new();
        fields.push(self.0.fmt());
        fields.push(self.1.fmt());
        fields.push(self.2.fmt());
        fields.push(self.3.fmt());
        fields.push(self.4.fmt());
        fields.push(self.5.fmt());
        fields.push(self.6.fmt());
        fields.push(self.7.fmt());
        fields.push(self.8.fmt());
        fields.push(self.9.fmt());
        assert(texts(fields@) =~= seq![
            self.0.debug_text(),
            self.1.debug_text(),
            self.2.debug_text(),
            self.3.debug_text(),
            self.4.debug_text(),
            self.5.debug_text(),
            self.6.debug_text(),
            self.7.debug_text(),
            self.8.debug_text(),
            self.9.debug_text(),
        ]);
        tuple_string(&fields)
    }
}

impl<A, B, C, D, E, F, G, H, I, J, K> MaybeDebug for (A, B, C, D, E, F, G, H, I, J, K) where
    A: MaybeDebug,
    B: MaybeDebug,
    C: MaybeDebug,
    D: MaybeDebug,
    E: MaybeDebug,
    F: MaybeDebug,
    G: MaybeDebug,
    H: MaybeDebug,
    I: MaybeDebug,
    J: MaybeDebug,
    K: MaybeDebug,
 {
    open spec fn debug_text(&self) -> Seq<char> {
        tuple_text(
            seq![
                self.0.debug_text(),
                self.1.debug_text(),
                self.2.debug_text(),
                self.3.debug_text(),
                self.4.debug_text(),
                self.5.debug_text(),
                self.6.debug_text(),
                self.7.debug_text(),
                self.8.debug_text(),
                self.9.debug_text(),
                self.10.debug_text(),
            ],
        )
    }

    fn fmt(&self) -> (text: String) {
        let mut fields: Vec<String> = Vec::new();
        fields.push(self.0.fmt());
        fields.push(self.1.fmt());
        fields.push(self.2.fmt());
        fields.push(self.3.fmt());
        fields.push(self.4.fmt());
        fields.push(self.5.fmt());
        fields.push(self.6.fmt());
        fields.push(self.7.fmt());
        fields.push(self.8.fmt());
        fields.push(self.9.fmt());
        fields.push(self.10.fmt());
        assert(texts(fields@) =~= seq![
            self.0.debug_text(),
            self.1.debug_text(),
            self.2.debug_text(),
            self.3.debug_text(),
            self.4.debug_text(),
            self.5.debug_text(),
            self.6.debug_text(),
            self.7.debug_text(),
            self.8.debug_text(),
            self.9.debug_text(),
            self.10.debug_text(),
        ]);
        tuple_string(&fields)
    }
}

impl<A, B, C, D, E, F, G, H, I, J, K, L> MaybeDebug for (A, B, C, D, E, F, G, H, I, J, K, L) where
    A: MaybeDebug,
    B: MaybeDebug,
    C: MaybeDebug,
    D: MaybeDebug,
    E: MaybeDebug,
    F: MaybeDebug,
    G: MaybeDebug,
    H: MaybeDebug,
    I: MaybeDebug,
    J: MaybeDebug,
    K: MaybeDebug,
    L: MaybeDebug,
 {
    open spec fn debug_text(&self) -> Seq<char> {
        tuple_text(
            seq![
                self.0.debug_text(),
                self.1.debug_text(),
                self.2.debug_text(),
                self.3.debug_text(),
                self.4.debug_text(),
                self.5.debug_text(),
                self.6.debug_text(),
                self.7.debug_text(),
                self.8.debug_text(),
                self.9.debug_text(),
                self.10.debug_text(),
                self.11.debug_text(),
            ],
        )
    }

    fn fmt(&self) -> (text: String) {
        let mut fields: Vec<String> = Vec::new();
        fields.push(self.0.fmt());
        fields.push(self.1.fmt());
        fields.push(self.2.fmt());
        fields.push(self.3.fmt());
        fields.push(self.4.fmt());
        fields.push(self.5.fmt());
        fields.push(self.6.fmt());
        fields.push(self.7.fmt());
        fields.push(self.8.fmt());
        fields.push(self.9.fmt());
        fields.push(self.10.fmt());
        fields.push(self.11.fmt());
        assert(texts(fields@) =~= seq![
            self.0.debug_text(),
            self.1.debug_text(),
            self.2.debug_text(),
            self.3.debug_text(),
            self.4.debug_text(),
            self.5.debug_text(),
            self.6.debug_text(),
            self.7.debug_text(),
            self.8.debug_text(),
            self.9.debug_text(),
            self.10.debug_text(),
            self.11.debug_text(),
        ]);
        tuple_string(&fields)
    }
}

} // verus!
