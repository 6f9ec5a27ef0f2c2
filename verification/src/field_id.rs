//! Identifiers of fields.

use vstd::prelude::*;
use vstd::std_specs::cmp::PartialEqSpecImpl;
use vstd::string::StringExecFns;

verus! {

/// A locally unique identifier for a field within a certain type or `enum` variant.
#[derive(Clone, Copy, Debug, Eq, Hash, Ord, PartialOrd)]
pub enum FieldId<'a> {
    /// An unnamed field with the specified index in a tuple-like struct; e.g. the `0` in `foo.0`.
    Unnamed(usize),
    /// A named field in a struct, e.g. the `name` in `foo.name`.
    Named(&'a str),
}

/// What a [`FieldId`] stands for: a position, or a name as a sequence of characters.
pub ghost enum FieldIdView {
    /// The field at this position.
    Unnamed(usize),
    /// The field with this name.
    Named(Seq<char>),
}

impl<'a> View for FieldId<'a> {
    type V = FieldIdView;

    open spec fn view(&self) -> FieldIdView {
        match *self {
            FieldId::Unnamed(index) => FieldIdView::Unnamed(index),
            FieldId::Named(name) => FieldIdView::Named(name@),
        }
    }
}

/// Compares two string slices with `str::eq`, which holds exactly when the two hold the same
/// characters in the same order.
#[verifier::external_body]
pub(crate) fn same_text(a: &str, b: &str) -> (r: bool)
    ensures
        r == (a@ == b@),
{
    a == b
}

impl<'a> PartialEq for FieldId<'a> {
    fn eq(&self, other: &Self) -> (r: bool) {
        match (*self, *other) {
            (FieldId::Unnamed(a), FieldId::Unnamed(b)) => a == b,
            (FieldId::Named(a), FieldId::Named(b)) => same_text(a, b),
            _ => false,
        }
    }
}

impl<'a> PartialEqSpecImpl for FieldId<'a> {
    open spec fn obeys_eq_spec() -> bool {
        true
    }

    open spec fn eq_spec(&self, other: &Self) -> bool {
        self@ == other@
    }
}

/// The character that stands for the digit `d`.
pub open spec fn digit(d: nat) -> char {
    if d == 0 {
        '0'
    } else if d == 1 {
        '1'
    } else if d == 2 {
        '2'
    } else if d == 3 {
        '3'
    } else if d == 4 {
        '4'
    } else if d == 5 {
        '5'
    } else if d == 6 {
        '6'
    } else if d == 7 {
        '7'
    } else if d == 8 {
        '8'
    } else {
        '9'
    }
}

/// The decimal numeral of `n`: its digits from the most significant to the least, with no
/// leading zero but for `0` itself.
pub open spec fn decimal(n: nat) -> Seq<char>
    decreases n,
{
    if n < 10 {
        seq![digit(n)]
    } else {
        decimal(n / 10).push(digit(n % 10))
    }
}

/// The digit `d` as text.
fn digit_text(d: usize) -> (r: &'static str)
    requires
        d < 10,
    ensures
        r@ == seq![digit(d as nat)],
{
    proof {
        reveal_strlit("0");
        reveal_strlit("1");
        reveal_strlit("2");
        reveal_strlit("3");
        reveal_strlit("4");
        reveal_strlit("5");
        reveal_strlit("6");
        reveal_strlit("7");
        reveal_strlit("8");
        reveal_strlit("9");
    }
    let r = if d == 0 {
        "0"
    } else if d == 1 {
        "1"
    } else if d == 2 {
        "2"
    } else if d == 3 {
        "3"
    } else if d == 4 {
        "4"
    } else if d == 5 {
        "5"
    } else if d == 6 {
        "6"
    } else if d == 7 {
        "7"
    } else if d == 8 {
        "8"
    } else {
        "9"
    };
    assert(r@ =~= seq![digit(d as nat)]);
    r
}

/// Writes `n` as a decimal numeral.
pub fn decimal_text(n: usize) -> (r: String)
    ensures
        r@ == decimal(n as nat),
    decreases n,
{
    if n < 10 {
        String::from_str(digit_text(n))
    } else {
        let mut text = decimal_text(n / 10);
        text.append(digit_text(n % 10));
        assert(text@ =~= decimal(n as nat));
        text
    }
}

impl<'a> FieldId<'a> {
    /// The identifier as it is written behind the dot of a field expression: the name of a
    /// named field, the position of an unnamed one as a decimal numeral.
    pub open spec fn text(&self) -> Seq<char> {
        match *self {
            FieldId::Unnamed(index) => decimal(index as nat),
            FieldId::Named(name) => name@,
        }
    }

    /// Writes the identifier as it stands behind the dot of a field expression, such as the `0`
    /// in `foo.0` or the `name` in `foo.name`.
    pub fn to_text(&self) -> (r: String)
        ensures
            r@ == self.text(),
    {
        match *self {
            FieldId::Unnamed(index) => decimal_text(index),
            FieldId::Named(name) => String::from_str(name),
        }
    }
}

} // verus!
