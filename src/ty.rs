//! Colour and size tokens resolved against a theme, and values that are
//! either fixed or held in a shared observable cell.

use futures_signals::signal::Mutable;
use vstd::prelude::*;
use crate::theme::Theme;

verus! {

/// A colour: a theme token, or a literal hex colour.
#[derive(Clone, Copy, PartialEq, Eq, Debug, Default)]
pub enum Colour {
    Grey,
    #[default]
    Blue,
    Coral,
    Pink,
    Hex(&'static str),
}

/// A text colour: fixed white or black, the theme's accent, or a literal.
#[derive(Clone, Copy, PartialEq, Eq, Debug, Default)]
pub enum TextColour {
    Light,
    #[default]
    Dark,
    Accent,
    Hex(&'static str),
}

/// A length: unset, a theme size token, or a literal length in thousandths
/// of a rem.
#[derive(Clone, Copy, PartialEq, Eq, Structural, Debug, Default)]
pub enum RemSizing {
    Unset,
    Xs,
    Sm,
    #[default]
    Md,
    Lg,
    Xl,
    Rem(u32),
}

/// The colour that `c` stands for under `theme`.
pub open spec fn colour_value(c: Colour, theme: Theme) -> Seq<char> {
    match c {
        Colour::Grey => theme.colours.grey@,
        Colour::Blue => theme.colours.blue@,
        Colour::Coral => theme.colours.coral@,
        Colour::Pink => theme.colours.pink@,
        Colour::Hex(h) => h@,
    }
}

/// The colour that `c` stands for under `theme`.
pub open spec fn text_colour_value(c: TextColour, theme: Theme) -> Seq<char> {
    match c {
        TextColour::Light => "#ffffff"@,
        TextColour::Dark => "#000000"@,
        TextColour::Accent => theme.colours.blue@,
        TextColour::Hex(h) => h@,
    }
}

impl Colour {
    /// The CSS colour of this colour under `theme`.
    pub fn to_string(&self, theme: &Theme) -> (r: String)
        ensures
            r@ == colour_value(*self, *theme),
    {
        match self {
            Colour::Grey => theme.colours.grey.clone(),
            Colour::Blue => theme.colours.blue.clone(),
            Colour::Coral => theme.colours.coral.clone(),
            Colour::Pink => theme.colours.pink.clone(),
            Colour::Hex(h) => String::from_str(h),
        }
    }
}

impl TextColour {
    /// The CSS colour of this text colour under `theme`.
    pub fn to_string(&self, theme: &Theme) -> (r: String)
        ensures
            r@ == text_colour_value(*self, *theme),
    {
        match self {
            TextColour::Light => String::from_str("#ffffff"),
            TextColour::Dark => String::from_str("#000000"),
            TextColour::Accent => Colour::Blue.to_string(theme),
            TextColour::Hex(h) => String::from_str(h),
        }
    }
}

/// The decimal digit `d`.
pub open spec fn digit_char(d: nat) -> char {
    "0123456789"@[d as int]
}

/// The decimal digits of `n`, without leading zeros.
pub open spec fn decimal(n: nat) -> Seq<char>
    decreases n,
{
    if n < 10 {
        seq![digit_char(n)]
    } else {
        decimal(n / 10) + seq![digit_char(n % 10)]
    }
}

/// The three-digit fraction `f` (below 1000, not 0) without its trailing zeros.
pub open spec fn fraction_digits(f: nat) -> Seq<char> {
    if f % 100 == 0 {
        seq![digit_char(f / 100)]
    } else if f % 10 == 0 {
        seq![digit_char(f / 100), digit_char((f / 10) % 10)]
    } else {
        seq![digit_char(f / 100), digit_char((f / 10) % 10), digit_char(f % 10)]
    }
}

/// `m` thousandths as a decimal number: `1500` is `1.5`, `2000` is `2`.
pub open spec fn thousandths_text(m: nat) -> Seq<char> {
    if m % 1000 == 0 {
        decimal(m / 1000)
    } else {
        decimal(m / 1000) + "."@ + fraction_digits(m % 1000)
    }
}

/// The size in thousandths of a rem that `s` stands for under `theme`, or
/// none for an unset length.
pub open spec fn size_value(s: RemSizing, theme: Theme) -> Option<nat> {
    match s {
        RemSizing::Unset => None,
        RemSizing::Xs => Some(theme.sizing.xs as nat),
        RemSizing::Sm => Some(theme.sizing.sm as nat),
        RemSizing::Md => Some(theme.sizing.md as nat),
        RemSizing::Lg => Some(theme.sizing.lg as nat),
        RemSizing::Xl => Some(theme.sizing.xl as nat),
        RemSizing::Rem(m) => Some(m as nat),
    }
}

/// The CSS length of `s` under `theme`; an unset length has none.
pub open spec fn size_text(s: RemSizing, theme: Theme) -> Option<Seq<char>> {
    match size_value(s, theme) {
        Some(m) => Some(thousandths_text(m) + "rem"@),
        None => None,
    }
}

fn digit(d: u32) -> (r: &'static str)
    requires
        d < 10,
    ensures
        r@ == seq![digit_char(d as nat)],
{
    let digits = "0123456789";
    proof {
        reveal_strlit("0123456789");
    }
    let r = digits.substring_char(d as usize, d as usize + 1);
    assert(r@ =~= seq![digit_char(d as nat)]);
    r
}

/// Appends the decimal digits of `n` to `out`.
fn append_decimal(out: &mut String, n: u32)
    ensures
        final(out)@ == old(out)@ + decimal(n as nat),
    decreases n,
{
    if n < 10 {
        out.append(digit(n));
    } else {
        append_decimal(out, n / 10);
        out.append(digit(n % 10));
        assert(final(out)@ =~= old(out)@ + decimal(n as nat));
    }
}

/// `m` thousandths as decimal text.
pub fn thousandths(m: u32) -> (r: String)
    ensures
        r@ == thousandths_text(m as nat),
{
    let mut r = String::new();
    append_decimal(&mut r, m / 1000);
    let f = m % 1000;
    if f != 0 {
        r.append(".");
        r.append(digit(f / 100));
        if f % 100 != 0 {
            r.append(digit((f / 10) % 10));
            if f % 10 != 0 {
                r.append(digit(f % 10));
            }
        }
    }
    assert(r@ =~= thousandths_text(m as nat));
    r
}

impl RemSizing {
    /// The CSS length of this size under `theme`, such as `1.5rem`, or none
    /// for an unset length.
    pub fn to_string(&self, theme: &Theme) -> (r: Option<String>)
        ensures
            r is Some <==> size_text(*self, *theme) is Some,
            r is Some ==> r->Some_0@ == size_text(*self, *theme)->Some_0,
    {
        let m = match self {
            RemSizing::Unset => {
                return None;
            },
            RemSizing::Xs => theme.sizing.xs,
            RemSizing::Sm => theme.sizing.sm,
            RemSizing::Md => theme.sizing.md,
            RemSizing::Lg => theme.sizing.lg,
            RemSizing::Xl => theme.sizing.xl,
            RemSizing::Rem(m) => *m,
        };
        let mut r = thousandths(m);
        r.append("rem");
        Some(r)
    }
}

#[verifier::external_type_specification]
#[verifier::external_body]
#[verifier::reject_recursive_types(A)]
pub struct ExMutable<A>(Mutable<A>);

/// Relies on `Clone for futures_signals::signal::Mutable`: a second handle to
/// the same shared cell.
pub assume_specification<A>[ <Mutable<A> as Clone>::clone ](m: &Mutable<A>) -> Mutable<A>;

/// Relies on `futures_signals::signal::Mutable::get_cloned`: a clone of the
/// value that the cell holds now, which any holder may have changed.
#[verifier::external_body]
pub(crate) fn cell_value<A: Clone>(cell: &Mutable<A>) -> A {
    cell.get_cloned()
}

/// A value that is fixed, or held in a shared cell that may change.
#[derive(Clone)]
#[verifier::reject_recursive_types(T)]
pub enum Reactive<T> {
    Static(T),
    Dynamic(Mutable<T>),
}

impl Reactive<String> {
    /// The value as it stands now: the fixed value, or what the cell holds.
    pub fn current(&self) -> (r: String)
        ensures
            self matches Reactive::Static(v) ==> r@ == v@,
    {
        match self {
            Reactive::Static(v) => v.clone(),
            Reactive::Dynamic(cell) => cell_value(cell),
        }
    }
}

impl Default for Reactive<String> {
    fn default() -> (r: Reactive<String>)
        ensures
            r matches Reactive::Static(v) && v@ == Seq::<char>::empty(),
    {
        Reactive::Static(String::new())
    }
}

impl From<String> for Reactive<String> {
    fn from(value: String) -> (r: Reactive<String>)
        ensures
            r == Reactive::Static(value),
    {
        Reactive::Static(value)
    }
}

impl vstd::std_specs::convert::FromSpecImpl<String> for Reactive<String> {
    open spec fn obeys_from_spec() -> bool {
        true
    }

    open spec fn from_spec(value: String) -> Reactive<String> {
        Reactive::Static(value)
    }
}

impl From<Mutable<String>> for Reactive<String> {
    fn from(value: Mutable<String>) -> (r: Reactive<String>)
        ensures
            r == Reactive::Dynamic(value),
    {
        Reactive::Dynamic(value)
    }
}

impl vstd::std_specs::convert::FromSpecImpl<Mutable<String>> for Reactive<String> {
    open spec fn obeys_from_spec() -> bool {
        true
    }

    open spec fn from_spec(value: Mutable<String>) -> Reactive<String> {
        Reactive::Dynamic(value)
    }
}

} // verus!
