//! Themes: the concrete value of each colour and size token, and partial
//! updates that replace only the tokens they name.

use vstd::prelude::*;

verus! {

/// The colour of each colour token.
#[derive(Clone)]
pub struct Palette {
    pub grey: String,
    pub blue: String,
    pub coral: String,
    pub pink: String,
}

/// The size of each size token, in thousandths of a rem.
#[derive(Clone, Copy, PartialEq, Eq, Structural, Debug)]
pub struct Sizes {
    pub xs: u32,
    pub sm: u32,
    pub md: u32,
    pub lg: u32,
    pub xl: u32,
}

/// A complete theme: every token has a value.
#[derive(Clone)]
pub struct Theme {
    pub colours: Palette,
    pub sizing: Sizes,
}

/// A partial theme: the tokens it names replace those of the current theme,
/// the others are kept.
#[derive(Clone)]
pub struct ThemeUpdate {
    pub grey: Option<String>,
    pub blue: Option<String>,
    pub coral: Option<String>,
    pub pink: Option<String>,
    pub xs: Option<u32>,
    pub sm: Option<u32>,
    pub md: Option<u32>,
    pub lg: Option<u32>,
    pub xl: Option<u32>,
}

/// The value of a colour token after an update.
pub open spec fn merged_colour(old: String, new: Option<String>) -> Seq<char> {
    match new {
        Some(v) => v@,
        None => old@,
    }
}

/// The value of a size token after an update.
pub open spec fn merged_size(old: u32, new: Option<u32>) -> u32 {
    match new {
        Some(v) => v,
        None => old,
    }
}

/// `t` is `before` with `u` applied, token by token.
pub open spec fn is_merge(t: Theme, before: Theme, u: ThemeUpdate) -> bool {
    &&& t.colours.grey@ == merged_colour(before.colours.grey, u.grey)
    &&& t.colours.blue@ == merged_colour(before.colours.blue, u.blue)
    &&& t.colours.coral@ == merged_colour(before.colours.coral, u.coral)
    &&& t.colours.pink@ == merged_colour(before.colours.pink, u.pink)
    &&& t.sizing.xs == merged_size(before.sizing.xs, u.xs)
    &&& t.sizing.sm == merged_size(before.sizing.sm, u.sm)
    &&& t.sizing.md == merged_size(before.sizing.md, u.md)
    &&& t.sizing.lg == merged_size(before.sizing.lg, u.lg)
    &&& t.sizing.xl == merged_size(before.sizing.xl, u.xl)
}

fn pick_colour(old: String, new: Option<String>) -> (r: String)
    ensures
        r@ == merged_colour(old, new),
{
    match new {
        Some(v) => v,
        None => old,
    }
}

fn pick_size(old: u32, new: Option<u32>) -> (r: u32)
    ensures
        r == merged_size(old, new),
{
    match new {
        Some(v) => v,
        None => old,
    }
}

impl ThemeUpdate {
    /// An update that names no token.
    pub fn new() -> (r: ThemeUpdate)
        ensures
            r.grey is None && r.blue is None && r.coral is None && r.pink is None,
            r.xs is None && r.sm is None && r.md is None && r.lg is None && r.xl is None,
    {
        ThemeUpdate {
            grey: None,
            blue: None,
            coral: None,
            pink: None,
            xs: None,
            sm: None,
            md: None,
            lg: None,
            xl: None,
        }
    }
}

impl Default for Theme {
    fn default() -> (r: Theme)
        ensures
            r.colours.grey@ == "#1E1E1E"@,
            r.colours.blue@ == "#5576B9"@,
            r.colours.coral@ == "#F15A4D"@,
            r.colours.pink@ == "#EE3075"@,
            r.sizing == (Sizes { xs: 500, sm: 750, md: 1000, lg: 1500, xl: 2000 }),
    {
        Theme {
            colours: Palette {
                grey: String::from_str("#1E1E1E"),
                blue: String::from_str("#5576B9"),
                coral: String::from_str("#F15A4D"),
                pink: String::from_str("#EE3075"),
            },
            sizing: Sizes { xs: 500, sm: 750, md: 1000, lg: 1500, xl: 2000 },
        }
    }
}

impl Theme {
    /// Replaces the tokens that `update` names and keeps the others.
    pub fn apply(&mut self, update: ThemeUpdate)
        ensures
            is_merge(*final(self), *old(self), update),
    {
        let grey = self.colours.grey.clone();
        let blue = self.colours.blue.clone();
        let coral = self.colours.coral.clone();
        let pink = self.colours.pink.clone();
        self.colours = Palette {
            grey: pick_colour(grey, update.grey),
            blue: pick_colour(blue, update.blue),
            coral: pick_colour(coral, update.coral),
            pink: pick_colour(pink, update.pink),
        };
        self.sizing = Sizes {
            xs: pick_size(self.sizing.xs, update.xs),
            sm: pick_size(self.sizing.sm, update.sm),
            md: pick_size(self.sizing.md, update.md),
            lg: pick_size(self.sizing.lg, update.lg),
            xl: pick_size(self.sizing.xl, update.xl),
        };
    }

    /// The CSS custom properties of the colour tokens.
    pub fn root_variables(&self) -> (r: String)
        ensures
            r@ == ":root { --grey: "@ + self.colours.grey@ + "; --blue: "@ + self.colours.blue@
                + "; --coral: "@ + self.colours.coral@ + "; --pink: "@ + self.colours.pink@ + "; }"@,
    {
        let mut r = String::from_str(":root { --grey: ");
        r.append(self.colours.grey.as_str());
        r.append("; --blue: ");
        r.append(self.colours.blue.as_str());
        r.append("; --coral: ");
        r.append(self.colours.coral.as_str());
        r.append("; --pink: ");
        r.append(self.colours.pink.as_str());
        r.append("; }");
        r
    }
}

/// Applying an update changes exactly the tokens it names: a token that the
/// update leaves out keeps its value, a token it names takes the new one.
pub proof fn lemma_partial_merge(before: Theme, u: ThemeUpdate, after: Theme)
    requires
        is_merge(after, before, u),
    ensures
        u.grey is None ==> after.colours.grey@ == before.colours.grey@,
        u.blue is None ==> after.colours.blue@ == before.colours.blue@,
        u.coral is None ==> after.colours.coral@ == before.colours.coral@,
        u.pink is None ==> after.colours.pink@ == before.colours.pink@,
        u.grey matches Some(v) ==> after.colours.grey@ == v@,
        u.blue matches Some(v) ==> after.colours.blue@ == v@,
        u.coral matches Some(v) ==> after.colours.coral@ == v@,
        u.pink matches Some(v) ==> after.colours.pink@ == v@,
        u.xs is None ==> after.sizing.xs == before.sizing.xs,
        u.sm is None ==> after.sizing.sm == before.sizing.sm,
        u.md is None ==> after.sizing.md == before.sizing.md,
        u.lg is None ==> after.sizing.lg == before.sizing.lg,
        u.xl is None ==> after.sizing.xl == before.sizing.xl,
{
}

} // verus!
