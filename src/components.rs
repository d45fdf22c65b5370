//! The options of the widgets.

use vstd::prelude::*;

verus! {

/// Which parts of the brand mark are shown.
#[derive(Clone, Copy, PartialEq, Eq, Structural, Debug, Default)]
pub enum BrandVariant {
    Mark,
    Text,
    #[default]
    MarkText,
}

/// The colour scheme of the brand mark.
#[derive(Clone, Copy, PartialEq, Eq, Structural, Debug, Default)]
pub enum BrandColour {
    #[default]
    Light,
    Dark,
}

/// The look of a button.
#[derive(Clone, Copy, PartialEq, Eq, Structural, Debug, Default)]
pub enum ButtonVariant {
    #[default]
    Filled,
    Light,
    Outline,
    Subtle,
}

/// The main axis of a flex container.
#[derive(Clone, Copy, PartialEq, Eq, Structural, Debug, Default)]
pub enum FlexDirection {
    #[default]
    Row,
    Column,
    RowReverse,
    ColumnReverse,
}

/// The CSS value of a flex direction.
pub open spec fn flex_direction_text(d: FlexDirection) -> Seq<char> {
    match d {
        FlexDirection::Row => "row"@,
        FlexDirection::Column => "column"@,
        FlexDirection::RowReverse => "row-reverse"@,
        FlexDirection::ColumnReverse => "column-reverse"@,
    }
}

impl FlexDirection {
    /// The value of the `flex-direction` property.
    pub fn to_string(&self) -> (r: String)
        ensures
            r@ == flex_direction_text(*self),
    {
        let s = match self {
            FlexDirection::Row => "row",
            FlexDirection::Column => "column",
            FlexDirection::RowReverse => "row-reverse",
            FlexDirection::ColumnReverse => "column-reverse",
        };
        String::from_str(s)
    }
}

/// An entry of the shell's sidebar: a link with its label and target, a
/// section title, or a gap.
#[derive(Clone, Copy, PartialEq, Eq, Debug)]
pub enum SidebarItem {
    Item(&'static str, &'static str),
    Title(&'static str),
    Spacer,
}

/// Whether the shell's sidebar is open.
#[derive(Clone, Copy, PartialEq, Eq, Structural, Debug, Default)]
pub enum SidebarState {
    #[default]
    Open,
    Closed,
    Default,
}

/// Where the tab list stands against the panels.
#[derive(Clone, Copy, PartialEq, Eq, Structural, Debug, Default)]
pub enum TabPlacement {
    Top,
    #[default]
    Bottom,
    Left,
    Right,
}

/// The kind of a run of text.
#[derive(Clone, Copy, PartialEq, Eq, Structural, Debug, Default)]
pub enum TextVariant {
    Subscript,
    Superscript,
    Small,
    #[default]
    Default,
    H4,
    H3,
    H2,
    H1,
}

/// Where a tooltip stands against its anchor.
#[derive(Clone, Copy, PartialEq, Eq, Structural, Debug, Default)]
pub enum Position {
    #[default]
    Top,
    Bottom,
    Left,
    Right,
}

impl BrandColour {
    /// The fill of the brand mark.
    pub fn fill(&self) -> (r: &'static str)
        ensures
            r@ == (if *self == BrandColour::Light { "#fff"@ } else { "#000"@ }),
    {
        match self {
            BrandColour::Light => "#fff",
            BrandColour::Dark => "#000",
        }
    }
}

impl SidebarState {
    /// The state after the sidebar's close control is pressed: an open
    /// sidebar closes, any other opens.
    pub fn toggled(&self) -> (r: SidebarState)
        ensures
            r == (if *self == SidebarState::Open { SidebarState::Closed } else { SidebarState::Open }),
    {
        match self {
            SidebarState::Open => SidebarState::Closed,
            _ => SidebarState::Open,
        }
    }
}

/// The element, font size and font weight of each kind of text.
pub open spec fn text_style(v: TextVariant) -> (Seq<char>, Seq<char>, Seq<char>) {
    match v {
        TextVariant::Subscript => ("sub"@, "0.83em"@, "400"@),
        TextVariant::Superscript => ("sup"@, "0.83em"@, "400"@),
        TextVariant::Small => ("span"@, "0.75rem"@, "400"@),
        TextVariant::Default => ("span"@, "1rem"@, "400"@),
        TextVariant::H4 => ("h4"@, "1.5rem"@, "600"@),
        TextVariant::H3 => ("h3"@, "2rem"@, "700"@),
        TextVariant::H2 => ("h2"@, "3rem"@, "700"@),
        TextVariant::H1 => ("h1"@, "4.5rem"@, "700"@),
    }
}

impl TextVariant {
    /// The element that holds this kind of text.
    pub fn tag(&self) -> (r: &'static str)
        ensures
            r@ == text_style(*self).0,
    {
        match self {
            TextVariant::Subscript => "sub",
            TextVariant::Superscript => "sup",
            TextVariant::Small | TextVariant::Default => "span",
            TextVariant::H4 => "h4",
            TextVariant::H3 => "h3",
            TextVariant::H2 => "h2",
            TextVariant::H1 => "h1",
        }
    }

    /// The font size of this kind of text.
    pub fn font_size(&self) -> (r: &'static str)
        ensures
            r@ == text_style(*self).1,
    {
        match self {
            TextVariant::Subscript => "0.83em",
            TextVariant::Superscript => "0.83em",
            TextVariant::Small => "0.75rem",
            TextVariant::Default => "1rem",
            TextVariant::H4 => "1.5rem",
            TextVariant::H3 => "2rem",
            TextVariant::H2 => "3rem",
            TextVariant::H1 => "4.5rem",
        }
    }

    /// The font weight of this kind of text.
    pub fn font_weight(&self) -> (r: &'static str)
        ensures
            r@ == text_style(*self).2,
    {
        match self {
            TextVariant::Subscript | TextVariant::Superscript | TextVariant::Small | TextVariant::Default => "400",
            TextVariant::H4 => "600",
            TextVariant::H3 | TextVariant::H2 | TextVariant::H1 => "700",
        }
    }
}

/// The utility classes of the tab widget for each placement: the whole
/// widget's direction, the tab list's direction, spacing, margin and border,
/// and the rounding of each tab.
pub open spec fn tab_classes(p: TabPlacement) -> Seq<Seq<char>> {
    match p {
        TabPlacement::Top => seq!["flex-col"@, "flex-row"@, "space-x-4"@, "mb-2"@, "border-b"@, "rounded-t"@],
        TabPlacement::Bottom => seq!["flex-col-reverse"@, "flex-row"@, "space-x-4"@, "mt-2"@, "border-t"@, "rounded-b"@],
        TabPlacement::Left => seq!["flex-row"@, "flex-col"@, "space-y-2"@, "mr-2"@, "border-r"@, "rounded-l"@],
        TabPlacement::Right => seq!["flex-row-reverse"@, "flex-col"@, "space-y-2"@, "ml-2"@, "border-l"@, "rounded-r"@],
    }
}

impl TabPlacement {
    /// The direction of the whole widget.
    pub fn container_class(&self) -> (r: &'static str)
        ensures
            r@ == tab_classes(*self)[0],
    {
        match self {
            TabPlacement::Top => "flex-col",
            TabPlacement::Bottom => "flex-col-reverse",
            TabPlacement::Left => "flex-row",
            TabPlacement::Right => "flex-row-reverse",
        }
    }

    /// The direction of the tab list.
    pub fn list_direction_class(&self) -> (r: &'static str)
        ensures
            r@ == tab_classes(*self)[1],
    {
        match self {
            TabPlacement::Top | TabPlacement::Bottom => "flex-row",
            TabPlacement::Left | TabPlacement::Right => "flex-col",
        }
    }

    /// The spacing between tabs.
    pub fn list_spacing_class(&self) -> (r: &'static str)
        ensures
            r@ == tab_classes(*self)[2],
    {
        match self {
            TabPlacement::Top | TabPlacement::Bottom => "space-x-4",
            TabPlacement::Left | TabPlacement::Right => "space-y-2",
        }
    }

    /// The margin between the tab list and the panels.
    pub fn list_margin_class(&self) -> (r: &'static str)
        ensures
            r@ == tab_classes(*self)[3],
    {
        match self {
            TabPlacement::Top => "mb-2",
            TabPlacement::Bottom => "mt-2",
            TabPlacement::Left => "mr-2",
            TabPlacement::Right => "ml-2",
        }
    }

    /// The border on the panel side of the tab list.
    pub fn list_border_class(&self) -> (r: &'static str)
        ensures
            r@ == tab_classes(*self)[4],
    {
        match self {
            TabPlacement::Top => "border-b",
            TabPlacement::Bottom => "border-t",
            TabPlacement::Left => "border-r",
            TabPlacement::Right => "border-l",
        }
    }

    /// The rounded corners of each tab.
    pub fn tab_rounding_class(&self) -> (r: &'static str)
        ensures
            r@ == tab_classes(*self)[5],
    {
        match self {
            TabPlacement::Top => "rounded-t",
            TabPlacement::Bottom => "rounded-b",
            TabPlacement::Left => "rounded-l",
            TabPlacement::Right => "rounded-r",
        }
    }
}

/// The utility classes that place a tooltip and its arrow.
pub open spec fn position_classes(p: Position) -> Seq<Seq<char>> {
    match p {
        Position::Top => seq![
            "bottom-[120%]"@, "origin-bottom"@, "after:rotate-180"@, "after:bottom-[-0.85rem]"@,
            "after:left-[50%]"@, "after:translate-x-[-7.5px]"@,
        ],
        Position::Bottom => seq![
            "-bottom-[120%]"@, "origin-top"@, "after:rotate-0"@, "after:top-[-0.85rem]"@,
            "after:left-[50%]"@, "after:translate-x-[-7.5px]"@,
        ],
        Position::Left => seq!["right-[120%]"@, "origin-right"@, "after:rotate-90"@, "after:right-[-0.9rem]"@],
        Position::Right => seq!["-right-[120%]"@, "origin-left"@, "after:-rotate-90"@, "after:left-[-0.9rem]"@],
    }
}

impl Position {
    /// The classes that place a tooltip at this side of its anchor.
    pub fn classes(&self) -> (r: Vec<&'static str>)
        ensures
            r@.map_values(|c: &'static str| c@) == position_classes(*self),
    {
        let r = match self {
            Position::Top => vec![
                "bottom-[120%]", "origin-bottom", "after:rotate-180", "after:bottom-[-0.85rem]",
                "after:left-[50%]", "after:translate-x-[-7.5px]",
            ],
            Position::Bottom => vec![
                "-bottom-[120%]", "origin-top", "after:rotate-0", "after:top-[-0.85rem]",
                "after:left-[50%]", "after:translate-x-[-7.5px]",
            ],
            Position::Left => vec!["right-[120%]", "origin-right", "after:rotate-90", "after:right-[-0.9rem]"],
            Position::Right => vec!["-right-[120%]", "origin-left", "after:-rotate-90", "after:left-[-0.9rem]"],
        };
        assert(r@.map_values(|c: &'static str| c@) =~= position_classes(*self));
        r
    }
}

} // verus!
