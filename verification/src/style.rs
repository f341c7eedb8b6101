//! The static configuration of each window role: its title, resizability,
//! and the inline style rules its canvas gets when attached to the page.

use vstd::prelude::*;
use crate::controller::WindowRole;

verus! {

/// The attributes a window of a role is created with.
#[derive(Clone, Copy, Debug)]
pub struct WindowConfig {
    pub title: &'static str,
    pub resizable: bool,
}

/// One inline style assignment: a property name and its value.
#[derive(Clone, Copy, Debug)]
pub struct StyleRule {
    pub name: &'static str,
    pub value: &'static str,
}

/// The title a window of a role is created with.
pub open spec fn spec_title(role: WindowRole) -> Seq<char> {
    match role {
        WindowRole::Primary => "Main Window"@,
        WindowRole::Secondary => "Child Window"@,
    }
}

/// The style table of a role, as pairs of property name and value: the
/// primary canvas fills the page from a small offset; the secondary canvas
/// is a quarter-sized, further offset, bordered overlay.
pub open spec fn spec_style(role: WindowRole) -> Seq<(Seq<char>, Seq<char>)> {
    match role {
        WindowRole::Primary => seq![
            ("width"@, "100%"@),
            ("height"@, "100%"@),
            ("position"@, "absolute"@),
            ("top"@, "10px"@),
            ("left"@, "10px"@),
        ],
        WindowRole::Secondary => seq![
            ("width"@, "25%"@),
            ("height"@, "25%"@),
            ("position"@, "absolute"@),
            ("top"@, "60px"@),
            ("left"@, "60px"@),
            ("border"@, "1px solid black"@),
        ],
    }
}

/// The attributes to create a window of `role` with: the role's title, and
/// always resizable.
pub fn window_config(role: WindowRole) -> (r: WindowConfig)
    ensures
        r.title@ == spec_title(role),
        r.resizable,
{
    match role {
        WindowRole::Primary => WindowConfig { title: "Main Window", resizable: true },
        WindowRole::Secondary => WindowConfig { title: "Child Window", resizable: true },
    }
}

/// The style rules to apply, in order, to the canvas of a window of `role`.
pub fn style_rules(role: WindowRole) -> (r: Vec<StyleRule>)
    ensures
        r@.len() == spec_style(role).len(),
        forall|i: int|
            0 <= i < r@.len() ==> r@[i].name@ == spec_style(role)[i].0 && r@[i].value@
                == spec_style(role)[i].1,
{
    let mut r: Vec<StyleRule> = Vec::new();
    match role {
        WindowRole::Primary => {
            r.push(StyleRule { name: "width", value: "100%" });
            r.push(StyleRule { name: "height", value: "100%" });
            r.push(StyleRule { name: "position", value: "absolute" });
            r.push(StyleRule { name: "top", value: "10px" });
            r.push(StyleRule { name: "left", value: "10px" });
        },
        WindowRole::Secondary => {
            r.push(StyleRule { name: "width", value: "25%" });
            r.push(StyleRule { name: "height", value: "25%" });
            r.push(StyleRule { name: "position", value: "absolute" });
            r.push(StyleRule { name: "top", value: "60px" });
            r.push(StyleRule { name: "left", value: "60px" });
            r.push(StyleRule { name: "border", value: "1px solid black" });
        },
    }
    r
}

} // verus!
