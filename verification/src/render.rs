//! The renderer's visible layout: a header line followed by one line per
//! item. The layout is a pure function of the item labels; the caller
//! writes the lines to the terminal (with its styling) and places the
//! cursor on the first item row.

use vstd::prelude::*;
use vstd::string::StringExecFns;
use crate::config::ShellItem;

verus! {

/// The fixed header line above the item rows.
pub open spec fn header_text() -> Seq<char> {
    "Select a shell:"@
}

/// The visible text of one item row: a checkbox-like prefix, the item's
/// name, a separator, and the item's path.
pub open spec fn line_text(name: Seq<char>, path: Seq<char>) -> Seq<char> {
    "[ ] "@ + name + " - "@ + path
}

/// The visible layout of the menu: the header at row 0 and one line per
/// item at rows 1 through `items.len()`.
pub open spec fn layout_of(items: Seq<ShellItem>) -> Seq<Seq<char>> {
    Seq::new(
        items.len() + 1,
        |i: int|
            if i == 0 {
                header_text()
            } else {
                line_text(items[i - 1].name@, items[i - 1].path@)
            },
    )
}

/// The header line, as the caller writes it above the item rows.
pub fn header_line() -> (r: String)
    ensures
        r@ == header_text(),
{
    "Select a shell:".to_owned()
}

/// Build the menu's visible lines for `items`, header first.
pub fn render_lines(items: &Vec<ShellItem>) -> (r: Vec<String>)
    ensures
        r@.len() == items@.len() + 1,
        forall|i: int| 0 <= i < r@.len() ==> r@[i]@ == layout_of(items@)[i],
{
    let mut out: Vec<String> = Vec::new();
    out.push("Select a shell:".to_owned());
    let mut idx: usize = 0;
    while idx < items.len()
        invariant
            idx <= items@.len(),
            out@.len() == idx + 1,
            forall|i: int| 0 <= i < out@.len() ==> out@[i]@ == layout_of(items@)[i],
        decreases items@.len() - idx,
    {
        let line = String::from_str("[ ] ").concat(items[idx].name.as_str()).concat(
            " - ",
        ).concat(items[idx].path.as_str());
        out.push(line);
        idx += 1;
    }
    out
}

/// One item row of the layout, split into its styled segments; the
/// caller colours each segment and writes them in order.
#[derive(Debug, Clone)]
pub struct MenuLine {
    /// The fixed checkbox-like prefix.
    pub prefix: String,
    /// The item's name.
    pub name: String,
    /// The fixed separator between name and path.
    pub separator: String,
    /// The item's path.
    pub path: String,
}

/// The visible text of a row: its segments in order.
pub open spec fn line_view(l: MenuLine) -> Seq<char> {
    l.prefix@ + l.name@ + l.separator@ + l.path@
}

/// Build the item rows for `items`, split into segments; row `i` of the
/// result reads exactly as row `i + 1` of the layout (row 0 is the header).
pub fn render_rows(items: &Vec<ShellItem>) -> (r: Vec<MenuLine>)
    ensures
        r@.len() == items@.len(),
        forall|i: int|
            0 <= i < items@.len() ==> r@[i].prefix@ == "[ ] "@ && r@[i].name@
                == items@[i].name@ && r@[i].separator@ == " - "@ && r@[i].path@
                == items@[i].path@,
        forall|i: int| 0 <= i < items@.len() ==> line_view(r@[i]) == layout_of(items@)[i + 1],
{
    let mut out: Vec<MenuLine> = Vec::new();
    let mut idx: usize = 0;
    while idx < items.len()
        invariant
            idx <= items@.len(),
            out@.len() == idx,
            forall|i: int|
                0 <= i < idx ==> out@[i].prefix@ == "[ ] "@ && out@[i].name@
                    == items@[i].name@ && out@[i].separator@ == " - "@ && out@[i].path@
                    == items@[i].path@,
        decreases items@.len() - idx,
    {
        out.push(
            MenuLine {
                prefix: "[ ] ".to_owned(),
                name: items[idx].name.clone(),
                separator: " - ".to_owned(),
                path: items[idx].path.clone(),
            },
        );
        idx += 1;
    }
    out
}

/// The layout depends on the labels alone: two item lists with the same
/// names and paths render to the identical visible layout, so rendering
/// the same list twice in a row leaves the screen unchanged.
pub proof fn lemma_layout_identical(a: Seq<ShellItem>, b: Seq<ShellItem>)
    requires
        a.len() == b.len(),
        forall|i: int| 0 <= i < a.len() ==> a[i].name@ == b[i].name@ && a[i].path@ == b[i].path@,
    ensures
        layout_of(a) == layout_of(b),
{
    assert(layout_of(a) =~= layout_of(b));
}

} // verus!
