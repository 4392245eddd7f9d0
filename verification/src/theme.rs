//! The stylesheet: flat, square and grey, so that nothing in the chrome biases how the
//! photo is judged.
//!
//! The two canvas greys are functional. The darkroom canvas is a true middle grey,
//! because the surround decides how tone and colour on top of it are seen.
pub mod grey;

use vstd::prelude::*;

use crate::theme::grey::{
    G10, G15, G20, G25, G30, G35, G40, G45, G50, G60, G75, G80, G90,
};

verus! {

/// The stylesheet in pieces: its text, and the greys of the ramp between.
pub const CSS_PIECES: [&'static str; 119] = [
    "
/* ── Base ────────────────────────────────────────────────────────────── */
/* darktable: bg_color = grey_15, fg_color = grey_75. Flat everywhere: the
   editor's chrome should never compete with the image. */
window, .background {
  background-color: ",
    G15,
    ";
  color: ",
    G75,
    ";
}

/* Kill libadwaita's blue. darktable has no accent colour — selection is a
   lighter grey (grey_35), which keeps the UI achromatic so it cannot bias
   colour judgement. */
:root {
  --accent-bg-color: ",
    G35,
    ";
  --accent-fg-color: ",
    G90,
    ";
  --accent-color: ",
    G75,
    ";
}

/* ── Header / toolbars ───────────────────────────────────────────────── */
headerbar, .toolbar, actionbar > revealer > box {
  background-color: ",
    G15,
    ";
  background-image: none;
  border: none;
  box-shadow: none;
  min-height: 32px;
  color: ",
    G75,
    ";
}
headerbar:backdrop { background-color: ",
    G15,
    "; color: ",
    G45,
    "; }

/* darktable's view switcher is plain text that brightens when active, not a
   pill. Square it off and drop the raised look. */
button, headerbar button {
  background-image: none;
  background-color: ",
    G20,
    ";
  border: 1px solid ",
    G10,
    ";
  border-radius: 0;
  box-shadow: none;
  color: ",
    G75,
    ";
  padding: 2px 8px;
  min-height: 24px;
}
button:hover { background-color: ",
    G30,
    "; color: ",
    G90,
    "; }
button:active, button:checked { background-color: ",
    G35,
    "; color: ",
    G90,
    "; }
button:disabled { color: ",
    G45,
    "; background-color: ",
    G20,
    "; }
button.flat { background-color: transparent; border-color: transparent; }
button.flat:hover { background-color: ",
    G30,
    "; }

/* ── Side panels and module rows ─────────────────────────────────────── */
/* plugin_bg_color = grey_20; collapsible header = grey_25. */
list, listview, .view {
  background-color: ",
    G15,
    ";
  color: ",
    G75,
    ";
}
row, .activatable {
  background-color: ",
    G20,
    ";
  border-radius: 0;
  min-height: 28px;
}
row:hover { background-color: ",
    G25,
    "; }
row:selected, row:checked { background-color: ",
    G35,
    "; color: ",
    G90,
    "; }

/* libadwaita cards/boxed lists are rounded and inset; darktable's panels are
   flush rectangles butted against each other. */
.card, .boxed-list, preferencesgroup > box > box {
  background-color: ",
    G20,
    ";
  border-radius: 0;
  border: 1px solid ",
    G10,
    ";
}
expander-row, .expander-row { background-color: ",
    G20,
    "; border-radius: 0; }

/* Section labels: plugin_label_color = grey_60, and darktable sets them in
   lowercase small caps. We keep the label text as authored but match weight. */
label.title-4, .heading {
  color: ",
    G60,
    ";
  font-weight: bold;
}
label.dim-label { color: ",
    G45,
    "; }

/* ── Sliders ─────────────────────────────────────────────────────────── */
/* Not bauhaus (those are custom-drawn upstream) but flat and grey: a thin
   trough with a square fill, no gradient, no blue. */
scale trough {
  background-color: ",
    G10,
    ";
  border: none;
  border-radius: 0;
  min-height: 6px;
}
scale highlight {
  background-color: ",
    G60,
    ";
  border-radius: 0;
}
scale slider {
  background-color: ",
    G75,
    ";
  border: 1px solid ",
    G10,
    ";
  border-radius: 0;
  min-width: 10px;
  min-height: 14px;
}
scale slider:hover { background-color: ",
    G90,
    "; }
scale:disabled highlight { background-color: ",
    G40,
    "; }

/* ── Entries, dropdowns, switches ────────────────────────────────────── */
entry, dropdown, combobox button, spinbutton {
  background-color: ",
    G20,
    ";
  color: ",
    G75,
    ";
  border: 1px solid ",
    G10,
    ";
  border-radius: 0;
  box-shadow: none;
}
entry:focus, dropdown:focus { border-color: ",
    G50,
    "; box-shadow: none; }
entry placeholder, entry text placeholder { color: ",
    G45,
    "; }

switch {
  background-color: ",
    G25,
    ";
  border: 1px solid ",
    G10,
    ";
  border-radius: 0;
  box-shadow: none;
}
switch:checked { background-color: ",
    G50,
    "; }
switch > slider {
  background-color: ",
    G75,
    ";
  border-radius: 0;
  border: 1px solid ",
    G10,
    ";
  min-width: 16px;
}

/* ── Scrollbars ──────────────────────────────────────────────────────── */
/* scroll_bar_bg = grey_10, inactive = grey_40, active = grey_60. */
scrollbar { background-color: ",
    G10,
    "; border: none; }
scrollbar slider {
  background-color: ",
    G40,
    ";
  border-radius: 0;
  border: none;
  min-width: 8px;
  min-height: 8px;
}
scrollbar slider:hover { background-color: ",
    G60,
    "; }

/* ── Separators ──────────────────────────────────────────────────────── */
separator, .separator { background-color: ",
    G10,
    "; min-width: 1px; min-height: 1px; }
paned > separator { background-color: ",
    G10,
    "; min-width: 2px; }

/* ── Popovers / menus ────────────────────────────────────────────────── */
popover > contents, menu, .menu {
  background-color: ",
    G20,
    ";
  color: ",
    G75,
    ";
  border: 1px solid ",
    G10,
    ";
  border-radius: 0;
  box-shadow: none;
}

/* ── Tooltips ────────────────────────────────────────────────────────── */
tooltip { background-color: ",
    G10,
    "; color: ",
    G80,
    "; border-radius: 0; }

/* ── Canvas backgrounds ──────────────────────────────────────────────── */
/* THESE TWO ARE FUNCTIONAL, NOT DECORATIVE. darktable puts the darkroom canvas
   at a true middle grey so the surround does not skew your perception of the
   image's tone and colour; the lighttable sits slightly darker. Changing these
   for aesthetics changes how edits look.

   Declared last and with the child selectors GTK actually renders: a GridView
   paints through its own `child` nodes and sits inside a ScrolledWindow whose
   generic `.view` rule would otherwise win on specificity. */
.c41-darkroom-canvas { background-color: ",
    G50,
    "; }
.c41-lighttable-canvas,
.c41-lighttable-canvas > child,
scrolledwindow > viewport > .c41-lighttable-canvas {
  background-color: ",
    G40,
    ";
}
/* The scroller and viewport around the grid must not paint over it. */
scrolledwindow:has(.c41-lighttable-canvas),
scrolledwindow:has(.c41-lighttable-canvas) > viewport {
  background-color: ",
    G40,
    ";
}
",
];

/// The first `n` pieces in one text.
pub open spec fn assembled(pieces: Seq<&str>, n: int) -> Seq<char>
    decreases n,
{
    if n <= 0 {
        seq![]
    } else {
        assembled(pieces, n - 1) + pieces[n - 1]@
    }
}

/// The stylesheet.
pub fn css() -> (r: String)
    ensures
        r@ == assembled(CSS_PIECES@, 119),
{
    let pieces = CSS_PIECES;
    let mut s = String::new();
    let mut i: usize = 0;
    while i < 119
        invariant
            i <= 119,
            pieces == CSS_PIECES,
            s@ == assembled(CSS_PIECES@, i as int),
        decreases 119 - i,
    {
        s.append(pieces[i]);
        i = i + 1;
    }
    s
}

proof fn lemma_assembled(pieces: Seq<&str>, k: int, n: int)
    requires
        0 <= k < n <= pieces.len(),
    ensures
        assembled(pieces, k).len() + pieces[k]@.len() <= assembled(pieces, n).len(),
        assembled(pieces, n).subrange(
            assembled(pieces, k).len() as int,
            (assembled(pieces, k).len() + pieces[k]@.len()) as int,
        ) == pieces[k]@,
    decreases n,
{
    let from = assembled(pieces, k).len() as int;
    let to = from + pieces[k]@.len();
    if k == n - 1 {
        assert(assembled(pieces, n).subrange(from, to) =~= pieces[k]@);
    } else {
        lemma_assembled(pieces, k, n - 1);
        assert(assembled(pieces, n).subrange(from, to) =~= assembled(pieces, n - 1).subrange(
            from,
            to,
        ));
    }
}

/// Each piece of the stylesheet stands in the text right behind those before it.
pub proof fn law_pieces_stand_in_order(k: int, starts: spec_fn(int) -> int)
    requires
        0 <= k < 119,
        starts(0) == 0,
        forall|i: int|
            0 <= i < 119 ==> #[trigger] starts(i + 1) == starts(i) + CSS_PIECES@[i]@.len(),
    ensures
        starts(k + 1) <= assembled(CSS_PIECES@, 119).len(),
        assembled(CSS_PIECES@, 119).subrange(starts(k), starts(k + 1)) == CSS_PIECES@[k]@,
        assembled(CSS_PIECES@, 119).len() == starts(119),
{
    lemma_starts(k, starts);
    lemma_starts(119, starts);
    lemma_assembled(CSS_PIECES@, k, 119);
    assert(starts(k + 1) == starts(k) + CSS_PIECES@[k]@.len());
}

proof fn lemma_starts(k: int, starts: spec_fn(int) -> int)
    requires
        0 <= k <= 119,
        starts(0) == 0,
        forall|i: int|
            0 <= i < 119 ==> #[trigger] starts(i + 1) == starts(i) + CSS_PIECES@[i]@.len(),
    ensures
        assembled(CSS_PIECES@, k).len() == starts(k),
    decreases k,
{
    if k > 0 {
        lemma_starts(k - 1, starts);
        assert(starts((k - 1) + 1) == starts(k - 1) + CSS_PIECES@[k - 1]@.len());
    }
}

} // verus!
