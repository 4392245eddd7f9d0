//! The grey ramp.
use vstd::prelude::*;

verus! {

pub const G05: &'static str = "#111111";

/// Borders and the scrollbar trough.
pub const G10: &'static str = "#1b1b1b";

/// The general background.
pub const G15: &'static str = "#262626";

/// The background of modules.
pub const G20: &'static str = "#303030";

/// The header of a collapsible section.
pub const G25: &'static str = "#3b3b3b";

pub const G30: &'static str = "#474747";

/// Selection.
pub const G35: &'static str = "#525252";

/// The lighttable canvas.
pub const G40: &'static str = "#5e5e5e";

pub const G45: &'static str = "#6a6a6a";

/// The darkroom canvas: middle grey.
pub const G50: &'static str = "#777777";

/// Module labels.
pub const G60: &'static str = "#919191";

/// Text.
pub const G75: &'static str = "#b9b9b9";

pub const G80: &'static str = "#c6c6c6";

pub const G90: &'static str = "#e2e2e2";

/// Whether a colour is a grey: red, green and blue are written alike.
pub open spec fn achromatic(colour: Seq<char>) -> bool {
    &&& colour.len() == 7
    &&& colour[0] == '#'
    &&& colour[1] == colour[3] && colour[3] == colour[5]
    &&& colour[2] == colour[4] && colour[4] == colour[6]
}

/// Every colour of the ramp is a grey, and each is lighter than the one before.
pub proof fn law_ramp_is_grey_and_ascends()
    ensures
        achromatic(G05@),
        achromatic(G10@),
        achromatic(G15@),
        achromatic(G20@),
        achromatic(G25@),
        achromatic(G30@),
        achromatic(G35@),
        achromatic(G40@),
        achromatic(G45@),
        achromatic(G50@),
        achromatic(G60@),
        achromatic(G75@),
        achromatic(G80@),
        achromatic(G90@),
        G05@[1] < G10@[1] || (G05@[1] == G10@[1] && G05@[2] < G10@[2]),
        G10@[1] < G15@[1] || (G10@[1] == G15@[1] && G10@[2] < G15@[2]),
        G15@[1] < G20@[1] || (G15@[1] == G20@[1] && G15@[2] < G20@[2]),
        G20@[1] < G25@[1] || (G20@[1] == G25@[1] && G20@[2] < G25@[2]),
        G25@[1] < G30@[1] || (G25@[1] == G30@[1] && G25@[2] < G30@[2]),
        G30@[1] < G35@[1] || (G30@[1] == G35@[1] && G30@[2] < G35@[2]),
        G35@[1] < G40@[1] || (G35@[1] == G40@[1] && G35@[2] < G40@[2]),
        G40@[1] < G45@[1] || (G40@[1] == G45@[1] && G40@[2] < G45@[2]),
        G45@[1] < G50@[1] || (G45@[1] == G50@[1] && G45@[2] < G50@[2]),
        G50@[1] < G60@[1] || (G50@[1] == G60@[1] && G50@[2] < G60@[2]),
        G60@[1] < G75@[1] || (G60@[1] == G75@[1] && G60@[2] < G75@[2]),
        G75@[1] < G80@[1] || (G75@[1] == G80@[1] && G75@[2] < G80@[2]),
        G80@[1] < G90@[1] || (G80@[1] == G90@[1] && G80@[2] < G90@[2]),
{
    reveal_strlit("#111111");
    reveal_strlit("#1b1b1b");
    reveal_strlit("#262626");
    reveal_strlit("#303030");
    reveal_strlit("#3b3b3b");
    reveal_strlit("#474747");
    reveal_strlit("#525252");
    reveal_strlit("#5e5e5e");
    reveal_strlit("#6a6a6a");
    reveal_strlit("#777777");
    reveal_strlit("#919191");
    reveal_strlit("#b9b9b9");
    reveal_strlit("#c6c6c6");
    reveal_strlit("#e2e2e2");
}

} // verus!
