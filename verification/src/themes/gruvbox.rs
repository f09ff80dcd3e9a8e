//! The Gruvbox palettes, each colour as its red, green and blue parts.

use vstd::prelude::*;

verus! {

/// The dark palette.
pub struct GruvboxDark;

/// The light palette.
pub struct GruvboxLight;

impl GruvboxDark {
    pub const BG: (u8, u8, u8) = (40, 40, 40);
    pub const RED: (u8, u8, u8) = (204, 36, 29);
    pub const GREEN: (u8, u8, u8) = (152, 151, 26);
    pub const YELLOW: (u8, u8, u8) = (215, 153, 33);
    pub const BLUE: (u8, u8, u8) = (69, 133, 136);
    pub const PURPLE: (u8, u8, u8) = (177, 98, 134);
    pub const AQUA: (u8, u8, u8) = (104, 157, 106);
    pub const GRAY: (u8, u8, u8) = (168, 153, 132);

    pub const GRAY_ALT: (u8, u8, u8) = (146, 131, 116);
    pub const RED_ALT: (u8, u8, u8) = (251, 73, 52);
    pub const GREEN_ALT: (u8, u8, u8) = (184, 187, 38);
    pub const YELLOW_ALT: (u8, u8, u8) = (250, 189, 47);
    pub const BLUE_ALT: (u8, u8, u8) = (131, 165, 152);
    pub const PURPLE_ALT: (u8, u8, u8) = (211, 134, 155);
    pub const AQUA_ALT: (u8, u8, u8) = (142, 192, 124);
    pub const FG: (u8, u8, u8) = (235, 219, 178);

    pub const BG0_H: (u8, u8, u8) = (29, 32, 33);
    pub const BG0: (u8, u8, u8) = (40, 40, 40);
    pub const BG1: (u8, u8, u8) = (60, 56, 54);
    pub const BG2: (u8, u8, u8) = (80, 73, 69);
    pub const BG3: (u8, u8, u8) = (102, 92, 84);
    pub const BG4: (u8, u8, u8) = (124, 111, 100);
    pub const GRAY2: (u8, u8, u8) = (146, 131, 116);
    pub const ORANGE: (u8, u8, u8) = (214, 93, 14);

    pub const BG0_S: (u8, u8, u8) = (50, 48, 47);
    pub const FG4: (u8, u8, u8) = (168, 153, 132);
    pub const FG3: (u8, u8, u8) = (189, 174, 147);
    pub const FG2: (u8, u8, u8) = (213, 196, 161);
    pub const FG1: (u8, u8, u8) = (235, 219, 178);
    pub const FG0: (u8, u8, u8) = (251, 241, 199);
    pub const ORANGE_ALT: (u8, u8, u8) = (254, 128, 25);
}

impl GruvboxLight {
    pub const BG: (u8, u8, u8) = (251, 241, 199);
    pub const RED: (u8, u8, u8) = (204, 36, 29);
    pub const GREEN: (u8, u8, u8) = (152, 151, 26);
    pub const YELLOW: (u8, u8, u8) = (215, 153, 33);
    pub const BLUE: (u8, u8, u8) = (69, 133, 136);
    pub const PURPLE: (u8, u8, u8) = (177, 98, 134);
    pub const AQUA: (u8, u8, u8) = (104, 157, 106);
    pub const GRAY: (u8, u8, u8) = (124, 108, 100);

    pub const GRAY_ALT: (u8, u8, u8) = (146, 131, 116);
    pub const RED_ALT: (u8, u8, u8) = (157, 0, 6);
    pub const GREEN_ALT: (u8, u8, u8) = (121, 116, 14);
    pub const YELLOW_ALT: (u8, u8, u8) = (181, 119, 100);
    pub const BLUE_ALT: (u8, u8, u8) = (7, 102, 120);
    pub const PURPLE_ALT: (u8, u8, u8) = (143, 63, 113);
    pub const AQUA_ALT: (u8, u8, u8) = (66, 123, 88);
    pub const FG: (u8, u8, u8) = (60, 56, 54);

    pub const BG0_H: (u8, u8, u8) = (249, 245, 215);
    pub const BG0: (u8, u8, u8) = (251, 241, 199);
    pub const BG1: (u8, u8, u8) = (235, 219, 178);
    pub const BG2: (u8, u8, u8) = (213, 196, 161);
    pub const BG3: (u8, u8, u8) = (189, 174, 147);
    pub const BG4: (u8, u8, u8) = (168, 153, 132);
    pub const GRAY2: (u8, u8, u8) = (146, 131, 116);
    pub const ORANGE: (u8, u8, u8) = (214, 93, 14);

    pub const BG0_S: (u8, u8, u8) = (242, 229, 188);
    pub const FG4: (u8, u8, u8) = (124, 108, 100);
    pub const FG3: (u8, u8, u8) = (102, 92, 84);
    pub const FG2: (u8, u8, u8) = (80, 73, 69);
    pub const FG1: (u8, u8, u8) = (60, 56, 54);
    pub const FG0: (u8, u8, u8) = (40, 40, 40);
    pub const ORANGE_ALT: (u8, u8, u8) = (175, 58, 3);
}

} // verus!
