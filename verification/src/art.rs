//! The built-in logos: three cats drawn with half blocks and colour sequences.

use vstd::prelude::*;

verus! {

/// The first cat: nine lines.
pub const CAT_ART_1: &'static str = "                     \n    \x1b[38;2;0;0;0m▄\x1b[0m\x1b[48;2;0;0;0m\x1b[38;2;47;29;12m▄\x1b[0m\x1b[48;2;0;0;0m\x1b[38;2;47;29;12m▄\x1b[0m\x1b[38;2;0;0;0m▄\x1b[0m     \x1b[38;2;0;0;0m▄\x1b[0m\x1b[48;2;0;0;0m\x1b[38;2;47;29;12m▄\x1b[0m\x1b[48;2;0;0;0m\x1b[38;2;47;29;12m▄\x1b[0m\x1b[38;2;0;0;0m▄\x1b[0m    \n   \x1b[38;2;0;0;0m▄\x1b[0m\x1b[48;2;0;0;0m\x1b[38;2;255;255;255m▄\x1b[0m\x1b[48;2;253;171;214m\x1b[38;2;253;171;214m▄\x1b[0m\x1b[48;2;86;70;55m\x1b[38;2;253;171;214m▄\x1b[0m\x1b[48;2;47;29;12m\x1b[38;2;86;70;55m▄\x1b[0m\x1b[48;2;0;0;0m\x1b[38;2;47;29;12m▄\x1b[0m\x1b[38;2;0;0;0m▄\x1b[0m\x1b[38;2;0;0;0m▄\x1b[0m\x1b[38;2;0;0;0m▄\x1b[0m\x1b[48;2;0;0;0m\x1b[38;2;47;29;12m▄\x1b[0m\x1b[48;2;47;29;12m\x1b[38;2;86;70;55m▄\x1b[0m\x1b[48;2;86;70;55m\x1b[38;2;253;171;214m▄\x1b[0m\x1b[48;2;253;171;214m\x1b[38;2;253;171;214m▄\x1b[0m\x1b[48;2;0;0;0m\x1b[38;2;255;255;255m▄\x1b[0m\x1b[38;2;0;0;0m▄\x1b[0m   \n  \x1b[38;2;0;0;0m▄\x1b[0m\x1b[48;2;0;0;0m\x1b[38;2;47;29;12m▄\x1b[0m\x1b[48;2;47;29;12m\x1b[38;2;86;70;55m▄\x1b[0m\x1b[48;2;86;70;55m\x1b[38;2;164;150;136m▄\x1b[0m\x1b[48;2;164;150;136m\x1b[38;2;164;150;136m▄\x1b[0m\x1b[48;2;164;150;136m\x1b[38;2;164;150;136m▄\x1b[0m\x1b[48;2;164;150;136m\x1b[38;2;164;150;136m▄\x1b[0m\x1b[48;2;164;150;136m\x1b[38;2;47;29;12m▄\x1b[0m\x1b[48;2;255;255;255m\x1b[38;2;255;255;255m▄\x1b[0m\x1b[48;2;164;150;136m\x1b[38;2;47;29;12m▄\x1b[0m\x1b[48;2;164;150;136m\x1b[38;2;164;150;136m▄\x1b[0m\x1b[48;2;164;150;136m\x1b[38;2;164;150;136m▄\x1b[0m\x1b[48;2;164;150;136m\x1b[38;2;164;150;136m▄\x1b[0m\x1b[48;2;86;70;55m\x1b[38;2;164;150;136m▄\x1b[0m\x1b[48;2;47;29;12m\x1b[38;2;86;70;55m▄\x1b[0m\x1b[48;2;0;0;0m\x1b[38;2;47;29;12m▄\x1b[0m\x1b[38;2;0;0;0m▄\x1b[0m  \n \x1b[38;2;0;0;0m▄\x1b[0m\x1b[48;2;0;0;0m\x1b[38;2;164;150;136m▄\x1b[0m\x1b[48;2;86;70;55m\x1b[38;2;164;150;136m▄\x1b[0m\x1b[48;2;164;150;136m\x1b[38;2;164;150;136m▄\x1b[0m\x1b[48;2;164;150;136m\x1b[38;2;86;70;55m▄\x1b[0m\x1b[48;2;164;150;136m\x1b[38;2;47;29;12m▄\x1b[0m\x1b[48;2;86;70;55m\x1b[38;2;47;29;12m▄\x1b[0m\x1b[48;2;86;70;55m\x1b[38;2;255;255;255m▄\x1b[0m\x1b[48;2;255;255;255m\x1b[38;2;255;255;255m▄\x1b[0m\x1b[48;2;255;255;255m\x1b[38;2;255;255;255m▄\x1b[0m\x1b[48;2;255;255;255m\x1b[38;2;255;255;255m▄\x1b[0m\x1b[48;2;86;70;55m\x1b[38;2;255;255;255m▄\x1b[0m\x1b[48;2;86;70;55m\x1b[38;2;47;29;12m▄\x1b[0m\x1b[48;2;164;150;136m\x1b[38;2;47;29;12m▄\x1b[0m\x1b[48;2;164;150;136m\x1b[38;2;86;70;55m▄\x1b[0m\x1b[48;2;164;150;136m\x1b[38;2;164;150;136m▄\x1b[0m\x1b[48;2;86;70;55m\x1b[38;2;164;150;136m▄\x1b[0m\x1b[48;2;0;0;0m\x1b[38;2;164;150;136m▄\x1b[0m\x1b[38;2;0;0;0m▄\x1b[0m \n\x1b[38;2;0;0;0m▀\x1b[0m\x1b[48;2;0;0;0m\x1b[38;2;0;0;0m▄\x1b[0m\x1b[48;2;0;0;0m\x1b[38;2;164;150;136m▄\x1b[0m\x1b[48;2;164;150;136m\x1b[38;2;86;70;55m▄\x1b[0m\x1b[48;2;86;70;55m\x1b[38;2;47;29;12m▄\x1b[0m\x1b[48;2;47;29;12m\x1b[38;2;47;29;12m▄\x1b[0m\x1b[48;2;47;29;12m\x1b[38;2;47;29;12m▄\x1b[0m\x1b[48;2;8;27;94m\x1b[38;2;94;206;207m▄\x1b[0m\x1b[48;2;255;255;255m\x1b[38;2;255;255;255m▄\x1b[0m\x1b[48;2;255;255;255m\x1b[38;2;255;255;255m▄\x1b[0m\x1b[48;2;255;255;255m\x1b[38;2;0;0;0m▄\x1b[0m\x1b[48;2;255;255;255m\x1b[38;2;255;255;255m▄\x1b[0m\x1b[48;2;255;255;255m\x1b[38;2;255;255;255m▄\x1b[0m\x1b[48;2;8;27;94m\x1b[38;2;94;206;207m▄\x1b[0m\x1b[48;2;47;29;12m\x1b[38;2;47;29;12m▄\x1b[0m\x1b[48;2;47;29;12m\x1b[38;2;47;29;12m▄\x1b[0m\x1b[48;2;86;70;55m\x1b[38;2;47;29;12m▄\x1b[0m\x1b[48;2;164;150;136m\x1b[38;2;86;70;55m▄\x1b[0m\x1b[48;2;0;0;0m\x1b[38;2;164;150;136m▄\x1b[0m\x1b[48;2;0;0;0m\x1b[38;2;0;0;0m▄\x1b[0m\x1b[38;2;0;0;0m▀\x1b[0m\n\x1b[38;2;0;0;0m▀\x1b[0m\x1b[48;2;0;0;0m\x1b[38;2;0;0;0m▄\x1b[0m\x1b[48;2;0;0;0m\x1b[38;2;164;150;136m▄\x1b[0m\x1b[48;2;86;70;55m\x1b[38;2;164;150;136m▄\x1b[0m\x1b[48;2;86;70;55m\x1b[38;2;86;70;55m▄\x1b[0m\x1b[48;2;47;29;12m\x1b[38;2;86;70;55m▄\x1b[0m\x1b[48;2;86;70;55m\x1b[38;2;255;255;255m▄\x1b[0m\x1b[48;2;255;255;255m\x1b[38;2;255;255;255m▄\x1b[0m\x1b[48;2;255;255;255m\x1b[38;2;255;255;255m▄\x1b[0m\x1b[48;2;0;0;0m\x1b[38;2;255;255;255m▄\x1b[0m\x1b[48;2;255;255;255m\x1b[38;2;255;255;255m▄\x1b[0m\x1b[48;2;0;0;0m\x1b[38;2;255;255;255m▄\x1b[0m\x1b[48;2;255;255;255m\x1b[38;2;255;255;255m▄\x1b[0m\x1b[48;2;255;255;255m\x1b[38;2;255;255;255m▄\x1b[0m\x1b[48;2;86;70;55m\x1b[38;2;255;255;255m▄\x1b[0m\x1b[48;2;47;29;12m\x1b[38;2;86;70;55m▄\x1b[0m\x1b[48;2;86;70;55m\x1b[38;2;86;70;55m▄\x1b[0m\x1b[48;2;86;70;55m\x1b[38;2;164;150;136m▄\x1b[0m\x1b[48;2;0;0;0m\x1b[38;2;164;150;136m▄\x1b[0m\x1b[48;2;0;0;0m\x1b[38;2;0;0;0m▄\x1b[0m\x1b[38;2;0;0;0m▀\x1b[0m\n  \x1b[38;2;0;0;0m▀\x1b[0m\x1b[48;2;255;255;255m\x1b[38;2;0;0;0m▄\x1b[0m\x1b[48;2;255;255;255m\x1b[38;2;0;0;0m▄\x1b[0m\x1b[48;2;255;255;255m\x1b[38;2;255;255;255m▄\x1b[0m\x1b[48;2;255;255;255m\x1b[38;2;255;255;255m▄\x1b[0m\x1b[48;2;255;255;255m\x1b[38;2;255;255;255m▄\x1b[0m\x1b[48;2;255;255;255m\x1b[38;2;255;255;255m▄\x1b[0m\x1b[48;2;255;255;255m\x1b[38;2;255;255;255m▄\x1b[0m\x1b[48;2;255;255;255m\x1b[38;2;255;255;255m▄\x1b[0m\x1b[48;2;255;255;255m\x1b[38;2;255;255;255m▄\x1b[0m\x1b[48;2;255;255;255m\x1b[38;2;255;255;255m▄\x1b[0m\x1b[48;2;255;255;255m\x1b[38;2;255;255;255m▄\x1b[0m\x1b[48;2;255;255;255m\x1b[38;2;255;255;255m▄\x1b[0m\x1b[48;2;255;255;255m\x1b[38;2;255;255;255m▄\x1b[0m\x1b[48;2;255;255;255m\x1b[38;2;0;0;0m▄\x1b[0m\x1b[48;2;255;255;255m\x1b[38;2;0;0;0m▄\x1b[0m\x1b[38;2;0;0;0m▀\x1b[0m  \n     \x1b[38;2;0;0;0m▀\x1b[0m\x1b[38;2;0;0;0m▀\x1b[0m\x1b[38;2;0;0;0m▀\x1b[0m\x1b[38;2;0;0;0m▀\x1b[0m\x1b[38;2;0;0;0m▀\x1b[0m\x1b[38;2;0;0;0m▀\x1b[0m\x1b[38;2;0;0;0m▀\x1b[0m\x1b[38;2;0;0;0m▀\x1b[0m\x1b[38;2;0;0;0m▀\x1b[0m\x1b[38;2;0;0;0m▀\x1b[0m\x1b[38;2;0;0;0m▀\x1b[0m     ";

/// The second cat: nine lines, narrower than the first.
pub const CAT_ART_2: &'static str = "                  \n       \x1b[38;2;0;0;0m▄\x1b[0m\x1b[38;2;0;0;0m▄\x1b[0m     \x1b[38;2;0;0;0m▄\x1b[0m\x1b[38;2;0;0;0m▄\x1b[0m  \n       \x1b[48;2;0;0;0m\x1b[38;2;0;0;0m▄\x1b[0m\x1b[48;2;49;49;49m\x1b[38;2;49;49;49m▄\x1b[0m\x1b[48;2;0;0;0m\x1b[38;2;49;49;49m▄\x1b[0m\x1b[38;2;0;0;0m▄\x1b[0m\x1b[38;2;0;0;0m▄\x1b[0m\x1b[38;2;0;0;0m▄\x1b[0m\x1b[48;2;0;0;0m\x1b[38;2;49;49;49m▄\x1b[0m\x1b[48;2;49;49;49m\x1b[38;2;49;49;49m▄\x1b[0m\x1b[48;2;0;0;0m\x1b[38;2;0;0;0m▄\x1b[0m  \n \x1b[38;2;0;0;0m▄\x1b[0m\x1b[48;2;0;0;0m\x1b[38;2;49;49;49m▄\x1b[0m\x1b[48;2;0;0;0m\x1b[38;2;0;0;0m▄\x1b[0m  \x1b[48;2;0;0;0m\x1b[38;2;0;0;0m▄\x1b[0m\x1b[48;2;49;49;49m\x1b[38;2;49;49;49m▄\x1b[0m\x1b[48;2;49;49;49m\x1b[38;2;49;49;49m▄\x1b[0m\x1b[48;2;49;49;49m\x1b[38;2;49;49;49m▄\x1b[0m\x1b[48;2;49;49;49m\x1b[38;2;49;49;49m▄\x1b[0m\x1b[48;2;49;49;49m\x1b[38;2;49;49;49m▄\x1b[0m\x1b[48;2;49;49;49m\x1b[38;2;49;49;49m▄\x1b[0m\x1b[48;2;49;49;49m\x1b[38;2;49;49;49m▄\x1b[0m\x1b[48;2;49;49;49m\x1b[38;2;49;49;49m▄\x1b[0m\x1b[48;2;49;49;49m\x1b[38;2;49;49;49m▄\x1b[0m\x1b[48;2;0;0;0m\x1b[38;2;0;0;0m▄\x1b[0m \n \x1b[48;2;0;0;0m\x1b[38;2;0;0;0m▄\x1b[0m\x1b[48;2;49;49;49m\x1b[38;2;49;49;49m▄\x1b[0m\x1b[48;2;0;0;0m\x1b[38;2;49;49;49m▄\x1b[0m\x1b[38;2;0;0;0m▄\x1b[0m \x1b[48;2;0;0;0m\x1b[38;2;0;0;0m▄\x1b[0m\x1b[48;2;49;49;49m\x1b[38;2;49;49;49m▄\x1b[0m\x1b[48;2;49;49;49m\x1b[38;2;49;49;49m▄\x1b[0m\x1b[48;2;49;49;49m\x1b[38;2;49;49;49m▄\x1b[0m\x1b[48;2;223;113;38m\x1b[38;2;49;49;49m▄\x1b[0m\x1b[48;2;49;49;49m\x1b[38;2;49;49;49m▄\x1b[0m\x1b[48;2;49;49;49m\x1b[38;2;49;49;49m▄\x1b[0m\x1b[48;2;223;113;38m\x1b[38;2;49;49;49m▄\x1b[0m\x1b[48;2;49;49;49m\x1b[38;2;49;49;49m▄\x1b[0m\x1b[48;2;49;49;49m\x1b[38;2;49;49;49m▄\x1b[0m\x1b[48;2;0;0;0m\x1b[38;2;0;0;0m▄\x1b[0m \n  \x1b[38;2;0;0;0m▀\x1b[0m\x1b[48;2;49;49;49m\x1b[38;2;0;0;0m▄\x1b[0m\x1b[48;2;49;49;49m\x1b[38;2;49;49;49m▄\x1b[0m\x1b[48;2;0;0;0m\x1b[38;2;49;49;49m▄\x1b[0m\x1b[48;2;0;0;0m\x1b[38;2;49;49;49m▄\x1b[0m\x1b[48;2;0;0;0m\x1b[38;2;49;49;49m▄\x1b[0m\x1b[48;2;49;49;49m\x1b[38;2;0;0;0m▄\x1b[0m\x1b[48;2;49;49;49m\x1b[38;2;0;0;0m▄\x1b[0m\x1b[48;2;49;49;49m\x1b[38;2;0;0;0m▄\x1b[0m\x1b[48;2;49;49;49m\x1b[38;2;0;0;0m▄\x1b[0m\x1b[48;2;49;49;49m\x1b[38;2;0;0;0m▄\x1b[0m\x1b[48;2;49;49;49m\x1b[38;2;0;0;0m▄\x1b[0m\x1b[48;2;49;49;49m\x1b[38;2;0;0;0m▄\x1b[0m\x1b[38;2;0;0;0m▀\x1b[0m  \n    \x1b[48;2;0;0;0m\x1b[38;2;0;0;0m▄\x1b[0m\x1b[48;2;49;49;49m\x1b[38;2;49;49;49m▄\x1b[0m\x1b[48;2;49;49;49m\x1b[38;2;49;49;49m▄\x1b[0m\x1b[48;2;49;49;49m\x1b[38;2;49;49;49m▄\x1b[0m\x1b[48;2;49;49;49m\x1b[38;2;49;49;49m▄\x1b[0m\x1b[48;2;49;49;49m\x1b[38;2;49;49;49m▄\x1b[0m\x1b[48;2;49;49;49m\x1b[38;2;49;49;49m▄\x1b[0m\x1b[48;2;49;49;49m\x1b[38;2;49;49;49m▄\x1b[0m\x1b[48;2;49;49;49m\x1b[38;2;49;49;49m▄\x1b[0m\x1b[48;2;49;49;49m\x1b[38;2;49;49;49m▄\x1b[0m\x1b[48;2;0;0;0m\x1b[38;2;0;0;0m▄\x1b[0m   \n    \x1b[48;2;0;0;0m\x1b[38;2;0;0;0m▄\x1b[0m\x1b[48;2;49;49;49m\x1b[38;2;49;49;49m▄\x1b[0m\x1b[48;2;0;0;0m\x1b[38;2;0;0;0m▄\x1b[0m\x1b[48;2;49;49;49m\x1b[38;2;49;49;49m▄\x1b[0m\x1b[48;2;0;0;0m\x1b[38;2;0;0;0m▄\x1b[0m\x1b[38;2;0;0;0m▀\x1b[0m\x1b[48;2;0;0;0m\x1b[38;2;0;0;0m▄\x1b[0m\x1b[48;2;49;49;49m\x1b[38;2;49;49;49m▄\x1b[0m\x1b[48;2;0;0;0m\x1b[38;2;0;0;0m▄\x1b[0m\x1b[48;2;49;49;49m\x1b[38;2;49;49;49m▄\x1b[0m\x1b[48;2;0;0;0m\x1b[38;2;0;0;0m▄\x1b[0m   \n                  ";

/// The third cat: thirteen lines. It is the one shown unless another is asked for.
pub const CAT_ART_3: &'static str = "    \x1b[48;2;0;0;0m\x1b[38;2;0;0;0m▄\x1b[0m\x1b[48;2;0;0;0m\x1b[38;2;145;150;164m▄\x1b[0m\x1b[48;2;0;0;0m\x1b[38;2;145;150;164m▄\x1b[0m\x1b[38;2;0;0;0m▄\x1b[0m\x1b[38;2;0;0;0m▄\x1b[0m                     \n   \x1b[48;2;0;0;0m\x1b[38;2;0;0;0m▄\x1b[0m\x1b[48;2;145;150;164m\x1b[38;2;145;150;164m▄\x1b[0m\x1b[48;2;145;150;164m\x1b[38;2;250;186;201m▄\x1b[0m\x1b[48;2;145;150;164m\x1b[38;2;250;186;201m▄\x1b[0m\x1b[48;2;145;150;164m\x1b[38;2;250;186;201m▄\x1b[0m\x1b[48;2;145;150;164m\x1b[38;2;145;150;164m▄\x1b[0m\x1b[48;2;0;0;0m\x1b[38;2;145;150;164m▄\x1b[0m\x1b[38;2;0;0;0m▄\x1b[0m                   \n  \x1b[48;2;0;0;0m\x1b[38;2;0;0;0m▄\x1b[0m\x1b[48;2;145;150;164m\x1b[38;2;145;150;164m▄\x1b[0m\x1b[48;2;145;150;164m\x1b[38;2;250;186;201m▄\x1b[0m\x1b[48;2;250;186;201m\x1b[38;2;250;186;201m▄\x1b[0m\x1b[48;2;250;186;201m\x1b[38;2;250;186;201m▄\x1b[0m\x1b[48;2;250;186;201m\x1b[38;2;250;186;201m▄\x1b[0m\x1b[48;2;250;186;201m\x1b[38;2;250;186;201m▄\x1b[0m\x1b[48;2;145;150;164m\x1b[38;2;250;186;201m▄\x1b[0m\x1b[48;2;145;150;164m\x1b[38;2;145;150;164m▄\x1b[0m\x1b[48;2;0;0;0m\x1b[38;2;145;150;164m▄\x1b[0m\x1b[48;2;0;0;0m\x1b[38;2;145;150;164m▄\x1b[0m\x1b[48;2;0;0;0m\x1b[38;2;145;150;164m▄\x1b[0m\x1b[48;2;0;0;0m\x1b[38;2;255;255;255m▄\x1b[0m\x1b[48;2;0;0;0m\x1b[38;2;255;255;255m▄\x1b[0m\x1b[38;2;0;0;0m▄\x1b[0m\x1b[38;2;0;0;0m▄\x1b[0m\x1b[38;2;0;0;0m▄\x1b[0m           \n  \x1b[48;2;0;0;0m\x1b[38;2;0;0;0m▄\x1b[0m\x1b[48;2;145;150;164m\x1b[38;2;145;150;164m▄\x1b[0m\x1b[48;2;250;186;201m\x1b[38;2;250;186;201m▄\x1b[0m\x1b[48;2;250;186;201m\x1b[38;2;250;186;201m▄\x1b[0m\x1b[48;2;250;186;201m\x1b[38;2;145;150;164m▄\x1b[0m\x1b[48;2;250;186;201m\x1b[38;2;145;150;164m▄\x1b[0m\x1b[48;2;145;150;164m\x1b[38;2;145;150;164m▄\x1b[0m\x1b[48;2;145;150;164m\x1b[38;2;145;150;164m▄\x1b[0m\x1b[48;2;145;150;164m\x1b[38;2;145;150;164m▄\x1b[0m\x1b[48;2;145;150;164m\x1b[38;2;145;150;164m▄\x1b[0m\x1b[48;2;145;150;164m\x1b[38;2;145;150;164m▄\x1b[0m\x1b[48;2;145;150;164m\x1b[38;2;145;150;164m▄\x1b[0m\x1b[48;2;255;255;255m\x1b[38;2;255;255;255m▄\x1b[0m\x1b[48;2;255;255;255m\x1b[38;2;255;255;255m▄\x1b[0m\x1b[48;2;255;255;255m\x1b[38;2;255;255;255m▄\x1b[0m\x1b[48;2;255;255;255m\x1b[38;2;255;255;255m▄\x1b[0m\x1b[48;2;255;255;255m\x1b[38;2;255;255;255m▄\x1b[0m\x1b[48;2;0;0;0m\x1b[38;2;255;255;255m▄\x1b[0m\x1b[48;2;0;0;0m\x1b[38;2;255;255;255m▄\x1b[0m\x1b[38;2;0;0;0m▄\x1b[0m\x1b[38;2;0;0;0m▄\x1b[0m\x1b[38;2;0;0;0m▄\x1b[0m\x1b[38;2;0;0;0m▄\x1b[0m\x1b[38;2;0;0;0m▄\x1b[0m\x1b[38;2;0;0;0m▄\x1b[0m   \n  \x1b[48;2;0;0;0m\x1b[38;2;0;0;0m▄\x1b[0m\x1b[48;2;145;150;164m\x1b[38;2;145;150;164m▄\x1b[0m\x1b[48;2;145;150;164m\x1b[38;2;145;150;164m▄\x1b[0m\x1b[48;2;145;150;164m\x1b[38;2;145;150;164m▄\x1b[0m\x1b[48;2;145;150;164m\x1b[38;2;145;150;164m▄\x1b[0m\x1b[48;2;145;150;164m\x1b[38;2;145;150;164m▄\x1b[0m\x1b[48;2;145;150;164m\x1b[38;2;145;150;164m▄\x1b[0m\x1b[48;2;145;150;164m\x1b[38;2;145;150;164m▄\x1b[0m\x1b[48;2;145;150;164m\x1b[38;2;145;150;164m▄\x1b[0m\x1b[48;2;145;150;164m\x1b[38;2;145;150;164m▄\x1b[0m\x1b[48;2;145;150;164m\x1b[38;2;255;255;255m▄\x1b[0m\x1b[48;2;255;255;255m\x1b[38;2;255;255;255m▄\x1b[0m\x1b[48;2;255;255;255m\x1b[38;2;255;255;255m▄\x1b[0m\x1b[48;2;255;255;255m\x1b[38;2;255;255;255m▄\x1b[0m\x1b[48;2;255;255;255m\x1b[38;2;255;255;255m▄\x1b[0m\x1b[48;2;255;255;255m\x1b[38;2;255;255;255m▄\x1b[0m\x1b[48;2;255;255;255m\x1b[38;2;255;255;255m▄\x1b[0m\x1b[48;2;255;255;255m\x1b[38;2;255;255;255m▄\x1b[0m\x1b[48;2;255;255;255m\x1b[38;2;255;255;255m▄\x1b[0m\x1b[48;2;255;255;255m\x1b[38;2;255;255;255m▄\x1b[0m\x1b[48;2;255;255;255m\x1b[38;2;255;255;255m▄\x1b[0m\x1b[48;2;255;255;255m\x1b[38;2;250;186;201m▄\x1b[0m\x1b[48;2;255;255;255m\x1b[38;2;250;186;201m▄\x1b[0m\x1b[48;2;255;255;255m\x1b[38;2;250;186;201m▄\x1b[0m\x1b[48;2;255;255;255m\x1b[38;2;250;186;201m▄\x1b[0m\x1b[48;2;0;0;0m\x1b[38;2;255;255;255m▄\x1b[0m\x1b[48;2;0;0;0m\x1b[38;2;0;0;0m▄\x1b[0m \n \x1b[48;2;0;0;0m\x1b[38;2;0;0;0m▄\x1b[0m\x1b[48;2;145;150;164m\x1b[38;2;255;255;255m▄\x1b[0m\x1b[48;2;145;150;164m\x1b[38;2;255;255;255m▄\x1b[0m\x1b[48;2;145;150;164m\x1b[38;2;255;255;255m▄\x1b[0m\x1b[48;2;145;150;164m\x1b[38;2;255;255;255m▄\x1b[0m\x1b[48;2;255;255;255m\x1b[38;2;255;255;255m▄\x1b[0m\x1b[48;2;255;255;255m\x1b[38;2;255;255;255m▄\x1b[0m\x1b[48;2;255;255;255m\x1b[38;2;0;0;0m▄\x1b[0m\x1b[48;2;255;255;255m\x1b[38;2;0;0;0m▄\x1b[0m\x1b[48;2;255;255;255m\x1b[38;2;0;0;0m▄\x1b[0m\x1b[48;2;255;255;255m\x1b[38;2;255;255;255m▄\x1b[0m\x1b[48;2;255;255;255m\x1b[38;2;255;255;255m▄\x1b[0m\x1b[48;2;255;255;255m\x1b[38;2;255;255;255m▄\x1b[0m\x1b[48;2;255;255;255m\x1b[38;2;255;255;255m▄\x1b[0m\x1b[48;2;255;255;255m\x1b[38;2;255;255;255m▄\x1b[0m\x1b[48;2;255;255;255m\x1b[38;2;255;255;255m▄\x1b[0m\x1b[48;2;255;255;255m\x1b[38;2;255;255;255m▄\x1b[0m\x1b[48;2;255;255;255m\x1b[38;2;255;255;255m▄\x1b[0m\x1b[48;2;255;255;255m\x1b[38;2;255;255;255m▄\x1b[0m\x1b[48;2;255;255;255m\x1b[38;2;255;255;255m▄\x1b[0m\x1b[48;2;255;255;255m\x1b[38;2;255;255;255m▄\x1b[0m\x1b[48;2;255;255;255m\x1b[38;2;255;255;255m▄\x1b[0m\x1b[48;2;255;255;255m\x1b[38;2;255;255;255m▄\x1b[0m\x1b[48;2;250;186;201m\x1b[38;2;250;186;201m▄\x1b[0m\x1b[48;2;250;186;201m\x1b[38;2;250;186;201m▄\x1b[0m\x1b[48;2;250;186;201m\x1b[38;2;255;255;255m▄\x1b[0m\x1b[48;2;255;255;255m\x1b[38;2;255;255;255m▄\x1b[0m\x1b[48;2;0;0;0m\x1b[38;2;0;0;0m▄\x1b[0m \n\x1b[48;2;0;0;0m\x1b[38;2;0;0;0m▄\x1b[0m\x1b[48;2;255;255;255m\x1b[38;2;255;255;255m▄\x1b[0m\x1b[48;2;255;255;255m\x1b[38;2;255;255;255m▄\x1b[0m\x1b[48;2;255;255;255m\x1b[38;2;255;255;255m▄\x1b[0m\x1b[48;2;255;255;255m\x1b[38;2;255;255;255m▄\x1b[0m\x1b[48;2;255;255;255m\x1b[38;2;255;255;255m▄\x1b[0m\x1b[48;2;255;255;255m\x1b[38;2;255;255;255m▄\x1b[0m\x1b[48;2;0;0;0m\x1b[38;2;0;0;0m▄\x1b[0m\x1b[48;2;255;255;255m\x1b[38;2;21;203;251m▄\x1b[0m\x1b[48;2;21;203;251m\x1b[38;2;21;203;251m▄\x1b[0m\x1b[48;2;21;203;251m\x1b[38;2;21;203;251m▄\x1b[0m\x1b[48;2;0;0;0m\x1b[38;2;0;0;0m▄\x1b[0m\x1b[48;2;255;255;255m\x1b[38;2;255;255;255m▄\x1b[0m\x1b[48;2;255;255;255m\x1b[38;2;255;255;255m▄\x1b[0m\x1b[48;2;255;255;255m\x1b[38;2;255;255;255m▄\x1b[0m\x1b[48;2;255;255;255m\x1b[38;2;255;255;255m▄\x1b[0m\x1b[48;2;255;255;255m\x1b[38;2;255;255;255m▄\x1b[0m\x1b[48;2;255;255;255m\x1b[38;2;255;255;255m▄\x1b[0m\x1b[48;2;255;255;255m\x1b[38;2;255;255;255m▄\x1b[0m\x1b[48;2;255;255;255m\x1b[38;2;0;0;0m▄\x1b[0m\x1b[48;2;255;255;255m\x1b[38;2;0;0;0m▄\x1b[0m\x1b[48;2;255;255;255m\x1b[38;2;0;0;0m▄\x1b[0m\x1b[48;2;255;255;255m\x1b[38;2;255;255;255m▄\x1b[0m\x1b[48;2;255;255;255m\x1b[38;2;255;255;255m▄\x1b[0m\x1b[48;2;255;255;255m\x1b[38;2;255;255;255m▄\x1b[0m\x1b[48;2;250;186;201m\x1b[38;2;255;255;255m▄\x1b[0m\x1b[48;2;255;255;255m\x1b[38;2;255;255;255m▄\x1b[0m\x1b[48;2;0;0;0m\x1b[38;2;0;0;0m▄\x1b[0m  \n\x1b[48;2;0;0;0m\x1b[38;2;0;0;0m▄\x1b[0m\x1b[48;2;255;255;255m\x1b[38;2;255;255;255m▄\x1b[0m\x1b[48;2;255;255;255m\x1b[38;2;255;255;255m▄\x1b[0m\x1b[48;2;255;255;255m\x1b[38;2;255;255;255m▄\x1b[0m\x1b[48;2;255;255;255m\x1b[38;2;251;106;136m▄\x1b[0m\x1b[48;2;255;255;255m\x1b[38;2;251;106;136m▄\x1b[0m\x1b[48;2;255;255;255m\x1b[38;2;251;106;136m▄\x1b[0m\x1b[48;2;0;0;0m\x1b[38;2;255;255;255m▄\x1b[0m\x1b[48;2;21;203;251m\x1b[38;2;0;0;0m▄\x1b[0m\x1b[48;2;21;203;251m\x1b[38;2;0;0;0m▄\x1b[0m\x1b[48;2;21;203;251m\x1b[38;2;0;0;0m▄\x1b[0m\x1b[48;2;0;0;0m\x1b[38;2;255;255;255m▄\x1b[0m\x1b[48;2;255;255;255m\x1b[38;2;255;255;255m▄\x1b[0m\x1b[48;2;255;255;255m\x1b[38;2;255;255;255m▄\x1b[0m\x1b[48;2;255;255;255m\x1b[38;2;0;0;0m▄\x1b[0m\x1b[48;2;255;255;255m\x1b[38;2;0;0;0m▄\x1b[0m\x1b[48;2;255;255;255m\x1b[38;2;255;255;255m▄\x1b[0m\x1b[48;2;255;255;255m\x1b[38;2;255;255;255m▄\x1b[0m\x1b[48;2;0;0;0m\x1b[38;2;0;0;0m▄\x1b[0m\x1b[48;2;255;255;255m\x1b[38;2;21;203;251m▄\x1b[0m\x1b[48;2;21;203;251m\x1b[38;2;21;203;251m▄\x1b[0m\x1b[48;2;21;203;251m\x1b[38;2;21;203;251m▄\x1b[0m\x1b[48;2;0;0;0m\x1b[38;2;0;0;0m▄\x1b[0m\x1b[48;2;255;255;255m\x1b[38;2;255;255;255m▄\x1b[0m\x1b[48;2;255;255;255m\x1b[38;2;255;255;255m▄\x1b[0m\x1b[48;2;224;224;224m\x1b[38;2;224;224;224m▄\x1b[0m\x1b[48;2;0;0;0m\x1b[38;2;0;0;0m▄\x1b[0m   \n\x1b[48;2;0;0;0m\x1b[38;2;0;0;0m▄\x1b[0m\x1b[48;2;255;255;255m\x1b[38;2;255;255;255m▄\x1b[0m\x1b[48;2;255;255;255m\x1b[38;2;255;255;255m▄\x1b[0m\x1b[48;2;255;255;255m\x1b[38;2;255;255;255m▄\x1b[0m\x1b[48;2;251;106;136m\x1b[38;2;251;106;136m▄\x1b[0m\x1b[48;2;251;106;136m\x1b[38;2;251;106;136m▄\x1b[0m\x1b[48;2;251;106;136m\x1b[38;2;251;106;136m▄\x1b[0m\x1b[48;2;255;255;255m\x1b[38;2;255;255;255m▄\x1b[0m\x1b[48;2;255;255;255m\x1b[38;2;255;255;255m▄\x1b[0m\x1b[48;2;255;255;255m\x1b[38;2;255;255;255m▄\x1b[0m\x1b[48;2;255;255;255m\x1b[38;2;255;255;255m▄\x1b[0m\x1b[48;2;255;255;255m\x1b[38;2;0;0;0m▄\x1b[0m\x1b[48;2;255;255;255m\x1b[38;2;255;255;255m▄\x1b[0m\x1b[48;2;255;255;255m\x1b[38;2;255;255;255m▄\x1b[0m\x1b[48;2;255;255;255m\x1b[38;2;0;0;0m▄\x1b[0m\x1b[48;2;255;255;255m\x1b[38;2;255;255;255m▄\x1b[0m\x1b[48;2;255;255;255m\x1b[38;2;255;255;255m▄\x1b[0m\x1b[48;2;255;255;255m\x1b[38;2;255;255;255m▄\x1b[0m\x1b[48;2;0;0;0m\x1b[38;2;255;255;255m▄\x1b[0m\x1b[48;2;21;203;251m\x1b[38;2;0;0;0m▄\x1b[0m\x1b[48;2;21;203;251m\x1b[38;2;0;0;0m▄\x1b[0m\x1b[48;2;21;203;251m\x1b[38;2;0;0;0m▄\x1b[0m\x1b[48;2;0;0;0m\x1b[38;2;255;255;255m▄\x1b[0m\x1b[48;2;255;255;255m\x1b[38;2;255;255;255m▄\x1b[0m\x1b[48;2;255;255;255m\x1b[38;2;255;255;255m▄\x1b[0m\x1b[48;2;0;0;0m\x1b[38;2;0;0;0m▄\x1b[0m    \n\x1b[38;2;0;0;0m▀\x1b[0m\x1b[48;2;222;219;220m\x1b[38;2;0;0;0m▄\x1b[0m\x1b[48;2;222;219;220m\x1b[38;2;0;0;0m▄\x1b[0m\x1b[48;2;222;219;220m\x1b[38;2;0;0;0m▄\x1b[0m\x1b[48;2;222;219;220m\x1b[38;2;0;0;0m▄\x1b[0m\x1b[48;2;222;219;220m\x1b[38;2;0;0;0m▄\x1b[0m\x1b[48;2;255;255;255m\x1b[38;2;222;219;220m▄\x1b[0m\x1b[48;2;255;255;255m\x1b[38;2;255;255;255m▄\x1b[0m\x1b[48;2;255;255;255m\x1b[38;2;255;255;255m▄\x1b[0m\x1b[48;2;255;255;255m\x1b[38;2;255;255;255m▄\x1b[0m\x1b[48;2;255;255;255m\x1b[38;2;255;255;255m▄\x1b[0m\x1b[48;2;255;255;255m\x1b[38;2;255;255;255m▄\x1b[0m\x1b[48;2;0;0;0m\x1b[38;2;255;255;255m▄\x1b[0m\x1b[48;2;0;0;0m\x1b[38;2;255;255;255m▄\x1b[0m\x1b[48;2;255;255;255m\x1b[38;2;255;255;255m▄\x1b[0m\x1b[48;2;0;0;0m\x1b[38;2;255;255;255m▄\x1b[0m\x1b[48;2;0;0;0m\x1b[38;2;255;255;255m▄\x1b[0m\x1b[48;2;255;255;255m\x1b[38;2;255;255;255m▄\x1b[0m\x1b[48;2;255;255;255m\x1b[38;2;255;255;255m▄\x1b[0m\x1b[48;2;255;255;255m\x1b[38;2;255;255;255m▄\x1b[0m\x1b[48;2;255;255;255m\x1b[38;2;251;106;136m▄\x1b[0m\x1b[48;2;251;106;136m\x1b[38;2;0;0;0m▄\x1b[0m\x1b[48;2;251;106;136m\x1b[38;2;0;0;0m▄\x1b[0m\x1b[48;2;251;106;136m\x1b[38;2;0;0;0m▄\x1b[0m\x1b[48;2;255;255;255m\x1b[38;2;255;255;255m▄\x1b[0m\x1b[48;2;0;0;0m\x1b[38;2;0;0;0m▄\x1b[0m    \n\x1b[38;2;0;0;0m▄\x1b[0m\x1b[48;2;0;0;0m\x1b[38;2;254;254;254m▄\x1b[0m\x1b[48;2;254;254;254m\x1b[38;2;254;254;254m▄\x1b[0m\x1b[48;2;254;254;254m\x1b[38;2;254;254;254m▄\x1b[0m\x1b[48;2;254;254;254m\x1b[38;2;254;254;254m▄\x1b[0m\x1b[48;2;254;254;254m\x1b[38;2;254;254;254m▄\x1b[0m\x1b[48;2;0;0;0m\x1b[38;2;254;254;254m▄\x1b[0m\x1b[48;2;222;219;220m\x1b[38;2;0;0;0m▄\x1b[0m\x1b[48;2;255;255;255m\x1b[38;2;222;219;220m▄\x1b[0m\x1b[48;2;255;255;255m\x1b[38;2;255;255;255m▄\x1b[0m\x1b[48;2;255;255;255m\x1b[38;2;222;219;220m▄\x1b[0m\x1b[48;2;255;255;255m\x1b[38;2;222;219;220m▄\x1b[0m\x1b[48;2;255;255;255m\x1b[38;2;222;219;220m▄\x1b[0m\x1b[48;2;255;255;255m\x1b[38;2;222;219;220m▄\x1b[0m\x1b[48;2;255;255;255m\x1b[38;2;255;255;255m▄\x1b[0m\x1b[48;2;255;255;255m\x1b[38;2;255;255;255m▄\x1b[0m\x1b[48;2;255;255;255m\x1b[38;2;255;255;255m▄\x1b[0m\x1b[48;2;255;255;255m\x1b[38;2;255;255;255m▄\x1b[0m\x1b[48;2;255;255;255m\x1b[38;2;222;219;220m▄\x1b[0m\x1b[48;2;222;219;220m\x1b[38;2;1;1;1m▄\x1b[0m\x1b[48;2;0;0;0m\x1b[38;2;254;254;254m▄\x1b[0m\x1b[48;2;254;254;254m\x1b[38;2;254;254;254m▄\x1b[0m\x1b[48;2;254;254;254m\x1b[38;2;254;254;254m▄\x1b[0m\x1b[48;2;254;254;254m\x1b[38;2;254;254;254m▄\x1b[0m\x1b[48;2;0;0;0m\x1b[38;2;254;254;254m▄\x1b[0m\x1b[38;2;1;1;1m▄\x1b[0m    \n\x1b[48;2;0;0;0m\x1b[38;2;0;0;0m▄\x1b[0m\x1b[48;2;254;254;254m\x1b[38;2;0;0;0m▄\x1b[0m\x1b[48;2;254;254;254m\x1b[38;2;158;155;156m▄\x1b[0m\x1b[48;2;158;155;156m\x1b[38;2;225;221;222m▄\x1b[0m\x1b[48;2;254;254;254m\x1b[38;2;158;155;156m▄\x1b[0m\x1b[48;2;158;155;156m\x1b[38;2;225;221;222m▄\x1b[0m\x1b[48;2;254;254;254m\x1b[38;2;0;0;0m▄\x1b[0m\x1b[48;2;0;0;0m\x1b[38;2;0;0;0m▄\x1b[0m\x1b[48;2;222;219;220m\x1b[38;2;0;0;0m▄\x1b[0m\x1b[48;2;222;219;220m\x1b[38;2;0;0;0m▄\x1b[0m\x1b[48;2;222;219;220m\x1b[38;2;0;0;0m▄\x1b[0m\x1b[48;2;222;219;220m\x1b[38;2;0;0;0m▄\x1b[0m\x1b[48;2;222;219;220m\x1b[38;2;0;0;0m▄\x1b[0m\x1b[48;2;222;219;220m\x1b[38;2;0;0;0m▄\x1b[0m\x1b[48;2;222;219;220m\x1b[38;2;0;0;0m▄\x1b[0m\x1b[48;2;222;219;220m\x1b[38;2;0;0;0m▄\x1b[0m\x1b[48;2;222;219;220m\x1b[38;2;0;0;0m▄\x1b[0m\x1b[48;2;222;219;220m\x1b[38;2;0;0;0m▄\x1b[0m\x1b[48;2;222;219;220m\x1b[38;2;0;0;0m▄\x1b[0m\x1b[48;2;1;1;1m\x1b[38;2;1;1;1m▄\x1b[0m\x1b[48;2;254;254;254m\x1b[38;2;224;224;224m▄\x1b[0m\x1b[48;2;158;155;156m\x1b[38;2;224;224;224m▄\x1b[0m\x1b[48;2;254;254;254m\x1b[38;2;158;155;156m▄\x1b[0m\x1b[48;2;158;155;156m\x1b[38;2;224;224;224m▄\x1b[0m\x1b[48;2;224;224;224m\x1b[38;2;158;155;156m▄\x1b[0m\x1b[48;2;1;1;1m\x1b[38;2;0;0;0m▄\x1b[0m    \n  \x1b[38;2;0;0;0m▀\x1b[0m\x1b[38;2;0;0;0m▀\x1b[0m\x1b[38;2;0;0;0m▀\x1b[0m\x1b[38;2;0;0;0m▀\x1b[0m              \x1b[38;2;1;1;1m▀\x1b[0m\x1b[38;2;1;1;1m▀\x1b[0m\x1b[38;2;1;1;1m▀\x1b[0m\x1b[38;2;1;1;1m▀\x1b[0m\x1b[38;2;1;1;1m▀\x1b[0m     ";

} // verus!
