//! The 2014 Material Design colour palettes: each colour's hex text, and a
//! table that names them.
use vstd::prelude::*;

use super::HexColor;

verus! {

/// The number of named colours.
pub const MATERIAL_COLOR_COUNT: usize = 256;

pub const RED_50: &'static str = "#ffebee";
pub const RED_100: &'static str = "#ffcdd2";
pub const RED_200: &'static str = "#ef9a9a";
pub const RED_300: &'static str = "#e57373";
pub const RED_400: &'static str = "#ef5350";
pub const RED_500: &'static str = "#f44336";
pub const RED_600: &'static str = "#e53935";
pub const RED_700: &'static str = "#d32f2f";
pub const RED_800: &'static str = "#c62828";
pub const RED_900: &'static str = "#b71c1c";
pub const RED_A100: &'static str = "#ff8a80";
pub const RED_A200: &'static str = "#ff5252";
pub const RED_A400: &'static str = "#ff1744";
pub const RED_A700: &'static str = "#d50000";
pub const PINK_50: &'static str = "#fce4ec";
pub const PINK_100: &'static str = "#f8bbd0";
pub const PINK_200: &'static str = "#f48fb1";
pub const PINK_300: &'static str = "#f06292";
pub const PINK_400: &'static str = "#ec407a";
pub const PINK_500: &'static str = "#e91e63";
pub const PINK_600: &'static str = "#d81b60";
pub const PINK_700: &'static str = "#c2185b";
pub const PINK_800: &'static str = "#ad1457";
pub const PINK_900: &'static str = "#880e4f";
pub const PINK_A100: &'static str = "#ff80ab";
pub const PINK_A200: &'static str = "#ff4081";
pub const PINK_A400: &'static str = "#f50057";
pub const PINK_A700: &'static str = "#c51162";
pub const PURPLE_50: &'static str = "#f3e5f5";
pub const PURPLE_100: &'static str = "#e1bee7";
pub const PURPLE_200: &'static str = "#ce93d8";
pub const PURPLE_300: &'static str = "#ba68c8";
pub const PURPLE_400: &'static str = "#ab47bc";
pub const PURPLE_500: &'static str = "#9c27b0";
pub const PURPLE_600: &'static str = "#8e24aa";
pub const PURPLE_700: &'static str = "#7b1fa2";
pub const PURPLE_800: &'static str = "#6a1b9a";
pub const PURPLE_900: &'static str = "#4a148c";
pub const PURPLE_A100: &'static str = "#ea80fc";
pub const PURPLE_A200: &'static str = "#e040fb";
pub const PURPLE_A400: &'static str = "#d500f9";
pub const PURPLE_A700: &'static str = "#aa00ff";
pub const DEEP_PURPLE_50: &'static str = "#ede7f6";
pub const DEEP_PURPLE_100: &'static str = "#d1c4e9";
pub const DEEP_PURPLE_200: &'static str = "#b39ddb";
pub const DEEP_PURPLE_300: &'static str = "#9575cd";
pub const DEEP_PURPLE_400: &'static str = "#7e57c2";
pub const DEEP_PURPLE_500: &'static str = "#673ab7";
pub const DEEP_PURPLE_600: &'static str = "#5e35b1";
pub const DEEP_PURPLE_700: &'static str = "#512da8";
pub const DEEP_PURPLE_800: &'static str = "#4527a0";
pub const DEEP_PURPLE_900: &'static str = "#311b92";
pub const DEEP_PURPLE_A100: &'static str = "#b388ff";
pub const DEEP_PURPLE_A200: &'static str = "#7c4dff";
pub const DEEP_PURPLE_A400: &'static str = "#651fff";
pub const DEEP_PURPLE_A700: &'static str = "#6200ea";
pub const INDIGO_50: &'static str = "#e8eaf6";
pub const INDIGO_100: &'static str = "#c5cae9";
pub const INDIGO_200: &'static str = "#9fa8da";
pub const INDIGO_300: &'static str = "#7986cb";
pub const INDIGO_400: &'static str = "#5c6bc0";
pub const INDIGO_500: &'static str = "#3f51b5";
pub const INDIGO_600: &'static str = "#3949ab";
pub const INDIGO_700: &'static str = "#303f9f";
pub const INDIGO_800: &'static str = "#283593";
pub const INDIGO_900: &'static str = "#1a237e";
pub const INDIGO_A100: &'static str = "#8c9eff";
pub const INDIGO_A200: &'static str = "#536dfe";
pub const INDIGO_A400: &'static str = "#3d5afe";
pub const INDIGO_A700: &'static str = "#304ffe";
pub const BLUE_50: &'static str = "#e3f2fd";
pub const BLUE_100: &'static str = "#bbdefb";
pub const BLUE_200: &'static str = "#90caf9";
pub const BLUE_300: &'static str = "#64b5f6";
pub const BLUE_400: &'static str = "#42a5f5";
pub const BLUE_500: &'static str = "#2196f3";
pub const BLUE_600: &'static str = "#1e88e5";
pub const BLUE_700: &'static str = "#1976d2";
pub const BLUE_800: &'static str = "#1565c0";
pub const BLUE_900: &'static str = "#0d47a1";
pub const BLUE_A100: &'static str = "#82b1ff";
pub const BLUE_A200: &'static str = "#448aff";
pub const BLUE_A400: &'static str = "#2979ff";
pub const BLUE_A700: &'static str = "#2962ff";
pub const LIGHT_BLUE_50: &'static str = "#e1f5fe";
pub const LIGHT_BLUE_100: &'static str = "#b3e5fc";
pub const LIGHT_BLUE_200: &'static str = "#81d4fa";
pub const LIGHT_BLUE_300: &'static str = "#4fc3f7";
pub const LIGHT_BLUE_400: &'static str = "#29b6f6";
pub const LIGHT_BLUE_500: &'static str = "#03a9f4";
pub const LIGHT_BLUE_600: &'static str = "#039be5";
pub const LIGHT_BLUE_700: &'static str = "#0288d1";
pub const LIGHT_BLUE_800: &'static str = "#0277bd";
pub const LIGHT_BLUE_900: &'static str = "#01579b";
pub const LIGHT_BLUE_A100: &'static str = "#80d8ff";
pub const LIGHT_BLUE_A200: &'static str = "#40c4ff";
pub const LIGHT_BLUE_A400: &'static str = "#00b0ff";
pub const LIGHT_BLUE_A700: &'static str = "#0091ea";
pub const CYAN_50: &'static str = "#e0f7fa";
pub const CYAN_100: &'static str = "#b2ebf2";
pub const CYAN_200: &'static str = "#80deea";
pub const CYAN_300: &'static str = "#4dd0e1";
pub const CYAN_400: &'static str = "#26c6da";
pub const CYAN_500: &'static str = "#00bcd4";
pub const CYAN_600: &'static str = "#00acc1";
pub const CYAN_700: &'static str = "#0097a7";
pub const CYAN_800: &'static str = "#00838f";
pub const CYAN_900: &'static str = "#006064";
pub const CYAN_A100: &'static str = "#84ffff";
pub const CYAN_A200: &'static str = "#18ffff";
pub const CYAN_A400: &'static str = "#00e5ff";
pub const CYAN_A700: &'static str = "#00b8d4";
pub const TEAL_50: &'static str = "#e0f2f1";
pub const TEAL_100: &'static str = "#b2dfdb";
pub const TEAL_200: &'static str = "#80cbc4";
pub const TEAL_300: &'static str = "#4db6ac";
pub const TEAL_400: &'static str = "#26a69a";
pub const TEAL_500: &'static str = "#009688";
pub const TEAL_600: &'static str = "#00897b";
pub const TEAL_700: &'static str = "#00796b";
pub const TEAL_800: &'static str = "#00695c";
pub const TEAL_900: &'static str = "#004d40";
pub const TEAL_A100: &'static str = "#a7ffeb";
pub const TEAL_A200: &'static str = "#64ffda";
pub const TEAL_A400: &'static str = "#1de9b6";
pub const TEAL_A700: &'static str = "#00bfa5";
pub const GREEN_50: &'static str = "#e8f5e9";
pub const GREEN_100: &'static str = "#c8e6c9";
pub const GREEN_200: &'static str = "#a5d6a7";
pub const GREEN_300: &'static str = "#81c784";
pub const GREEN_400: &'static str = "#66bb6a";
pub const GREEN_500: &'static str = "#4caf50";
pub const GREEN_600: &'static str = "#43a047";
pub const GREEN_700: &'static str = "#388e3c";
pub const GREEN_800: &'static str = "#2e7d32";
pub const GREEN_900: &'static str = "#1b5e20";
pub const GREEN_A100: &'static str = "#b9f6ca";
pub const GREEN_A200: &'static str = "#69f0ae";
pub const GREEN_A400: &'static str = "#00e676";
pub const GREEN_A700: &'static str = "#00c853";
pub const LIGHT_GREEN_50: &'static str = "#f1f8e9";
pub const LIGHT_GREEN_100: &'static str = "#dcedc8";
pub const LIGHT_GREEN_200: &'static str = "#c5e1a5";
pub const LIGHT_GREEN_300: &'static str = "#aed581";
pub const LIGHT_GREEN_400: &'static str = "#9ccc65";
pub const LIGHT_GREEN_500: &'static str = "#8bc34a";
pub const LIGHT_GREEN_600: &'static str = "#7cb342";
pub const LIGHT_GREEN_700: &'static str = "#689f38";
pub const LIGHT_GREEN_800: &'static str = "#558b2f";
pub const LIGHT_GREEN_900: &'static str = "#33691e";
pub const LIGHT_GREEN_A100: &'static str = "#ccff90";
pub const LIGHT_GREEN_A200: &'static str = "#b2ff59";
pub const LIGHT_GREEN_A400: &'static str = "#76ff03";
pub const LIGHT_GREEN_A700: &'static str = "#64dd17";
pub const LIME_50: &'static str = "#f9fbe7";
pub const LIME_100: &'static str = "#f0f4c3";
pub const LIME_200: &'static str = "#e6ee9c";
pub const LIME_300: &'static str = "#dce775";
pub const LIME_400: &'static str = "#d4e157";
pub const LIME_500: &'static str = "#cddc39";
pub const LIME_600: &'static str = "#c0ca33";
pub const LIME_700: &'static str = "#afb42b";
pub const LIME_800: &'static str = "#9e9d24";
pub const LIME_900: &'static str = "#827717";
pub const LIME_A100: &'static str = "#f4ff81";
pub const LIME_A200: &'static str = "#eeff41";
pub const LIME_A400: &'static str = "#c6ff00";
pub const LIME_A700: &'static str = "#aeea00";
pub const YELLOW_50: &'static str = "#fffde7";
pub const YELLOW_100: &'static str = "#fff9c4";
pub const YELLOW_200: &'static str = "#fff59d";
pub const YELLOW_300: &'static str = "#fff176";
pub const YELLOW_400: &'static str = "#ffee58";
pub const YELLOW_500: &'static str = "#ffeb3b";
pub const YELLOW_600: &'static str = "#fdd835";
pub const YELLOW_700: &'static str = "#fbc02d";
pub const YELLOW_800: &'static str = "#f9a825";
pub const YELLOW_900: &'static str = "#f57f17";
pub const YELLOW_A100: &'static str = "#ffff8d";
pub const YELLOW_A200: &'static str = "#ffff00";
pub const YELLOW_A400: &'static str = "#ffea00";
pub const YELLOW_A700: &'static str = "#ffd600";
pub const AMBER_50: &'static str = "#fff8e1";
pub const AMBER_100: &'static str = "#ffecb3";
pub const AMBER_200: &'static str = "#ffe082";
pub const AMBER_300: &'static str = "#ffd54f";
pub const AMBER_400: &'static str = "#ffca28";
pub const AMBER_500: &'static str = "#ffc107";
pub const AMBER_600: &'static str = "#ffb300";
pub const AMBER_700: &'static str = "#ffa000";
pub const AMBER_800: &'static str = "#ff8f00";
pub const AMBER_900: &'static str = "#ff6f00";
pub const AMBER_A100: &'static str = "#ffe57f";
pub const AMBER_A200: &'static str = "#ffd740";
pub const AMBER_A400: &'static str = "#ffc400";
pub const AMBER_A700: &'static str = "#ffab00";
pub const ORANGE_50: &'static str = "#fff3e0";
pub const ORANGE_100: &'static str = "#ffe0b2";
pub const ORANGE_200: &'static str = "#ffcc80";
pub const ORANGE_300: &'static str = "#ffb74d";
pub const ORANGE_400: &'static str = "#ffa726";
pub const ORANGE_500: &'static str = "#ff9800";
pub const ORANGE_600: &'static str = "#fb8c00";
pub const ORANGE_700: &'static str = "#f57c00";
pub const ORANGE_800: &'static str = "#ef6c00";
pub const ORANGE_900: &'static str = "#e65100";
pub const ORANGE_A100: &'static str = "#ffd180";
pub const ORANGE_A200: &'static str = "#ffab40";
pub const ORANGE_A400: &'static str = "#ff9100";
pub const ORANGE_A700: &'static str = "#ff6d00";
pub const DEEP_ORANGE_50: &'static str = "#fbe9e7";
pub const DEEP_ORANGE_100: &'static str = "#ffccbc";
pub const DEEP_ORANGE_200: &'static str = "#ffab91";
pub const DEEP_ORANGE_300: &'static str = "#ff8a65";
pub const DEEP_ORANGE_400: &'static str = "#ff7043";
pub const DEEP_ORANGE_500: &'static str = "#ff5722";
pub const DEEP_ORANGE_600: &'static str = "#f4511e";
pub const DEEP_ORANGE_700: &'static str = "#e64a19";
pub const DEEP_ORANGE_800: &'static str = "#d84315";
pub const DEEP_ORANGE_900: &'static str = "#bf360c";
pub const DEEP_ORANGE_A100: &'static str = "#ff9e80";
pub const DEEP_ORANGE_A200: &'static str = "#ff6e40";
pub const DEEP_ORANGE_A400: &'static str = "#ff3d00";
pub const DEEP_ORANGE_A700: &'static str = "#dd2c00";
pub const BROWN_50: &'static str = "#efebe9";
pub const BROWN_100: &'static str = "#d7ccc8";
pub const BROWN_200: &'static str = "#bcaaa4";
pub const BROWN_300: &'static str = "#a1887f";
pub const BROWN_400: &'static str = "#8d6e63";
pub const BROWN_500: &'static str = "#795548";
pub const BROWN_600: &'static str = "#6d4c41";
pub const BROWN_700: &'static str = "#5d4037";
pub const BROWN_800: &'static str = "#4e342e";
pub const BROWN_900: &'static str = "#3e2723";
pub const GREY_50: &'static str = "#fafafa";
pub const GREY_100: &'static str = "#f5f5f5";
pub const GREY_200: &'static str = "#eeeeee";
pub const GREY_300: &'static str = "#e0e0e0";
pub const GREY_400: &'static str = "#bdbdbd";
pub const GREY_500: &'static str = "#9e9e9e";
pub const GREY_600: &'static str = "#757575";
pub const GREY_700: &'static str = "#616161";
pub const GREY_800: &'static str = "#424242";
pub const GREY_900: &'static str = "#212121";
pub const BLUE_GREY_50: &'static str = "#eceff1";
pub const BLUE_GREY_100: &'static str = "#cfd8dc";
pub const BLUE_GREY_200: &'static str = "#b0bec5";
pub const BLUE_GREY_300: &'static str = "#90a4ae";
pub const BLUE_GREY_400: &'static str = "#78909c";
pub const BLUE_GREY_500: &'static str = "#607d8b";
pub const BLUE_GREY_600: &'static str = "#546e7a";
pub const BLUE_GREY_700: &'static str = "#455a64";
pub const BLUE_GREY_800: &'static str = "#37474f";
pub const BLUE_GREY_900: &'static str = "#263238";
pub const WHITE: &'static str = "#ffffff";
pub const BLACK: &'static str = "#000000";

/// The name and colour at position `i` of the table.
pub open spec fn spec_material_entry(i: int) -> (&'static str, HexColor) {
    if i == 0 {
        ("red_50", HexColor(RED_50))
    } else if i == 1 {
        ("red_100", HexColor(RED_100))
    } else if i == 2 {
        ("red_200", HexColor(RED_200))
    } else if i == 3 {
        ("red_300", HexColor(RED_300))
    } else if i == 4 {
        ("red_400", HexColor(RED_400))
    } else if i == 5 {
        ("red_500", HexColor(RED_500))
    } else if i == 6 {
        ("red_600", HexColor(RED_600))
    } else if i == 7 {
        ("red_700", HexColor(RED_700))
    } else if i == 8 {
        ("red_800", HexColor(RED_800))
    } else if i == 9 {
        ("red_900", HexColor(RED_900))
    } else if i == 10 {
        ("red_a100", HexColor(RED_A100))
    } else if i == 11 {
        ("red_a200", HexColor(RED_A200))
    } else if i == 12 {
        ("red_a400", HexColor(RED_A400))
    } else if i == 13 {
        ("red_a700", HexColor(RED_A700))
    } else if i == 14 {
        ("pink_50", HexColor(PINK_50))
    } else if i == 15 {
        ("pink_100", HexColor(PINK_100))
    } else if i == 16 {
        ("pink_200", HexColor(PINK_200))
    } else if i == 17 {
        ("pink_300", HexColor(PINK_300))
    } else if i == 18 {
        ("pink_400", HexColor(PINK_400))
    } else if i == 19 {
        ("pink_500", HexColor(PINK_500))
    } else if i == 20 {
        ("pink_600", HexColor(PINK_600))
    } else if i == 21 {
        ("pink_700", HexColor(PINK_700))
    } else if i == 22 {
        ("pink_800", HexColor(PINK_800))
    } else if i == 23 {
        ("pink_900", HexColor(PINK_900))
    } else if i == 24 {
        ("pink_a100", HexColor(PINK_A100))
    } else if i == 25 {
        ("pink_a200", HexColor(PINK_A200))
    } else if i == 26 {
        ("pink_a400", HexColor(PINK_A400))
    } else if i == 27 {
        ("pink_a700", HexColor(PINK_A700))
    } else if i == 28 {
        ("purple_50", HexColor(PURPLE_50))
    } else if i == 29 {
        ("purple_100", HexColor(PURPLE_100))
    } else if i == 30 {
        ("purple_200", HexColor(PURPLE_200))
    } else if i == 31 {
        ("purple_300", HexColor(PURPLE_300))
    } else if i == 32 {
        ("purple_400", HexColor(PURPLE_400))
    } else if i == 33 {
        ("purple_500", HexColor(PURPLE_500))
    } else if i == 34 {
        ("purple_600", HexColor(PURPLE_600))
    } else if i == 35 {
        ("purple_700", HexColor(PURPLE_700))
    } else if i == 36 {
        ("purple_800", HexColor(PURPLE_800))
    } else if i == 37 {
        ("purple_900", HexColor(PURPLE_900))
    } else if i == 38 {
        ("purple_a100", HexColor(PURPLE_A100))
    } else if i == 39 {
        ("purple_a200", HexColor(PURPLE_A200))
    } else if i == 40 {
        ("purple_a400", HexColor(PURPLE_A400))
    } else if i == 41 {
        ("purple_a700", HexColor(PURPLE_A700))
    } else if i == 42 {
        ("deep_purple_50", HexColor(DEEP_PURPLE_50))
    } else if i == 43 {
        ("deep_purple_100", HexColor(DEEP_PURPLE_100))
    } else if i == 44 {
        ("deep_purple_200", HexColor(DEEP_PURPLE_200))
    } else if i == 45 {
        ("deep_purple_300", HexColor(DEEP_PURPLE_300))
    } else if i == 46 {
        ("deep_purple_400", HexColor(DEEP_PURPLE_400))
    } else if i == 47 {
        ("deep_purple_500", HexColor(DEEP_PURPLE_500))
    } else if i == 48 {
        ("deep_purple_600", HexColor(DEEP_PURPLE_600))
    } else if i == 49 {
        ("deep_purple_700", HexColor(DEEP_PURPLE_700))
    } else if i == 50 {
        ("deep_purple_800", HexColor(DEEP_PURPLE_800))
    } else if i == 51 {
        ("deep_purple_900", HexColor(DEEP_PURPLE_900))
    } else if i == 52 {
        ("deep_purple_a100", HexColor(DEEP_PURPLE_A100))
    } else if i == 53 {
        ("deep_purple_a200", HexColor(DEEP_PURPLE_A200))
    } else if i == 54 {
        ("deep_purple_a400", HexColor(DEEP_PURPLE_A400))
    } else if i == 55 {
        ("deep_purple_a700", HexColor(DEEP_PURPLE_A700))
    } else if i == 56 {
        ("indigo_50", HexColor(INDIGO_50))
    } else if i == 57 {
        ("indigo_100", HexColor(INDIGO_100))
    } else if i == 58 {
        ("indigo_200", HexColor(INDIGO_200))
    } else if i == 59 {
        ("indigo_300", HexColor(INDIGO_300))
    } else if i == 60 {
        ("indigo_400", HexColor(INDIGO_400))
    } else if i == 61 {
        ("indigo_500", HexColor(INDIGO_500))
    } else if i == 62 {
        ("indigo_600", HexColor(INDIGO_600))
    } else if i == 63 {
        ("indigo_700", HexColor(INDIGO_700))
    } else if i == 64 {
        ("indigo_800", HexColor(INDIGO_800))
    } else if i == 65 {
        ("indigo_900", HexColor(INDIGO_900))
    } else if i == 66 {
        ("indigo_a100", HexColor(INDIGO_A100))
    } else if i == 67 {
        ("indigo_a200", HexColor(INDIGO_A200))
    } else if i == 68 {
        ("indigo_a400", HexColor(INDIGO_A400))
    } else if i == 69 {
        ("indigo_a700", HexColor(INDIGO_A700))
    } else if i == 70 {
        ("blue_50", HexColor(BLUE_50))
    } else if i == 71 {
        ("blue_100", HexColor(BLUE_100))
    } else if i == 72 {
        ("blue_200", HexColor(BLUE_200))
    } else if i == 73 {
        ("blue_300", HexColor(BLUE_300))
    } else if i == 74 {
        ("blue_400", HexColor(BLUE_400))
    } else if i == 75 {
        ("blue_500", HexColor(BLUE_500))
    } else if i == 76 {
        ("blue_600", HexColor(BLUE_600))
    } else if i == 77 {
        ("blue_700", HexColor(BLUE_700))
    } else if i == 78 {
        ("blue_800", HexColor(BLUE_800))
    } else if i == 79 {
        ("blue_900", HexColor(BLUE_900))
    } else if i == 80 {
        ("blue_a100", HexColor(BLUE_A100))
    } else if i == 81 {
        ("blue_a200", HexColor(BLUE_A200))
    } else if i == 82 {
        ("blue_a400", HexColor(BLUE_A400))
    } else if i == 83 {
        ("blue_a700", HexColor(BLUE_A700))
    } else if i == 84 {
        ("light_blue_50", HexColor(LIGHT_BLUE_50))
    } else if i == 85 {
        ("light_blue_100", HexColor(LIGHT_BLUE_100))
    } else if i == 86 {
        ("light_blue_200", HexColor(LIGHT_BLUE_200))
    } else if i == 87 {
        ("light_blue_300", HexColor(LIGHT_BLUE_300))
    } else if i == 88 {
        ("light_blue_400", HexColor(LIGHT_BLUE_400))
    } else if i == 89 {
        ("light_blue_500", HexColor(LIGHT_BLUE_500))
    } else if i == 90 {
        ("light_blue_600", HexColor(LIGHT_BLUE_600))
    } else if i == 91 {
        ("light_blue_700", HexColor(LIGHT_BLUE_700))
    } else if i == 92 {
        ("light_blue_800", HexColor(LIGHT_BLUE_800))
    } else if i == 93 {
        ("light_blue_900", HexColor(LIGHT_BLUE_900))
    } else if i == 94 {
        ("light_blue_a100", HexColor(LIGHT_BLUE_A100))
    } else if i == 95 {
        ("light_blue_a200", HexColor(LIGHT_BLUE_A200))
    } else if i == 96 {
        ("light_blue_a400", HexColor(LIGHT_BLUE_A400))
    } else if i == 97 {
        ("light_blue_a700", HexColor(LIGHT_BLUE_A700))
    } else if i == 98 {
        ("cyan_50", HexColor(CYAN_50))
    } else if i == 99 {
        ("cyan_100", HexColor(CYAN_100))
    } else if i == 100 {
        ("cyan_200", HexColor(CYAN_200))
    } else if i == 101 {
        ("cyan_300", HexColor(CYAN_300))
    } else if i == 102 {
        ("cyan_400", HexColor(CYAN_400))
    } else if i == 103 {
        ("cyan_500", HexColor(CYAN_500))
    } else if i == 104 {
        ("cyan_600", HexColor(CYAN_600))
    } else if i == 105 {
        ("cyan_700", HexColor(CYAN_700))
    } else if i == 106 {
        ("cyan_800", HexColor(CYAN_800))
    } else if i == 107 {
        ("cyan_900", HexColor(CYAN_900))
    } else if i == 108 {
        ("cyan_a100", HexColor(CYAN_A100))
    } else if i == 109 {
        ("cyan_a200", HexColor(CYAN_A200))
    } else if i == 110 {
        ("cyan_a400", HexColor(CYAN_A400))
    } else if i == 111 {
        ("cyan_a700", HexColor(CYAN_A700))
    } else if i == 112 {
        ("teal_50", HexColor(TEAL_50))
    } else if i == 113 {
        ("teal_100", HexColor(TEAL_100))
    } else if i == 114 {
        ("teal_200", HexColor(TEAL_200))
    } else if i == 115 {
        ("teal_300", HexColor(TEAL_300))
    } else if i == 116 {
        ("teal_400", HexColor(TEAL_400))
    } else if i == 117 {
        ("teal_500", HexColor(TEAL_500))
    } else if i == 118 {
        ("teal_600", HexColor(TEAL_600))
    } else if i == 119 {
        ("teal_700", HexColor(TEAL_700))
    } else if i == 120 {
        ("teal_800", HexColor(TEAL_800))
    } else if i == 121 {
        ("teal_900", HexColor(TEAL_900))
    } else if i == 122 {
        ("teal_a100", HexColor(TEAL_A100))
    } else if i == 123 {
        ("teal_a200", HexColor(TEAL_A200))
    } else if i == 124 {
        ("teal_a400", HexColor(TEAL_A400))
    } else if i == 125 {
        ("teal_a700", HexColor(TEAL_A700))
    } else if i == 126 {
        ("green_50", HexColor(GREEN_50))
    } else if i == 127 {
        ("green_100", HexColor(GREEN_100))
    } else if i == 128 {
        ("green_200", HexColor(GREEN_200))
    } else if i == 129 {
        ("green_300", HexColor(GREEN_300))
    } else if i == 130 {
        ("green_400", HexColor(GREEN_400))
    } else if i == 131 {
        ("green_500", HexColor(GREEN_500))
    } else if i == 132 {
        ("green_600", HexColor(GREEN_600))
    } else if i == 133 {
        ("green_700", HexColor(GREEN_700))
    } else if i == 134 {
        ("green_800", HexColor(GREEN_800))
    } else if i == 135 {
        ("green_900", HexColor(GREEN_900))
    } else if i == 136 {
        ("green_a100", HexColor(GREEN_A100))
    } else if i == 137 {
        ("green_a200", HexColor(GREEN_A200))
    } else if i == 138 {
        ("green_a400", HexColor(GREEN_A400))
    } else if i == 139 {
        ("green_a700", HexColor(GREEN_A700))
    } else if i == 140 {
        ("light_green_50", HexColor(LIGHT_GREEN_50))
    } else if i == 141 {
        ("light_green_100", HexColor(LIGHT_GREEN_100))
    } else if i == 142 {
        ("light_green_200", HexColor(LIGHT_GREEN_200))
    } else if i == 143 {
        ("light_green_300", HexColor(LIGHT_GREEN_300))
    } else if i == 144 {
        ("light_green_400", HexColor(LIGHT_GREEN_400))
    } else if i == 145 {
        ("light_green_500", HexColor(LIGHT_GREEN_500))
    } else if i == 146 {
        ("light_green_600", HexColor(LIGHT_GREEN_600))
    } else if i == 147 {
        ("light_green_700", HexColor(LIGHT_GREEN_700))
    } else if i == 148 {
        ("light_green_800", HexColor(LIGHT_GREEN_800))
    } else if i == 149 {
        ("light_green_900", HexColor(LIGHT_GREEN_900))
    } else if i == 150 {
        ("light_green_a100", HexColor(LIGHT_GREEN_A100))
    } else if i == 151 {
        ("light_green_a200", HexColor(LIGHT_GREEN_A200))
    } else if i == 152 {
        ("light_green_a400", HexColor(LIGHT_GREEN_A400))
    } else if i == 153 {
        ("light_green_a700", HexColor(LIGHT_GREEN_A700))
    } else if i == 154 {
        ("lime_50", HexColor(LIME_50))
    } else if i == 155 {
        ("lime_100", HexColor(LIME_100))
    } else if i == 156 {
        ("lime_200", HexColor(LIME_200))
    } else if i == 157 {
        ("lime_300", HexColor(LIME_300))
    } else if i == 158 {
        ("lime_400", HexColor(LIME_400))
    } else if i == 159 {
        ("lime_500", HexColor(LIME_500))
    } else if i == 160 {
        ("lime_600", HexColor(LIME_600))
    } else if i == 161 {
        ("lime_700", HexColor(LIME_700))
    } else if i == 162 {
        ("lime_800", HexColor(LIME_800))
    } else if i == 163 {
        ("lime_900", HexColor(LIME_900))
    } else if i == 164 {
        ("lime_a100", HexColor(LIME_A100))
    } else if i == 165 {
        ("lime_a200", HexColor(LIME_A200))
    } else if i == 166 {
        ("lime_a400", HexColor(LIME_A400))
    } else if i == 167 {
        ("lime_a700", HexColor(LIME_A700))
    } else if i == 168 {
        ("yellow_50", HexColor(YELLOW_50))
    } else if i == 169 {
        ("yellow_100", HexColor(YELLOW_100))
    } else if i == 170 {
        ("yellow_200", HexColor(YELLOW_200))
    } else if i == 171 {
        ("yellow_300", HexColor(YELLOW_300))
    } else if i == 172 {
        ("yellow_400", HexColor(YELLOW_400))
    } else if i == 173 {
        ("yellow_500", HexColor(YELLOW_500))
    } else if i == 174 {
        ("yellow_600", HexColor(YELLOW_600))
    } else if i == 175 {
        ("yellow_700", HexColor(YELLOW_700))
    } else if i == 176 {
        ("yellow_800", HexColor(YELLOW_800))
    } else if i == 177 {
        ("yellow_900", HexColor(YELLOW_900))
    } else if i == 178 {
        ("yellow_a100", HexColor(YELLOW_A100))
    } else if i == 179 {
        ("yellow_a200", HexColor(YELLOW_A200))
    } else if i == 180 {
        ("yellow_a400", HexColor(YELLOW_A400))
    } else if i == 181 {
        ("yellow_a700", HexColor(YELLOW_A700))
    } else if i == 182 {
        ("amber_50", HexColor(AMBER_50))
    } else if i == 183 {
        ("amber_100", HexColor(AMBER_100))
    } else if i == 184 {
        ("amber_200", HexColor(AMBER_200))
    } else if i == 185 {
        ("amber_300", HexColor(AMBER_300))
    } else if i == 186 {
        ("amber_400", HexColor(AMBER_400))
    } else if i == 187 {
        ("amber_500", HexColor(AMBER_500))
    } else if i == 188 {
        ("amber_600", HexColor(AMBER_600))
    } else if i == 189 {
        ("amber_700", HexColor(AMBER_700))
    } else if i == 190 {
        ("amber_800", HexColor(AMBER_800))
    } else if i == 191 {
        ("amber_900", HexColor(AMBER_900))
    } else if i == 192 {
        ("amber_a100", HexColor(AMBER_A100))
    } else if i == 193 {
        ("amber_a200", HexColor(AMBER_A200))
    } else if i == 194 {
        ("amber_a400", HexColor(AMBER_A400))
    } else if i == 195 {
        ("amber_a700", HexColor(AMBER_A700))
    } else if i == 196 {
        ("orange_50", HexColor(ORANGE_50))
    } else if i == 197 {
        ("orange_100", HexColor(ORANGE_100))
    } else if i == 198 {
        ("orange_200", HexColor(ORANGE_200))
    } else if i == 199 {
        ("orange_300", HexColor(ORANGE_300))
    } else if i == 200 {
        ("orange_400", HexColor(ORANGE_400))
    } else if i == 201 {
        ("orange_500", HexColor(ORANGE_500))
    } else if i == 202 {
        ("orange_600", HexColor(ORANGE_600))
    } else if i == 203 {
        ("orange_700", HexColor(ORANGE_700))
    } else if i == 204 {
        ("orange_800", HexColor(ORANGE_800))
    } else if i == 205 {
        ("orange_900", HexColor(ORANGE_900))
    } else if i == 206 {
        ("orange_a100", HexColor(ORANGE_A100))
    } else if i == 207 {
        ("orange_a200", HexColor(ORANGE_A200))
    } else if i == 208 {
        ("orange_a400", HexColor(ORANGE_A400))
    } else if i == 209 {
        ("orange_a700", HexColor(ORANGE_A700))
    } else if i == 210 {
        ("deep_orange_50", HexColor(DEEP_ORANGE_50))
    } else if i == 211 {
        ("deep_orange_100", HexColor(DEEP_ORANGE_100))
    } else if i == 212 {
        ("deep_orange_200", HexColor(DEEP_ORANGE_200))
    } else if i == 213 {
        ("deep_orange_300", HexColor(DEEP_ORANGE_300))
    } else if i == 214 {
        ("deep_orange_400", HexColor(DEEP_ORANGE_400))
    } else if i == 215 {
        ("deep_orange_500", HexColor(DEEP_ORANGE_500))
    } else if i == 216 {
        ("deep_orange_600", HexColor(DEEP_ORANGE_600))
    } else if i == 217 {
        ("deep_orange_700", HexColor(DEEP_ORANGE_700))
    } else if i == 218 {
        ("deep_orange_800", HexColor(DEEP_ORANGE_800))
    } else if i == 219 {
        ("deep_orange_900", HexColor(DEEP_ORANGE_900))
    } else if i == 220 {
        ("deep_orange_a100", HexColor(DEEP_ORANGE_A100))
    } else if i == 221 {
        ("deep_orange_a200", HexColor(DEEP_ORANGE_A200))
    } else if i == 222 {
        ("deep_orange_a400", HexColor(DEEP_ORANGE_A400))
    } else if i == 223 {
        ("deep_orange_a700", HexColor(DEEP_ORANGE_A700))
    } else if i == 224 {
        ("brown_50", HexColor(BROWN_50))
    } else if i == 225 {
        ("brown_100", HexColor(BROWN_100))
    } else if i == 226 {
        ("brown_200", HexColor(BROWN_200))
    } else if i == 227 {
        ("brown_300", HexColor(BROWN_300))
    } else if i == 228 {
        ("brown_400", HexColor(BROWN_400))
    } else if i == 229 {
        ("brown_500", HexColor(BROWN_500))
    } else if i == 230 {
        ("brown_600", HexColor(BROWN_600))
    } else if i == 231 {
        ("brown_700", HexColor(BROWN_700))
    } else if i == 232 {
        ("brown_800", HexColor(BROWN_800))
    } else if i == 233 {
        ("brown_900", HexColor(BROWN_900))
    } else if i == 234 {
        ("grey_50", HexColor(GREY_50))
    } else if i == 235 {
        ("grey_100", HexColor(GREY_100))
    } else if i == 236 {
        ("grey_200", HexColor(GREY_200))
    } else if i == 237 {
        ("grey_300", HexColor(GREY_300))
    } else if i == 238 {
        ("grey_400", HexColor(GREY_400))
    } else if i == 239 {
        ("grey_500", HexColor(GREY_500))
    } else if i == 240 {
        ("grey_600", HexColor(GREY_600))
    } else if i == 241 {
        ("grey_700", HexColor(GREY_700))
    } else if i == 242 {
        ("grey_800", HexColor(GREY_800))
    } else if i == 243 {
        ("grey_900", HexColor(GREY_900))
    } else if i == 244 {
        ("blue_grey_50", HexColor(BLUE_GREY_50))
    } else if i == 245 {
        ("blue_grey_100", HexColor(BLUE_GREY_100))
    } else if i == 246 {
        ("blue_grey_200", HexColor(BLUE_GREY_200))
    } else if i == 247 {
        ("blue_grey_300", HexColor(BLUE_GREY_300))
    } else if i == 248 {
        ("blue_grey_400", HexColor(BLUE_GREY_400))
    } else if i == 249 {
        ("blue_grey_500", HexColor(BLUE_GREY_500))
    } else if i == 250 {
        ("blue_grey_600", HexColor(BLUE_GREY_600))
    } else if i == 251 {
        ("blue_grey_700", HexColor(BLUE_GREY_700))
    } else if i == 252 {
        ("blue_grey_800", HexColor(BLUE_GREY_800))
    } else if i == 253 {
        ("blue_grey_900", HexColor(BLUE_GREY_900))
    } else if i == 254 {
        ("white", HexColor(WHITE))
    } else if i == 255 {
        ("black", HexColor(BLACK))
    } else {
        ("", HexColor(BLACK))
    }
}

/// The name and colour at position `i` of the table.
pub fn material_entry(i: usize) -> (r: (&'static str, HexColor))
    requires
        i < MATERIAL_COLOR_COUNT,
    ensures
        r == spec_material_entry(i as int),
{
    match i {
        0 => ("red_50", HexColor(RED_50)),
        1 => ("red_100", HexColor(RED_100)),
        2 => ("red_200", HexColor(RED_200)),
        3 => ("red_300", HexColor(RED_300)),
        4 => ("red_400", HexColor(RED_400)),
        5 => ("red_500", HexColor(RED_500)),
        6 => ("red_600", HexColor(RED_600)),
        7 => ("red_700", HexColor(RED_700)),
        8 => ("red_800", HexColor(RED_800)),
        9 => ("red_900", HexColor(RED_900)),
        10 => ("red_a100", HexColor(RED_A100)),
        11 => ("red_a200", HexColor(RED_A200)),
        12 => ("red_a400", HexColor(RED_A400)),
        13 => ("red_a700", HexColor(RED_A700)),
        14 => ("pink_50", HexColor(PINK_50)),
        15 => ("pink_100", HexColor(PINK_100)),
        16 => ("pink_200", HexColor(PINK_200)),
        17 => ("pink_300", HexColor(PINK_300)),
        18 => ("pink_400", HexColor(PINK_400)),
        19 => ("pink_500", HexColor(PINK_500)),
        20 => ("pink_600", HexColor(PINK_600)),
        21 => ("pink_700", HexColor(PINK_700)),
        22 => ("pink_800", HexColor(PINK_800)),
        23 => ("pink_900", HexColor(PINK_900)),
        24 => ("pink_a100", HexColor(PINK_A100)),
        25 => ("pink_a200", HexColor(PINK_A200)),
        26 => ("pink_a400", HexColor(PINK_A400)),
        27 => ("pink_a700", HexColor(PINK_A700)),
        28 => ("purple_50", HexColor(PURPLE_50)),
        29 => ("purple_100", HexColor(PURPLE_100)),
        30 => ("purple_200", HexColor(PURPLE_200)),
        31 => ("purple_300", HexColor(PURPLE_300)),
        32 => ("purple_400", HexColor(PURPLE_400)),
        33 => ("purple_500", HexColor(PURPLE_500)),
        34 => ("purple_600", HexColor(PURPLE_600)),
        35 => ("purple_700", HexColor(PURPLE_700)),
        36 => ("purple_800", HexColor(PURPLE_800)),
        37 => ("purple_900", HexColor(PURPLE_900)),
        38 => ("purple_a100", HexColor(PURPLE_A100)),
        39 => ("purple_a200", HexColor(PURPLE_A200)),
        40 => ("purple_a400", HexColor(PURPLE_A400)),
        41 => ("purple_a700", HexColor(PURPLE_A700)),
        42 => ("deep_purple_50", HexColor(DEEP_PURPLE_50)),
        43 => ("deep_purple_100", HexColor(DEEP_PURPLE_100)),
        44 => ("deep_purple_200", HexColor(DEEP_PURPLE_200)),
        45 => ("deep_purple_300", HexColor(DEEP_PURPLE_300)),
        46 => ("deep_purple_400", HexColor(DEEP_PURPLE_400)),
        47 => ("deep_purple_500", HexColor(DEEP_PURPLE_500)),
        48 => ("deep_purple_600", HexColor(DEEP_PURPLE_600)),
        49 => ("deep_purple_700", HexColor(DEEP_PURPLE_700)),
        50 => ("deep_purple_800", HexColor(DEEP_PURPLE_800)),
        51 => ("deep_purple_900", HexColor(DEEP_PURPLE_900)),
        52 => ("deep_purple_a100", HexColor(DEEP_PURPLE_A100)),
        53 => ("deep_purple_a200", HexColor(DEEP_PURPLE_A200)),
        54 => ("deep_purple_a400", HexColor(DEEP_PURPLE_A400)),
        55 => ("deep_purple_a700", HexColor(DEEP_PURPLE_A700)),
        56 => ("indigo_50", HexColor(INDIGO_50)),
        57 => ("indigo_100", HexColor(INDIGO_100)),
        58 => ("indigo_200", HexColor(INDIGO_200)),
        59 => ("indigo_300", HexColor(INDIGO_300)),
        60 => ("indigo_400", HexColor(INDIGO_400)),
        61 => ("indigo_500", HexColor(INDIGO_500)),
        62 => ("indigo_600", HexColor(INDIGO_600)),
        63 => ("indigo_700", HexColor(INDIGO_700)),
        64 => ("indigo_800", HexColor(INDIGO_800)),
        65 => ("indigo_900", HexColor(INDIGO_900)),
        66 => ("indigo_a100", HexColor(INDIGO_A100)),
        67 => ("indigo_a200", HexColor(INDIGO_A200)),
        68 => ("indigo_a400", HexColor(INDIGO_A400)),
        69 => ("indigo_a700", HexColor(INDIGO_A700)),
        70 => ("blue_50", HexColor(BLUE_50)),
        71 => ("blue_100", HexColor(BLUE_100)),
        72 => ("blue_200", HexColor(BLUE_200)),
        73 => ("blue_300", HexColor(BLUE_300)),
        74 => ("blue_400", HexColor(BLUE_400)),
        75 => ("blue_500", HexColor(BLUE_500)),
        76 => ("blue_600", HexColor(BLUE_600)),
        77 => ("blue_700", HexColor(BLUE_700)),
        78 => ("blue_800", HexColor(BLUE_800)),
        79 => ("blue_900", HexColor(BLUE_900)),
        80 => ("blue_a100", HexColor(BLUE_A100)),
        81 => ("blue_a200", HexColor(BLUE_A200)),
        82 => ("blue_a400", HexColor(BLUE_A400)),
        83 => ("blue_a700", HexColor(BLUE_A700)),
        84 => ("light_blue_50", HexColor(LIGHT_BLUE_50)),
        85 => ("light_blue_100", HexColor(LIGHT_BLUE_100)),
        86 => ("light_blue_200", HexColor(LIGHT_BLUE_200)),
        87 => ("light_blue_300", HexColor(LIGHT_BLUE_300)),
        88 => ("light_blue_400", HexColor(LIGHT_BLUE_400)),
        89 => ("light_blue_500", HexColor(LIGHT_BLUE_500)),
        90 => ("light_blue_600", HexColor(LIGHT_BLUE_600)),
        91 => ("light_blue_700", HexColor(LIGHT_BLUE_700)),
        92 => ("light_blue_800", HexColor(LIGHT_BLUE_800)),
        93 => ("light_blue_900", HexColor(LIGHT_BLUE_900)),
        94 => ("light_blue_a100", HexColor(LIGHT_BLUE_A100)),
        95 => ("light_blue_a200", HexColor(LIGHT_BLUE_A200)),
        96 => ("light_blue_a400", HexColor(LIGHT_BLUE_A400)),
        97 => ("light_blue_a700", HexColor(LIGHT_BLUE_A700)),
        98 => ("cyan_50", HexColor(CYAN_50)),
        99 => ("cyan_100", HexColor(CYAN_100)),
        100 => ("cyan_200", HexColor(CYAN_200)),
        101 => ("cyan_300", HexColor(CYAN_300)),
        102 => ("cyan_400", HexColor(CYAN_400)),
        103 => ("cyan_500", HexColor(CYAN_500)),
        104 => ("cyan_600", HexColor(CYAN_600)),
        105 => ("cyan_700", HexColor(CYAN_700)),
        106 => ("cyan_800", HexColor(CYAN_800)),
        107 => ("cyan_900", HexColor(CYAN_900)),
        108 => ("cyan_a100", HexColor(CYAN_A100)),
        109 => ("cyan_a200", HexColor(CYAN_A200)),
        110 => ("cyan_a400", HexColor(CYAN_A400)),
        111 => ("cyan_a700", HexColor(CYAN_A700)),
        112 => ("teal_50", HexColor(TEAL_50)),
        113 => ("teal_100", HexColor(TEAL_100)),
        114 => ("teal_200", HexColor(TEAL_200)),
        115 => ("teal_300", HexColor(TEAL_300)),
        116 => ("teal_400", HexColor(TEAL_400)),
        117 => ("teal_500", HexColor(TEAL_500)),
        118 => ("teal_600", HexColor(TEAL_600)),
        119 => ("teal_700", HexColor(TEAL_700)),
        120 => ("teal_800", HexColor(TEAL_800)),
        121 => ("teal_900", HexColor(TEAL_900)),
        122 => ("teal_a100", HexColor(TEAL_A100)),
        123 => ("teal_a200", HexColor(TEAL_A200)),
        124 => ("teal_a400", HexColor(TEAL_A400)),
        125 => ("teal_a700", HexColor(TEAL_A700)),
        126 => ("green_50", HexColor(GREEN_50)),
        127 => ("green_100", HexColor(GREEN_100)),
        128 => ("green_200", HexColor(GREEN_200)),
        129 => ("green_300", HexColor(GREEN_300)),
        130 => ("green_400", HexColor(GREEN_400)),
        131 => ("green_500", HexColor(GREEN_500)),
        132 => ("green_600", HexColor(GREEN_600)),
        133 => ("green_700", HexColor(GREEN_700)),
        134 => ("green_800", HexColor(GREEN_800)),
        135 => ("green_900", HexColor(GREEN_900)),
        136 => ("green_a100", HexColor(GREEN_A100)),
        137 => ("green_a200", HexColor(GREEN_A200)),
        138 => ("green_a400", HexColor(GREEN_A400)),
        139 => ("green_a700", HexColor(GREEN_A700)),
        140 => ("light_green_50", HexColor(LIGHT_GREEN_50)),
        141 => ("light_green_100", HexColor(LIGHT_GREEN_100)),
        142 => ("light_green_200", HexColor(LIGHT_GREEN_200)),
        143 => ("light_green_300", HexColor(LIGHT_GREEN_300)),
        144 => ("light_green_400", HexColor(LIGHT_GREEN_400)),
        145 => ("light_green_500", HexColor(LIGHT_GREEN_500)),
        146 => ("light_green_600", HexColor(LIGHT_GREEN_600)),
        147 => ("light_green_700", HexColor(LIGHT_GREEN_700)),
        148 => ("light_green_800", HexColor(LIGHT_GREEN_800)),
        149 => ("light_green_900", HexColor(LIGHT_GREEN_900)),
        150 => ("light_green_a100", HexColor(LIGHT_GREEN_A100)),
        151 => ("light_green_a200", HexColor(LIGHT_GREEN_A200)),
        152 => ("light_green_a400", HexColor(LIGHT_GREEN_A400)),
        153 => ("light_green_a700", HexColor(LIGHT_GREEN_A700)),
        154 => ("lime_50", HexColor(LIME_50)),
        155 => ("lime_100", HexColor(LIME_100)),
        156 => ("lime_200", HexColor(LIME_200)),
        157 => ("lime_300", HexColor(LIME_300)),
        158 => ("lime_400", HexColor(LIME_400)),
        159 => ("lime_500", HexColor(LIME_500)),
        160 => ("lime_600", HexColor(LIME_600)),
        161 => ("lime_700", HexColor(LIME_700)),
        162 => ("lime_800", HexColor(LIME_800)),
        163 => ("lime_900", HexColor(LIME_900)),
        164 => ("lime_a100", HexColor(LIME_A100)),
        165 => ("lime_a200", HexColor(LIME_A200)),
        166 => ("lime_a400", HexColor(LIME_A400)),
        167 => ("lime_a700", HexColor(LIME_A700)),
        168 => ("yellow_50", HexColor(YELLOW_50)),
        169 => ("yellow_100", HexColor(YELLOW_100)),
        170 => ("yellow_200", HexColor(YELLOW_200)),
        171 => ("yellow_300", HexColor(YELLOW_300)),
        172 => ("yellow_400", HexColor(YELLOW_400)),
        173 => ("yellow_500", HexColor(YELLOW_500)),
        174 => ("yellow_600", HexColor(YELLOW_600)),
        175 => ("yellow_700", HexColor(YELLOW_700)),
        176 => ("yellow_800", HexColor(YELLOW_800)),
        177 => ("yellow_900", HexColor(YELLOW_900)),
        178 => ("yellow_a100", HexColor(YELLOW_A100)),
        179 => ("yellow_a200", HexColor(YELLOW_A200)),
        180 => ("yellow_a400", HexColor(YELLOW_A400)),
        181 => ("yellow_a700", HexColor(YELLOW_A700)),
        182 => ("amber_50", HexColor(AMBER_50)),
        183 => ("amber_100", HexColor(AMBER_100)),
        184 => ("amber_200", HexColor(AMBER_200)),
        185 => ("amber_300", HexColor(AMBER_300)),
        186 => ("amber_400", HexColor(AMBER_400)),
        187 => ("amber_500", HexColor(AMBER_500)),
        188 => ("amber_600", HexColor(AMBER_600)),
        189 => ("amber_700", HexColor(AMBER_700)),
        190 => ("amber_800", HexColor(AMBER_800)),
        191 => ("amber_900", HexColor(AMBER_900)),
        192 => ("amber_a100", HexColor(AMBER_A100)),
        193 => ("amber_a200", HexColor(AMBER_A200)),
        194 => ("amber_a400", HexColor(AMBER_A400)),
        195 => ("amber_a700", HexColor(AMBER_A700)),
        196 => ("orange_50", HexColor(ORANGE_50)),
        197 => ("orange_100", HexColor(ORANGE_100)),
        198 => ("orange_200", HexColor(ORANGE_200)),
        199 => ("orange_300", HexColor(ORANGE_300)),
        200 => ("orange_400", HexColor(ORANGE_400)),
        201 => ("orange_500", HexColor(ORANGE_500)),
        202 => ("orange_600", HexColor(ORANGE_600)),
        203 => ("orange_700", HexColor(ORANGE_700)),
        204 => ("orange_800", HexColor(ORANGE_800)),
        205 => ("orange_900", HexColor(ORANGE_900)),
        206 => ("orange_a100", HexColor(ORANGE_A100)),
        207 => ("orange_a200", HexColor(ORANGE_A200)),
        208 => ("orange_a400", HexColor(ORANGE_A400)),
        209 => ("orange_a700", HexColor(ORANGE_A700)),
        210 => ("deep_orange_50", HexColor(DEEP_ORANGE_50)),
        211 => ("deep_orange_100", HexColor(DEEP_ORANGE_100)),
        212 => ("deep_orange_200", HexColor(DEEP_ORANGE_200)),
        213 => ("deep_orange_300", HexColor(DEEP_ORANGE_300)),
        214 => ("deep_orange_400", HexColor(DEEP_ORANGE_400)),
        215 => ("deep_orange_500", HexColor(DEEP_ORANGE_500)),
        216 => ("deep_orange_600", HexColor(DEEP_ORANGE_600)),
        217 => ("deep_orange_700", HexColor(DEEP_ORANGE_700)),
        218 => ("deep_orange_800", HexColor(DEEP_ORANGE_800)),
        219 => ("deep_orange_900", HexColor(DEEP_ORANGE_900)),
        220 => ("deep_orange_a100", HexColor(DEEP_ORANGE_A100)),
        221 => ("deep_orange_a200", HexColor(DEEP_ORANGE_A200)),
        222 => ("deep_orange_a400", HexColor(DEEP_ORANGE_A400)),
        223 => ("deep_orange_a700", HexColor(DEEP_ORANGE_A700)),
        224 => ("brown_50", HexColor(BROWN_50)),
        225 => ("brown_100", HexColor(BROWN_100)),
        226 => ("brown_200", HexColor(BROWN_200)),
        227 => ("brown_300", HexColor(BROWN_300)),
        228 => ("brown_400", HexColor(BROWN_400)),
        229 => ("brown_500", HexColor(BROWN_500)),
        230 => ("brown_600", HexColor(BROWN_600)),
        231 => ("brown_700", HexColor(BROWN_700)),
        232 => ("brown_800", HexColor(BROWN_800)),
        233 => ("brown_900", HexColor(BROWN_900)),
        234 => ("grey_50", HexColor(GREY_50)),
        235 => ("grey_100", HexColor(GREY_100)),
        236 => ("grey_200", HexColor(GREY_200)),
        237 => ("grey_300", HexColor(GREY_300)),
        238 => ("grey_400", HexColor(GREY_400)),
        239 => ("grey_500", HexColor(GREY_500)),
        240 => ("grey_600", HexColor(GREY_600)),
        241 => ("grey_700", HexColor(GREY_700)),
        242 => ("grey_800", HexColor(GREY_800)),
        243 => ("grey_900", HexColor(GREY_900)),
        244 => ("blue_grey_50", HexColor(BLUE_GREY_50)),
        245 => ("blue_grey_100", HexColor(BLUE_GREY_100)),
        246 => ("blue_grey_200", HexColor(BLUE_GREY_200)),
        247 => ("blue_grey_300", HexColor(BLUE_GREY_300)),
        248 => ("blue_grey_400", HexColor(BLUE_GREY_400)),
        249 => ("blue_grey_500", HexColor(BLUE_GREY_500)),
        250 => ("blue_grey_600", HexColor(BLUE_GREY_600)),
        251 => ("blue_grey_700", HexColor(BLUE_GREY_700)),
        252 => ("blue_grey_800", HexColor(BLUE_GREY_800)),
        253 => ("blue_grey_900", HexColor(BLUE_GREY_900)),
        254 => ("white", HexColor(WHITE)),
        255 => ("black", HexColor(BLACK)),
        _ => ("", HexColor(BLACK)),
    }
}

} // verus!
