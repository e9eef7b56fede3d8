use vstd::prelude::*;

use crate::color::Color;
use crate::palette::Palette;

verus! {

pub const PINKISH_TAN: u8 = 0;

pub const ORANGEY_RED: u8 = 1;

pub const ROUGE: u8 = 2;

pub const STRONG_PINK: u8 = 3;

pub const BUBBLEGUM_PINK: u8 = 4;

pub const PINK_PURPLE: u8 = 5;

pub const WARM_PURPLE: u8 = 6;

pub const BURGUNDY: u8 = 7;

pub const NAVY_BLUE: u8 = 8;

pub const BLUE_PURPLE: u8 = 9;

pub const MEDIUM_BLUE: u8 = 10;

pub const AZURE: u8 = 11;

pub const ROBINS_EGG: u8 = 12;

pub const BLUE_GREEN: u8 = 13;

pub const DARK_AQUA: u8 = 14;

pub const DARK_FOREST_GREEN: u8 = 15;

pub const BLACK: u8 = 16;

pub const CHARCOAL_GREY: u8 = 17;

pub const GREYISH_PURPLE: u8 = 18;

pub const LIGHT_PERIWINKLE: u8 = 19;

pub const WHITE: u8 = 20;

pub const GREENISH_GREY: u8 = 21;

pub const MEDIUM_GREY: u8 = 22;

pub const BROWN: u8 = 23;

pub const UMBER: u8 = 24;

pub const YELLOWISH_ORANGE: u8 = 25;

pub const YELLOWISH: u8 = 26;

pub const PEA_SOUP: u8 = 27;

pub const MUD_GREEN: u8 = 28;

pub const KELLEY_GREEN: u8 = 29;

pub const TOXIC_GREEN: u8 = 30;

pub const BRIGHT_TEAL: u8 = 31;

/// The first colours of the standard palette, each given as its packed word.
pub fn create_palette() -> (p: Palette)
    ensures
        p@ == seq![
            Color { rgba: 0xff90a0d6 },
            Color { rgba: 0xff1e3bfe },
            Color { rgba: 0xff322ca1 },
            Color { rgba: 0xff7a2ffa },
            Color { rgba: 0xffda9ffb },
            Color { rgba: 0xfff71ce6 },
            Color { rgba: 0xff7c2f99 },
            Color { rgba: 0xff1f0147 },
            Color { rgba: 0xff551105 },
            Color { rgba: 0xffec024f },
            Color { rgba: 0xffcb692d },
            Color { rgba: 0xffeea600 },
            Color { rgba: 0xffffeb6f },
            Color { rgba: 0xff9aa208 },
            Color { rgba: 0xff6a662a },
            Color { rgba: 0xff193606 },
            Color { rgba: 0xff000000 },
            Color { rgba: 0xff57494a },
            Color { rgba: 0xffa47b8e },
            Color { rgba: 0xffffc0b7 },
            Color { rgba: 0xffffffff },
            Color { rgba: 0xff9cbeac },
            Color { rgba: 0xff707c82 },
            Color { rgba: 0xff1c3b5a },
            Color { rgba: 0xff0765ae },
            Color { rgba: 0xff30aaf7 },
            Color { rgba: 0xff5ceaf4 },
            Color { rgba: 0xff00959b },
            Color { rgba: 0xff046256 },
            Color { rgba: 0xff3b9611 },
            Color { rgba: 0xff13e151 },
            Color { rgba: 0xffccfd08 },
        ],
{
    let colors = vec![
        Color { rgba: 0xff90a0d6 },
        Color { rgba: 0xff1e3bfe },
        Color { rgba: 0xff322ca1 },
        Color { rgba: 0xff7a2ffa },
        Color { rgba: 0xffda9ffb },
        Color { rgba: 0xfff71ce6 },
        Color { rgba: 0xff7c2f99 },
        Color { rgba: 0xff1f0147 },
        Color { rgba: 0xff551105 },
        Color { rgba: 0xffec024f },
        Color { rgba: 0xffcb692d },
        Color { rgba: 0xffeea600 },
        Color { rgba: 0xffffeb6f },
        Color { rgba: 0xff9aa208 },
        Color { rgba: 0xff6a662a },
        Color { rgba: 0xff193606 },
        Color { rgba: 0xff000000 },
        Color { rgba: 0xff57494a },
        Color { rgba: 0xffa47b8e },
        Color { rgba: 0xffffc0b7 },
        Color { rgba: 0xffffffff },
        Color { rgba: 0xff9cbeac },
        Color { rgba: 0xff707c82 },
        Color { rgba: 0xff1c3b5a },
        Color { rgba: 0xff0765ae },
        Color { rgba: 0xff30aaf7 },
        Color { rgba: 0xff5ceaf4 },
        Color { rgba: 0xff00959b },
        Color { rgba: 0xff046256 },
        Color { rgba: 0xff3b9611 },
        Color { rgba: 0xff13e151 },
        Color { rgba: 0xffccfd08 },
    ];
    let p = Palette::from_colors(colors);
    assert(p@ =~= seq![
        Color { rgba: 0xff90a0d6 },
        Color { rgba: 0xff1e3bfe },
        Color { rgba: 0xff322ca1 },
        Color { rgba: 0xff7a2ffa },
        Color { rgba: 0xffda9ffb },
        Color { rgba: 0xfff71ce6 },
        Color { rgba: 0xff7c2f99 },
        Color { rgba: 0xff1f0147 },
        Color { rgba: 0xff551105 },
        Color { rgba: 0xffec024f },
        Color { rgba: 0xffcb692d },
        Color { rgba: 0xffeea600 },
        Color { rgba: 0xffffeb6f },
        Color { rgba: 0xff9aa208 },
        Color { rgba: 0xff6a662a },
        Color { rgba: 0xff193606 },
        Color { rgba: 0xff000000 },
        Color { rgba: 0xff57494a },
        Color { rgba: 0xffa47b8e },
        Color { rgba: 0xffffc0b7 },
        Color { rgba: 0xffffffff },
        Color { rgba: 0xff9cbeac },
        Color { rgba: 0xff707c82 },
        Color { rgba: 0xff1c3b5a },
        Color { rgba: 0xff0765ae },
        Color { rgba: 0xff30aaf7 },
        Color { rgba: 0xff5ceaf4 },
        Color { rgba: 0xff00959b },
        Color { rgba: 0xff046256 },
        Color { rgba: 0xff3b9611 },
        Color { rgba: 0xff13e151 },
        Color { rgba: 0xffccfd08 },
    ]);
    p
}

/// The name of each colour, by index.
pub fn names() -> (r: Vec<String>)
    ensures
        r@.len() == 32,
        r@[0]@ == "pinkish tan"@,
        r@[1]@ == "orangey red"@,
        r@[2]@ == "rouge"@,
        r@[3]@ == "strong pink"@,
        r@[4]@ == "bubblegum pink"@,
        r@[5]@ == "pink/purple"@,
        r@[6]@ == "warm purple"@,
        r@[7]@ == "burgundy"@,
        r@[8]@ == "navy blue"@,
        r@[9]@ == "blue/purple"@,
        r@[10]@ == "medium blue"@,
        r@[11]@ == "azure"@,
        r@[12]@ == "robin’s egg"@,
        r@[13]@ == "blue/green"@,
        r@[14]@ == "dark aqua"@,
        r@[15]@ == "dark forest green"@,
        r@[16]@ == "black"@,
        r@[17]@ == "charcoal grey"@,
        r@[18]@ == "greyish purple"@,
        r@[19]@ == "light periwinkle"@,
        r@[20]@ == "white"@,
        r@[21]@ == "greenish grey"@,
        r@[22]@ == "medium grey"@,
        r@[23]@ == "brown"@,
        r@[24]@ == "umber"@,
        r@[25]@ == "yellowish orange"@,
        r@[26]@ == "yellowish"@,
        r@[27]@ == "pea soup"@,
        r@[28]@ == "mud green"@,
        r@[29]@ == "kelley green"@,
        r@[30]@ == "toxic green"@,
        r@[31]@ == "bright teal"@,
{
    let mut r: Vec<String> = Vec::new();
    r.push("pinkish tan".to_string());
    r.push("orangey red".to_string());
    r.push("rouge".to_string());
    r.push("strong pink".to_string());
    r.push("bubblegum pink".to_string());
    r.push("pink/purple".to_string());
    r.push("warm purple".to_string());
    r.push("burgundy".to_string());
    r.push("navy blue".to_string());
    r.push("blue/purple".to_string());
    r.push("medium blue".to_string());
    r.push("azure".to_string());
    r.push("robin’s egg".to_string());
    r.push("blue/green".to_string());
    r.push("dark aqua".to_string());
    r.push("dark forest green".to_string());
    r.push("black".to_string());
    r.push("charcoal grey".to_string());
    r.push("greyish purple".to_string());
    r.push("light periwinkle".to_string());
    r.push("white".to_string());
    r.push("greenish grey".to_string());
    r.push("medium grey".to_string());
    r.push("brown".to_string());
    r.push("umber".to_string());
    r.push("yellowish orange".to_string());
    r.push("yellowish".to_string());
    r.push("pea soup".to_string());
    r.push("mud green".to_string());
    r.push("kelley green".to_string());
    r.push("toxic green".to_string());
    r.push("bright teal".to_string());
    r
}

} // verus!
