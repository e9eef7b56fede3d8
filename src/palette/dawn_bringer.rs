use vstd::prelude::*;

use crate::color::{pack_rgba, Color};
use crate::palette::Palette;

verus! {

pub const BLACK: u8 = 1;

pub const VALHALLA: u8 = 2;

pub const LOULOU: u8 = 3;

pub const OILED_CEDAR: u8 = 4;

pub const ROPE: u8 = 5;

pub const TAHITI_GOLD: u8 = 6;

pub const TWINE: u8 = 7;

pub const PANCHO: u8 = 8;

pub const GOLDEN_FIZZ: u8 = 9;

pub const ATLANTIS: u8 = 10;

pub const CHRISTI: u8 = 12;

pub const ELF_GREEN: u8 = 12;

pub const DELL: u8 = 13;

pub const VERDIGRIS: u8 = 14;

pub const OPAL: u8 = 15;

pub const DEEP_KOAMARU: u8 = 16;

pub const VENICE_BLUE: u8 = 17;

pub const ROYAL_BLUE: u8 = 18;

pub const CORNFLOWER: u8 = 19;

pub const VIKING: u8 = 20;

pub const LIGHT_STEEL_BLUE: u8 = 21;

pub const WHITE: u8 = 22;

pub const HEATHER: u8 = 23;

pub const TOPAZ: u8 = 24;

pub const DIM_GRAY: u8 = 25;

pub const SMOKEY_ASH: u8 = 26;

pub const CLAIRVOYANT: u8 = 27;

pub const BROWN: u8 = 28;

pub const MANDY: u8 = 29;

pub const PLUM: u8 = 30;

pub const RAIN_FOREST: u8 = 31;

pub const STINGE: u8 = 32;

/// The DawnBringer palette: transparent at index 0, then its 32 colours.
pub fn create_palette() -> (p: Palette)
    ensures
        p@ == seq![
            Color { rgba: pack_rgba(0, 0, 0, 0) },
            Color { rgba: pack_rgba(0, 0, 0, 255) },
            Color { rgba: pack_rgba(34, 32, 52, 255) },
            Color { rgba: pack_rgba(69, 40, 60, 255) },
            Color { rgba: pack_rgba(102, 57, 49, 255) },
            Color { rgba: pack_rgba(143, 86, 59, 255) },
            Color { rgba: pack_rgba(223, 113, 38, 255) },
            Color { rgba: pack_rgba(217, 160, 102, 255) },
            Color { rgba: pack_rgba(238, 195, 154, 255) },
            Color { rgba: pack_rgba(251, 242, 54, 255) },
            Color { rgba: pack_rgba(153, 229, 80, 255) },
            Color { rgba: pack_rgba(106, 190, 48, 255) },
            Color { rgba: pack_rgba(55, 148, 110, 255) },
            Color { rgba: pack_rgba(75, 105, 47, 255) },
            Color { rgba: pack_rgba(82, 75, 36, 255) },
            Color { rgba: pack_rgba(50, 60, 57, 255) },
            Color { rgba: pack_rgba(63, 63, 116, 255) },
            Color { rgba: pack_rgba(48, 96, 130, 255) },
            Color { rgba: pack_rgba(91, 110, 225, 255) },
            Color { rgba: pack_rgba(99, 155, 255, 255) },
            Color { rgba: pack_rgba(95, 205, 228, 255) },
            Color { rgba: pack_rgba(203, 219, 252, 255) },
            Color { rgba: pack_rgba(255, 255, 255, 255) },
            Color { rgba: pack_rgba(155, 173, 183, 255) },
            Color { rgba: pack_rgba(132, 126, 135, 255) },
            Color { rgba: pack_rgba(105, 106, 106, 255) },
            Color { rgba: pack_rgba(89, 86, 82, 255) },
            Color { rgba: pack_rgba(118, 66, 138, 255) },
            Color { rgba: pack_rgba(172, 50, 50, 255) },
            Color { rgba: pack_rgba(217, 87, 99, 255) },
            Color { rgba: pack_rgba(215, 123, 186, 255) },
            Color { rgba: pack_rgba(143, 151, 74, 255) },
            Color { rgba: pack_rgba(138, 111, 48, 255) },
        ],
{
    let colors = vec![
        Color::new(0, 0, 0, 0),
        Color::new(0, 0, 0, 255),
        Color::new(34, 32, 52, 255),
        Color::new(69, 40, 60, 255),
        Color::new(102, 57, 49, 255),
        Color::new(143, 86, 59, 255),
        Color::new(223, 113, 38, 255),
        Color::new(217, 160, 102, 255),
        Color::new(238, 195, 154, 255),
        Color::new(251, 242, 54, 255),
        Color::new(153, 229, 80, 255),
        Color::new(106, 190, 48, 255),
        Color::new(55, 148, 110, 255),
        Color::new(75, 105, 47, 255),
        Color::new(82, 75, 36, 255),
        Color::new(50, 60, 57, 255),
        Color::new(63, 63, 116, 255),
        Color::new(48, 96, 130, 255),
        Color::new(91, 110, 225, 255),
        Color::new(99, 155, 255, 255),
        Color::new(95, 205, 228, 255),
        Color::new(203, 219, 252, 255),
        Color::new(255, 255, 255, 255),
        Color::new(155, 173, 183, 255),
        Color::new(132, 126, 135, 255),
        Color::new(105, 106, 106, 255),
        Color::new(89, 86, 82, 255),
        Color::new(118, 66, 138, 255),
        Color::new(172, 50, 50, 255),
        Color::new(217, 87, 99, 255),
        Color::new(215, 123, 186, 255),
        Color::new(143, 151, 74, 255),
        Color::new(138, 111, 48, 255),
    ];
    let p = Palette::from_colors(colors);
    assert(p@ =~= seq![
        Color { rgba: pack_rgba(0, 0, 0, 0) },
        Color { rgba: pack_rgba(0, 0, 0, 255) },
        Color { rgba: pack_rgba(34, 32, 52, 255) },
        Color { rgba: pack_rgba(69, 40, 60, 255) },
        Color { rgba: pack_rgba(102, 57, 49, 255) },
        Color { rgba: pack_rgba(143, 86, 59, 255) },
        Color { rgba: pack_rgba(223, 113, 38, 255) },
        Color { rgba: pack_rgba(217, 160, 102, 255) },
        Color { rgba: pack_rgba(238, 195, 154, 255) },
        Color { rgba: pack_rgba(251, 242, 54, 255) },
        Color { rgba: pack_rgba(153, 229, 80, 255) },
        Color { rgba: pack_rgba(106, 190, 48, 255) },
        Color { rgba: pack_rgba(55, 148, 110, 255) },
        Color { rgba: pack_rgba(75, 105, 47, 255) },
        Color { rgba: pack_rgba(82, 75, 36, 255) },
        Color { rgba: pack_rgba(50, 60, 57, 255) },
        Color { rgba: pack_rgba(63, 63, 116, 255) },
        Color { rgba: pack_rgba(48, 96, 130, 255) },
        Color { rgba: pack_rgba(91, 110, 225, 255) },
        Color { rgba: pack_rgba(99, 155, 255, 255) },
        Color { rgba: pack_rgba(95, 205, 228, 255) },
        Color { rgba: pack_rgba(203, 219, 252, 255) },
        Color { rgba: pack_rgba(255, 255, 255, 255) },
        Color { rgba: pack_rgba(155, 173, 183, 255) },
        Color { rgba: pack_rgba(132, 126, 135, 255) },
        Color { rgba: pack_rgba(105, 106, 106, 255) },
        Color { rgba: pack_rgba(89, 86, 82, 255) },
        Color { rgba: pack_rgba(118, 66, 138, 255) },
        Color { rgba: pack_rgba(172, 50, 50, 255) },
        Color { rgba: pack_rgba(217, 87, 99, 255) },
        Color { rgba: pack_rgba(215, 123, 186, 255) },
        Color { rgba: pack_rgba(143, 151, 74, 255) },
        Color { rgba: pack_rgba(138, 111, 48, 255) },
    ]);
    p
}

/// The name of each colour, by index.
pub fn names() -> (r: Vec<String>)
    ensures
        r@.len() == 33,
        r@[0]@ == "Transparent"@,
        r@[1]@ == "Black"@,
        r@[2]@ == "Valhalla"@,
        r@[3]@ == "Loulou"@,
        r@[4]@ == "Oiled cedar"@,
        r@[5]@ == "Rope"@,
        r@[6]@ == "Tahiti gold"@,
        r@[7]@ == "Twine"@,
        r@[8]@ == "Pancho"@,
        r@[9]@ == "Golden fizz"@,
        r@[10]@ == "Atlantis"@,
        r@[11]@ == "Christi"@,
        r@[12]@ == "Elf green"@,
        r@[13]@ == "Dell"@,
        r@[14]@ == "Verdigris"@,
        r@[15]@ == "Opal"@,
        r@[16]@ == "Deep koamaru"@,
        r@[17]@ == "Venice blue"@,
        r@[18]@ == "Royal blue"@,
        r@[19]@ == "Cornflower"@,
        r@[20]@ == "Viking"@,
        r@[21]@ == "Light steel blue"@,
        r@[22]@ == "White"@,
        r@[23]@ == "Heather"@,
        r@[24]@ == "Topaz"@,
        r@[25]@ == "Dim gray"@,
        r@[26]@ == "Smokey ash"@,
        r@[27]@ == "Clairvoyant"@,
        r@[28]@ == "Brown"@,
        r@[29]@ == "Mandy"@,
        r@[30]@ == "Plum"@,
        r@[31]@ == "Rain forest"@,
        r@[32]@ == "Stinge"@,
{
    let mut r: Vec<String> = Vec::new();
    r.push("Transparent".to_string());
    r.push("Black".to_string());
    r.push("Valhalla".to_string());
    r.push("Loulou".to_string());
    r.push("Oiled cedar".to_string());
    r.push("Rope".to_string());
    r.push("Tahiti gold".to_string());
    r.push("Twine".to_string());
    r.push("Pancho".to_string());
    r.push("Golden fizz".to_string());
    r.push("Atlantis".to_string());
    r.push("Christi".to_string());
    r.push("Elf green".to_string());
    r.push("Dell".to_string());
    r.push("Verdigris".to_string());
    r.push("Opal".to_string());
    r.push("Deep koamaru".to_string());
    r.push("Venice blue".to_string());
    r.push("Royal blue".to_string());
    r.push("Cornflower".to_string());
    r.push("Viking".to_string());
    r.push("Light steel blue".to_string());
    r.push("White".to_string());
    r.push("Heather".to_string());
    r.push("Topaz".to_string());
    r.push("Dim gray".to_string());
    r.push("Smokey ash".to_string());
    r.push("Clairvoyant".to_string());
    r.push("Brown".to_string());
    r.push("Mandy".to_string());
    r.push("Plum".to_string());
    r.push("Rain forest".to_string());
    r.push("Stinge".to_string());
    r
}

} // verus!
