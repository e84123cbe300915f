//! The ammunition read-out: the counts of the weapon in hand as text.

use vstd::prelude::*;
use crate::entity::gun::{Ammo, Gun};
use crate::entity::player::{gun_in_hand, Player};

verus! {

/// The two lines of the read-out.
#[derive(Clone, Debug)]
pub struct AmmoText {
    /// Rounds in the magazine, a slash, and the magazine's size.
    pub magazine: String,
    /// Rounds in the reserve.
    pub reserve: String,
}

/// The character for one decimal digit.
pub open spec fn digit(d: int) -> char {
    if d == 0 {
        '0'
    } else if d == 1 {
        '1'
    } else if d == 2 {
        '2'
    } else if d == 3 {
        '3'
    } else if d == 4 {
        '4'
    } else if d == 5 {
        '5'
    } else if d == 6 {
        '6'
    } else if d == 7 {
        '7'
    } else if d == 8 {
        '8'
    } else {
        '9'
    }
}

/// A number in decimal notation, without sign or leading zeros.
pub open spec fn decimal(n: nat) -> Seq<char>
    decreases n,
{
    if n < 10 {
        seq![digit(n as int)]
    } else {
        decimal(n / 10).push(digit((n % 10) as int))
    }
}

/// The magazine line for a gun: rounds loaded, a slash, magazine size.
pub open spec fn magazine_text(gun: Gun) -> Seq<char> {
    decimal(gun.0 as nat) + seq!['/'] + decimal(gun.1 as nat)
}

/// The reserve line.
pub open spec fn reserve_text(ammo: Ammo) -> Seq<char> {
    decimal(ammo.0 as nat)
}

fn digit_str(d: u32) -> (text: &'static str)
    requires
        d < 10,
    ensures
        text@ == seq![digit(d as int)],
{
    proof {
        reveal_strlit("0");
        reveal_strlit("1");
        reveal_strlit("2");
        reveal_strlit("3");
        reveal_strlit("4");
        reveal_strlit("5");
        reveal_strlit("6");
        reveal_strlit("7");
        reveal_strlit("8");
        reveal_strlit("9");
    }
    let text = if d == 0 {
        "0"
    } else if d == 1 {
        "1"
    } else if d == 2 {
        "2"
    } else if d == 3 {
        "3"
    } else if d == 4 {
        "4"
    } else if d == 5 {
        "5"
    } else if d == 6 {
        "6"
    } else if d == 7 {
        "7"
    } else if d == 8 {
        "8"
    } else {
        "9"
    };
    text
}

/// Appends `n` in decimal notation to `text`.
pub fn write_decimal(text: &mut String, n: u32)
    ensures
        final(text)@ == old(text)@ + decimal(n as nat),
    decreases n,
{
    if n >= 10 {
        write_decimal(text, n / 10);
    }
    text.append(digit_str(n % 10));
}

impl AmmoText {
    /// The read-out for a gun and its reserve.
    pub fn new(gun: &Gun, ammo: &Ammo) -> (text: AmmoText)
        ensures
            text.magazine@ == magazine_text(*gun),
            text.reserve@ == reserve_text(*ammo),
    {
        let mut magazine = String::new();
        write_decimal(&mut magazine, gun.0);
        proof {
            reveal_strlit("/");
        }
        magazine.append("/");
        write_decimal(&mut magazine, gun.1);
        let mut reserve = String::new();
        write_decimal(&mut reserve, ammo.0);
        AmmoText { magazine, reserve }
    }
}

/// The read-out for the weapon in hand. Without one there is nothing to
/// show. The player is only read.
pub fn update_ui(player: &Player) -> (text: Option<AmmoText>)
    ensures
        match player@.in_hand() {
            Some(i) => text matches Some(shown) && shown.magazine@ == magazine_text(
                player@.guns[i].gun,
            ) && shown.reserve@ == reserve_text(player@.guns[i].ammo),
            None => text is None,
        },
{
    match gun_in_hand(player) {
        Some(i) => {
            let weapon = player.guns[i];
            Some(AmmoText::new(&weapon.gun, &weapon.ammo))
        },
        None => None,
    }
}

} // verus!
