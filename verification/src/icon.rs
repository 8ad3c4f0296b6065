//! Placeholder avatars: a coloured square with one letter, chosen from
//! the seed and the label alone.

use vstd::prelude::*;
use vstd::std_specs::hash::DefaultHasherAdditionalSpecFns;
use vstd::utf8::encode_utf8;
use std::collections::hash_map::DefaultHasher;
use std::hash::Hasher;
use crate::text::chars_of;

verus! {

/// A colour, each channel from 0 to 255.
#[derive(Clone, Copy, Debug, PartialEq, Eq, Structural)]
pub struct Color {
    pub r: i32,
    pub g: i32,
    pub b: i32,
}

/// The colours an identicon can have.
pub open spec fn palette() -> Seq<Color> {
    seq![
        Color { r: 69, g: 189, b: 243 },
        Color { r: 224, g: 143, b: 112 },
        Color { r: 77, g: 182, b: 172 },
        Color { r: 149, g: 117, b: 205 },
        Color { r: 176, g: 133, b: 94 },
        Color { r: 240, g: 98, b: 146 },
        Color { r: 163, g: 211, b: 108 },
        Color { r: 121, g: 134, b: 203 },
        Color { r: 241, g: 185, b: 29 },
    ]
}

/// The colour at position `i` of the palette.
pub fn palette_color(i: usize) -> (c: Color)
    requires
        i < 9,
    ensures
        c == palette()[i as int],
{
    if i == 0 {
        Color { r: 69, g: 189, b: 243 }
    } else if i == 1 {
        Color { r: 224, g: 143, b: 112 }
    } else if i == 2 {
        Color { r: 77, g: 182, b: 172 }
    } else if i == 3 {
        Color { r: 149, g: 117, b: 205 }
    } else if i == 4 {
        Color { r: 176, g: 133, b: 94 }
    } else if i == 5 {
        Color { r: 240, g: 98, b: 146 }
    } else if i == 6 {
        Color { r: 163, g: 211, b: 108 }
    } else if i == 7 {
        Color { r: 121, g: 134, b: 203 }
    } else {
        Color { r: 241, g: 185, b: 29 }
    }
}

/// The hash of a text: the standard hasher fed with the text's bytes and
/// then with the byte `0xff`, as a string is hashed.
pub open spec fn hash_of(text: Seq<char>) -> u64 {
    DefaultHasher::spec_finish(seq![encode_utf8(text), seq![0xffu8]])
}

/// Hashes a text with the standard hasher.
pub fn calculate_hash(text: &str) -> (h: u64)
    ensures
        h == hash_of(text@),
{
    let mut state = DefaultHasher::new();
    state.write(text.as_bytes());
    let end: Vec<u8> = vec![0xffu8];
    state.write(end.as_slice());
    assert(end@ =~= seq![0xffu8]);
    assert(state@ =~= seq![encode_utf8(text@), seq![0xffu8]]);
    state.finish()
}

/// The upper-case form of a character, as `char::to_uppercase` of the
/// standard library gives it; it may be more than one character.
pub uninterp spec fn uppercased(c: char) -> Seq<char>;

/// `char::to_uppercase`, its characters collected into a string.
#[verifier::external_body]
fn upper(c: char) -> (s: String)
    ensures
        s@ == uppercased(c),
{
    c.to_uppercase().collect()
}

/// The letter drawn on an identicon for `label`: its first character in
/// upper case, where a leading `#` is passed over; `X` where nothing is
/// left.
pub open spec fn glyph_text(label: Seq<char>) -> Seq<char> {
    if label.len() > 0 && label[0] != '#' {
        uppercased(label[0])
    } else if label.len() > 1 {
        uppercased(label[1])
    } else {
        seq!['X']
    }
}

/// What is drawn for a placeholder avatar, and the name of the file in
/// the cache directory that keeps the picture.
#[derive(Debug)]
pub struct Identicon {
    pub name: String,
    pub color: Color,
    pub glyph: String,
}

/// The value of an [`Identicon`].
pub struct IdenticonV {
    pub name: Seq<char>,
    pub color: Color,
    pub glyph: Seq<char>,
}

impl View for Identicon {
    type V = IdenticonV;

    open spec fn view(&self) -> IdenticonV {
        IdenticonV { name: self.name@, color: self.color, glyph: self.glyph@ }
    }
}

impl Clone for Identicon {
    fn clone(&self) -> (copy: Identicon)
        ensures
            copy@ == self@,
    {
        Identicon { name: self.name.clone(), color: self.color, glyph: self.glyph.clone() }
    }
}

/// The identicon for the seed `fname` with the label `name`: a square in
/// the palette colour that the hash of `fname` selects, with the first
/// letter of `name` on it, kept under the name `fname`.
pub open spec fn identicon_of(fname: Seq<char>, name: Seq<char>) -> IdenticonV {
    IdenticonV {
        name: fname,
        color: palette()[hash_of(fname) as int % 9],
        glyph: glyph_text(name),
    }
}

/// Plans the identicon for the seed `fname` with the label `name`.  The
/// same seed and label give the same picture.
pub fn draw_identicon(fname: &str, name: &str) -> (icon: Identicon)
    ensures
        icon@ == identicon_of(fname@, name@),
{
    let color = palette_color((calculate_hash(fname) % 9) as usize);
    let label = chars_of(name);
    let glyph = if label.len() > 0 && label[0] != '#' {
        upper(label[0])
    } else if label.len() > 1 {
        upper(label[1])
    } else {
        proof {
            reveal_strlit("X");
        }
        assert("X"@ =~= seq!['X']);
        "X".to_owned()
    };
    Identicon { name: fname.to_owned(), color, glyph }
}

} // verus!
