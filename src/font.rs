//! A font for the text capability, loaded from raw font data.
use vstd::prelude::*;

use crate::fontdata::{font_data_checked, font_data_in_bounds};

verus! {

/// Whether the bytes hold exactly one font that the font parser accepts.
pub uninterp spec fn font_parses(bytes: Seq<u8>) -> bool;

/// Relies on rusttype::Font::from_bytes: whether it succeeds depends on the
/// bytes alone. The parser indexes the data at offsets that the data itself
/// gives, so input where one of those reads falls outside it is left out.
#[verifier::external_body]
fn parse_font(bytes: &'static [u8]) -> (r: Result<rusttype::Font<'static>, rusttype::Error>)
    requires
        font_data_in_bounds(bytes@),
    ensures
        r.is_ok() == font_parses(bytes@),
{
    rusttype::Font::from_bytes(bytes)
}

/// The message of a failed font load.
pub open spec fn load_failure_message() -> Seq<char> {
    "Could not load font from bytes"@
}

/// A loaded font.
pub struct TextFont {
    inner: rusttype::Font<'static>,
}

impl TextFont {
    /// Loads a font from static font data. Data that the parser could not
    /// read within its bounds, or that it rejects, gives an error message.
    pub fn from_bytes(bytes: &'static [u8]) -> (r: Result<TextFont, String>)
        ensures
            r.is_ok() == (font_data_in_bounds(bytes@) && font_parses(bytes@)),
            r is Err ==> r->Err_0@ == load_failure_message(),
    {
        if font_data_checked(bytes) {
            match parse_font(bytes) {
                Ok(font) => {
                    return Ok(TextFont { inner: font });
                },
                Err(_) => {},
            }
        }
        proof {
            reveal_strlit("Could not load font from bytes");
        }
        Err(String::from_str("Could not load font from bytes"))
    }

    /// The underlying parsed font, for the glyph rasterizer.
    pub fn inner(&self) -> &rusttype::Font<'static> {
        &self.inner
    }
}

} // verus!
