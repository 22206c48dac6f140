use vstd::prelude::*;

verus! {

/// The built-in font table: 16 glyphs of 5 bytes each, one glyph per
/// hexadecimal digit, most-significant bit on the left. Programs draw these
/// glyphs as sprites to render numerals, so the byte patterns are part of the
/// machine's public interface.
pub open spec fn spec_font() -> Seq<u8> {
    Seq::empty()
        .push(0xF0u8).push(0x90).push(0x90).push(0x90).push(0xF0)
        .push(0x20).push(0x60).push(0x20).push(0x20).push(0x70)
        .push(0xF0).push(0x10).push(0xF0).push(0x80).push(0xF0)
        .push(0xF0).push(0x10).push(0xF0).push(0x10).push(0xF0)
        .push(0x90).push(0x90).push(0xF0).push(0x10).push(0x10)
        .push(0xF0).push(0x80).push(0xF0).push(0x10).push(0xF0)
        .push(0xF0).push(0x80).push(0xF0).push(0x90).push(0xF0)
        .push(0xF0).push(0x10).push(0x20).push(0x40).push(0x40)
        .push(0xF0).push(0x90).push(0xF0).push(0x90).push(0xF0)
        .push(0xF0).push(0x90).push(0xF0).push(0x10).push(0xF0)
        .push(0xF0).push(0x90).push(0xF0).push(0x90).push(0x90)
        .push(0xE0).push(0x90).push(0xE0).push(0x90).push(0xE0)
        .push(0xF0).push(0x80).push(0x80).push(0x80).push(0xF0)
        .push(0xE0).push(0x90).push(0x90).push(0x90).push(0xE0)
        .push(0xF0).push(0x80).push(0xF0).push(0x80).push(0xF0)
        .push(0xF0).push(0x80).push(0xF0).push(0x80).push(0x80)
}

/// The font table as an executable byte vector; one glyph of 5 rows per
/// hexadecimal digit 0 through F, in order.
pub fn font_table() -> (f: Vec<u8>)
    ensures
        f@ == spec_font(),
        f@.len() == 80,
{
    let mut f: Vec<u8> = Vec::new();
    f.push(0xF0); f.push(0x90); f.push(0x90); f.push(0x90); f.push(0xF0);
    f.push(0x20); f.push(0x60); f.push(0x20); f.push(0x20); f.push(0x70);
    f.push(0xF0); f.push(0x10); f.push(0xF0); f.push(0x80); f.push(0xF0);
    f.push(0xF0); f.push(0x10); f.push(0xF0); f.push(0x10); f.push(0xF0);
    f.push(0x90); f.push(0x90); f.push(0xF0); f.push(0x10); f.push(0x10);
    f.push(0xF0); f.push(0x80); f.push(0xF0); f.push(0x10); f.push(0xF0);
    f.push(0xF0); f.push(0x80); f.push(0xF0); f.push(0x90); f.push(0xF0);
    f.push(0xF0); f.push(0x10); f.push(0x20); f.push(0x40); f.push(0x40);
    f.push(0xF0); f.push(0x90); f.push(0xF0); f.push(0x90); f.push(0xF0);
    f.push(0xF0); f.push(0x90); f.push(0xF0); f.push(0x10); f.push(0xF0);
    f.push(0xF0); f.push(0x90); f.push(0xF0); f.push(0x90); f.push(0x90);
    f.push(0xE0); f.push(0x90); f.push(0xE0); f.push(0x90); f.push(0xE0);
    f.push(0xF0); f.push(0x80); f.push(0x80); f.push(0x80); f.push(0xF0);
    f.push(0xE0); f.push(0x90); f.push(0x90); f.push(0x90); f.push(0xE0);
    f.push(0xF0); f.push(0x80); f.push(0xF0); f.push(0x80); f.push(0xF0);
    f.push(0xF0); f.push(0x80); f.push(0xF0); f.push(0x80); f.push(0x80);
    f
}

} // verus!
