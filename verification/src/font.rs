//! A bitmap font: per-character glyph metrics and their place in an atlas.

use std::collections::HashMap;
use vstd::prelude::*;

verus! {

broadcast use vstd::std_specs::hash::group_hash_axioms;

/// The character whose glyph stands in for every character a font lacks.
pub const FALLBACK_CHARACTER: char = '?';

/// The metrics of one glyph.
///
/// `x`, `y`, `width` and `height` locate the glyph's image in the atlas.
/// `origin_x` and `origin_y` are the offset of the cursor within that image,
/// and `advance` is how far the cursor moves right after the glyph.
#[derive(Clone, Copy, Debug, PartialEq, Eq, Structural)]
pub struct DebugCharacter {
    pub x: i32,
    pub y: i32,
    pub width: i32,
    pub height: i32,
    pub origin_x: i32,
    pub origin_y: i32,
    pub advance: i32,
}

/// The code point of `c`, by which a font keys its glyphs.
spec fn code_point(c: char) -> u32 {
    c as u32
}

/// A code point is the character's own number, so distinct characters have
/// distinct code points.
proof fn lemma_code_point_is_value(c: char)
    ensures
        code_point(c) as int == c as int,
{
}

/// The code point of `c`.
fn code_of(c: char) -> (code: u32)
    ensures
        code == code_point(c),
        code as int == c as int,
{
    c as u32
}

/// The mapping that a list of entries describes. Where a character occurs
/// more than once, its last entry counts.
pub open spec fn glyph_table(entries: Seq<(char, DebugCharacter)>) -> Map<char, DebugCharacter>
    decreases entries.len(),
{
    if entries.len() == 0 {
        Map::empty()
    } else {
        glyph_table(entries.drop_last()).insert(entries.last().0, entries.last().1)
    }
}

/// A bitmap font. It always holds a glyph for [`FALLBACK_CHARACTER`].
pub struct DebugFont {
    name: String,
    size: i32,
    bold: bool,
    italic: bool,
    width: u32,
    height: u32,
    characters: HashMap<u32, DebugCharacter>,
}

impl DebugFont {
    #[verifier::type_invariant]
    spec fn has_fallback(&self) -> bool {
        self.characters@.contains_key(code_point(FALLBACK_CHARACTER))
    }

    /// The glyphs of the font, by character.
    pub closed spec fn glyphs(&self) -> Map<char, DebugCharacter> {
        Map::new(
            |c: char| self.characters@.contains_key(code_point(c)),
            |c: char| self.characters@[code_point(c)],
        )
    }

    /// The name of the typeface.
    pub closed spec fn spec_name(&self) -> Seq<char> {
        self.name@
    }

    /// The point size at which the atlas was drawn.
    pub closed spec fn spec_size(&self) -> i32 {
        self.size
    }

    pub closed spec fn spec_bold(&self) -> bool {
        self.bold
    }

    pub closed spec fn spec_italic(&self) -> bool {
        self.italic
    }

    /// The width of the atlas in pixels.
    pub closed spec fn spec_width(&self) -> u32 {
        self.width
    }

    /// The height of the atlas in pixels.
    pub closed spec fn spec_height(&self) -> u32 {
        self.height
    }

    /// The glyph drawn for `c`: its own where the font has one, the fallback
    /// character's otherwise.
    pub open spec fn resolve(&self, c: char) -> DebugCharacter {
        if self.glyphs().contains_key(c) {
            self.glyphs()[c]
        } else {
            self.glyphs()[FALLBACK_CHARACTER]
        }
    }

    /// Builds a font from its description. The entries are applied in order,
    /// so a later entry for a character replaces an earlier one. A
    /// description without a glyph for [`FALLBACK_CHARACTER`] is malformed
    /// and yields `None`.
    pub fn new(
        name: String,
        size: i32,
        bold: bool,
        italic: bool,
        width: u32,
        height: u32,
        characters: Vec<(char, DebugCharacter)>,
    ) -> (font: Option<DebugFont>)
        ensures
            font is Some <==> glyph_table(characters@).contains_key(FALLBACK_CHARACTER),
            font matches Some(f) ==> {
                &&& f.glyphs() == glyph_table(characters@)
                &&& f.spec_name() == name@
                &&& f.spec_size() == size
                &&& f.spec_bold() == bold
                &&& f.spec_italic() == italic
                &&& f.spec_width() == width
                &&& f.spec_height() == height
            },
    {
        let mut table: HashMap<u32, DebugCharacter> = HashMap::new();
        for i in 0..characters.len()
            invariant
                forall|c: char|
                    table@.contains_key(#[trigger] code_point(c)) <==> glyph_table(
                        characters@.take(i as int),
                    ).contains_key(c),
                forall|c: char|
                    table@.contains_key(#[trigger] code_point(c)) ==> table@[code_point(c)]
                        == glyph_table(characters@.take(i as int))[c],
        {
            let (c, info) = characters[i];
            let code = code_of(c);
            table.insert(code, info);
            proof {
                let grown = characters@.take(i + 1);
                assert(grown.drop_last() =~= characters@.take(i as int));
                assert(grown.last() == (c, info));
                assert forall|d: char|
                    table@.contains_key(#[trigger] code_point(d)) <==> glyph_table(
                        grown,
                    ).contains_key(d) by {
                    lemma_code_point_is_value(d);
                }
                assert forall|d: char|
                    table@.contains_key(#[trigger] code_point(d)) implies table@[code_point(d)]
                    == glyph_table(grown)[d] by {
                    lemma_code_point_is_value(d);
                }
            }
        }
        assert(characters@.take(characters@.len() as int) =~= characters@);
        if table.contains_key(&code_of(FALLBACK_CHARACTER)) {
            let font = DebugFont { name, size, bold, italic, width, height, characters: table };
            assert(font.glyphs() =~= glyph_table(characters@));
            Some(font)
        } else {
            None
        }
    }

    /// The name of the typeface.
    pub fn name(&self) -> (name: &str)
        ensures
            name@ == self.spec_name(),
    {
        self.name.as_str()
    }

    /// The point size at which the atlas was drawn.
    #[verifier::when_used_as_spec(spec_size)]
    pub fn size(&self) -> (size: i32)
        ensures
            size == self.spec_size(),
    {
        self.size
    }

    #[verifier::when_used_as_spec(spec_bold)]
    pub fn bold(&self) -> (bold: bool)
        ensures
            bold == self.spec_bold(),
    {
        self.bold
    }

    #[verifier::when_used_as_spec(spec_italic)]
    pub fn italic(&self) -> (italic: bool)
        ensures
            italic == self.spec_italic(),
    {
        self.italic
    }

    /// The width of the atlas in pixels.
    #[verifier::when_used_as_spec(spec_width)]
    pub fn width(&self) -> (width: u32)
        ensures
            width == self.spec_width(),
    {
        self.width
    }

    /// The height of the atlas in pixels.
    #[verifier::when_used_as_spec(spec_height)]
    pub fn height(&self) -> (height: u32)
        ensures
            height == self.spec_height(),
    {
        self.height
    }

    /// Whether the font has a glyph of its own for `c`.
    pub fn contains(&self, c: char) -> (present: bool)
        ensures
            present == self.glyphs().contains_key(c),
    {
        self.characters.contains_key(&code_of(c))
    }

    /// The glyph drawn for `c`, with the fallback applied. The lookup always
    /// succeeds, because the fallback glyph is always there.
    pub fn glyph(&self, c: char) -> (info: DebugCharacter)
        ensures
            info == self.resolve(c),
            self.glyphs().contains_key(FALLBACK_CHARACTER),
    {
        proof {
            use_type_invariant(self);
        }
        let code = code_of(c);
        let key: u32 = if self.characters.contains_key(&code) {
            code
        } else {
            code_of(FALLBACK_CHARACTER)
        };
        *self.characters.get(&key).unwrap()
    }
}

/// A character that the font lacks is drawn exactly as the fallback character is.
pub proof fn lemma_missing_resolves_to_fallback(font: DebugFont, c: char)
    requires
        !font.glyphs().contains_key(c),
    ensures
        font.resolve(c) == font.resolve(FALLBACK_CHARACTER),
{
}

} // verus!
