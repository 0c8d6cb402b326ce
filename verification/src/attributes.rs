//! The attribute bitmask: one bit per text style, plus a colour-pair field.
//!
//! The raw layout keeps the single-bit style flags in bits 40 through 52
//! and the colour-pair number in the top eight bits, so a value can be
//! handed to the terminal as one packed word.

use vstd::prelude::*;

verus! {

/// The packed word the terminal takes: style bits plus the colour-pair field.
pub type chtype = u64;

/// Style bit: draw with the alternative character set.
pub const A_ALTCHARSET: chtype = 0x0000_0100_0000_0000;
/// Style bit: bold text.
pub const A_BOLD: chtype = 0x0000_0200_0000_0000;
/// Style bit: blinking text.
pub const A_BLINK: chtype = 0x0000_0400_0000_0000;
/// Style bit: character text.
pub const A_CHARTEXT: chtype = 0x0000_0800_0000_0000;
/// Style bit: dim text.
pub const A_DIM: chtype = 0x0000_1000_0000_0000;
/// Style bit: a line along the left edge of the cell.
pub const A_LEFTLINE: chtype = 0x0000_2000_0000_0000;
/// Style bit: invisible text.
pub const A_INVIS: chtype = 0x0000_4000_0000_0000;
/// Style bit: italic text.
pub const A_ITALIC: chtype = 0x0000_8000_0000_0000;
/// Style bit: a line along the top edge of the cell.
pub const A_OVERLINE: chtype = 0x0001_0000_0000_0000;
/// Style bit: reverse video.
pub const A_REVERSE: chtype = 0x0002_0000_0000_0000;
/// Style bit: a line along the right edge of the cell.
pub const A_RIGHTLINE: chtype = 0x0004_0000_0000_0000;
/// Style bit: struck-out text.
pub const A_STRIKEOUT: chtype = 0x0008_0000_0000_0000;
/// Style bit: underlined text.
pub const A_UNDERLINE: chtype = 0x0010_0000_0000_0000;
/// The bits of the raw mask that hold the colour-pair field.
pub const A_COLOR: chtype = 0xFF00_0000_0000_0000;
/// How far the colour-pair number is shifted into the raw mask.
pub const COLOR_SHIFT: chtype = 56;

/// True exactly of the thirteen single-bit style masks.
pub open spec fn is_attribute_bit(mask: chtype) -> bool {
    ||| mask == A_ALTCHARSET
    ||| mask == A_BOLD
    ||| mask == A_BLINK
    ||| mask == A_CHARTEXT
    ||| mask == A_DIM
    ||| mask == A_LEFTLINE
    ||| mask == A_INVIS
    ||| mask == A_ITALIC
    ||| mask == A_OVERLINE
    ||| mask == A_REVERSE
    ||| mask == A_RIGHTLINE
    ||| mask == A_STRIKEOUT
    ||| mask == A_UNDERLINE
}

/// The bits that select colour pair `n` inside the raw mask.
pub open spec fn spec_color_pair_bits(n: chtype) -> chtype {
    (n << COLOR_SHIFT) & A_COLOR
}

/// One named text style, or the selection of a colour pair.
#[derive(Copy, Clone, Debug, PartialEq, Eq, Hash, Structural)]
pub enum Attribute {
    AlternativeCharSet,
    Bold,
    Blink,
    CharText,
    Dim,
    Leftline,
    Invisible,
    Italic,
    Normal,
    Overline,
    Reverse,
    Rightline,
    Strikeout,
    Underline,
    ColorPair(chtype),
}

/// A set of text styles packed as the terminal's raw bitmask, together
/// with the colour-pair number most recently assigned.
#[derive(Copy, Clone, Debug, PartialEq, Eq, Hash, Structural)]
pub struct Attributes {
    raw: chtype,
    color_pair: chtype,
}

impl Attributes {
    /// The raw packed bitmask.
    pub closed spec fn spec_raw(self) -> chtype {
        self.raw
    }

    /// The colour-pair number most recently assigned.
    pub closed spec fn spec_color_pair(self) -> chtype {
        self.color_pair
    }

    /// The value whose raw mask and colour-pair number are the ones given.
    pub closed spec fn spec_build(raw: chtype, color_pair: chtype) -> Attributes {
        Attributes { raw, color_pair }
    }

    /// Whether any bit of `mask` is set in the raw mask.
    pub open spec fn spec_has(self, mask: chtype) -> bool {
        self.spec_raw() & mask != 0
    }

    /// Whether no style bit at all is set.
    pub open spec fn spec_is_normal(self) -> bool {
        self.spec_raw() == 0
    }

    /// An empty attribute set: no style bits, colour pair zero.
    pub fn new() -> (r: Attributes)
        ensures
            r.spec_raw() == 0,
            r.spec_color_pair() == 0,
    {
        Attributes { raw: 0, color_pair: 0 }
    }

    /// Whether the alternative-character-set bit is set.
    pub fn is_alternative_char_set(&self) -> (r: bool)
        ensures
            r == self.spec_has(A_ALTCHARSET),
    {
        (self.raw & A_ALTCHARSET) > 0
    }

    /// Sets the alternative-character-set bit when `enabled`; clears it otherwise.
    pub fn set_alternative_char_set(&mut self, enabled: bool)
        ensures
            final(self).spec_raw() == (if enabled {
                old(self).spec_raw() | A_ALTCHARSET
            } else {
                old(self).spec_raw() & !A_ALTCHARSET
            }),
            final(self).spec_color_pair() == old(self).spec_color_pair(),
    {
        if enabled {
            self.raw = self.raw | A_ALTCHARSET;
        } else {
            self.raw = self.raw & !A_ALTCHARSET;
        }
    }

    /// Whether the bold bit is set.
    pub fn is_bold(&self) -> (r: bool)
        ensures
            r == self.spec_has(A_BOLD),
    {
        (self.raw & A_BOLD) > 0
    }

    /// Sets the bold bit when `enabled`; clears it otherwise.
    pub fn set_bold(&mut self, enabled: bool)
        ensures
            final(self).spec_raw() == (if enabled {
                old(self).spec_raw() | A_BOLD
            } else {
                old(self).spec_raw() & !A_BOLD
            }),
            final(self).spec_color_pair() == old(self).spec_color_pair(),
    {
        if enabled {
            self.raw = self.raw | A_BOLD;
        } else {
            self.raw = self.raw & !A_BOLD;
        }
    }

    /// Whether the blink bit is set.
    pub fn is_blink(&self) -> (r: bool)
        ensures
            r == self.spec_has(A_BLINK),
    {
        (self.raw & A_BLINK) > 0
    }

    /// Sets the blink bit when `enabled`; clears it otherwise.
    pub fn set_blink(&mut self, enabled: bool)
        ensures
            final(self).spec_raw() == (if enabled {
                old(self).spec_raw() | A_BLINK
            } else {
                old(self).spec_raw() & !A_BLINK
            }),
            final(self).spec_color_pair() == old(self).spec_color_pair(),
    {
        if enabled {
            self.raw = self.raw | A_BLINK;
        } else {
            self.raw = self.raw & !A_BLINK;
        }
    }

    /// Whether the character-text bit is set.
    pub fn is_char_text(&self) -> (r: bool)
        ensures
            r == self.spec_has(A_CHARTEXT),
    {
        (self.raw & A_CHARTEXT) > 0
    }

    /// Sets the character-text bit when `enabled`; clears it otherwise.
    pub fn set_char_text(&mut self, enabled: bool)
        ensures
            final(self).spec_raw() == (if enabled {
                old(self).spec_raw() | A_CHARTEXT
            } else {
                old(self).spec_raw() & !A_CHARTEXT
            }),
            final(self).spec_color_pair() == old(self).spec_color_pair(),
    {
        if enabled {
            self.raw = self.raw | A_CHARTEXT;
        } else {
            self.raw = self.raw & !A_CHARTEXT;
        }
    }

    /// Whether the dim bit is set.
    pub fn is_dim(&self) -> (r: bool)
        ensures
            r == self.spec_has(A_DIM),
    {
        (self.raw & A_DIM) > 0
    }

    /// Sets the dim bit when `enabled`; clears it otherwise.
    pub fn set_dim(&mut self, enabled: bool)
        ensures
            final(self).spec_raw() == (if enabled {
                old(self).spec_raw() | A_DIM
            } else {
                old(self).spec_raw() & !A_DIM
            }),
            final(self).spec_color_pair() == old(self).spec_color_pair(),
    {
        if enabled {
            self.raw = self.raw | A_DIM;
        } else {
            self.raw = self.raw & !A_DIM;
        }
    }

    /// Whether the leftline bit is set.
    pub fn is_leftline(&self) -> (r: bool)
        ensures
            r == self.spec_has(A_LEFTLINE),
    {
        (self.raw & A_LEFTLINE) > 0
    }

    /// Sets the leftline bit when `enabled`; clears it otherwise.
    pub fn set_leftline(&mut self, enabled: bool)
        ensures
            final(self).spec_raw() == (if enabled {
                old(self).spec_raw() | A_LEFTLINE
            } else {
                old(self).spec_raw() & !A_LEFTLINE
            }),
            final(self).spec_color_pair() == old(self).spec_color_pair(),
    {
        if enabled {
            self.raw = self.raw | A_LEFTLINE;
        } else {
            self.raw = self.raw & !A_LEFTLINE;
        }
    }

    /// Whether the invisible bit is set.
    pub fn is_invisible(&self) -> (r: bool)
        ensures
            r == self.spec_has(A_INVIS),
    {
        (self.raw & A_INVIS) > 0
    }

    /// Sets the invisible bit when `enabled`; clears it otherwise.
    pub fn set_invisible(&mut self, enabled: bool)
        ensures
            final(self).spec_raw() == (if enabled {
                old(self).spec_raw() | A_INVIS
            } else {
                old(self).spec_raw() & !A_INVIS
            }),
            final(self).spec_color_pair() == old(self).spec_color_pair(),
    {
        if enabled {
            self.raw = self.raw | A_INVIS;
        } else {
            self.raw = self.raw & !A_INVIS;
        }
    }

    /// Whether the italic bit is set.
    pub fn is_italic(&self) -> (r: bool)
        ensures
            r == self.spec_has(A_ITALIC),
    {
        (self.raw & A_ITALIC) > 0
    }

    /// Sets the italic bit when `enabled`; clears it otherwise.
    pub fn set_italic(&mut self, enabled: bool)
        ensures
            final(self).spec_raw() == (if enabled {
                old(self).spec_raw() | A_ITALIC
            } else {
                old(self).spec_raw() & !A_ITALIC
            }),
            final(self).spec_color_pair() == old(self).spec_color_pair(),
    {
        if enabled {
            self.raw = self.raw | A_ITALIC;
        } else {
            self.raw = self.raw & !A_ITALIC;
        }
    }

    /// Whether no style bit at all is set.
    pub fn is_normal(&self) -> (r: bool)
        ensures
            r == self.spec_is_normal(),
    {
        self.raw == 0
    }

    /// Clears every style bit; the colour-pair number is left as it was.
    pub fn set_normal(&mut self)
        ensures
            final(self).spec_raw() == 0,
            final(self).spec_color_pair() == old(self).spec_color_pair(),
    {
        self.raw = 0
    }

    /// Whether the overline bit is set.
    pub fn is_overline(&self) -> (r: bool)
        ensures
            r == self.spec_has(A_OVERLINE),
    {
        (self.raw & A_OVERLINE) > 0
    }

    /// Sets the overline bit when `enabled`; clears it otherwise.
    pub fn set_overline(&mut self, enabled: bool)
        ensures
            final(self).spec_raw() == (if enabled {
                old(self).spec_raw() | A_OVERLINE
            } else {
                old(self).spec_raw() & !A_OVERLINE
            }),
            final(self).spec_color_pair() == old(self).spec_color_pair(),
    {
        if enabled {
            self.raw = self.raw | A_OVERLINE;
        } else {
            self.raw = self.raw & !A_OVERLINE;
        }
    }

    /// Whether the reverse-video bit is set.
    pub fn is_reverse(&self) -> (r: bool)
        ensures
            r == self.spec_has(A_REVERSE),
    {
        (self.raw & A_REVERSE) > 0
    }

    /// Sets the reverse-video bit when `enabled`; clears it otherwise.
    pub fn set_reverse(&mut self, enabled: bool)
        ensures
            final(self).spec_raw() == (if enabled {
                old(self).spec_raw() | A_REVERSE
            } else {
                old(self).spec_raw() & !A_REVERSE
            }),
            final(self).spec_color_pair() == old(self).spec_color_pair(),
    {
        if enabled {
            self.raw = self.raw | A_REVERSE;
        } else {
            self.raw = self.raw & !A_REVERSE;
        }
    }

    /// Whether the rightline bit is set.
    pub fn is_rightline(&self) -> (r: bool)
        ensures
            r == self.spec_has(A_RIGHTLINE),
    {
        (self.raw & A_RIGHTLINE) > 0
    }

    /// Sets the rightline bit when `enabled`; clears it otherwise.
    pub fn set_rightline(&mut self, enabled: bool)
        ensures
            final(self).spec_raw() == (if enabled {
                old(self).spec_raw() | A_RIGHTLINE
            } else {
                old(self).spec_raw() & !A_RIGHTLINE
            }),
            final(self).spec_color_pair() == old(self).spec_color_pair(),
    {
        if enabled {
            self.raw = self.raw | A_RIGHTLINE;
        } else {
            self.raw = self.raw & !A_RIGHTLINE;
        }
    }

    /// Whether the strikeout bit is set.
    pub fn is_strikeout(&self) -> (r: bool)
        ensures
            r == self.spec_has(A_STRIKEOUT),
    {
        (self.raw & A_STRIKEOUT) > 0
    }

    /// Sets the strikeout bit when `enabled`; clears it otherwise.
    pub fn set_strikeout(&mut self, enabled: bool)
        ensures
            final(self).spec_raw() == (if enabled {
                old(self).spec_raw() | A_STRIKEOUT
            } else {
                old(self).spec_raw() & !A_STRIKEOUT
            }),
            final(self).spec_color_pair() == old(self).spec_color_pair(),
    {
        if enabled {
            self.raw = self.raw | A_STRIKEOUT;
        } else {
            self.raw = self.raw & !A_STRIKEOUT;
        }
    }

    /// Whether the underline bit is set.
    pub fn is_underline(&self) -> (r: bool)
        ensures
            r == self.spec_has(A_UNDERLINE),
    {
        (self.raw & A_UNDERLINE) > 0
    }

    /// Sets the underline bit when `enabled`; clears it otherwise.
    pub fn set_underline(&mut self, enabled: bool)
        ensures
            final(self).spec_raw() == (if enabled {
                old(self).spec_raw() | A_UNDERLINE
            } else {
                old(self).spec_raw() & !A_UNDERLINE
            }),
            final(self).spec_color_pair() == old(self).spec_color_pair(),
    {
        if enabled {
            self.raw = self.raw | A_UNDERLINE;
        } else {
            self.raw = self.raw & !A_UNDERLINE;
        }
    }

    /// The colour-pair number most recently assigned.
    pub fn color_pair(&self) -> (r: chtype)
        ensures
            r == self.spec_color_pair(),
    {
        self.color_pair
    }

    /// Assigns colour pair `color_pair`: its field bits are OR-ed into the
    /// raw mask and the number itself is recorded for `color_pair`.
    pub fn set_color_pair(&mut self, color_pair: chtype)
        ensures
            final(self).spec_raw() == old(self).spec_raw() | spec_color_pair_bits(color_pair),
            final(self).spec_color_pair() == color_pair,
    {
        self.raw = self.raw | ((color_pair << COLOR_SHIFT) & A_COLOR);
        self.color_pair = color_pair;
    }
}

/// The bits a single attribute contributes to the raw mask; zero for
/// `Normal`, which clears instead of adding.
pub open spec fn spec_attribute_mask(a: Attribute) -> chtype {
    match a {
        Attribute::AlternativeCharSet => A_ALTCHARSET,
        Attribute::Bold => A_BOLD,
        Attribute::Blink => A_BLINK,
        Attribute::CharText => A_CHARTEXT,
        Attribute::Dim => A_DIM,
        Attribute::Leftline => A_LEFTLINE,
        Attribute::Invisible => A_INVIS,
        Attribute::Italic => A_ITALIC,
        Attribute::Normal => 0,
        Attribute::Overline => A_OVERLINE,
        Attribute::Reverse => A_REVERSE,
        Attribute::Rightline => A_RIGHTLINE,
        Attribute::Strikeout => A_STRIKEOUT,
        Attribute::Underline => A_UNDERLINE,
        Attribute::ColorPair(n) => spec_color_pair_bits(n),
    }
}

/// The set got by adding one attribute to `s`: `Normal` clears every style
/// bit, `ColorPair(n)` assigns colour pair `n`, and any other attribute
/// ORs its bit into the raw mask.
pub open spec fn spec_or_attribute(s: Attributes, a: Attribute) -> Attributes {
    match a {
        Attribute::Normal => Attributes::spec_build(0, s.spec_color_pair()),
        Attribute::ColorPair(n) => Attributes::spec_build(
            s.spec_raw() | spec_color_pair_bits(n),
            n,
        ),
        _ => Attributes::spec_build(s.spec_raw() | spec_attribute_mask(a), s.spec_color_pair()),
    }
}

/// The bitwise union of two attribute sets: of the raw masks and of the
/// colour-pair numbers.
pub open spec fn spec_union(a: Attributes, b: Attributes) -> Attributes {
    Attributes::spec_build(
        a.spec_raw() | b.spec_raw(),
        a.spec_color_pair() | b.spec_color_pair(),
    )
}

/// `attributes | attribute` adds one attribute to the set: `Normal` clears
/// every style bit, `ColorPair(n)` assigns colour pair `n`, and any other
/// attribute ORs its bit into the raw mask.
impl core::ops::BitOr<Attribute> for Attributes {
    type Output = Attributes;

    fn bitor(self, rhs: Attribute) -> Attributes {
        let mut r = self;
        match rhs {
            Attribute::AlternativeCharSet => r.set_alternative_char_set(true),
            Attribute::Bold => r.set_bold(true),
            Attribute::Blink => r.set_blink(true),
            Attribute::CharText => r.set_char_text(true),
            Attribute::Dim => r.set_dim(true),
            Attribute::Leftline => r.set_leftline(true),
            Attribute::Invisible => r.set_invisible(true),
            Attribute::Italic => r.set_italic(true),
            Attribute::Normal => r.set_normal(),
            Attribute::Overline => r.set_overline(true),
            Attribute::Reverse => r.set_reverse(true),
            Attribute::Rightline => r.set_rightline(true),
            Attribute::Strikeout => r.set_strikeout(true),
            Attribute::Underline => r.set_underline(true),
            Attribute::ColorPair(num) => r.set_color_pair(num),
        }
        r
    }
}

impl vstd::std_specs::ops::BitOrSpecImpl<Attribute> for Attributes {
    open spec fn obeys_bitor_spec() -> bool {
        true
    }

    open spec fn bitor_req(self, rhs: Attribute) -> bool {
        true
    }

    open spec fn bitor_spec(self, rhs: Attribute) -> Attributes {
        spec_or_attribute(self, rhs)
    }
}

/// `attributes | attributes` is the bitwise union: of the raw masks and of
/// the colour-pair numbers.
impl core::ops::BitOr<Attributes> for Attributes {
    type Output = Attributes;

    fn bitor(self, rhs: Attributes) -> Attributes {
        Attributes { raw: self.raw | rhs.raw, color_pair: self.color_pair | rhs.color_pair }
    }
}

impl vstd::std_specs::ops::BitOrSpecImpl<Attributes> for Attributes {
    open spec fn obeys_bitor_spec() -> bool {
        true
    }

    open spec fn bitor_req(self, rhs: Attributes) -> bool {
        true
    }

    open spec fn bitor_spec(self, rhs: Attributes) -> Attributes {
        spec_union(self, rhs)
    }
}

/// `attribute | attribute` combines two single attributes into a set,
/// starting from the empty set.
impl core::ops::BitOr<Attribute> for Attribute {
    type Output = Attributes;

    fn bitor(self, rhs: Attribute) -> Attributes {
        Attributes::new() | self | rhs
    }
}

impl vstd::std_specs::ops::BitOrSpecImpl<Attribute> for Attribute {
    open spec fn obeys_bitor_spec() -> bool {
        true
    }

    open spec fn bitor_req(self, rhs: Attribute) -> bool {
        true
    }

    open spec fn bitor_spec(self, rhs: Attribute) -> Attributes {
        spec_or_attribute(spec_or_attribute(Attributes::spec_build(0, 0), self), rhs)
    }
}

/// An `Attribute` converts to the set holding just that attribute.
impl From<Attribute> for Attributes {
    fn from(attribute: Attribute) -> Attributes {
        Attributes::new() | attribute
    }
}

impl vstd::std_specs::convert::FromSpecImpl<Attribute> for Attributes {
    open spec fn obeys_from_spec() -> bool {
        true
    }

    open spec fn from_spec(attribute: Attribute) -> Attributes {
        spec_or_attribute(Attributes::spec_build(0, 0), attribute)
    }
}

/// An attribute set converts to the packed word the terminal takes: its
/// raw mask.
impl From<Attributes> for chtype {
    fn from(attributes: Attributes) -> chtype {
        attributes.raw
    }
}

impl vstd::std_specs::convert::FromSpecImpl<Attributes> for chtype {
    open spec fn obeys_from_spec() -> bool {
        true
    }

    open spec fn from_spec(attributes: Attributes) -> chtype {
        attributes.spec_raw()
    }
}

/// A single attribute converts to the packed word of the set holding just
/// that attribute.
impl From<Attribute> for chtype {
    fn from(attribute: Attribute) -> chtype {
        chtype::from(Attributes::from(attribute))
    }
}

impl vstd::std_specs::convert::FromSpecImpl<Attribute> for chtype {
    open spec fn obeys_from_spec() -> bool {
        true
    }

    open spec fn from_spec(attribute: Attribute) -> chtype {
        spec_or_attribute(Attributes::spec_build(0, 0), attribute).spec_raw()
    }
}

/// Two attribute sets whose raw masks and colour-pair numbers agree are
/// the same value.
pub proof fn lemma_attributes_ext(a: Attributes, b: Attributes)
    requires
        a.spec_raw() == b.spec_raw(),
        a.spec_color_pair() == b.spec_color_pair(),
    ensures
        a == b,
{
}

/// `spec_build` reads back the raw mask and colour-pair number it was given.
pub broadcast proof fn lemma_build(raw: chtype, color_pair: chtype)
    ensures
        (#[trigger] Attributes::spec_build(raw, color_pair)).spec_raw() == raw,
        Attributes::spec_build(raw, color_pair).spec_color_pair() == color_pair,
{
}

/// Setting a single style bit and then querying it round-trips: after the
/// update a setter makes, the matching query reports exactly what was
/// asked, whatever the bit held before.
pub proof fn lemma_set_then_query(before: Attributes, after: Attributes, mask: chtype, enabled: bool)
    requires
        is_attribute_bit(mask),
        after.spec_raw() == (if enabled {
            before.spec_raw() | mask
        } else {
            before.spec_raw() & !mask
        }),
    ensures
        after.spec_has(mask) == enabled,
{
    let braw = before.spec_raw();
    assert((if enabled {
        braw | mask
    } else {
        braw & !mask
    }) & mask != 0 <==> enabled) by (bit_vector)
        requires
            is_attribute_bit(mask),
    ;
}

/// OR-combining two attribute sets is the bitwise union of the underlying
/// raw masks, and of the colour-pair numbers.
pub proof fn lemma_union_is_bitwise_union(a: Attributes, b: Attributes)
    ensures
        spec_union(a, b).spec_raw() == a.spec_raw() | b.spec_raw(),
        spec_union(a, b).spec_color_pair() == a.spec_color_pair() | b.spec_color_pair(),
{
}

/// A mask is present in a union of two attribute sets exactly when it is
/// present in at least one of them.
pub proof fn lemma_union_has(a: Attributes, b: Attributes, mask: chtype)
    ensures
        spec_union(a, b).spec_has(mask) == (a.spec_has(mask) || b.spec_has(mask)),
{
    let x = a.spec_raw();
    let y = b.spec_raw();
    assert(((x | y) & mask != 0) == (x & mask != 0 || y & mask != 0)) by (bit_vector);
}

/// A normal attribute set — raw mask zero, as `set_normal` leaves it —
/// has no bit of any mask set.
pub proof fn lemma_normal_has_nothing(a: Attributes)
    requires
        a.spec_is_normal(),
    ensures
        forall|mask: chtype| !a.spec_has(mask),
{
    assert forall|mask: chtype| !a.spec_has(mask) by {
        assert(0u64 & mask == 0) by (bit_vector);
    }
}

/// Assigning the same colour pair twice leaves the same value as
/// assigning it once.
pub proof fn lemma_set_color_pair_idempotent(
    a: Attributes,
    once: Attributes,
    twice: Attributes,
    n: chtype,
)
    requires
        once.spec_raw() == a.spec_raw() | spec_color_pair_bits(n),
        once.spec_color_pair() == n,
        twice.spec_raw() == once.spec_raw() | spec_color_pair_bits(n),
        twice.spec_color_pair() == n,
    ensures
        twice == once,
{
    let x = a.spec_raw();
    let bits = spec_color_pair_bits(n);
    assert((x | bits) | bits == x | bits) by (bit_vector);
    lemma_attributes_ext(twice, once);
}

/// Every style mask is a single nonzero bit, two different style masks
/// never share a bit, and no style bit lies in the colour field.
pub proof fn lemma_style_bits_disjoint(m1: chtype, m2: chtype)
    requires
        is_attribute_bit(m1),
        is_attribute_bit(m2),
        m1 != m2,
    ensures
        m1 != 0,
        m1 & m2 == 0,
        m1 & A_COLOR == 0,
{
    assert(m1 != 0 && m1 & m2 == 0 && m1 & A_COLOR == 0) by (bit_vector)
        requires
            is_attribute_bit(m1),
            is_attribute_bit(m2),
            m1 != m2,
    ;
}

/// Assigning a colour pair changes no style bit: the colour field and the
/// thirteen style bits do not overlap in the raw mask.
pub proof fn lemma_color_pair_preserves_styles(
    a: Attributes,
    after: Attributes,
    n: chtype,
    mask: chtype,
)
    requires
        is_attribute_bit(mask),
        after.spec_raw() == a.spec_raw() | spec_color_pair_bits(n),
    ensures
        after.spec_has(mask) == a.spec_has(mask),
{
    let x = a.spec_raw();
    assert(((x | spec_color_pair_bits(n)) & mask != 0) == (x & mask != 0)) by (bit_vector)
        requires
            is_attribute_bit(mask),
    ;
}

} // verus!
