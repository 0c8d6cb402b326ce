use curses_attrs::attributes::{
    chtype, Attribute, Attributes, A_ALTCHARSET, A_BLINK, A_BOLD, A_CHARTEXT, A_COLOR, A_DIM,
    A_INVIS, A_ITALIC, A_LEFTLINE, A_OVERLINE, A_REVERSE, A_RIGHTLINE, A_STRIKEOUT, A_UNDERLINE,
    COLOR_SHIFT,
};

#[test]
fn new_is_empty() {
    let a = Attributes::new();
    assert!(a.is_normal());
    assert_eq!(a.color_pair(), 0);
    assert_eq!(chtype::from(a), 0);
    assert!(!a.is_bold());
    assert!(!a.is_underline());
}

#[test]
fn set_then_query_each_attribute() {
    let mut a = Attributes::new();
    a.set_alternative_char_set(true);
    assert!(a.is_alternative_char_set());
    let mut a = Attributes::new();
    a.set_bold(true);
    assert!(a.is_bold());
    let mut a = Attributes::new();
    a.set_blink(true);
    assert!(a.is_blink());
    let mut a = Attributes::new();
    a.set_char_text(true);
    assert!(a.is_char_text());
    let mut a = Attributes::new();
    a.set_dim(true);
    assert!(a.is_dim());
    let mut a = Attributes::new();
    a.set_leftline(true);
    assert!(a.is_leftline());
    let mut a = Attributes::new();
    a.set_invisible(true);
    assert!(a.is_invisible());
    let mut a = Attributes::new();
    a.set_italic(true);
    assert!(a.is_italic());
    let mut a = Attributes::new();
    a.set_overline(true);
    assert!(a.is_overline());
    let mut a = Attributes::new();
    a.set_reverse(true);
    assert!(a.is_reverse());
    let mut a = Attributes::new();
    a.set_rightline(true);
    assert!(a.is_rightline());
    let mut a = Attributes::new();
    a.set_strikeout(true);
    assert!(a.is_strikeout());
    let mut a = Attributes::new();
    a.set_underline(true);
    assert!(a.is_underline());
}

#[test]
fn setting_one_attribute_leaves_the_others_clear() {
    let mut a = Attributes::new();
    a.set_bold(true);
    assert!(!a.is_blink());
    assert!(!a.is_reverse());
    assert!(!a.is_italic());
    assert!(!a.is_normal());
}

#[test]
fn disabling_a_set_attribute_clears_it() {
    let mut a = Attributes::new();
    a.set_bold(true);
    a.set_bold(false);
    assert!(!a.is_bold());
    assert!(a.is_normal());
}

#[test]
fn disabling_an_unset_attribute_leaves_it_clear() {
    let mut a = Attributes::new();
    a.set_underline(false);
    assert!(!a.is_underline());
    assert!(a.is_normal());
}

#[test]
fn disabling_one_attribute_leaves_the_others_set() {
    let mut a = Attributes::new();
    a.set_bold(true);
    a.set_blink(true);
    a.set_blink(false);
    assert!(a.is_bold());
    assert!(!a.is_blink());
}

#[test]
fn or_single_attribute() {
    let mut attributes = Attributes::new();
    assert!(!attributes.is_bold());
    attributes = attributes | Attribute::Bold;
    assert!(attributes.is_bold());
    assert!(!attributes.is_blink());
}

#[test]
fn or_attribute_sets_is_bitwise_union() {
    let attributes = Attributes::new() | Attribute::Bold;
    let other = Attributes::new() | Attribute::Reverse;
    let both = attributes | other;
    assert!(both.is_bold());
    assert!(both.is_reverse());
    assert!(!both.is_italic());
    assert_eq!(
        chtype::from(both),
        chtype::from(attributes) | chtype::from(other)
    );
}

#[test]
fn union_of_color_pairs_is_bitwise() {
    let mut a = Attributes::new();
    a.set_color_pair(1);
    let mut b = Attributes::new();
    b.set_color_pair(2);
    let u = a | b;
    assert_eq!(u.color_pair(), 3);
}

#[test]
fn or_two_attributes_builds_a_set() {
    let attributes = Attribute::Blink | Attribute::Reverse;
    assert!(!attributes.is_bold());
    assert!(attributes.is_blink());
    assert!(attributes.is_reverse());
}

#[test]
fn normal_clears_all_attributes() {
    let mut a = Attributes::new();
    a.set_bold(true);
    a.set_blink(true);
    a.set_underline(true);
    a.set_normal();
    assert!(a.is_normal());
    assert!(!a.is_bold());
    assert!(!a.is_blink());
    assert!(!a.is_underline());
    assert_eq!(chtype::from(a), 0);
}

#[test]
fn or_normal_clears_but_keeps_color_pair_number() {
    let mut a = Attributes::new();
    a.set_color_pair(4);
    a.set_bold(true);
    let cleared = a | Attribute::Normal;
    assert!(cleared.is_normal());
    assert!(!cleared.is_bold());
    assert_eq!(cleared.color_pair(), 4);
}

#[test]
fn color_pair_is_recorded_and_retrievable() {
    let mut a = Attributes::new();
    a.set_color_pair(5);
    assert_eq!(a.color_pair(), 5);
    // The raw mask carries the pair in its colour field, apart from the
    // style bits.
    assert_eq!(chtype::from(a), (5 << COLOR_SHIFT) & A_COLOR);
    assert!(!a.is_bold());
}

#[test]
fn color_pair_assignment_is_idempotent() {
    let mut once = Attributes::new();
    once.set_color_pair(7);
    let mut twice = once;
    twice.set_color_pair(7);
    assert_eq!(once, twice);
    assert_eq!(chtype::from(once), chtype::from(twice));
    assert_eq!(once.color_pair(), twice.color_pair());
}

#[test]
fn color_pair_via_or_operator() {
    let a = Attributes::new() | Attribute::ColorPair(9);
    assert_eq!(a.color_pair(), 9);
}

#[test]
fn color_pair_leaves_styles_alone() {
    let mut a = Attributes::new();
    a.set_bold(true);
    a.set_color_pair(6);
    assert!(a.is_bold());
    assert!(!a.is_blink());
    assert_eq!(a.color_pair(), 6);
}

#[test]
fn attribute_converts_to_singleton_set() {
    let a = Attributes::from(Attribute::Underline);
    assert!(a.is_underline());
    assert!(!a.is_bold());
    assert_eq!(a.color_pair(), 0);
}

#[test]
fn conversions_to_chtype_expose_the_masks() {
    assert_eq!(chtype::from(Attribute::AlternativeCharSet), A_ALTCHARSET);
    assert_eq!(chtype::from(Attribute::Bold), A_BOLD);
    assert_eq!(chtype::from(Attribute::Blink), A_BLINK);
    assert_eq!(chtype::from(Attribute::CharText), A_CHARTEXT);
    assert_eq!(chtype::from(Attribute::Dim), A_DIM);
    assert_eq!(chtype::from(Attribute::Leftline), A_LEFTLINE);
    assert_eq!(chtype::from(Attribute::Invisible), A_INVIS);
    assert_eq!(chtype::from(Attribute::Italic), A_ITALIC);
    assert_eq!(chtype::from(Attribute::Normal), 0);
    assert_eq!(chtype::from(Attribute::Overline), A_OVERLINE);
    assert_eq!(chtype::from(Attribute::Reverse), A_REVERSE);
    assert_eq!(chtype::from(Attribute::Rightline), A_RIGHTLINE);
    assert_eq!(chtype::from(Attribute::Strikeout), A_STRIKEOUT);
    assert_eq!(chtype::from(Attribute::Underline), A_UNDERLINE);
    assert_eq!(
        chtype::from(Attribute::ColorPair(2)),
        (2 << COLOR_SHIFT) & A_COLOR
    );
}

#[test]
fn style_masks_are_distinct_single_bits() {
    let masks = [
        A_ALTCHARSET,
        A_BOLD,
        A_BLINK,
        A_CHARTEXT,
        A_DIM,
        A_LEFTLINE,
        A_INVIS,
        A_ITALIC,
        A_OVERLINE,
        A_REVERSE,
        A_RIGHTLINE,
        A_STRIKEOUT,
        A_UNDERLINE,
    ];
    for (i, m) in masks.iter().enumerate() {
        assert_eq!(m.count_ones(), 1);
        assert_eq!(m & A_COLOR, 0);
        for n in &masks[i + 1..] {
            assert_eq!(m & n, 0);
        }
    }
}
