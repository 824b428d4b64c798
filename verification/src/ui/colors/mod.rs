//! Colours of the interface: hex colours, the Material Design palette, and
//! the theme that the configuration can override.
pub mod material;

use vstd::prelude::*;
use vstd::string::StrSliceExecFns;

use material::{MATERIAL_COLOR_COUNT, material_entry, spec_material_entry};

verus! {

/// A colour written as `#rrggbb`.
#[derive(Debug, Clone, Copy, PartialEq, Eq)]
pub struct HexColor(pub &'static str);

/// Whether `c` is a hexadecimal digit (`0-9`, `a-f`, `A-F`).
pub open spec fn is_hex_digit(c: char) -> bool {
    ('0' <= c && c <= '9') || ('a' <= c && c <= 'f') || ('A' <= c && c <= 'F')
}

/// Whether `t` is `#` followed by six hexadecimal digits.
pub open spec fn is_hex_color_text(t: Seq<char>) -> bool {
    &&& t.len() == 7
    &&& t[0] == '#'
    &&& forall|i: int| 1 <= i < 7 ==> is_hex_digit(#[trigger] t[i])
}

/// ASCII lower case of a character (other characters are unchanged).
pub open spec fn ascii_lower(c: char) -> char {
    if 'A' <= c && c <= 'Z' {
        ((c as u32) + 32) as char
    } else {
        c
    }
}

/// ASCII lower case of a text.
pub open spec fn ascii_lower_text(t: Seq<char>) -> Seq<char> {
    t.map_values(|c: char| ascii_lower(c))
}

/// The colour that the palette names `name`, looking from table position `i` on.
pub open spec fn spec_material_lookup_from(name: Seq<char>, i: int) -> Option<HexColor>
    decreases MATERIAL_COLOR_COUNT - i,
{
    if i < 0 || i >= MATERIAL_COLOR_COUNT {
        None
    } else if spec_material_entry(i).0@ == name {
        Some(spec_material_entry(i).1)
    } else {
        spec_material_lookup_from(name, i + 1)
    }
}

/// The colour that the palette names `name` (the first entry of that name).
pub open spec fn spec_material_lookup(name: Seq<char>) -> Option<HexColor> {
    spec_material_lookup_from(name, 0)
}

/// What [`HexColor::parse`] returns for `s`: a text of 7 bytes starting with
/// `#` is taken as a hex colour and kept if it is one; any other text is
/// looked up, ASCII lower-cased, as a palette name, and the palette's colour
/// is kept if it is a hex colour.
pub open spec fn spec_parse(s: &'static str) -> Option<HexColor> {
    if s.len() == 7 && s@.len() > 0 && s@[0] == '#' {
        if is_hex_color_text(s@) {
            Some(HexColor(s))
        } else {
            None
        }
    } else {
        match spec_material_lookup(ascii_lower_text(s@)) {
            Some(c) => if is_hex_color_text(c.0@) {
                Some(c)
            } else {
                None
            },
            None => None,
        }
    }
}

fn is_hex_digit_char(c: char) -> (r: bool)
    ensures
        r == is_hex_digit(c),
{
    ('0' <= c && c <= '9') || ('a' <= c && c <= 'f') || ('A' <= c && c <= 'F')
}

fn ascii_lower_char(c: char) -> (r: char)
    ensures
        r == ascii_lower(c),
{
    if 'A' <= c && c <= 'Z' {
        let b = c as u8;
        assert(b as int == c as int);
        ((b + 32) as char)
    } else {
        c
    }
}

/// Whether `t` is `#` followed by six hexadecimal digits.
fn is_hex_color_str(t: &str) -> (r: bool)
    ensures
        r == is_hex_color_text(t@),
{
    if t.unicode_len() != 7 {
        return false;
    }
    if t.get_char(0) != '#' {
        return false;
    }
    let mut i: usize = 1;
    while i < 7
        invariant
            t@.len() == 7,
            t@[0] == '#',
            1 <= i <= 7,
            forall|k: int| 1 <= k < i ==> is_hex_digit(#[trigger] t@[k]),
        decreases 7 - i,
    {
        if !is_hex_digit_char(t.get_char(i)) {
            return false;
        }
        i = i + 1;
    }
    true
}

/// Whether the characters `a` spell the text `b`.
fn chars_equal_str(a: &Vec<char>, b: &str) -> (r: bool)
    ensures
        r == (a@ == b@),
{
    let n = b.unicode_len();
    if a.len() != n {
        return false;
    }
    let mut i: usize = 0;
    while i < n
        invariant
            n == b@.len(),
            a@.len() == n,
            i <= n,
            forall|k: int| 0 <= k < i ==> a@[k] == b@[k],
        decreases n - i,
    {
        if a[i] != b.get_char(i) {
            return false;
        }
        i = i + 1;
    }
    assert(a@ =~= b@);
    true
}

/// The palette colour named `name`.
fn material_lookup(name: &Vec<char>) -> (r: Option<HexColor>)
    ensures
        r == spec_material_lookup(name@),
{
    let mut i: usize = 0;
    while i < MATERIAL_COLOR_COUNT
        invariant
            i <= MATERIAL_COLOR_COUNT,
            spec_material_lookup(name@) == spec_material_lookup_from(name@, i as int),
        decreases MATERIAL_COLOR_COUNT - i,
    {
        let (entry_name, color) = material_entry(i);
        if chars_equal_str(name, entry_name) {
            return Some(color);
        }
        i = i + 1;
    }
    None
}

impl HexColor {
    /// Parses a colour: a hex string like `#ff0000`, or a palette colour
    /// name like `red_500` or `LIGHT_BLUE_100`. Returns `None` if the text is
    /// neither (see [`spec_parse`]).
    pub fn parse(s: &'static str) -> (r: Option<Self>)
        ensures
            r == spec_parse(s),
    {
        let n = s.unicode_len();
        if s.len() == 7 && n > 0 && s.get_char(0) == '#' {
            if is_hex_color_str(s) {
                Some(HexColor(s))
            } else {
                None
            }
        } else {
            let mut lowered: Vec<char> = Vec::new();
            let mut i: usize = 0;
            while i < n
                invariant
                    n == s@.len(),
                    i <= n,
                    lowered@ == ascii_lower_text(s@.subrange(0, i as int)),
                decreases n - i,
            {
                let c = ascii_lower_char(s.get_char(i));
                lowered.push(c);
                i = i + 1;
                assert(lowered@ =~= ascii_lower_text(s@.subrange(0, i as int)));
            }
            assert(s@.subrange(0, n as int) =~= s@);
            match material_lookup(&lowered) {
                Some(c) => if is_hex_color_str(c.0) {
                    Some(c)
                } else {
                    None
                },
                None => None,
            }
        }
    }
}

} // verus!

verus! {

/// What [`HexColor::parse`] gives for a text, as the colour's text: see
/// [`spec_parse`].
pub open spec fn spec_parse_text(t: Seq<char>) -> Option<Seq<char>> {
    if (vstd::utf8::encode_utf8(t).len() as usize) == 7 && t.len() > 0 && t[0] == '#' {
        if is_hex_color_text(t) {
            Some(t)
        } else {
            None
        }
    } else {
        match spec_material_lookup(ascii_lower_text(t)) {
            Some(c) => if is_hex_color_text(c.0@) {
                Some(c.0@)
            } else {
                None
            },
            None => None,
        }
    }
}

/// The text of the colour a setting gives: the parsed setting if it parses,
/// otherwise the default.
pub open spec fn spec_configured(setting: Option<String>, default: Seq<char>) -> Seq<char> {
    match setting {
        Some(s) => match spec_parse_text(s@) {
            Some(t) => t,
            None => default,
        },
        None => default,
    }
}

/// Hands out a `'static` view of a text for the rest of the run, with
/// `String::leak`; the contract claims that the text is unchanged.
#[verifier::external_body]
fn leak_text(s: String) -> (r: &'static str)
    ensures
        r@ == s@,
{
    s.leak()
}

/// The colour a setting gives: the parsed setting if it parses, otherwise the default.
fn configured(setting: Option<String>, default: HexColor) -> (r: HexColor)
    ensures
        r.0@ == spec_configured(setting, default.0@),
{
    match setting {
        Some(s) => {
            let text = leak_text(s);
            match HexColor::parse(text) {
                Some(c) => c,
                None => default,
            }
        },
        None => default,
    }
}

/// The colour settings of the configuration; each may name a colour.
#[derive(Debug, Clone, Default, PartialEq, Eq)]
pub struct TuiColorScheme {
    pub app_border: Option<String>,
    pub app_border_text: Option<String>,
    pub border_unfocused: Option<String>,
    pub border_focused: Option<String>,
    pub popup_border: Option<String>,
    pub text_normal: Option<String>,
    pub text_highlight: Option<String>,
    pub text_highlight_alt: Option<String>,
    pub gauge_filled: Option<String>,
    pub gauge_unfilled: Option<String>,
}

/// The colours the interface draws with.
#[derive(Debug, Clone, Copy, PartialEq, Eq)]
pub struct Theme {
    /// Border of the whole application.
    pub app_border: HexColor,
    /// Text on the application border.
    pub app_border_text: HexColor,
    /// Border of a component without focus.
    pub border_unfocused: HexColor,
    /// Border of the component with focus.
    pub border_focused: HexColor,
    /// Border of popups.
    pub popup_border: HexColor,
    /// Normal text.
    pub text_normal: HexColor,
    /// Highlighted text.
    pub text_highlight: HexColor,
    /// Alternative highlighted text.
    pub text_highlight_alt: HexColor,
    /// Filled part of gauges (such as the song progress bar).
    pub gauge_filled: HexColor,
    /// Unfilled part of gauges.
    pub gauge_unfilled: HexColor,
}

/// The default colours.
pub open spec fn spec_default_theme() -> Theme {
    Theme {
        app_border: HexColor(material::PINK_900),
        app_border_text: HexColor(material::PINK_300),
        border_unfocused: HexColor(material::RED_900),
        border_focused: HexColor(material::RED_200),
        popup_border: HexColor(material::LIGHT_BLUE_500),
        text_normal: HexColor(material::WHITE),
        text_highlight: HexColor(material::RED_600),
        text_highlight_alt: HexColor(material::RED_200),
        gauge_filled: HexColor(material::WHITE),
        gauge_unfilled: HexColor(material::BLACK),
    }
}

impl Default for Theme {
    /// The default colours.
    fn default() -> (r: Self)
        ensures
            r == spec_default_theme(),
    {
        Theme {
            app_border: HexColor(material::PINK_900),
            app_border_text: HexColor(material::PINK_300),
            border_unfocused: HexColor(material::RED_900),
            border_focused: HexColor(material::RED_200),
            popup_border: HexColor(material::LIGHT_BLUE_500),
            text_normal: HexColor(material::WHITE),
            text_highlight: HexColor(material::RED_600),
            text_highlight_alt: HexColor(material::RED_200),
            gauge_filled: HexColor(material::WHITE),
            gauge_unfilled: HexColor(material::BLACK),
        }
    }
}

/// Whether `theme` is the theme the configuration `scheme` gives: each
/// colour the scheme sets and that parses, else the default colour.
pub open spec fn spec_theme_of(theme: Theme, scheme: TuiColorScheme) -> bool {
    &&& theme.app_border.0@ == spec_configured(scheme.app_border, material::PINK_900@)
    &&& theme.app_border_text.0@ == spec_configured(scheme.app_border_text, material::PINK_300@)
    &&& theme.border_unfocused.0@ == spec_configured(scheme.border_unfocused, material::RED_900@)
    &&& theme.border_focused.0@ == spec_configured(scheme.border_focused, material::RED_200@)
    &&& theme.popup_border.0@ == spec_configured(scheme.popup_border, material::LIGHT_BLUE_500@)
    &&& theme.text_normal.0@ == spec_configured(scheme.text_normal, material::WHITE@)
    &&& theme.text_highlight.0@ == spec_configured(scheme.text_highlight, material::RED_600@)
    &&& theme.text_highlight_alt.0@ == spec_configured(scheme.text_highlight_alt, material::RED_200@)
    &&& theme.gauge_filled.0@ == spec_configured(scheme.gauge_filled, material::WHITE@)
    &&& theme.gauge_unfilled.0@ == spec_configured(scheme.gauge_unfilled, material::BLACK@)
}

/// The theme a configuration gives: each colour that the configuration
/// sets and that parses replaces the default colour.
pub fn scheme_theme(scheme: TuiColorScheme) -> (r: Theme)
    ensures
        spec_theme_of(r, scheme),
{
    let d = Theme::default();
    Theme {
        app_border: configured(scheme.app_border, d.app_border),
        app_border_text: configured(scheme.app_border_text, d.app_border_text),
        border_unfocused: configured(scheme.border_unfocused, d.border_unfocused),
        border_focused: configured(scheme.border_focused, d.border_focused),
        popup_border: configured(scheme.popup_border, d.popup_border),
        text_normal: configured(scheme.text_normal, d.text_normal),
        text_highlight: configured(scheme.text_highlight, d.text_highlight),
        text_highlight_alt: configured(scheme.text_highlight_alt, d.text_highlight_alt),
        gauge_filled: configured(scheme.gauge_filled, d.gauge_filled),
        gauge_unfilled: configured(scheme.gauge_unfilled, d.gauge_unfilled),
    }
}

/// The interface's colours, which the configuration sets once (see
/// [`initialize_colors`]): until then they are the default colours.
#[derive(Debug, Clone, Copy)]
pub struct ColorStore {
    theme: Theme,
    initialized: bool,
}

impl ColorStore {
    /// The colours now in use.
    pub closed spec fn spec_theme(&self) -> Theme {
        self.theme
    }

    /// Whether the configuration has set the colours.
    pub closed spec fn spec_initialized(&self) -> bool {
        self.initialized
    }

    /// The default colours, not yet set by a configuration.
    pub fn new() -> (r: Self)
        ensures
            r.spec_theme() == spec_default_theme(),
            !r.spec_initialized(),
    {
        ColorStore { theme: Theme::default(), initialized: false }
    }

    /// Whether the configuration has set the colours.
    pub fn is_initialized(&self) -> (r: bool)
        ensures
            r == self.spec_initialized(),
    {
        self.initialized
    }

    /// The colours now in use.
    pub fn theme(&self) -> (r: Theme)
        ensures
            r == self.spec_theme(),
    {
        self.theme
    }
}

/// Sets the interface's colours from the configuration, the first time
/// only (see [`spec_initialize_step`]): once set, the colours stay as they
/// are, whatever configuration comes later.
pub fn initialize_colors(store: &mut ColorStore, scheme: TuiColorScheme)
    ensures
        spec_initialize_step(*old(store), scheme, *final(store)),
{
    if !store.initialized {
        store.theme = scheme_theme(scheme);
        store.initialized = true;
    }
}

/// What setting the colours from `scheme` does to the store: the first
/// time, the colours become the configured ones and the store is set; after
/// that, nothing changes.
pub open spec fn spec_initialize_step(before: ColorStore, scheme: TuiColorScheme, after: ColorStore) -> bool {
    if before.spec_initialized() {
        after.spec_theme() == before.spec_theme() && after.spec_initialized()
    } else {
        spec_theme_of(after.spec_theme(), scheme) && after.spec_initialized()
    }
}

/// The colours are set once: after a first configuration, setting them
/// again from any configuration leaves every colour as it is.
pub proof fn lemma_colors_set_once(
    s0: ColorStore,
    s1: ColorStore,
    s2: ColorStore,
    first: TuiColorScheme,
    second: TuiColorScheme,
)
    requires
        spec_initialize_step(s0, first, s1),
        spec_initialize_step(s1, second, s2),
    ensures
        s1.spec_initialized(),
        s2.spec_initialized(),
        s2.spec_theme() == s1.spec_theme(),
        !s0.spec_initialized() ==> spec_theme_of(s2.spec_theme(), first),
{
}

/// ASCII upper case of a character (other characters are unchanged).
pub open spec fn ascii_upper(c: char) -> char {
    if 'a' <= c && c <= 'z' {
        ((c as u32) - 32) as char
    } else {
        c
    }
}

/// ASCII upper case of a text.
pub open spec fn ascii_upper_text(t: Seq<char>) -> Seq<char> {
    t.map_values(|c: char| ascii_upper(c))
}

/// Changing the ASCII case of a text keeps the length of its UTF-8
/// encoding: a letter and its other case both take one byte.
proof fn lemma_ascii_case_keeps_utf8_len(t: Seq<char>)
    ensures
        vstd::utf8::encode_utf8(ascii_upper_text(t)).len() == vstd::utf8::encode_utf8(t).len(),
        vstd::utf8::encode_utf8(ascii_lower_text(t)).len() == vstd::utf8::encode_utf8(t).len(),
    decreases t.len(),
{
    if t.len() > 0 {
        lemma_ascii_case_keeps_utf8_len(t.drop_first());
        assert(ascii_upper_text(t).drop_first() =~= ascii_upper_text(t.drop_first()));
        assert(ascii_lower_text(t).drop_first() =~= ascii_lower_text(t.drop_first()));
        let c = t[0];
        assert(('a' <= c && c <= 'z') ==> (ascii_upper(c) as u32) <= 0x7F && (c as u32) <= 0x7F);
        assert(('A' <= c && c <= 'Z') ==> (ascii_lower(c) as u32) <= 0x7F && (c as u32) <= 0x7F);
    }
}

/// Palette names are read without regard to ASCII case: a text, its ASCII
/// upper case and its ASCII lower case parse to the same colour, when the
/// text does not have the shape of a hex colour (7 bytes starting with
/// `#`); nor have the other two then.
pub proof fn lemma_parse_ignores_case(s: &'static str, upper: &'static str, lower: &'static str)
    requires
        upper@ == ascii_upper_text(s@),
        lower@ == ascii_lower_text(s@),
        !(s.len() == 7 && s@.len() > 0 && s@[0] == '#'),
    ensures
        !(upper.len() == 7 && upper@.len() > 0 && upper@[0] == '#'),
        !(lower.len() == 7 && lower@.len() > 0 && lower@[0] == '#'),
        spec_parse(upper) == spec_parse(s),
        spec_parse(lower) == spec_parse(s),
        spec_parse(s) == match spec_material_lookup(ascii_lower_text(s@)) {
            Some(c) => if is_hex_color_text(c.0@) {
                Some(c)
            } else {
                None
            },
            None => None,
        },
{
    assert forall|i: int| 0 <= i < s@.len() implies #[trigger] ascii_lower(ascii_upper(s@[i])) == ascii_lower(
        s@[i],
    ) && ascii_lower(ascii_lower(s@[i])) == ascii_lower(s@[i]) by {
        let c = s@[i];
        assert((('a' <= c && c <= 'z') ==> ('A' <= ((c as u32) - 32) as char && ((c as u32) - 32) as char <= 'Z'))
            && (('a' <= c && c <= 'z') ==> ((((c as u32) - 32) as char) as u32) + 32 == c as u32));
    }
    assert(ascii_lower_text(upper@) =~= ascii_lower_text(s@));
    assert(ascii_lower_text(lower@) =~= ascii_lower_text(s@));
    lemma_ascii_case_keeps_utf8_len(s@);
    if s@.len() > 0 {
        assert(upper@[0] == ascii_upper(s@[0]));
        assert(lower@[0] == ascii_lower(s@[0]));
    }
}

/// The border colour of a component: the focused or the unfocused one.
pub fn border_color(theme: &Theme, is_focused: bool) -> (r: HexColor)
    ensures
        r == if is_focused {
            theme.border_focused
        } else {
            theme.border_unfocused
        },
{
    if is_focused {
        theme.border_focused
    } else {
        theme.border_unfocused
    }
}

} // verus!

verus! {

/// The value of a hexadecimal digit.
pub open spec fn hex_value(c: char) -> int {
    if '0' <= c && c <= '9' {
        c as int - '0' as int
    } else if 'a' <= c && c <= 'f' {
        c as int - 'a' as int + 10
    } else {
        c as int - 'A' as int + 10
    }
}

/// The byte that two characters give when read as a base-16 number the way
/// `u8::from_str_radix` reads them (an optional leading `+`), or 0 when
/// they are not such a number.
pub open spec fn spec_hex_byte(a: char, b: char) -> int {
    if is_hex_digit(a) && is_hex_digit(b) {
        16 * hex_value(a) + hex_value(b)
    } else if a == '+' && is_hex_digit(b) {
        hex_value(b)
    } else {
        0
    }
}

fn hex_value_of(c: char) -> (r: u8)
    requires
        is_hex_digit(c),
    ensures
        r as int == hex_value(c),
{
    let b = c as u8;
    assert(b as int == c as int);
    if '0' <= c && c <= '9' {
        b - 48
    } else if 'a' <= c && c <= 'f' {
        b - 87
    } else {
        b - 55
    }
}

fn hex_byte(a: char, b: char) -> (r: u8)
    ensures
        r as int == spec_hex_byte(a, b),
{
    if is_hex_digit_char(a) && is_hex_digit_char(b) {
        16 * hex_value_of(a) + hex_value_of(b)
    } else if a == '+' && is_hex_digit_char(b) {
        hex_value_of(b)
    } else {
        0
    }
}

impl HexColor {
    /// The red, green and blue components: the byte each pair of digits
    /// after the `#` gives (0 for a pair that is not a number).
    pub fn rgb(&self) -> (r: (u8, u8, u8))
        requires
            vstd::string::is_ascii(self.0),
            self.0@.len() >= 7,
        ensures
            r.0 as int == spec_hex_byte(self.0@[1], self.0@[2]),
            r.1 as int == spec_hex_byte(self.0@[3], self.0@[4]),
            r.2 as int == spec_hex_byte(self.0@[5], self.0@[6]),
    {
        let s = self.0;
        (
            hex_byte(s.get_char(1), s.get_char(2)),
            hex_byte(s.get_char(3), s.get_char(4)),
            hex_byte(s.get_char(5), s.get_char(6)),
        )
    }
}

} // verus!
