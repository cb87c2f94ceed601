//! The badge renderer: query options resolved into badge settings, and the
//! settings drawn as an SVG document.
use vstd::prelude::*;
use crate::text::same_text;
use vstd::string::*;

verus! {

/// The visual styles a badge can be drawn in.
#[derive(Clone, Copy, Debug, PartialEq, Eq, Structural)]
pub enum BadgeStyle {
    Flat,
    FlatSquare,
    Plastic,
    ForTheBadge,
    Social,
}

/// The style a style name selects, if it names one.
pub open spec fn style_of_name(s: Seq<char>) -> Option<BadgeStyle> {
    if s == "flat-square"@ {
        Some(BadgeStyle::FlatSquare)
    } else if s == "plastic"@ {
        Some(BadgeStyle::Plastic)
    } else if s == "for-the-badge"@ {
        Some(BadgeStyle::ForTheBadge)
    } else if s == "social"@ {
        Some(BadgeStyle::Social)
    } else if s == "flat"@ {
        Some(BadgeStyle::Flat)
    } else {
        None
    }
}

/// Reads a style name: `flat`, `flat-square`, `plastic`, `for-the-badge` or
/// `social`; any other text names no style.
pub fn badge_style_from_string(s: &str) -> (r: Option<BadgeStyle>)
    ensures
        r == style_of_name(s@),
{
    if same_text(s, "flat-square") {
        Some(BadgeStyle::FlatSquare)
    } else if same_text(s, "plastic") {
        Some(BadgeStyle::Plastic)
    } else if same_text(s, "for-the-badge") {
        Some(BadgeStyle::ForTheBadge)
    } else if same_text(s, "social") {
        Some(BadgeStyle::Social)
    } else if same_text(s, "flat") {
        Some(BadgeStyle::Flat)
    } else {
        None
    }
}

/// The value of `key` among query pairs; where the key repeats, the last
/// pair wins, as when the pairs are collected into a map in order.
pub open spec fn query_value(q: Seq<(String, String)>, key: Seq<char>) -> Option<Seq<char>>
    decreases q.len(),
{
    if q.len() == 0 {
        None
    } else if q.last().0@ == key {
        Some(q.last().1@)
    } else {
        query_value(q.drop_last(), key)
    }
}

/// The characters of an optional string.
pub open spec fn opt_view(o: Option<String>) -> Option<Seq<char>> {
    match o {
        Some(s) => Some(s@),
        None => None,
    }
}

/// Looks up the value of `key` among query pairs, the last pair winning.
pub fn query_get(q: &Vec<(String, String)>, key: &str) -> (r: Option<String>)
    ensures
        opt_view(r) == query_value(q@, key@),
{
    let mut i: usize = q.len();
    assert(q@.subrange(0, i as int) =~= q@);
    while i > 0
        invariant
            i <= q@.len(),
            query_value(q@, key@) == query_value(q@.subrange(0, i as int), key@),
        decreases i,
    {
        let ghost pre = q@.subrange(0, i as int);
        assert(pre.drop_last() =~= q@.subrange(0, i - 1));
        if same_text(q[i - 1].0.as_str(), key) {
            return Some(q[i - 1].1.clone());
        }
        i = i - 1;
    }
    None
}

/// Badge settings, in the terms contracts speak of.
pub struct BadgeView {
    pub style: BadgeStyle,
    pub label: Seq<char>,
    pub message: Seq<char>,
    pub logo: Option<Seq<char>>,
    pub logo_color: Option<Seq<char>>,
    pub label_color: Option<Seq<char>>,
    pub message_color: Option<Seq<char>>,
}

/// The settings of one badge. An absent option leaves the renderer's
/// default in place.
pub struct BadgeOptions {
    pub style: BadgeStyle,
    pub label: String,
    pub message: String,
    pub logo: Option<String>,
    pub logo_color: Option<String>,
    pub label_color: Option<String>,
    pub message_color: Option<String>,
}

impl View for BadgeOptions {
    type V = BadgeView;

    open spec fn view(&self) -> BadgeView {
        BadgeView {
            style: self.style,
            label: self.label@,
            message: self.message@,
            logo: opt_view(self.logo),
            logo_color: opt_view(self.logo_color),
            label_color: opt_view(self.label_color),
            message_color: opt_view(self.message_color),
        }
    }
}

/// The style a query selects: the named one, else `Flat`, whether the
/// name is missing or unknown.
pub open spec fn query_style(q: Seq<(String, String)>) -> BadgeStyle {
    match query_value(q, "style"@) {
        Some(s) => match style_of_name(s) {
            Some(st) => st,
            None => BadgeStyle::Flat,
        },
        None => BadgeStyle::Flat,
    }
}

/// The label a query selects: its `label`, else `visitors`.
pub open spec fn query_label(q: Seq<(String, String)>) -> Seq<char> {
    match query_value(q, "label"@) {
        Some(l) => l,
        None => "visitors"@,
    }
}

/// The message color a query selects: `color`, else its alias
/// `messageColor`.
pub open spec fn query_message_color(q: Seq<(String, String)>) -> Option<Seq<char>> {
    match query_value(q, "color"@) {
        Some(c) => Some(c),
        None => query_value(q, "messageColor"@),
    }
}

/// The settings of a badge showing `message`, under the options of query `q`.
pub open spec fn resolve(q: Seq<(String, String)>, message: Seq<char>) -> BadgeView {
    BadgeView {
        style: query_style(q),
        label: query_label(q),
        message: message,
        logo: query_value(q, "logo"@),
        logo_color: query_value(q, "logoColor"@),
        label_color: query_value(q, "labelColor"@),
        message_color: query_message_color(q),
    }
}

/// Whether the label a query selects is short enough to be drawn.
pub fn label_fits(q: &Vec<(String, String)>) -> (r: bool)
    ensures
        r == (query_label(q@).len() <= MAX_TEXT_LEN),
{
    match query_get(q, "label") {
        Some(l) => l.as_str().unicode_len() <= MAX_TEXT_LEN,
        None => {
            proof { reveal_strlit("visitors"); }
            true
        },
    }
}

/// Resolves the options of query pairs into the settings of a badge that
/// shows `message`. Unrecognized keys are ignored.
pub fn badge_options(q: &Vec<(String, String)>, message: &str) -> (r: BadgeOptions)
    ensures
        r@ == resolve(q@, message@),
{
    let style = match query_get(q, "style") {
        Some(s) => match badge_style_from_string(s.as_str()) {
            Some(st) => st,
            None => BadgeStyle::Flat,
        },
        None => BadgeStyle::Flat,
    };
    let label = match query_get(q, "label") {
        Some(l) => l,
        None => String::from_str("visitors"),
    };
    let message_color = match query_get(q, "color") {
        Some(c) => Some(c),
        None => query_get(q, "messageColor"),
    };
    BadgeOptions {
        style,
        label,
        message: String::from_str(message),
        logo: query_get(q, "logo"),
        logo_color: query_get(q, "logoColor"),
        label_color: query_get(q, "labelColor"),
        message_color,
    }
}

/// The longest label or message, in characters, that a badge is drawn for.
/// The renderer measures text widths in 32-bit pixel counts scaled by ten,
/// which overflow for texts some tens of millions of characters long.
pub const MAX_TEXT_LEN: usize = 1_000_000;

/// The SVG document that the renderer draws for the given settings.
pub uninterp spec fn badge_svg(b: BadgeView) -> Seq<char>;

/// Relies on shields' `Badge::style` builder and `BadgeBuilder::build`.
/// `build` hands the builder's fields to `render_badge_svg_with`, which reads
/// no clock, randomness or environment (its only shared state is a font
/// table and a logo cache), so the document depends on the settings alone.
/// Absent options are left unset so that the builder applies its own
/// defaults.
#[verifier::external_body]
fn build_svg(o: &BadgeOptions) -> (r: String)
    requires
        o.label@.len() <= MAX_TEXT_LEN,
        o.message@.len() <= MAX_TEXT_LEN,
    ensures
        r@ == badge_svg(o@),
{
    let style = match o.style {
        BadgeStyle::Flat => shields::BadgeStyle::Flat,
        BadgeStyle::FlatSquare => shields::BadgeStyle::FlatSquare,
        BadgeStyle::Plastic => shields::BadgeStyle::Plastic,
        BadgeStyle::ForTheBadge => shields::BadgeStyle::ForTheBadge,
        BadgeStyle::Social => shields::BadgeStyle::Social,
    };
    let mut b = shields::builder::Badge::style(style);
    b.label(&o.label).message(&o.message);
    if let Some(v) = &o.logo { b.logo(v); }
    if let Some(v) = &o.logo_color { b.logo_color(v); }
    if let Some(v) = &o.label_color { b.label_color(v); }
    if let Some(v) = &o.message_color { b.message_color(v); }
    b.build()
}

/// Draws the badge that shows `message` under the options of query `q`.
pub fn render(q: &Vec<(String, String)>, message: &str) -> (r: String)
    requires
        query_label(q@).len() <= MAX_TEXT_LEN,
        message@.len() <= MAX_TEXT_LEN,
    ensures
        r@ == badge_svg(resolve(q@, message@)),
{
    let o = badge_options(q, message);
    build_svg(&o)
}

/// Whether two queries give every key the same value.
pub open spec fn same_values(q1: Seq<(String, String)>, q2: Seq<(String, String)>) -> bool {
    forall|key: Seq<char>| #[trigger] query_value(q1, key) == query_value(q2, key)
}

/// Whether two queries give the same value to every key but `k1` and `k2`.
pub open spec fn same_values_except(
    q1: Seq<(String, String)>,
    q2: Seq<(String, String)>,
    k1: Seq<char>,
    k2: Seq<char>,
) -> bool {
    forall|key: Seq<char>| key != k1 && key != k2 ==> #[trigger] query_value(q1, key) == query_value(q2, key)
}

/// Rendering is deterministic: queries that give each key the same value,
/// and the same message, yield the same document.
pub proof fn lemma_render_deterministic(
    q1: Seq<(String, String)>,
    q2: Seq<(String, String)>,
    message: Seq<char>,
)
    requires
        same_values(q1, q2),
    ensures
        resolve(q1, message) == resolve(q2, message),
        badge_svg(resolve(q1, message)) == badge_svg(resolve(q2, message)),
{
    assert(query_value(q1, "style"@) == query_value(q2, "style"@));
    assert(query_value(q1, "label"@) == query_value(q2, "label"@));
    assert(query_value(q1, "logo"@) == query_value(q2, "logo"@));
    assert(query_value(q1, "logoColor"@) == query_value(q2, "logoColor"@));
    assert(query_value(q1, "labelColor"@) == query_value(q2, "labelColor"@));
    assert(query_value(q1, "color"@) == query_value(q2, "color"@));
    assert(query_value(q1, "messageColor"@) == query_value(q2, "messageColor"@));
}

proof fn lemma_option_keys_distinct()
    ensures
        "style"@ != "label"@,
        "style"@ != "logo"@,
        "style"@ != "logoColor"@,
        "style"@ != "labelColor"@,
        "style"@ != "color"@,
        "style"@ != "messageColor"@,
        "color"@ != "label"@,
        "color"@ != "logo"@,
        "color"@ != "logoColor"@,
        "color"@ != "labelColor"@,
        "messageColor"@ != "style"@,
        "messageColor"@ != "label"@,
        "messageColor"@ != "logo"@,
        "messageColor"@ != "logoColor"@,
        "messageColor"@ != "labelColor"@,
{
    reveal_strlit("style");
    reveal_strlit("label");
    reveal_strlit("logo");
    reveal_strlit("logoColor");
    reveal_strlit("labelColor");
    reveal_strlit("color");
    reveal_strlit("messageColor");
    assert("style"@[0] != "label"@[0]);
    assert("style"@[0] != "color"@[0]);
    assert("color"@[0] != "label"@[0]);
    assert("messageColor"@[0] != "labelColor"@[0]);
    assert("messageColor"@[0] != "logoColor"@[0]);
}

/// `flat` names the flat style.
pub proof fn lemma_flat_is_flat()
    ensures
        style_of_name("flat"@) == Some(BadgeStyle::Flat),
{
    reveal_strlit("flat");
    reveal_strlit("flat-square");
    reveal_strlit("plastic");
    reveal_strlit("for-the-badge");
    reveal_strlit("social");
    assert("flat"@.len() != "flat-square"@.len());
    assert("flat"@.len() != "plastic"@.len());
    assert("flat"@.len() != "for-the-badge"@.len());
    assert("flat"@.len() != "social"@.len());
}

/// An unknown style name draws the same badge as `flat`, all other options
/// being equal.
pub proof fn lemma_unknown_style_is_flat(
    q1: Seq<(String, String)>,
    q2: Seq<(String, String)>,
    bogus: Seq<char>,
    message: Seq<char>,
)
    requires
        query_value(q1, "style"@) == Some(bogus),
        style_of_name(bogus) is None,
        query_value(q2, "style"@) == Some("flat"@),
        same_values_except(q1, q2, "style"@, "style"@),
    ensures
        resolve(q1, message) == resolve(q2, message),
        badge_svg(resolve(q1, message)) == badge_svg(resolve(q2, message)),
{
    lemma_flat_is_flat();
    lemma_option_keys_distinct();
    assert(query_value(q1, "label"@) == query_value(q2, "label"@));
    assert(query_value(q1, "logo"@) == query_value(q2, "logo"@));
    assert(query_value(q1, "logoColor"@) == query_value(q2, "logoColor"@));
    assert(query_value(q1, "labelColor"@) == query_value(q2, "labelColor"@));
    assert(query_value(q1, "color"@) == query_value(q2, "color"@));
    assert(query_value(q1, "messageColor"@) == query_value(q2, "messageColor"@));
}

/// `color` takes precedence: when a query has it, it is the message color,
/// whatever `messageColor` says.
pub proof fn lemma_color_wins(q: Seq<(String, String)>, c: Seq<char>, message: Seq<char>)
    requires
        query_value(q, "color"@) == Some(c),
    ensures
        resolve(q, message).message_color == Some(c),
{
}

/// With `color` present, `messageColor` is ignored: two queries that agree
/// on `color` and on every other key but `messageColor` draw the same badge.
pub proof fn lemma_color_overrides_alias(
    q1: Seq<(String, String)>,
    q2: Seq<(String, String)>,
    c: Seq<char>,
    message: Seq<char>,
)
    requires
        query_value(q1, "color"@) == Some(c),
        query_value(q2, "color"@) == Some(c),
        same_values_except(q1, q2, "messageColor"@, "messageColor"@),
    ensures
        resolve(q1, message).message_color == Some(c),
        resolve(q1, message) == resolve(q2, message),
        badge_svg(resolve(q1, message)) == badge_svg(resolve(q2, message)),
{
    lemma_option_keys_distinct();
    assert(query_value(q1, "style"@) == query_value(q2, "style"@));
    assert(query_value(q1, "label"@) == query_value(q2, "label"@));
    assert(query_value(q1, "logo"@) == query_value(q2, "logo"@));
    assert(query_value(q1, "logoColor"@) == query_value(q2, "logoColor"@));
    assert(query_value(q1, "labelColor"@) == query_value(q2, "labelColor"@));
}

/// `messageColor` is an alias of `color`: a query with `color=c` and one with
/// only `messageColor=c`, all other options being equal, draw the same badge.
pub proof fn lemma_message_color_alias(
    q1: Seq<(String, String)>,
    q2: Seq<(String, String)>,
    c: Seq<char>,
    message: Seq<char>,
)
    requires
        query_value(q1, "color"@) == Some(c),
        query_value(q1, "messageColor"@) is None,
        query_value(q2, "color"@) is None,
        query_value(q2, "messageColor"@) == Some(c),
        same_values_except(q1, q2, "color"@, "messageColor"@),
    ensures
        resolve(q1, message).message_color == Some(c),
        resolve(q1, message) == resolve(q2, message),
        badge_svg(resolve(q1, message)) == badge_svg(resolve(q2, message)),
{
    lemma_option_keys_distinct();
    assert(query_value(q1, "style"@) == query_value(q2, "style"@));
    assert(query_value(q1, "label"@) == query_value(q2, "label"@));
    assert(query_value(q1, "logo"@) == query_value(q2, "logo"@));
    assert(query_value(q1, "logoColor"@) == query_value(q2, "logoColor"@));
    assert(query_value(q1, "labelColor"@) == query_value(q2, "labelColor"@));
}

} // verus!
