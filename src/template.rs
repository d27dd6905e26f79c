//! Clock-name templates: preset expansion and validation.
use vstd::prelude::*;

use crate::text::{is_prefix, starts_with, str_eq};

verus! {

/// The longest template, in characters, that is kept as written.
pub const MAX_TEMPLATE_CHARS: usize = 64;

/// Format used when a template is unknown, too long, or shows no time.
pub const DEFAULT_FORMAT: &'static str = "🕒 %H:%M (%Z)";

/// The named shorthands a user may give instead of a template.
#[derive(Clone, Copy, Debug, PartialEq, Eq, Structural)]
pub enum Preset {
    /// 24-hour time with a clock emoji and the zone abbreviation.
    Hour24,
    /// 24-hour time with the zone abbreviation.
    Hour24Plain,
    /// 24-hour time alone.
    Hour24Minimal,
    /// 12-hour time with a clock emoji and the zone abbreviation.
    Hour12,
    /// 12-hour time with the zone abbreviation.
    Hour12Plain,
    /// 12-hour time alone.
    Hour12Minimal,
    /// The full name of the weekday.
    Day,
}

/// The token that names each preset.
pub open spec fn preset_token(p: Preset) -> Seq<char> {
    match p {
        Preset::Hour24 => "preset:24"@,
        Preset::Hour24Plain => "preset:24:plain"@,
        Preset::Hour24Minimal => "preset:24:minimal"@,
        Preset::Hour12 => "preset:12"@,
        Preset::Hour12Plain => "preset:12:plain"@,
        Preset::Hour12Minimal => "preset:12:minimal"@,
        Preset::Day => "preset:day"@,
    }
}

/// The format string each preset stands for.
pub open spec fn preset_format_spec(p: Preset) -> Seq<char> {
    match p {
        Preset::Hour24 => "🕒 %H:%M (%Z)"@,
        Preset::Hour24Plain => "%H:%M (%Z)"@,
        Preset::Hour24Minimal => "%H:%M"@,
        Preset::Hour12 => "🕒 %I:%M %p (%Z)"@,
        Preset::Hour12Plain => "%I:%M %p (%Z)"@,
        Preset::Hour12Minimal => "%I:%M %p"@,
        Preset::Day => "%A"@,
    }
}

/// The preset whose token is exactly `t`, if any.
pub open spec fn preset_named(t: Seq<char>) -> Option<Preset> {
    if t == "preset:24"@ {
        Some(Preset::Hour24)
    } else if t == "preset:24:plain"@ {
        Some(Preset::Hour24Plain)
    } else if t == "preset:24:minimal"@ {
        Some(Preset::Hour24Minimal)
    } else if t == "preset:12"@ {
        Some(Preset::Hour12)
    } else if t == "preset:12:plain"@ {
        Some(Preset::Hour12Plain)
    } else if t == "preset:12:minimal"@ {
        Some(Preset::Hour12Minimal)
    } else if t == "preset:day"@ {
        Some(Preset::Day)
    } else {
        None
    }
}

/// The letters that, after `%`, make a supported time placeholder.
pub open spec fn is_placeholder_letter(c: char) -> bool {
    c == 'H' || c == 'M' || c == 'Z' || c == 'd' || c == 'p' || c == 'A' || c == 'I'
}

/// Whether `t` holds a supported placeholder (`%H`, `%M`, `%Z`, `%d`, `%p`,
/// `%A` or `%I`).
pub open spec fn has_placeholder(t: Seq<char>) -> bool {
    exists|i: int| 0 <= i && i + 1 < t.len() && #[trigger] t[i] == '%' && is_placeholder_letter(t[i + 1])
}

/// The template actually used for `t`: a preset token becomes its format (an
/// unknown one the default); any other template is kept only if it holds a
/// placeholder and is at most 64 characters long.
pub open spec fn resolved(t: Seq<char>) -> Seq<char> {
    if is_prefix("preset:"@, t) {
        match preset_named(t) {
            Some(p) => preset_format_spec(p),
            None => DEFAULT_FORMAT@,
        }
    } else if t.len() <= MAX_TEMPLATE_CHARS && has_placeholder(t) {
        t
    } else {
        DEFAULT_FORMAT@
    }
}

impl Preset {
    /// The preset whose token is exactly `token`.
    pub fn from_token(token: &str) -> (r: Option<Preset>)
        ensures
            r == preset_named(token@),
            r matches Some(p) ==> preset_token(p) == token@,
    {
        if str_eq(token, "preset:24") {
            Some(Preset::Hour24)
        } else if str_eq(token, "preset:24:plain") {
            Some(Preset::Hour24Plain)
        } else if str_eq(token, "preset:24:minimal") {
            Some(Preset::Hour24Minimal)
        } else if str_eq(token, "preset:12") {
            Some(Preset::Hour12)
        } else if str_eq(token, "preset:12:plain") {
            Some(Preset::Hour12Plain)
        } else if str_eq(token, "preset:12:minimal") {
            Some(Preset::Hour12Minimal)
        } else if str_eq(token, "preset:day") {
            Some(Preset::Day)
        } else {
            None
        }
    }

    /// The format string this preset stands for.
    pub fn format(&self) -> (r: &'static str)
        ensures
            r@ == preset_format_spec(*self),
    {
        match self {
            Preset::Hour24 => "🕒 %H:%M (%Z)",
            Preset::Hour24Plain => "%H:%M (%Z)",
            Preset::Hour24Minimal => "%H:%M",
            Preset::Hour12 => "🕒 %I:%M %p (%Z)",
            Preset::Hour12Plain => "%I:%M %p (%Z)",
            Preset::Hour12Minimal => "%I:%M %p",
            Preset::Day => "%A",
        }
    }
}

/// Whether `template` holds a supported placeholder.
pub fn contains_placeholder(template: &str) -> (r: bool)
    ensures
        r == has_placeholder(template@),
{
    let n = template.unicode_len();
    let mut i: usize = 0;
    while i < n
        invariant
            n == template@.len(),
            i <= n,
            forall|j: int|
                0 <= j < i && j + 1 < n ==> !(#[trigger] template@[j] == '%'
                    && is_placeholder_letter(template@[j + 1])),
        decreases n - i,
    {
        if i + 1 < n && template.get_char(i) == '%' {
            let c = template.get_char(i + 1);
            if c == 'H' || c == 'M' || c == 'Z' || c == 'd' || c == 'p' || c == 'A' || c == 'I' {
                return true;
            }
        }
        i = i + 1;
    }
    false
}

/// Expands a preset token, or validates a free-form template, giving the
/// format string a clock is rendered with.
pub fn resolve_preset(template: &str) -> (r: String)
    ensures
        r@ == resolved(template@),
{
    if starts_with(template, "preset:") {
        match Preset::from_token(template) {
            Some(p) => p.format().to_owned(),
            None => DEFAULT_FORMAT.to_owned(),
        }
    } else if template.unicode_len() <= MAX_TEMPLATE_CHARS && contains_placeholder(template) {
        template.to_owned()
    } else {
        DEFAULT_FORMAT.to_owned()
    }
}

} // verus!

verus! {

/// The template a clock is rendered with is never empty and never longer than
/// 64 characters; an unknown preset token, a template without a placeholder,
/// and any template longer than 64 characters all give the default format.
pub proof fn lemma_resolved_template(t: Seq<char>)
    ensures
        0 < resolved(t).len() <= MAX_TEMPLATE_CHARS,
        is_prefix("preset:"@, t) && preset_named(t) is None ==> resolved(t) == DEFAULT_FORMAT@,
        !has_placeholder(t) ==> resolved(t) == DEFAULT_FORMAT@ || preset_named(t) is Some,
        t.len() > MAX_TEMPLATE_CHARS ==> resolved(t) == DEFAULT_FORMAT@,
{
    reveal_strlit("🕒 %H:%M (%Z)");
    reveal_strlit("%H:%M (%Z)");
    reveal_strlit("%H:%M");
    reveal_strlit("🕒 %I:%M %p (%Z)");
    reveal_strlit("%I:%M %p (%Z)");
    reveal_strlit("%I:%M %p");
    reveal_strlit("%A");
    reveal_strlit("preset:24");
    reveal_strlit("preset:24:plain");
    reveal_strlit("preset:24:minimal");
    reveal_strlit("preset:12");
    reveal_strlit("preset:12:plain");
    reveal_strlit("preset:12:minimal");
    reveal_strlit("preset:day");
    if !is_prefix("preset:"@, t) && t.len() <= MAX_TEMPLATE_CHARS && has_placeholder(t) {
        assert(t.len() >= 2);
    }
}

} // verus!
