use super::pattern::{captures, regex_captures};
use super::values::enums::EmojiFormat;
use vstd::prelude::*;

verus! {

/// The shape of a server emoji: `<:name:id>`.
pub const CUSTOM_TAG: &'static str = r"<:(\w+):(\d+)>";

/// Whether `c` lies in one of the ranges of pictographs: emoticons, symbols
/// and pictographs, transport symbols, miscellaneous symbols, dingbats, tiles
/// and playing cards, regional indicators, the emoji variation selector and
/// the zero-width joiner.
pub open spec fn is_pictographic(c: char) -> bool {
    let point = c as u32;
    ||| 0x1F600 <= point <= 0x1F64F
    ||| 0x1F300 <= point <= 0x1F5FF
    ||| 0x1F680 <= point <= 0x1F6FF
    ||| 0x2600 <= point <= 0x26FF
    ||| 0x2700 <= point <= 0x27BF
    ||| 0x1F004 <= point <= 0x1F0CF
    ||| 0x1F1E6 <= point <= 0x1F1FF
    ||| point == 0xFE0F
    ||| point == 0x200D
}

/// Whether a pictograph stands anywhere in `token`.
pub open spec fn has_pictograph(token: Seq<char>) -> bool {
    exists|at: int| 0 <= at < token.len() && is_pictographic(#[trigger] token[at])
}

/// Whether the shape of a server emoji is found anywhere in `token`.
pub open spec fn has_custom_tag(token: Seq<char>) -> bool {
    regex_captures(CUSTOM_TAG@, token) matches Some(Some(_))
}

/// The format that the two tests give: a pictograph decides first, then the
/// shape of a server emoji; what is left is taken for a shortcode.
pub open spec fn format_from(pictograph: bool, custom_tag: bool) -> EmojiFormat {
    if pictograph {
        EmojiFormat::Unicode
    } else if custom_tag {
        EmojiFormat::Custom
    } else {
        EmojiFormat::Discord
    }
}

/// The format of an emoji token.
pub open spec fn format_of(token: Seq<char>) -> EmojiFormat {
    format_from(has_pictograph(token), has_custom_tag(token))
}

pub fn pictographic(c: char) -> (yes: bool)
    ensures
        yes == is_pictographic(c),
{
    let point: u32 = c as u32;
    (0x1F600 <= point && point <= 0x1F64F) || (0x1F300 <= point && point <= 0x1F5FF) || (0x1F680
        <= point && point <= 0x1F6FF) || (0x2600 <= point && point <= 0x26FF) || (0x2700 <= point
        && point <= 0x27BF) || (0x1F004 <= point && point <= 0x1F0CF) || (0x1F1E6 <= point && point
        <= 0x1F1FF) || point == 0xFE0F || point == 0x200D
}

/// Looks for a pictograph in `token`.
pub fn contains_pictograph(token: &str) -> (found: bool)
    ensures
        found == has_pictograph(token@),
{
    for c in it: token.chars()
        invariant
            it.seq() == token@,
            forall|at: int| 0 <= at < it.index() ==> !is_pictographic(token@[at]),
    {
        if pictographic(c) {
            return true;
        }
    }
    false
}

/// Decides the format from the outcome of the two tests.
pub fn select_format(pictograph: bool, custom_tag: bool) -> (format: EmojiFormat)
    ensures
        format == format_from(pictograph, custom_tag),
{
    if pictograph {
        EmojiFormat::Unicode
    } else if custom_tag {
        EmojiFormat::Custom
    } else {
        EmojiFormat::Discord
    }
}

/// Verify what kind of emoji is used.
///
/// `<:emoji:123456789>` is `Custom`, `:heart:` is `Discord`, and a token with
/// a pictograph in it is `Unicode`, whatever else it holds.
pub fn get_emoji_format(emoji: &String) -> (format: EmojiFormat)
    ensures
        format == format_of(emoji@),
{
    if contains_pictograph(emoji.as_str()) {
        select_format(true, false)
    } else {
        let custom_tag = match captures(CUSTOM_TAG, emoji.as_str()) {
            Some(Some(_)) => true,
            _ => false,
        };
        select_format(false, custom_tag)
    }
}

/// Every token has a format, and a pictograph decides it: a token that holds
/// one is `Unicode`, whatever else it holds; only a token without one can be
/// `Custom`, and that only with the shape of a server emoji in it.
pub proof fn law_pictograph_decides(token: Seq<char>)
    ensures
        has_pictograph(token) <==> format_of(token) == EmojiFormat::Unicode,
        format_of(token) == EmojiFormat::Custom <==> !has_pictograph(token) && has_custom_tag(
            token,
        ),
        format_of(token) == EmojiFormat::Discord <==> !has_pictograph(token) && !has_custom_tag(
            token,
        ),
{
}

} // verus!
