use super::pattern::{captures, regex_captures};
use super::values::enums::EmojiFormat;
use super::values::structs::{EmojiParts, ExtractedEmoji};
use super::verify::{format_of, get_emoji_format};
use crate::handlers::error::{BotError, Error, ErrorKind, ErrorOrigin};
use vstd::prelude::*;

verus! {

/// The two shapes an emoji token is taken apart by: `<:name:id>`, whose name
/// and identifier are the first and second group, and `:name:`, whose name is
/// the third.
pub const EMOJI_SHAPES: &'static str = r"<:(\w+):(\d+)>|:(\w+):";

/// The text that group `index` took, if there is such a group and it took part.
pub open spec fn group_text(groups: Seq<Option<Seq<char>>>, index: int) -> Option<Seq<char>> {
    if 0 <= index < groups.len() {
        groups[index]
    } else {
        None
    }
}

/// The parts of an emoji of format `kind`, read from what the search for the
/// two shapes captured. A name with an identifier is a server emoji; a name
/// from the second shape is a plain one; anything else is no emoji.
pub open spec fn parts_from(kind: EmojiFormat, found: Option<Seq<Option<Seq<char>>>>) -> Option<
    EmojiParts,
> {
    match found {
        None => None,
        Some(groups) => if group_text(groups, 1) is Some && group_text(groups, 2) is Some {
            Some(
                EmojiParts {
                    is_custom: true,
                    kind,
                    name: group_text(groups, 1)->0,
                    id: Some(group_text(groups, 2)->0),
                },
            )
        } else if group_text(groups, 3) is Some {
            Some(EmojiParts { is_custom: false, kind, name: group_text(groups, 3)->0, id: None })
        } else {
            None
        },
    }
}

/// Whether `error` says that a token is no emoji.
pub open spec fn is_not_emoji(error: BotError) -> bool {
    &&& error.kind == ErrorKind::InvalidValue
    &&& error.origin == ErrorOrigin::User
    &&& error.message@ == "syntax.emoji.is_not"@
}

/// Whether `error` says that the shapes themselves were refused as a pattern.
pub open spec fn is_pattern_fault(error: BotError) -> bool {
    &&& error.kind == ErrorKind::LogicError
    &&& error.origin == ErrorOrigin::Internal
    &&& error.message@ == "syntax.emoji.pattern"@
}

/// What is made of a search for the two shapes: the parts of the emoji, or
/// `None` where nothing of its shape was found. `Err` where the search could
/// not be made, because the shapes were refused as a pattern.
pub open spec fn parts_from_search(
    kind: EmojiFormat,
    search: Option<Option<Seq<Option<Seq<char>>>>>,
) -> Result<Option<EmojiParts>, ()> {
    match search {
        None => Err(()),
        Some(found) => Ok(parts_from(kind, found)),
    }
}

/// What `extract_emoji` makes of `token`.
pub open spec fn extraction_of(token: Seq<char>) -> Result<Option<EmojiParts>, ()> {
    parts_from_search(format_of(token), regex_captures(EMOJI_SHAPES@, token))
}

fn group(groups: &Vec<Option<String>>, index: usize) -> (text: Option<String>)
    ensures
        text.deep_view() == group_text(groups.deep_view(), index as int),
{
    if index < groups.len() {
        match &groups[index] {
            Some(text) => Some(text.clone()),
            None => None,
        }
    } else {
        None
    }
}

/// Builds the emoji from its format and from what the search for the two shapes captured.
pub fn emoji_from_groups(kind: EmojiFormat, found: Option<Vec<Option<String>>>) -> (result: Result<
    ExtractedEmoji,
    BotError,
>)
    ensures
        match parts_from(kind, found.deep_view()) {
            Some(parts) => result matches Ok(emoji) && emoji@ == parts,
            None => result matches Err(error) && is_not_emoji(error),
        },
        result matches Ok(emoji) ==> emoji@.well_formed() && emoji.kind == kind,
{
    if let Some(groups) = found {
        let name = group(&groups, 1);
        let id = group(&groups, 2);
        if name.is_some() && id.is_some() {
            return Ok(
                ExtractedEmoji { is_custom: true, kind, name: name.unwrap(), id: Some(id.unwrap()) },
            );
        }
        let name = group(&groups, 3);
        if name.is_some() {
            return Ok(ExtractedEmoji { is_custom: false, kind, name: name.unwrap(), id: None });
        }
    }
    Err(BotError::new("syntax.emoji.is_not".to_owned(), ErrorKind::InvalidValue, ErrorOrigin::User))
}

/// Builds the emoji from its format and from the outcome of the search for
/// the two shapes, which is `None` where the shapes were refused as a pattern.
pub fn emoji_from_search(kind: EmojiFormat, search: Option<Option<Vec<Option<String>>>>) -> (result:
    Result<ExtractedEmoji, BotError>)
    ensures
        match parts_from_search(kind, search.deep_view()) {
            Ok(Some(parts)) => result matches Ok(emoji) && emoji@ == parts,
            Ok(None) => result matches Err(error) && is_not_emoji(error),
            Err(_) => result matches Err(error) && is_pattern_fault(error),
        },
        result matches Ok(emoji) ==> emoji@.well_formed() && emoji.kind == kind,
{
    match search {
        Some(found) => emoji_from_groups(kind, found),
        None => Err(
            BotError::new(
                "syntax.emoji.pattern".to_owned(),
                ErrorKind::LogicError,
                ErrorOrigin::Internal,
            ),
        ),
    }
}

/// Extract an emoji.
///
/// Separates the name from a possible identifier and leaves out the
/// characters that mark an emoji (`<`, `:`, `>`): `<:emoji:123456789>` gives
/// the server emoji `emoji` with identifier `123456789`, `:heart:` the plain
/// emoji `heart`. A token in which neither shape is found is refused as an
/// invalid value.
pub fn extract_emoji(emoji: &String) -> (result: Result<ExtractedEmoji, BotError>)
    ensures
        match extraction_of(emoji@) {
            Ok(Some(parts)) => result matches Ok(extracted) && extracted@ == parts,
            Ok(None) => result matches Err(error) && is_not_emoji(error),
            Err(_) => result matches Err(error) && is_pattern_fault(error),
        },
        result matches Ok(extracted) ==> extracted@.well_formed() && extracted.kind == format_of(
            emoji@,
        ),
{
    let kind = get_emoji_format(emoji);
    emoji_from_search(kind, captures(EMOJI_SHAPES, emoji.as_str()))
}

/// Whatever the search captured, the parts read from it are well formed and
/// of the format they were read for: an identifier goes with a server emoji
/// and with nothing else.
pub proof fn law_parts_are_well_formed(kind: EmojiFormat, found: Option<Seq<Option<Seq<char>>>>)
    ensures
        parts_from(kind, found) matches Some(parts) ==> parts.well_formed() && parts.kind == kind,
{
}

} // verus!
