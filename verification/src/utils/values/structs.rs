use super::enums::EmojiFormat;
use vstd::prelude::*;

verus! {

/// An emoji token taken apart.
#[derive(PartialEq, Debug)]
pub struct ExtractedEmoji {
    /// Whether the token names a server emoji; `id` is there exactly then.
    pub is_custom: bool,
    pub kind: EmojiFormat,
    pub name: String,
    pub id: Option<String>,
}

/// What an `ExtractedEmoji` holds, as plain values.
pub struct EmojiParts {
    pub is_custom: bool,
    pub kind: EmojiFormat,
    pub name: Seq<char>,
    pub id: Option<Seq<char>>,
}

impl View for ExtractedEmoji {
    type V = EmojiParts;

    open spec fn view(&self) -> EmojiParts {
        EmojiParts {
            is_custom: self.is_custom,
            kind: self.kind,
            name: self.name@,
            id: match self.id {
                Some(id) => Some(id@),
                None => None,
            },
        }
    }
}

impl EmojiParts {
    /// An identifier goes with a server emoji, and with nothing else.
    pub open spec fn well_formed(self) -> bool {
        self.is_custom <==> self.id is Some
    }
}

} // verus!
