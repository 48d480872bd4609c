use vstd::prelude::*;

verus! {

/// How an emoji token is written.
#[derive(Clone, Copy, Debug, PartialEq, Eq, Structural)]
pub enum EmojiFormat {
    /// A pictographic code point stands in the token itself.
    Unicode,
    /// A server emoji, written `<:name:id>`.
    Custom,
    /// A shortcode such as `:heart:`, and every token that is neither of the others.
    Discord,
}

/// The languages the bot speaks.
#[derive(Clone, Copy, Debug, PartialEq, Eq, Structural)]
pub enum SupportedLocales {
    EnUs,
    PtBr,
}

impl SupportedLocales {
    /// The tag of the language, as the chat platform writes it.
    pub open spec fn tag(self) -> Seq<char> {
        match self {
            SupportedLocales::EnUs => "en-US"@,
            SupportedLocales::PtBr => "pt-BR"@,
        }
    }

    pub fn to_string(&self) -> (tag: String)
        ensures
            tag@ == self.tag(),
    {
        match self {
            SupportedLocales::EnUs => "en-US".to_owned(),
            SupportedLocales::PtBr => "pt-BR".to_owned(),
        }
    }

    /// Every language, in the order of their declaration.
    pub fn all() -> (locales: Vec<SupportedLocales>)
        ensures
            locales@ == seq![SupportedLocales::EnUs, SupportedLocales::PtBr],
    {
        let mut locales: Vec<SupportedLocales> = Vec::new();
        locales.push(SupportedLocales::EnUs);
        locales.push(SupportedLocales::PtBr);
        locales
    }
}

} // verus!
