//! Locale tags as a closed set with an explicit wire table.

use vstd::prelude::*;
use crate::error::Error;

verus! {

/// A language/region pair the catalog can be asked for.
#[derive(Clone, Copy, Debug, PartialEq, Eq, Structural)]
pub enum Locale {
    ArSa,
    DeDe,
    EnUs,
    Es419,
    EsEs,
    FrFr,
    HiIn,
    ItIt,
    JaJp,
    PtBr,
    PtPt,
    RuRu,
}

impl Locale {
    /// The tag as it travels in a query string.
    pub open spec fn wire(self) -> Seq<char> {
        match self {
            Locale::ArSa => "ar-SA"@,
            Locale::DeDe => "de-DE"@,
            Locale::EnUs => "en-US"@,
            Locale::Es419 => "es-419"@,
            Locale::EsEs => "es-ES"@,
            Locale::FrFr => "fr-FR"@,
            Locale::HiIn => "hi-IN"@,
            Locale::ItIt => "it-IT"@,
            Locale::JaJp => "ja-JP"@,
            Locale::PtBr => "pt-BR"@,
            Locale::PtPt => "pt-PT"@,
            Locale::RuRu => "ru-RU"@,
        }
    }

    /// The locale a tag stands for, if it is in the table.
    pub open spec fn spec_from_wire(tag: Seq<char>) -> Option<Locale> {
        if tag == "ar-SA"@ {
            Some(Locale::ArSa)
        } else if tag == "de-DE"@ {
            Some(Locale::DeDe)
        } else if tag == "en-US"@ {
            Some(Locale::EnUs)
        } else if tag == "es-419"@ {
            Some(Locale::Es419)
        } else if tag == "es-ES"@ {
            Some(Locale::EsEs)
        } else if tag == "fr-FR"@ {
            Some(Locale::FrFr)
        } else if tag == "hi-IN"@ {
            Some(Locale::HiIn)
        } else if tag == "it-IT"@ {
            Some(Locale::ItIt)
        } else if tag == "ja-JP"@ {
            Some(Locale::JaJp)
        } else if tag == "pt-BR"@ {
            Some(Locale::PtBr)
        } else if tag == "pt-PT"@ {
            Some(Locale::PtPt)
        } else if tag == "ru-RU"@ {
            Some(Locale::RuRu)
        } else {
            None
        }
    }

    pub fn as_str(&self) -> (tag: &'static str)
        ensures
            tag@ == self.wire(),
    {
        match self {
            Locale::ArSa => "ar-SA",
            Locale::DeDe => "de-DE",
            Locale::EnUs => "en-US",
            Locale::Es419 => "es-419",
            Locale::EsEs => "es-ES",
            Locale::FrFr => "fr-FR",
            Locale::HiIn => "hi-IN",
            Locale::ItIt => "it-IT",
            Locale::JaJp => "ja-JP",
            Locale::PtBr => "pt-BR",
            Locale::PtPt => "pt-PT",
            Locale::RuRu => "ru-RU",
        }
    }

    /// Reads a tag. A tag outside the table is a decode failure that carries
    /// the tag; nothing is substituted for it.
    pub fn from_wire(tag: &str) -> (r: Result<Locale, Error>)
        ensures
            match Locale::spec_from_wire(tag@) {
                Some(locale) => r == Ok::<Locale, Error>(locale),
                None => r is Err && r->Err_0.is_decode_of(tag@),
            },
    {
        let owned = tag.to_owned();
        if owned == "ar-SA".to_owned() {
            Ok(Locale::ArSa)
        } else if owned == "de-DE".to_owned() {
            Ok(Locale::DeDe)
        } else if owned == "en-US".to_owned() {
            Ok(Locale::EnUs)
        } else if owned == "es-419".to_owned() {
            Ok(Locale::Es419)
        } else if owned == "es-ES".to_owned() {
            Ok(Locale::EsEs)
        } else if owned == "fr-FR".to_owned() {
            Ok(Locale::FrFr)
        } else if owned == "hi-IN".to_owned() {
            Ok(Locale::HiIn)
        } else if owned == "it-IT".to_owned() {
            Ok(Locale::ItIt)
        } else if owned == "ja-JP".to_owned() {
            Ok(Locale::JaJp)
        } else if owned == "pt-BR".to_owned() {
            Ok(Locale::PtBr)
        } else if owned == "pt-PT".to_owned() {
            Ok(Locale::PtPt)
        } else if owned == "ru-RU".to_owned() {
            Ok(Locale::RuRu)
        } else {
            Err(Error::decode(tag))
        }
    }

    /// Reading a tag that was written gives the locale back: no two locales
    /// share a tag.
    pub proof fn lemma_wire_round_trip(self)
        ensures
            Locale::spec_from_wire(self.wire()) == Some(self),
    {
        Locale::lemma_tags_concrete();
    }

    /// A tag that reads as a locale is that locale's tag.
    pub proof fn lemma_from_wire_sound(tag: Seq<char>)
        ensures
            Locale::spec_from_wire(tag) matches Some(locale) ==> locale.wire() == tag,
    {
    }

    /// Every tag, character by character.
    pub proof fn lemma_tags_concrete()
        ensures
            "ar-SA"@ == seq!['a', 'r', '-', 'S', 'A'],
            "de-DE"@ == seq!['d', 'e', '-', 'D', 'E'],
            "en-US"@ == seq!['e', 'n', '-', 'U', 'S'],
            "es-419"@ == seq!['e', 's', '-', '4', '1', '9'],
            "es-ES"@ == seq!['e', 's', '-', 'E', 'S'],
            "fr-FR"@ == seq!['f', 'r', '-', 'F', 'R'],
            "hi-IN"@ == seq!['h', 'i', '-', 'I', 'N'],
            "it-IT"@ == seq!['i', 't', '-', 'I', 'T'],
            "ja-JP"@ == seq!['j', 'a', '-', 'J', 'P'],
            "pt-BR"@ == seq!['p', 't', '-', 'B', 'R'],
            "pt-PT"@ == seq!['p', 't', '-', 'P', 'T'],
            "ru-RU"@ == seq!['r', 'u', '-', 'R', 'U'],
    {
        reveal_strlit("ar-SA");
        reveal_strlit("de-DE");
        reveal_strlit("en-US");
        reveal_strlit("es-419");
        reveal_strlit("es-ES");
        reveal_strlit("fr-FR");
        reveal_strlit("hi-IN");
        reveal_strlit("it-IT");
        reveal_strlit("ja-JP");
        reveal_strlit("pt-BR");
        reveal_strlit("pt-PT");
        reveal_strlit("ru-RU");
        assert("ar-SA"@ =~= seq!['a', 'r', '-', 'S', 'A']);
        assert("de-DE"@ =~= seq!['d', 'e', '-', 'D', 'E']);
        assert("en-US"@ =~= seq!['e', 'n', '-', 'U', 'S']);
        assert("es-419"@ =~= seq!['e', 's', '-', '4', '1', '9']);
        assert("es-ES"@ =~= seq!['e', 's', '-', 'E', 'S']);
        assert("fr-FR"@ =~= seq!['f', 'r', '-', 'F', 'R']);
        assert("hi-IN"@ =~= seq!['h', 'i', '-', 'I', 'N']);
        assert("it-IT"@ =~= seq!['i', 't', '-', 'I', 'T']);
        assert("ja-JP"@ =~= seq!['j', 'a', '-', 'J', 'P']);
        assert("pt-BR"@ =~= seq!['p', 't', '-', 'B', 'R']);
        assert("pt-PT"@ =~= seq!['p', 't', '-', 'P', 'T']);
        assert("ru-RU"@ =~= seq!['r', 'u', '-', 'R', 'U']);
    }
}

} // verus!
