//! The language codes accepted by the translation endpoints.

use vstd::prelude::*;

verus! {

/// A source or target language, one of the 29 codes the vendor accepts.
/// `Auto` asks the service to detect the source language.
#[derive(Debug, Clone, Copy, PartialEq, Eq, Structural)]
pub enum Lang {
    /// Automatic detection
    Auto,
    /// Chinese
    Zh,
    /// English
    En,
    /// Cantonese
    Yue,
    /// Classical Chinese
    Wyw,
    /// Japanese
    Jp,
    /// Korean
    Kor,
    /// French
    Fra,
    /// Spanish
    Spa,
    /// Thai
    Th,
    /// Arabic
    Ara,
    /// Russian
    Ru,
    /// Portuguese
    Pt,
    /// German
    De,
    /// Italian
    It,
    /// Greek
    El,
    /// Dutch
    Nl,
    /// Polish
    Pl,
    /// Bulgarian
    Bul,
    /// Estonian
    Est,
    /// Danish
    Dan,
    /// Finnish
    Fin,
    /// Czech
    Cs,
    /// Romanian
    Rom,
    /// Slovenian
    Slo,
    /// Swedish
    Swe,
    /// Hungarian
    Hu,
    /// Traditional Chinese
    Cht,
    /// Vietnamese
    Vie,
}

impl Lang {
    /// The code for this language as it appears on the wire.
    pub open spec fn spec_code(self) -> Seq<char> {
        match self {
            Lang::Auto => "auto"@,
            Lang::Zh => "zh"@,
            Lang::En => "en"@,
            Lang::Yue => "yue"@,
            Lang::Wyw => "wyw"@,
            Lang::Jp => "jp"@,
            Lang::Kor => "kor"@,
            Lang::Fra => "fra"@,
            Lang::Spa => "spa"@,
            Lang::Th => "th"@,
            Lang::Ara => "ara"@,
            Lang::Ru => "ru"@,
            Lang::Pt => "pt"@,
            Lang::De => "de"@,
            Lang::It => "it"@,
            Lang::El => "el"@,
            Lang::Nl => "nl"@,
            Lang::Pl => "pl"@,
            Lang::Bul => "bul"@,
            Lang::Est => "est"@,
            Lang::Dan => "dan"@,
            Lang::Fin => "fin"@,
            Lang::Cs => "cs"@,
            Lang::Rom => "rom"@,
            Lang::Slo => "slo"@,
            Lang::Swe => "swe"@,
            Lang::Hu => "hu"@,
            Lang::Cht => "cht"@,
            Lang::Vie => "vie"@,
        }
    }

    /// Render the language code that is sent in the `from` and `to` fields.
    pub fn code(&self) -> (r: &'static str)
        ensures
            r@ == self.spec_code(),
    {
        match self {
            Lang::Auto => "auto",
            Lang::Zh => "zh",
            Lang::En => "en",
            Lang::Yue => "yue",
            Lang::Wyw => "wyw",
            Lang::Jp => "jp",
            Lang::Kor => "kor",
            Lang::Fra => "fra",
            Lang::Spa => "spa",
            Lang::Th => "th",
            Lang::Ara => "ara",
            Lang::Ru => "ru",
            Lang::Pt => "pt",
            Lang::De => "de",
            Lang::It => "it",
            Lang::El => "el",
            Lang::Nl => "nl",
            Lang::Pl => "pl",
            Lang::Bul => "bul",
            Lang::Est => "est",
            Lang::Dan => "dan",
            Lang::Fin => "fin",
            Lang::Cs => "cs",
            Lang::Rom => "rom",
            Lang::Slo => "slo",
            Lang::Swe => "swe",
            Lang::Hu => "hu",
            Lang::Cht => "cht",
            Lang::Vie => "vie",
        }
    }
}

impl Default for Lang {
    /// The default language on both sides is automatic detection.
    fn default() -> (r: Self)
        ensures
            r == Lang::Auto,
    {
        Lang::Auto
    }
}

} // verus!
