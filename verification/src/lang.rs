use vstd::prelude::*;
use vstd::string::StringSliceAdditionalSpecFns;

use crate::error::Error;

verus! {

/// A language code from the fixed catalog of known languages.
///
/// The catalog is closed: every code has a two-letter lowercase string
/// form, an English display name and a native display name, and the
/// string form round-trips through [`LangCode::from_str`]
/// (see [`lemma_code_round_trip`]).
#[derive(Debug, Clone, Copy, PartialEq, Eq, Hash, PartialOrd, Ord, Structural)]
#[non_exhaustive]
pub enum LangCode {
    /// Afar
    Aa,
    /// Abkhaz
    Ab,
    /// Afrikaans
    Af,
    /// Akan
    Ak,
    /// Albanian
    Sq,
    /// Amharic
    Am,
    /// Arabic
    Ar,
    /// Aragonese
    An,
    /// Armenian
    Hy,
    /// Assamese
    As,
    /// Avaric
    Av,
    /// Avestan
    Ae,
    /// Aymara
    Ay,
    /// Azerbaijani
    Az,
    /// Bambara
    Bm,
    /// Bashkir
    Ba,
    /// Basque
    Eu,
    /// Belarusian
    Be,
    /// Bengali
    Bn,
    /// Bihari
    Bh,
    /// Bislama
    Bi,
    /// Bosnian
    Bs,
    /// Breton
    Br,
    /// Bulgarian
    Bg,
    /// Burmese
    My,
    /// Catalan
    Ca,
    /// Chamorro
    Ch,
    /// Chechen
    Ce,
    /// Chichewa
    Ny,
    /// Chinese
    Zh,
    /// Chuvash
    Cv,
    /// Cornish
    Kw,
    /// Corsican
    Co,
    /// Cree
    Cr,
    /// Croatian
    Hr,
    /// Czech
    Cs,
    /// Danish
    Da,
    /// Divehi
    Dv,
    /// Dutch
    Nl,
    /// Dzongkha
    Dz,
    /// English
    En,
    /// Esperanto
    Eo,
    /// Estonian
    Et,
    /// Ewe
    Ee,
    /// Faroese
    Fo,
    /// Fijian
    Fj,
    /// Finnish
    Fi,
    /// French
    Fr,
    /// Fula
    Ff,
    /// Galician
    Gl,
    /// Georgian
    Ka,
    /// German
    De,
    /// Greek
    El,
    /// Guaraní
    Gn,
    /// Gujarati
    Gu,
    /// Haitian
    Ht,
    /// Hausa
    Ha,
    /// Hebrew
    He,
    /// Herero
    Hz,
    /// Hindi
    Hi,
    /// Hiri Motu
    Ho,
    /// Hungarian
    Hu,
    /// Interlingua
    Ia,
    /// Indonesian
    Id,
    /// Interlingue
    Ie,
    /// Irish
    Ga,
    /// Igbo
    Ig,
    /// Inupiaq
    Ik,
    /// Ido
    Io,
    /// Icelandic
    Is,
    /// Italian
    It,
    /// Inuktitut
    Iu,
    /// Japanese
    Ja,
    /// Javanese
    Jv,
    /// Kalaallisut
    Kl,
    /// Kannada
    Kn,
    /// Kanuri
    Kr,
    /// Kashmiri
    Ks,
    /// Kazakh
    Kk,
    /// Khmer
    Km,
    /// Kikuyu
    Ki,
    /// Kinyarwanda
    Rw,
    /// Kyrgyz
    Ky,
    /// Komi
    Kv,
    /// Kongo
    Kg,
    /// Korean
    Ko,
    /// Kurdish
    Ku,
    /// Kwanyama
    Kj,
    /// Latin
    La,
    /// Luxembourgish
    Lb,
    /// Ganda
    Lg,
    /// Limburgish
    Li,
    /// Lingala
    Ln,
    /// Lao
    Lo,
    /// Lithuanian
    Lt,
    /// Luba-Katanga
    Lu,
    /// Latvian
    Lv,
    /// Manx
    Gv,
    /// Macedonian
    Mk,
    /// Malagasy
    Mg,
    /// Malay
    Ms,
    /// Malayalam
    Ml,
    /// Maltese
    Mt,
    /// Māori
    Mi,
    /// Marathi
    Mr,
    /// Marshallese
    Mh,
    /// Mongolian
    Mn,
    /// Nauruan
    Na,
    /// Navajo
    Nv,
    /// Northern Ndebele
    Nd,
    /// Nepali
    Ne,
    /// Ndonga
    Ng,
    /// Norwegian Bokmål
    Nb,
    /// Norwegian Nynorsk
    Nn,
    /// Norwegian
    No,
    /// Nuosu
    Ii,
    /// Southern Ndebele
    Nr,
    /// Occitan
    Oc,
    /// Ojibwe
    Oj,
    /// Old Church Slavonic
    Cu,
    /// Oromo
    Om,
    /// Oriya
    Or,
    /// Ossetian
    Os,
    /// Punjabi
    Pa,
    /// Pāli
    Pi,
    /// Persian
    Fa,
    /// Polish
    Pl,
    /// Pashto
    Ps,
    /// Portuguese
    Pt,
    /// Quechua
    Qu,
    /// Romansh
    Rm,
    /// Kirundi
    Rn,
    /// Romanian
    Ro,
    /// Russian
    Ru,
    /// Sanskrit
    Sa,
    /// Sardinian
    Sc,
    /// Sindhi
    Sd,
    /// Northern Sami
    Se,
    /// Samoan
    Sm,
    /// Sango
    Sg,
    /// Serbian
    Sr,
    /// Gaelic
    Gd,
    /// Shona
    Sn,
    /// Sinhalese
    Si,
    /// Slovak
    Sk,
    /// Slovene
    Sl,
    /// Somali
    So,
    /// Southern Sotho
    St,
    /// Spanish
    Es,
    /// Sundanese
    Su,
    /// Swahili
    Sw,
    /// Swati
    Ss,
    /// Swedish
    Sv,
    /// Tamil
    Ta,
    /// Telugu
    Te,
    /// Tajik
    Tg,
    /// Thai
    Th,
    /// Tigrinya
    Ti,
    /// Tibetan
    Bo,
    /// Turkmen
    Tk,
    /// Tagalog
    Tl,
    /// Tswana
    Tn,
    /// Tonga
    To,
    /// Turkish
    Tr,
    /// Tsonga
    Ts,
    /// Tatar
    Tt,
    /// Twi
    Tw,
    /// Tahitian
    Ty,
    /// Uyghur
    Ug,
    /// Ukrainian
    Uk,
    /// Urdu
    Ur,
    /// Uzbek
    Uz,
    /// Venda
    Ve,
    /// Vietnamese
    Vi,
    /// Volapük
    Vo,
    /// Walloon
    Wa,
    /// Welsh
    Cy,
    /// Wolof
    Wo,
    /// Western Frisian
    Fy,
    /// Xhosa
    Xh,
    /// Yiddish
    Yi,
    /// Yoruba
    Yo,
    /// Zhuang
    Za,
    /// Zulu
    Zu,
}

/// How many codes the catalog holds.
pub const CODE_COUNT: usize = 184;

/// The two lowercase ASCII bytes that spell a code.
pub open spec fn spec_code_bytes(c: LangCode) -> Seq<u8> {
    match c {
        LangCode::Aa => seq![97u8, 97u8],
        LangCode::Ab => seq![97u8, 98u8],
        LangCode::Af => seq![97u8, 102u8],
        LangCode::Ak => seq![97u8, 107u8],
        LangCode::Sq => seq![115u8, 113u8],
        LangCode::Am => seq![97u8, 109u8],
        LangCode::Ar => seq![97u8, 114u8],
        LangCode::An => seq![97u8, 110u8],
        LangCode::Hy => seq![104u8, 121u8],
        LangCode::As => seq![97u8, 115u8],
        LangCode::Av => seq![97u8, 118u8],
        LangCode::Ae => seq![97u8, 101u8],
        LangCode::Ay => seq![97u8, 121u8],
        LangCode::Az => seq![97u8, 122u8],
        LangCode::Bm => seq![98u8, 109u8],
        LangCode::Ba => seq![98u8, 97u8],
        LangCode::Eu => seq![101u8, 117u8],
        LangCode::Be => seq![98u8, 101u8],
        LangCode::Bn => seq![98u8, 110u8],
        LangCode::Bh => seq![98u8, 104u8],
        LangCode::Bi => seq![98u8, 105u8],
        LangCode::Bs => seq![98u8, 115u8],
        LangCode::Br => seq![98u8, 114u8],
        LangCode::Bg => seq![98u8, 103u8],
        LangCode::My => seq![109u8, 121u8],
        LangCode::Ca => seq![99u8, 97u8],
        LangCode::Ch => seq![99u8, 104u8],
        LangCode::Ce => seq![99u8, 101u8],
        LangCode::Ny => seq![110u8, 121u8],
        LangCode::Zh => seq![122u8, 104u8],
        LangCode::Cv => seq![99u8, 118u8],
        LangCode::Kw => seq![107u8, 119u8],
        LangCode::Co => seq![99u8, 111u8],
        LangCode::Cr => seq![99u8, 114u8],
        LangCode::Hr => seq![104u8, 114u8],
        LangCode::Cs => seq![99u8, 115u8],
        LangCode::Da => seq![100u8, 97u8],
        LangCode::Dv => seq![100u8, 118u8],
        LangCode::Nl => seq![110u8, 108u8],
        LangCode::Dz => seq![100u8, 122u8],
        LangCode::En => seq![101u8, 110u8],
        LangCode::Eo => seq![101u8, 111u8],
        LangCode::Et => seq![101u8, 116u8],
        LangCode::Ee => seq![101u8, 101u8],
        LangCode::Fo => seq![102u8, 111u8],
        LangCode::Fj => seq![102u8, 106u8],
        LangCode::Fi => seq![102u8, 105u8],
        LangCode::Fr => seq![102u8, 114u8],
        LangCode::Ff => seq![102u8, 102u8],
        LangCode::Gl => seq![103u8, 108u8],
        LangCode::Ka => seq![107u8, 97u8],
        LangCode::De => seq![100u8, 101u8],
        LangCode::El => seq![101u8, 108u8],
        LangCode::Gn => seq![103u8, 110u8],
        LangCode::Gu => seq![103u8, 117u8],
        LangCode::Ht => seq![104u8, 116u8],
        LangCode::Ha => seq![104u8, 97u8],
        LangCode::He => seq![104u8, 101u8],
        LangCode::Hz => seq![104u8, 122u8],
        LangCode::Hi => seq![104u8, 105u8],
        LangCode::Ho => seq![104u8, 111u8],
        LangCode::Hu => seq![104u8, 117u8],
        LangCode::Ia => seq![105u8, 97u8],
        LangCode::Id => seq![105u8, 100u8],
        LangCode::Ie => seq![105u8, 101u8],
        LangCode::Ga => seq![103u8, 97u8],
        LangCode::Ig => seq![105u8, 103u8],
        LangCode::Ik => seq![105u8, 107u8],
        LangCode::Io => seq![105u8, 111u8],
        LangCode::Is => seq![105u8, 115u8],
        LangCode::It => seq![105u8, 116u8],
        LangCode::Iu => seq![105u8, 117u8],
        LangCode::Ja => seq![106u8, 97u8],
        LangCode::Jv => seq![106u8, 118u8],
        LangCode::Kl => seq![107u8, 108u8],
        LangCode::Kn => seq![107u8, 110u8],
        LangCode::Kr => seq![107u8, 114u8],
        LangCode::Ks => seq![107u8, 115u8],
        LangCode::Kk => seq![107u8, 107u8],
        LangCode::Km => seq![107u8, 109u8],
        LangCode::Ki => seq![107u8, 105u8],
        LangCode::Rw => seq![114u8, 119u8],
        LangCode::Ky => seq![107u8, 121u8],
        LangCode::Kv => seq![107u8, 118u8],
        LangCode::Kg => seq![107u8, 103u8],
        LangCode::Ko => seq![107u8, 111u8],
        LangCode::Ku => seq![107u8, 117u8],
        LangCode::Kj => seq![107u8, 106u8],
        LangCode::La => seq![108u8, 97u8],
        LangCode::Lb => seq![108u8, 98u8],
        LangCode::Lg => seq![108u8, 103u8],
        LangCode::Li => seq![108u8, 105u8],
        LangCode::Ln => seq![108u8, 110u8],
        LangCode::Lo => seq![108u8, 111u8],
        LangCode::Lt => seq![108u8, 116u8],
        LangCode::Lu => seq![108u8, 117u8],
        LangCode::Lv => seq![108u8, 118u8],
        LangCode::Gv => seq![103u8, 118u8],
        LangCode::Mk => seq![109u8, 107u8],
        LangCode::Mg => seq![109u8, 103u8],
        LangCode::Ms => seq![109u8, 115u8],
        LangCode::Ml => seq![109u8, 108u8],
        LangCode::Mt => seq![109u8, 116u8],
        LangCode::Mi => seq![109u8, 105u8],
        LangCode::Mr => seq![109u8, 114u8],
        LangCode::Mh => seq![109u8, 104u8],
        LangCode::Mn => seq![109u8, 110u8],
        LangCode::Na => seq![110u8, 97u8],
        LangCode::Nv => seq![110u8, 118u8],
        LangCode::Nd => seq![110u8, 100u8],
        LangCode::Ne => seq![110u8, 101u8],
        LangCode::Ng => seq![110u8, 103u8],
        LangCode::Nb => seq![110u8, 98u8],
        LangCode::Nn => seq![110u8, 110u8],
        LangCode::No => seq![110u8, 111u8],
        LangCode::Ii => seq![105u8, 105u8],
        LangCode::Nr => seq![110u8, 114u8],
        LangCode::Oc => seq![111u8, 99u8],
        LangCode::Oj => seq![111u8, 106u8],
        LangCode::Cu => seq![99u8, 117u8],
        LangCode::Om => seq![111u8, 109u8],
        LangCode::Or => seq![111u8, 114u8],
        LangCode::Os => seq![111u8, 115u8],
        LangCode::Pa => seq![112u8, 97u8],
        LangCode::Pi => seq![112u8, 105u8],
        LangCode::Fa => seq![102u8, 97u8],
        LangCode::Pl => seq![112u8, 108u8],
        LangCode::Ps => seq![112u8, 115u8],
        LangCode::Pt => seq![112u8, 116u8],
        LangCode::Qu => seq![113u8, 117u8],
        LangCode::Rm => seq![114u8, 109u8],
        LangCode::Rn => seq![114u8, 110u8],
        LangCode::Ro => seq![114u8, 111u8],
        LangCode::Ru => seq![114u8, 117u8],
        LangCode::Sa => seq![115u8, 97u8],
        LangCode::Sc => seq![115u8, 99u8],
        LangCode::Sd => seq![115u8, 100u8],
        LangCode::Se => seq![115u8, 101u8],
        LangCode::Sm => seq![115u8, 109u8],
        LangCode::Sg => seq![115u8, 103u8],
        LangCode::Sr => seq![115u8, 114u8],
        LangCode::Gd => seq![103u8, 100u8],
        LangCode::Sn => seq![115u8, 110u8],
        LangCode::Si => seq![115u8, 105u8],
        LangCode::Sk => seq![115u8, 107u8],
        LangCode::Sl => seq![115u8, 108u8],
        LangCode::So => seq![115u8, 111u8],
        LangCode::St => seq![115u8, 116u8],
        LangCode::Es => seq![101u8, 115u8],
        LangCode::Su => seq![115u8, 117u8],
        LangCode::Sw => seq![115u8, 119u8],
        LangCode::Ss => seq![115u8, 115u8],
        LangCode::Sv => seq![115u8, 118u8],
        LangCode::Ta => seq![116u8, 97u8],
        LangCode::Te => seq![116u8, 101u8],
        LangCode::Tg => seq![116u8, 103u8],
        LangCode::Th => seq![116u8, 104u8],
        LangCode::Ti => seq![116u8, 105u8],
        LangCode::Bo => seq![98u8, 111u8],
        LangCode::Tk => seq![116u8, 107u8],
        LangCode::Tl => seq![116u8, 108u8],
        LangCode::Tn => seq![116u8, 110u8],
        LangCode::To => seq![116u8, 111u8],
        LangCode::Tr => seq![116u8, 114u8],
        LangCode::Ts => seq![116u8, 115u8],
        LangCode::Tt => seq![116u8, 116u8],
        LangCode::Tw => seq![116u8, 119u8],
        LangCode::Ty => seq![116u8, 121u8],
        LangCode::Ug => seq![117u8, 103u8],
        LangCode::Uk => seq![117u8, 107u8],
        LangCode::Ur => seq![117u8, 114u8],
        LangCode::Uz => seq![117u8, 122u8],
        LangCode::Ve => seq![118u8, 101u8],
        LangCode::Vi => seq![118u8, 105u8],
        LangCode::Vo => seq![118u8, 111u8],
        LangCode::Wa => seq![119u8, 97u8],
        LangCode::Cy => seq![99u8, 121u8],
        LangCode::Wo => seq![119u8, 111u8],
        LangCode::Fy => seq![102u8, 121u8],
        LangCode::Xh => seq![120u8, 104u8],
        LangCode::Yi => seq![121u8, 105u8],
        LangCode::Yo => seq![121u8, 111u8],
        LangCode::Za => seq![122u8, 97u8],
        LangCode::Zu => seq![122u8, 117u8],
    }
}

/// The code spelled by a byte sequence, if it is exactly the lowercase
/// two-letter form of a known code.
pub open spec fn spec_lang_of(s: Seq<u8>) -> Option<LangCode> {
    if s.len() != 2 {
        None
    } else if s[0] == 97u8 && s[1] == 97u8 {
        Some(LangCode::Aa)
    } else if s[0] == 97u8 && s[1] == 98u8 {
        Some(LangCode::Ab)
    } else if s[0] == 97u8 && s[1] == 102u8 {
        Some(LangCode::Af)
    } else if s[0] == 97u8 && s[1] == 107u8 {
        Some(LangCode::Ak)
    } else if s[0] == 115u8 && s[1] == 113u8 {
        Some(LangCode::Sq)
    } else if s[0] == 97u8 && s[1] == 109u8 {
        Some(LangCode::Am)
    } else if s[0] == 97u8 && s[1] == 114u8 {
        Some(LangCode::Ar)
    } else if s[0] == 97u8 && s[1] == 110u8 {
        Some(LangCode::An)
    } else if s[0] == 104u8 && s[1] == 121u8 {
        Some(LangCode::Hy)
    } else if s[0] == 97u8 && s[1] == 115u8 {
        Some(LangCode::As)
    } else if s[0] == 97u8 && s[1] == 118u8 {
        Some(LangCode::Av)
    } else if s[0] == 97u8 && s[1] == 101u8 {
        Some(LangCode::Ae)
    } else if s[0] == 97u8 && s[1] == 121u8 {
        Some(LangCode::Ay)
    } else if s[0] == 97u8 && s[1] == 122u8 {
        Some(LangCode::Az)
    } else if s[0] == 98u8 && s[1] == 109u8 {
        Some(LangCode::Bm)
    } else if s[0] == 98u8 && s[1] == 97u8 {
        Some(LangCode::Ba)
    } else if s[0] == 101u8 && s[1] == 117u8 {
        Some(LangCode::Eu)
    } else if s[0] == 98u8 && s[1] == 101u8 {
        Some(LangCode::Be)
    } else if s[0] == 98u8 && s[1] == 110u8 {
        Some(LangCode::Bn)
    } else if s[0] == 98u8 && s[1] == 104u8 {
        Some(LangCode::Bh)
    } else if s[0] == 98u8 && s[1] == 105u8 {
        Some(LangCode::Bi)
    } else if s[0] == 98u8 && s[1] == 115u8 {
        Some(LangCode::Bs)
    } else if s[0] == 98u8 && s[1] == 114u8 {
        Some(LangCode::Br)
    } else if s[0] == 98u8 && s[1] == 103u8 {
        Some(LangCode::Bg)
    } else if s[0] == 109u8 && s[1] == 121u8 {
        Some(LangCode::My)
    } else if s[0] == 99u8 && s[1] == 97u8 {
        Some(LangCode::Ca)
    } else if s[0] == 99u8 && s[1] == 104u8 {
        Some(LangCode::Ch)
    } else if s[0] == 99u8 && s[1] == 101u8 {
        Some(LangCode::Ce)
    } else if s[0] == 110u8 && s[1] == 121u8 {
        Some(LangCode::Ny)
    } else if s[0] == 122u8 && s[1] == 104u8 {
        Some(LangCode::Zh)
    } else if s[0] == 99u8 && s[1] == 118u8 {
        Some(LangCode::Cv)
    } else if s[0] == 107u8 && s[1] == 119u8 {
        Some(LangCode::Kw)
    } else if s[0] == 99u8 && s[1] == 111u8 {
        Some(LangCode::Co)
    } else if s[0] == 99u8 && s[1] == 114u8 {
        Some(LangCode::Cr)
    } else if s[0] == 104u8 && s[1] == 114u8 {
        Some(LangCode::Hr)
    } else if s[0] == 99u8 && s[1] == 115u8 {
        Some(LangCode::Cs)
    } else if s[0] == 100u8 && s[1] == 97u8 {
        Some(LangCode::Da)
    } else if s[0] == 100u8 && s[1] == 118u8 {
        Some(LangCode::Dv)
    } else if s[0] == 110u8 && s[1] == 108u8 {
        Some(LangCode::Nl)
    } else if s[0] == 100u8 && s[1] == 122u8 {
        Some(LangCode::Dz)
    } else if s[0] == 101u8 && s[1] == 110u8 {
        Some(LangCode::En)
    } else if s[0] == 101u8 && s[1] == 111u8 {
        Some(LangCode::Eo)
    } else if s[0] == 101u8 && s[1] == 116u8 {
        Some(LangCode::Et)
    } else if s[0] == 101u8 && s[1] == 101u8 {
        Some(LangCode::Ee)
    } else if s[0] == 102u8 && s[1] == 111u8 {
        Some(LangCode::Fo)
    } else if s[0] == 102u8 && s[1] == 106u8 {
        Some(LangCode::Fj)
    } else if s[0] == 102u8 && s[1] == 105u8 {
        Some(LangCode::Fi)
    } else if s[0] == 102u8 && s[1] == 114u8 {
        Some(LangCode::Fr)
    } else if s[0] == 102u8 && s[1] == 102u8 {
        Some(LangCode::Ff)
    } else if s[0] == 103u8 && s[1] == 108u8 {
        Some(LangCode::Gl)
    } else if s[0] == 107u8 && s[1] == 97u8 {
        Some(LangCode::Ka)
    } else if s[0] == 100u8 && s[1] == 101u8 {
        Some(LangCode::De)
    } else if s[0] == 101u8 && s[1] == 108u8 {
        Some(LangCode::El)
    } else if s[0] == 103u8 && s[1] == 110u8 {
        Some(LangCode::Gn)
    } else if s[0] == 103u8 && s[1] == 117u8 {
        Some(LangCode::Gu)
    } else if s[0] == 104u8 && s[1] == 116u8 {
        Some(LangCode::Ht)
    } else if s[0] == 104u8 && s[1] == 97u8 {
        Some(LangCode::Ha)
    } else if s[0] == 104u8 && s[1] == 101u8 {
        Some(LangCode::He)
    } else if s[0] == 104u8 && s[1] == 122u8 {
        Some(LangCode::Hz)
    } else if s[0] == 104u8 && s[1] == 105u8 {
        Some(LangCode::Hi)
    } else if s[0] == 104u8 && s[1] == 111u8 {
        Some(LangCode::Ho)
    } else if s[0] == 104u8 && s[1] == 117u8 {
        Some(LangCode::Hu)
    } else if s[0] == 105u8 && s[1] == 97u8 {
        Some(LangCode::Ia)
    } else if s[0] == 105u8 && s[1] == 100u8 {
        Some(LangCode::Id)
    } else if s[0] == 105u8 && s[1] == 101u8 {
        Some(LangCode::Ie)
    } else if s[0] == 103u8 && s[1] == 97u8 {
        Some(LangCode::Ga)
    } else if s[0] == 105u8 && s[1] == 103u8 {
        Some(LangCode::Ig)
    } else if s[0] == 105u8 && s[1] == 107u8 {
        Some(LangCode::Ik)
    } else if s[0] == 105u8 && s[1] == 111u8 {
        Some(LangCode::Io)
    } else if s[0] == 105u8 && s[1] == 115u8 {
        Some(LangCode::Is)
    } else if s[0] == 105u8 && s[1] == 116u8 {
        Some(LangCode::It)
    } else if s[0] == 105u8 && s[1] == 117u8 {
        Some(LangCode::Iu)
    } else if s[0] == 106u8 && s[1] == 97u8 {
        Some(LangCode::Ja)
    } else if s[0] == 106u8 && s[1] == 118u8 {
        Some(LangCode::Jv)
    } else if s[0] == 107u8 && s[1] == 108u8 {
        Some(LangCode::Kl)
    } else if s[0] == 107u8 && s[1] == 110u8 {
        Some(LangCode::Kn)
    } else if s[0] == 107u8 && s[1] == 114u8 {
        Some(LangCode::Kr)
    } else if s[0] == 107u8 && s[1] == 115u8 {
        Some(LangCode::Ks)
    } else if s[0] == 107u8 && s[1] == 107u8 {
        Some(LangCode::Kk)
    } else if s[0] == 107u8 && s[1] == 109u8 {
        Some(LangCode::Km)
    } else if s[0] == 107u8 && s[1] == 105u8 {
        Some(LangCode::Ki)
    } else if s[0] == 114u8 && s[1] == 119u8 {
        Some(LangCode::Rw)
    } else if s[0] == 107u8 && s[1] == 121u8 {
        Some(LangCode::Ky)
    } else if s[0] == 107u8 && s[1] == 118u8 {
        Some(LangCode::Kv)
    } else if s[0] == 107u8 && s[1] == 103u8 {
        Some(LangCode::Kg)
    } else if s[0] == 107u8 && s[1] == 111u8 {
        Some(LangCode::Ko)
    } else if s[0] == 107u8 && s[1] == 117u8 {
        Some(LangCode::Ku)
    } else if s[0] == 107u8 && s[1] == 106u8 {
        Some(LangCode::Kj)
    } else if s[0] == 108u8 && s[1] == 97u8 {
        Some(LangCode::La)
    } else if s[0] == 108u8 && s[1] == 98u8 {
        Some(LangCode::Lb)
    } else if s[0] == 108u8 && s[1] == 103u8 {
        Some(LangCode::Lg)
    } else if s[0] == 108u8 && s[1] == 105u8 {
        Some(LangCode::Li)
    } else if s[0] == 108u8 && s[1] == 110u8 {
        Some(LangCode::Ln)
    } else if s[0] == 108u8 && s[1] == 111u8 {
        Some(LangCode::Lo)
    } else if s[0] == 108u8 && s[1] == 116u8 {
        Some(LangCode::Lt)
    } else if s[0] == 108u8 && s[1] == 117u8 {
        Some(LangCode::Lu)
    } else if s[0] == 108u8 && s[1] == 118u8 {
        Some(LangCode::Lv)
    } else if s[0] == 103u8 && s[1] == 118u8 {
        Some(LangCode::Gv)
    } else if s[0] == 109u8 && s[1] == 107u8 {
        Some(LangCode::Mk)
    } else if s[0] == 109u8 && s[1] == 103u8 {
        Some(LangCode::Mg)
    } else if s[0] == 109u8 && s[1] == 115u8 {
        Some(LangCode::Ms)
    } else if s[0] == 109u8 && s[1] == 108u8 {
        Some(LangCode::Ml)
    } else if s[0] == 109u8 && s[1] == 116u8 {
        Some(LangCode::Mt)
    } else if s[0] == 109u8 && s[1] == 105u8 {
        Some(LangCode::Mi)
    } else if s[0] == 109u8 && s[1] == 114u8 {
        Some(LangCode::Mr)
    } else if s[0] == 109u8 && s[1] == 104u8 {
        Some(LangCode::Mh)
    } else if s[0] == 109u8 && s[1] == 110u8 {
        Some(LangCode::Mn)
    } else if s[0] == 110u8 && s[1] == 97u8 {
        Some(LangCode::Na)
    } else if s[0] == 110u8 && s[1] == 118u8 {
        Some(LangCode::Nv)
    } else if s[0] == 110u8 && s[1] == 100u8 {
        Some(LangCode::Nd)
    } else if s[0] == 110u8 && s[1] == 101u8 {
        Some(LangCode::Ne)
    } else if s[0] == 110u8 && s[1] == 103u8 {
        Some(LangCode::Ng)
    } else if s[0] == 110u8 && s[1] == 98u8 {
        Some(LangCode::Nb)
    } else if s[0] == 110u8 && s[1] == 110u8 {
        Some(LangCode::Nn)
    } else if s[0] == 110u8 && s[1] == 111u8 {
        Some(LangCode::No)
    } else if s[0] == 105u8 && s[1] == 105u8 {
        Some(LangCode::Ii)
    } else if s[0] == 110u8 && s[1] == 114u8 {
        Some(LangCode::Nr)
    } else if s[0] == 111u8 && s[1] == 99u8 {
        Some(LangCode::Oc)
    } else if s[0] == 111u8 && s[1] == 106u8 {
        Some(LangCode::Oj)
    } else if s[0] == 99u8 && s[1] == 117u8 {
        Some(LangCode::Cu)
    } else if s[0] == 111u8 && s[1] == 109u8 {
        Some(LangCode::Om)
    } else if s[0] == 111u8 && s[1] == 114u8 {
        Some(LangCode::Or)
    } else if s[0] == 111u8 && s[1] == 115u8 {
        Some(LangCode::Os)
    } else if s[0] == 112u8 && s[1] == 97u8 {
        Some(LangCode::Pa)
    } else if s[0] == 112u8 && s[1] == 105u8 {
        Some(LangCode::Pi)
    } else if s[0] == 102u8 && s[1] == 97u8 {
        Some(LangCode::Fa)
    } else if s[0] == 112u8 && s[1] == 108u8 {
        Some(LangCode::Pl)
    } else if s[0] == 112u8 && s[1] == 115u8 {
        Some(LangCode::Ps)
    } else if s[0] == 112u8 && s[1] == 116u8 {
        Some(LangCode::Pt)
    } else if s[0] == 113u8 && s[1] == 117u8 {
        Some(LangCode::Qu)
    } else if s[0] == 114u8 && s[1] == 109u8 {
        Some(LangCode::Rm)
    } else if s[0] == 114u8 && s[1] == 110u8 {
        Some(LangCode::Rn)
    } else if s[0] == 114u8 && s[1] == 111u8 {
        Some(LangCode::Ro)
    } else if s[0] == 114u8 && s[1] == 117u8 {
        Some(LangCode::Ru)
    } else if s[0] == 115u8 && s[1] == 97u8 {
        Some(LangCode::Sa)
    } else if s[0] == 115u8 && s[1] == 99u8 {
        Some(LangCode::Sc)
    } else if s[0] == 115u8 && s[1] == 100u8 {
        Some(LangCode::Sd)
    } else if s[0] == 115u8 && s[1] == 101u8 {
        Some(LangCode::Se)
    } else if s[0] == 115u8 && s[1] == 109u8 {
        Some(LangCode::Sm)
    } else if s[0] == 115u8 && s[1] == 103u8 {
        Some(LangCode::Sg)
    } else if s[0] == 115u8 && s[1] == 114u8 {
        Some(LangCode::Sr)
    } else if s[0] == 103u8 && s[1] == 100u8 {
        Some(LangCode::Gd)
    } else if s[0] == 115u8 && s[1] == 110u8 {
        Some(LangCode::Sn)
    } else if s[0] == 115u8 && s[1] == 105u8 {
        Some(LangCode::Si)
    } else if s[0] == 115u8 && s[1] == 107u8 {
        Some(LangCode::Sk)
    } else if s[0] == 115u8 && s[1] == 108u8 {
        Some(LangCode::Sl)
    } else if s[0] == 115u8 && s[1] == 111u8 {
        Some(LangCode::So)
    } else if s[0] == 115u8 && s[1] == 116u8 {
        Some(LangCode::St)
    } else if s[0] == 101u8 && s[1] == 115u8 {
        Some(LangCode::Es)
    } else if s[0] == 115u8 && s[1] == 117u8 {
        Some(LangCode::Su)
    } else if s[0] == 115u8 && s[1] == 119u8 {
        Some(LangCode::Sw)
    } else if s[0] == 115u8 && s[1] == 115u8 {
        Some(LangCode::Ss)
    } else if s[0] == 115u8 && s[1] == 118u8 {
        Some(LangCode::Sv)
    } else if s[0] == 116u8 && s[1] == 97u8 {
        Some(LangCode::Ta)
    } else if s[0] == 116u8 && s[1] == 101u8 {
        Some(LangCode::Te)
    } else if s[0] == 116u8 && s[1] == 103u8 {
        Some(LangCode::Tg)
    } else if s[0] == 116u8 && s[1] == 104u8 {
        Some(LangCode::Th)
    } else if s[0] == 116u8 && s[1] == 105u8 {
        Some(LangCode::Ti)
    } else if s[0] == 98u8 && s[1] == 111u8 {
        Some(LangCode::Bo)
    } else if s[0] == 116u8 && s[1] == 107u8 {
        Some(LangCode::Tk)
    } else if s[0] == 116u8 && s[1] == 108u8 {
        Some(LangCode::Tl)
    } else if s[0] == 116u8 && s[1] == 110u8 {
        Some(LangCode::Tn)
    } else if s[0] == 116u8 && s[1] == 111u8 {
        Some(LangCode::To)
    } else if s[0] == 116u8 && s[1] == 114u8 {
        Some(LangCode::Tr)
    } else if s[0] == 116u8 && s[1] == 115u8 {
        Some(LangCode::Ts)
    } else if s[0] == 116u8 && s[1] == 116u8 {
        Some(LangCode::Tt)
    } else if s[0] == 116u8 && s[1] == 119u8 {
        Some(LangCode::Tw)
    } else if s[0] == 116u8 && s[1] == 121u8 {
        Some(LangCode::Ty)
    } else if s[0] == 117u8 && s[1] == 103u8 {
        Some(LangCode::Ug)
    } else if s[0] == 117u8 && s[1] == 107u8 {
        Some(LangCode::Uk)
    } else if s[0] == 117u8 && s[1] == 114u8 {
        Some(LangCode::Ur)
    } else if s[0] == 117u8 && s[1] == 122u8 {
        Some(LangCode::Uz)
    } else if s[0] == 118u8 && s[1] == 101u8 {
        Some(LangCode::Ve)
    } else if s[0] == 118u8 && s[1] == 105u8 {
        Some(LangCode::Vi)
    } else if s[0] == 118u8 && s[1] == 111u8 {
        Some(LangCode::Vo)
    } else if s[0] == 119u8 && s[1] == 97u8 {
        Some(LangCode::Wa)
    } else if s[0] == 99u8 && s[1] == 121u8 {
        Some(LangCode::Cy)
    } else if s[0] == 119u8 && s[1] == 111u8 {
        Some(LangCode::Wo)
    } else if s[0] == 102u8 && s[1] == 121u8 {
        Some(LangCode::Fy)
    } else if s[0] == 120u8 && s[1] == 104u8 {
        Some(LangCode::Xh)
    } else if s[0] == 121u8 && s[1] == 105u8 {
        Some(LangCode::Yi)
    } else if s[0] == 121u8 && s[1] == 111u8 {
        Some(LangCode::Yo)
    } else if s[0] == 122u8 && s[1] == 97u8 {
        Some(LangCode::Za)
    } else if s[0] == 122u8 && s[1] == 117u8 {
        Some(LangCode::Zu)
    } else {
        None
    }
}

/// The position of a code in the catalog's order.
pub open spec fn spec_code_index(c: LangCode) -> int {
    match c {
        LangCode::Aa => 0,
        LangCode::Ab => 1,
        LangCode::Af => 2,
        LangCode::Ak => 3,
        LangCode::Sq => 4,
        LangCode::Am => 5,
        LangCode::Ar => 6,
        LangCode::An => 7,
        LangCode::Hy => 8,
        LangCode::As => 9,
        LangCode::Av => 10,
        LangCode::Ae => 11,
        LangCode::Ay => 12,
        LangCode::Az => 13,
        LangCode::Bm => 14,
        LangCode::Ba => 15,
        LangCode::Eu => 16,
        LangCode::Be => 17,
        LangCode::Bn => 18,
        LangCode::Bh => 19,
        LangCode::Bi => 20,
        LangCode::Bs => 21,
        LangCode::Br => 22,
        LangCode::Bg => 23,
        LangCode::My => 24,
        LangCode::Ca => 25,
        LangCode::Ch => 26,
        LangCode::Ce => 27,
        LangCode::Ny => 28,
        LangCode::Zh => 29,
        LangCode::Cv => 30,
        LangCode::Kw => 31,
        LangCode::Co => 32,
        LangCode::Cr => 33,
        LangCode::Hr => 34,
        LangCode::Cs => 35,
        LangCode::Da => 36,
        LangCode::Dv => 37,
        LangCode::Nl => 38,
        LangCode::Dz => 39,
        LangCode::En => 40,
        LangCode::Eo => 41,
        LangCode::Et => 42,
        LangCode::Ee => 43,
        LangCode::Fo => 44,
        LangCode::Fj => 45,
        LangCode::Fi => 46,
        LangCode::Fr => 47,
        LangCode::Ff => 48,
        LangCode::Gl => 49,
        LangCode::Ka => 50,
        LangCode::De => 51,
        LangCode::El => 52,
        LangCode::Gn => 53,
        LangCode::Gu => 54,
        LangCode::Ht => 55,
        LangCode::Ha => 56,
        LangCode::He => 57,
        LangCode::Hz => 58,
        LangCode::Hi => 59,
        LangCode::Ho => 60,
        LangCode::Hu => 61,
        LangCode::Ia => 62,
        LangCode::Id => 63,
        LangCode::Ie => 64,
        LangCode::Ga => 65,
        LangCode::Ig => 66,
        LangCode::Ik => 67,
        LangCode::Io => 68,
        LangCode::Is => 69,
        LangCode::It => 70,
        LangCode::Iu => 71,
        LangCode::Ja => 72,
        LangCode::Jv => 73,
        LangCode::Kl => 74,
        LangCode::Kn => 75,
        LangCode::Kr => 76,
        LangCode::Ks => 77,
        LangCode::Kk => 78,
        LangCode::Km => 79,
        LangCode::Ki => 80,
        LangCode::Rw => 81,
        LangCode::Ky => 82,
        LangCode::Kv => 83,
        LangCode::Kg => 84,
        LangCode::Ko => 85,
        LangCode::Ku => 86,
        LangCode::Kj => 87,
        LangCode::La => 88,
        LangCode::Lb => 89,
        LangCode::Lg => 90,
        LangCode::Li => 91,
        LangCode::Ln => 92,
        LangCode::Lo => 93,
        LangCode::Lt => 94,
        LangCode::Lu => 95,
        LangCode::Lv => 96,
        LangCode::Gv => 97,
        LangCode::Mk => 98,
        LangCode::Mg => 99,
        LangCode::Ms => 100,
        LangCode::Ml => 101,
        LangCode::Mt => 102,
        LangCode::Mi => 103,
        LangCode::Mr => 104,
        LangCode::Mh => 105,
        LangCode::Mn => 106,
        LangCode::Na => 107,
        LangCode::Nv => 108,
        LangCode::Nd => 109,
        LangCode::Ne => 110,
        LangCode::Ng => 111,
        LangCode::Nb => 112,
        LangCode::Nn => 113,
        LangCode::No => 114,
        LangCode::Ii => 115,
        LangCode::Nr => 116,
        LangCode::Oc => 117,
        LangCode::Oj => 118,
        LangCode::Cu => 119,
        LangCode::Om => 120,
        LangCode::Or => 121,
        LangCode::Os => 122,
        LangCode::Pa => 123,
        LangCode::Pi => 124,
        LangCode::Fa => 125,
        LangCode::Pl => 126,
        LangCode::Ps => 127,
        LangCode::Pt => 128,
        LangCode::Qu => 129,
        LangCode::Rm => 130,
        LangCode::Rn => 131,
        LangCode::Ro => 132,
        LangCode::Ru => 133,
        LangCode::Sa => 134,
        LangCode::Sc => 135,
        LangCode::Sd => 136,
        LangCode::Se => 137,
        LangCode::Sm => 138,
        LangCode::Sg => 139,
        LangCode::Sr => 140,
        LangCode::Gd => 141,
        LangCode::Sn => 142,
        LangCode::Si => 143,
        LangCode::Sk => 144,
        LangCode::Sl => 145,
        LangCode::So => 146,
        LangCode::St => 147,
        LangCode::Es => 148,
        LangCode::Su => 149,
        LangCode::Sw => 150,
        LangCode::Ss => 151,
        LangCode::Sv => 152,
        LangCode::Ta => 153,
        LangCode::Te => 154,
        LangCode::Tg => 155,
        LangCode::Th => 156,
        LangCode::Ti => 157,
        LangCode::Bo => 158,
        LangCode::Tk => 159,
        LangCode::Tl => 160,
        LangCode::Tn => 161,
        LangCode::To => 162,
        LangCode::Tr => 163,
        LangCode::Ts => 164,
        LangCode::Tt => 165,
        LangCode::Tw => 166,
        LangCode::Ty => 167,
        LangCode::Ug => 168,
        LangCode::Uk => 169,
        LangCode::Ur => 170,
        LangCode::Uz => 171,
        LangCode::Ve => 172,
        LangCode::Vi => 173,
        LangCode::Vo => 174,
        LangCode::Wa => 175,
        LangCode::Cy => 176,
        LangCode::Wo => 177,
        LangCode::Fy => 178,
        LangCode::Xh => 179,
        LangCode::Yi => 180,
        LangCode::Yo => 181,
        LangCode::Za => 182,
        LangCode::Zu => 183,
    }
}

/// The code at a position of the catalog's order.
pub open spec fn spec_code_at(i: int) -> LangCode {
    if i == 0 {
        LangCode::Aa
    } else if i == 1 {
        LangCode::Ab
    } else if i == 2 {
        LangCode::Af
    } else if i == 3 {
        LangCode::Ak
    } else if i == 4 {
        LangCode::Sq
    } else if i == 5 {
        LangCode::Am
    } else if i == 6 {
        LangCode::Ar
    } else if i == 7 {
        LangCode::An
    } else if i == 8 {
        LangCode::Hy
    } else if i == 9 {
        LangCode::As
    } else if i == 10 {
        LangCode::Av
    } else if i == 11 {
        LangCode::Ae
    } else if i == 12 {
        LangCode::Ay
    } else if i == 13 {
        LangCode::Az
    } else if i == 14 {
        LangCode::Bm
    } else if i == 15 {
        LangCode::Ba
    } else if i == 16 {
        LangCode::Eu
    } else if i == 17 {
        LangCode::Be
    } else if i == 18 {
        LangCode::Bn
    } else if i == 19 {
        LangCode::Bh
    } else if i == 20 {
        LangCode::Bi
    } else if i == 21 {
        LangCode::Bs
    } else if i == 22 {
        LangCode::Br
    } else if i == 23 {
        LangCode::Bg
    } else if i == 24 {
        LangCode::My
    } else if i == 25 {
        LangCode::Ca
    } else if i == 26 {
        LangCode::Ch
    } else if i == 27 {
        LangCode::Ce
    } else if i == 28 {
        LangCode::Ny
    } else if i == 29 {
        LangCode::Zh
    } else if i == 30 {
        LangCode::Cv
    } else if i == 31 {
        LangCode::Kw
    } else if i == 32 {
        LangCode::Co
    } else if i == 33 {
        LangCode::Cr
    } else if i == 34 {
        LangCode::Hr
    } else if i == 35 {
        LangCode::Cs
    } else if i == 36 {
        LangCode::Da
    } else if i == 37 {
        LangCode::Dv
    } else if i == 38 {
        LangCode::Nl
    } else if i == 39 {
        LangCode::Dz
    } else if i == 40 {
        LangCode::En
    } else if i == 41 {
        LangCode::Eo
    } else if i == 42 {
        LangCode::Et
    } else if i == 43 {
        LangCode::Ee
    } else if i == 44 {
        LangCode::Fo
    } else if i == 45 {
        LangCode::Fj
    } else if i == 46 {
        LangCode::Fi
    } else if i == 47 {
        LangCode::Fr
    } else if i == 48 {
        LangCode::Ff
    } else if i == 49 {
        LangCode::Gl
    } else if i == 50 {
        LangCode::Ka
    } else if i == 51 {
        LangCode::De
    } else if i == 52 {
        LangCode::El
    } else if i == 53 {
        LangCode::Gn
    } else if i == 54 {
        LangCode::Gu
    } else if i == 55 {
        LangCode::Ht
    } else if i == 56 {
        LangCode::Ha
    } else if i == 57 {
        LangCode::He
    } else if i == 58 {
        LangCode::Hz
    } else if i == 59 {
        LangCode::Hi
    } else if i == 60 {
        LangCode::Ho
    } else if i == 61 {
        LangCode::Hu
    } else if i == 62 {
        LangCode::Ia
    } else if i == 63 {
        LangCode::Id
    } else if i == 64 {
        LangCode::Ie
    } else if i == 65 {
        LangCode::Ga
    } else if i == 66 {
        LangCode::Ig
    } else if i == 67 {
        LangCode::Ik
    } else if i == 68 {
        LangCode::Io
    } else if i == 69 {
        LangCode::Is
    } else if i == 70 {
        LangCode::It
    } else if i == 71 {
        LangCode::Iu
    } else if i == 72 {
        LangCode::Ja
    } else if i == 73 {
        LangCode::Jv
    } else if i == 74 {
        LangCode::Kl
    } else if i == 75 {
        LangCode::Kn
    } else if i == 76 {
        LangCode::Kr
    } else if i == 77 {
        LangCode::Ks
    } else if i == 78 {
        LangCode::Kk
    } else if i == 79 {
        LangCode::Km
    } else if i == 80 {
        LangCode::Ki
    } else if i == 81 {
        LangCode::Rw
    } else if i == 82 {
        LangCode::Ky
    } else if i == 83 {
        LangCode::Kv
    } else if i == 84 {
        LangCode::Kg
    } else if i == 85 {
        LangCode::Ko
    } else if i == 86 {
        LangCode::Ku
    } else if i == 87 {
        LangCode::Kj
    } else if i == 88 {
        LangCode::La
    } else if i == 89 {
        LangCode::Lb
    } else if i == 90 {
        LangCode::Lg
    } else if i == 91 {
        LangCode::Li
    } else if i == 92 {
        LangCode::Ln
    } else if i == 93 {
        LangCode::Lo
    } else if i == 94 {
        LangCode::Lt
    } else if i == 95 {
        LangCode::Lu
    } else if i == 96 {
        LangCode::Lv
    } else if i == 97 {
        LangCode::Gv
    } else if i == 98 {
        LangCode::Mk
    } else if i == 99 {
        LangCode::Mg
    } else if i == 100 {
        LangCode::Ms
    } else if i == 101 {
        LangCode::Ml
    } else if i == 102 {
        LangCode::Mt
    } else if i == 103 {
        LangCode::Mi
    } else if i == 104 {
        LangCode::Mr
    } else if i == 105 {
        LangCode::Mh
    } else if i == 106 {
        LangCode::Mn
    } else if i == 107 {
        LangCode::Na
    } else if i == 108 {
        LangCode::Nv
    } else if i == 109 {
        LangCode::Nd
    } else if i == 110 {
        LangCode::Ne
    } else if i == 111 {
        LangCode::Ng
    } else if i == 112 {
        LangCode::Nb
    } else if i == 113 {
        LangCode::Nn
    } else if i == 114 {
        LangCode::No
    } else if i == 115 {
        LangCode::Ii
    } else if i == 116 {
        LangCode::Nr
    } else if i == 117 {
        LangCode::Oc
    } else if i == 118 {
        LangCode::Oj
    } else if i == 119 {
        LangCode::Cu
    } else if i == 120 {
        LangCode::Om
    } else if i == 121 {
        LangCode::Or
    } else if i == 122 {
        LangCode::Os
    } else if i == 123 {
        LangCode::Pa
    } else if i == 124 {
        LangCode::Pi
    } else if i == 125 {
        LangCode::Fa
    } else if i == 126 {
        LangCode::Pl
    } else if i == 127 {
        LangCode::Ps
    } else if i == 128 {
        LangCode::Pt
    } else if i == 129 {
        LangCode::Qu
    } else if i == 130 {
        LangCode::Rm
    } else if i == 131 {
        LangCode::Rn
    } else if i == 132 {
        LangCode::Ro
    } else if i == 133 {
        LangCode::Ru
    } else if i == 134 {
        LangCode::Sa
    } else if i == 135 {
        LangCode::Sc
    } else if i == 136 {
        LangCode::Sd
    } else if i == 137 {
        LangCode::Se
    } else if i == 138 {
        LangCode::Sm
    } else if i == 139 {
        LangCode::Sg
    } else if i == 140 {
        LangCode::Sr
    } else if i == 141 {
        LangCode::Gd
    } else if i == 142 {
        LangCode::Sn
    } else if i == 143 {
        LangCode::Si
    } else if i == 144 {
        LangCode::Sk
    } else if i == 145 {
        LangCode::Sl
    } else if i == 146 {
        LangCode::So
    } else if i == 147 {
        LangCode::St
    } else if i == 148 {
        LangCode::Es
    } else if i == 149 {
        LangCode::Su
    } else if i == 150 {
        LangCode::Sw
    } else if i == 151 {
        LangCode::Ss
    } else if i == 152 {
        LangCode::Sv
    } else if i == 153 {
        LangCode::Ta
    } else if i == 154 {
        LangCode::Te
    } else if i == 155 {
        LangCode::Tg
    } else if i == 156 {
        LangCode::Th
    } else if i == 157 {
        LangCode::Ti
    } else if i == 158 {
        LangCode::Bo
    } else if i == 159 {
        LangCode::Tk
    } else if i == 160 {
        LangCode::Tl
    } else if i == 161 {
        LangCode::Tn
    } else if i == 162 {
        LangCode::To
    } else if i == 163 {
        LangCode::Tr
    } else if i == 164 {
        LangCode::Ts
    } else if i == 165 {
        LangCode::Tt
    } else if i == 166 {
        LangCode::Tw
    } else if i == 167 {
        LangCode::Ty
    } else if i == 168 {
        LangCode::Ug
    } else if i == 169 {
        LangCode::Uk
    } else if i == 170 {
        LangCode::Ur
    } else if i == 171 {
        LangCode::Uz
    } else if i == 172 {
        LangCode::Ve
    } else if i == 173 {
        LangCode::Vi
    } else if i == 174 {
        LangCode::Vo
    } else if i == 175 {
        LangCode::Wa
    } else if i == 176 {
        LangCode::Cy
    } else if i == 177 {
        LangCode::Wo
    } else if i == 178 {
        LangCode::Fy
    } else if i == 179 {
        LangCode::Xh
    } else if i == 180 {
        LangCode::Yi
    } else if i == 181 {
        LangCode::Yo
    } else if i == 182 {
        LangCode::Za
    } else {
        LangCode::Zu
    }
}

/// The English display name of each code.
pub open spec fn spec_english_name(c: LangCode) -> Seq<char> {
    match c {
        LangCode::Aa => "Afar"@,
        LangCode::Ab => "Abkhaz"@,
        LangCode::Af => "Afrikaans"@,
        LangCode::Ak => "Akan"@,
        LangCode::Sq => "Albanian"@,
        LangCode::Am => "Amharic"@,
        LangCode::Ar => "Arabic"@,
        LangCode::An => "Aragonese"@,
        LangCode::Hy => "Armenian"@,
        LangCode::As => "Assamese"@,
        LangCode::Av => "Avaric"@,
        LangCode::Ae => "Avestan"@,
        LangCode::Ay => "Aymara"@,
        LangCode::Az => "Azerbaijani"@,
        LangCode::Bm => "Bambara"@,
        LangCode::Ba => "Bashkir"@,
        LangCode::Eu => "Basque"@,
        LangCode::Be => "Belarusian"@,
        LangCode::Bn => "Bengali"@,
        LangCode::Bh => "Bihari"@,
        LangCode::Bi => "Bislama"@,
        LangCode::Bs => "Bosnian"@,
        LangCode::Br => "Breton"@,
        LangCode::Bg => "Bulgarian"@,
        LangCode::My => "Burmese"@,
        LangCode::Ca => "Catalan"@,
        LangCode::Ch => "Chamorro"@,
        LangCode::Ce => "Chechen"@,
        LangCode::Ny => "Chichewa"@,
        LangCode::Zh => "Chinese"@,
        LangCode::Cv => "Chuvash"@,
        LangCode::Kw => "Cornish"@,
        LangCode::Co => "Corsican"@,
        LangCode::Cr => "Cree"@,
        LangCode::Hr => "Croatian"@,
        LangCode::Cs => "Czech"@,
        LangCode::Da => "Danish"@,
        LangCode::Dv => "Divehi"@,
        LangCode::Nl => "Dutch"@,
        LangCode::Dz => "Dzongkha"@,
        LangCode::En => "English"@,
        LangCode::Eo => "Esperanto"@,
        LangCode::Et => "Estonian"@,
        LangCode::Ee => "Ewe"@,
        LangCode::Fo => "Faroese"@,
        LangCode::Fj => "Fijian"@,
        LangCode::Fi => "Finnish"@,
        LangCode::Fr => "French"@,
        LangCode::Ff => "Fula"@,
        LangCode::Gl => "Galician"@,
        LangCode::Ka => "Georgian"@,
        LangCode::De => "German"@,
        LangCode::El => "Greek"@,
        LangCode::Gn => "Guaraní"@,
        LangCode::Gu => "Gujarati"@,
        LangCode::Ht => "Haitian"@,
        LangCode::Ha => "Hausa"@,
        LangCode::He => "Hebrew"@,
        LangCode::Hz => "Herero"@,
        LangCode::Hi => "Hindi"@,
        LangCode::Ho => "Hiri Motu"@,
        LangCode::Hu => "Hungarian"@,
        LangCode::Ia => "Interlingua"@,
        LangCode::Id => "Indonesian"@,
        LangCode::Ie => "Interlingue"@,
        LangCode::Ga => "Irish"@,
        LangCode::Ig => "Igbo"@,
        LangCode::Ik => "Inupiaq"@,
        LangCode::Io => "Ido"@,
        LangCode::Is => "Icelandic"@,
        LangCode::It => "Italian"@,
        LangCode::Iu => "Inuktitut"@,
        LangCode::Ja => "Japanese"@,
        LangCode::Jv => "Javanese"@,
        LangCode::Kl => "Kalaallisut"@,
        LangCode::Kn => "Kannada"@,
        LangCode::Kr => "Kanuri"@,
        LangCode::Ks => "Kashmiri"@,
        LangCode::Kk => "Kazakh"@,
        LangCode::Km => "Khmer"@,
        LangCode::Ki => "Kikuyu"@,
        LangCode::Rw => "Kinyarwanda"@,
        LangCode::Ky => "Kyrgyz"@,
        LangCode::Kv => "Komi"@,
        LangCode::Kg => "Kongo"@,
        LangCode::Ko => "Korean"@,
        LangCode::Ku => "Kurdish"@,
        LangCode::Kj => "Kwanyama"@,
        LangCode::La => "Latin"@,
        LangCode::Lb => "Luxembourgish"@,
        LangCode::Lg => "Ganda"@,
        LangCode::Li => "Limburgish"@,
        LangCode::Ln => "Lingala"@,
        LangCode::Lo => "Lao"@,
        LangCode::Lt => "Lithuanian"@,
        LangCode::Lu => "Luba-Katanga"@,
        LangCode::Lv => "Latvian"@,
        LangCode::Gv => "Manx"@,
        LangCode::Mk => "Macedonian"@,
        LangCode::Mg => "Malagasy"@,
        LangCode::Ms => "Malay"@,
        LangCode::Ml => "Malayalam"@,
        LangCode::Mt => "Maltese"@,
        LangCode::Mi => "Māori"@,
        LangCode::Mr => "Marathi"@,
        LangCode::Mh => "Marshallese"@,
        LangCode::Mn => "Mongolian"@,
        LangCode::Na => "Nauruan"@,
        LangCode::Nv => "Navajo"@,
        LangCode::Nd => "Northern Ndebele"@,
        LangCode::Ne => "Nepali"@,
        LangCode::Ng => "Ndonga"@,
        LangCode::Nb => "Norwegian Bokmål"@,
        LangCode::Nn => "Norwegian Nynorsk"@,
        LangCode::No => "Norwegian"@,
        LangCode::Ii => "Nuosu"@,
        LangCode::Nr => "Southern Ndebele"@,
        LangCode::Oc => "Occitan"@,
        LangCode::Oj => "Ojibwe"@,
        LangCode::Cu => "Old Church Slavonic"@,
        LangCode::Om => "Oromo"@,
        LangCode::Or => "Oriya"@,
        LangCode::Os => "Ossetian"@,
        LangCode::Pa => "Punjabi"@,
        LangCode::Pi => "Pāli"@,
        LangCode::Fa => "Persian"@,
        LangCode::Pl => "Polish"@,
        LangCode::Ps => "Pashto"@,
        LangCode::Pt => "Portuguese"@,
        LangCode::Qu => "Quechua"@,
        LangCode::Rm => "Romansh"@,
        LangCode::Rn => "Kirundi"@,
        LangCode::Ro => "Romanian"@,
        LangCode::Ru => "Russian"@,
        LangCode::Sa => "Sanskrit"@,
        LangCode::Sc => "Sardinian"@,
        LangCode::Sd => "Sindhi"@,
        LangCode::Se => "Northern Sami"@,
        LangCode::Sm => "Samoan"@,
        LangCode::Sg => "Sango"@,
        LangCode::Sr => "Serbian"@,
        LangCode::Gd => "Gaelic"@,
        LangCode::Sn => "Shona"@,
        LangCode::Si => "Sinhalese"@,
        LangCode::Sk => "Slovak"@,
        LangCode::Sl => "Slovene"@,
        LangCode::So => "Somali"@,
        LangCode::St => "Southern Sotho"@,
        LangCode::Es => "Spanish"@,
        LangCode::Su => "Sundanese"@,
        LangCode::Sw => "Swahili"@,
        LangCode::Ss => "Swati"@,
        LangCode::Sv => "Swedish"@,
        LangCode::Ta => "Tamil"@,
        LangCode::Te => "Telugu"@,
        LangCode::Tg => "Tajik"@,
        LangCode::Th => "Thai"@,
        LangCode::Ti => "Tigrinya"@,
        LangCode::Bo => "Tibetan"@,
        LangCode::Tk => "Turkmen"@,
        LangCode::Tl => "Tagalog"@,
        LangCode::Tn => "Tswana"@,
        LangCode::To => "Tonga"@,
        LangCode::Tr => "Turkish"@,
        LangCode::Ts => "Tsonga"@,
        LangCode::Tt => "Tatar"@,
        LangCode::Tw => "Twi"@,
        LangCode::Ty => "Tahitian"@,
        LangCode::Ug => "Uyghur"@,
        LangCode::Uk => "Ukrainian"@,
        LangCode::Ur => "Urdu"@,
        LangCode::Uz => "Uzbek"@,
        LangCode::Ve => "Venda"@,
        LangCode::Vi => "Vietnamese"@,
        LangCode::Vo => "Volapük"@,
        LangCode::Wa => "Walloon"@,
        LangCode::Cy => "Welsh"@,
        LangCode::Wo => "Wolof"@,
        LangCode::Fy => "Western Frisian"@,
        LangCode::Xh => "Xhosa"@,
        LangCode::Yi => "Yiddish"@,
        LangCode::Yo => "Yoruba"@,
        LangCode::Za => "Zhuang"@,
        LangCode::Zu => "Zulu"@,
    }
}

/// The native display name of each code.
pub open spec fn spec_native_name(c: LangCode) -> Seq<char> {
    match c {
        LangCode::Aa => "Afaraf"@,
        LangCode::Ab => "аҧсуа бызшәа"@,
        LangCode::Af => "Afrikaans"@,
        LangCode::Ak => "Akan"@,
        LangCode::Sq => "Shqip"@,
        LangCode::Am => "አማርኛ"@,
        LangCode::Ar => "العربية"@,
        LangCode::An => "aragonés"@,
        LangCode::Hy => "Հայերեն"@,
        LangCode::As => "অসমীয়া"@,
        LangCode::Av => "авар мацӀ"@,
        LangCode::Ae => "avesta"@,
        LangCode::Ay => "aymar aru"@,
        LangCode::Az => "azərbaycan dili"@,
        LangCode::Bm => "bamanankan"@,
        LangCode::Ba => "башҡорт теле"@,
        LangCode::Eu => "euskara"@,
        LangCode::Be => "беларуская мова"@,
        LangCode::Bn => "বাংলা"@,
        LangCode::Bh => "भोजपुरी"@,
        LangCode::Bi => "Bislama"@,
        LangCode::Bs => "bosanski jezik"@,
        LangCode::Br => "brezhoneg"@,
        LangCode::Bg => "български език"@,
        LangCode::My => "ဗမာစာ"@,
        LangCode::Ca => "català"@,
        LangCode::Ch => "Chamoru"@,
        LangCode::Ce => "нохчийн мотт"@,
        LangCode::Ny => "chiCheŵa"@,
        LangCode::Zh => "中文"@,
        LangCode::Cv => "чӑваш чӗлхи"@,
        LangCode::Kw => "Kernewek"@,
        LangCode::Co => "corsu"@,
        LangCode::Cr => "ᓀᐦᐃᔭᐍᐏᐣ"@,
        LangCode::Hr => "hrvatski jezik"@,
        LangCode::Cs => "čeština"@,
        LangCode::Da => "dansk"@,
        LangCode::Dv => "ދިވެހި"@,
        LangCode::Nl => "Nederlands"@,
        LangCode::Dz => "རྫོང་ཁ"@,
        LangCode::En => "English"@,
        LangCode::Eo => "Esperanto"@,
        LangCode::Et => "eesti"@,
        LangCode::Ee => "Eʋegbe"@,
        LangCode::Fo => "føroyskt"@,
        LangCode::Fj => "vosa Vakaviti"@,
        LangCode::Fi => "suomi"@,
        LangCode::Fr => "français"@,
        LangCode::Ff => "Fulfulde"@,
        LangCode::Gl => "galego"@,
        LangCode::Ka => "ქართული"@,
        LangCode::De => "Deutsch"@,
        LangCode::El => "ελληνικά"@,
        LangCode::Gn => "Avañe'ẽ"@,
        LangCode::Gu => "ગુજરાતી"@,
        LangCode::Ht => "Kreyòl ayisyen"@,
        LangCode::Ha => "(Hausa) هَوُسَ"@,
        LangCode::He => "עברית"@,
        LangCode::Hz => "Otjiherero"@,
        LangCode::Hi => "हिन्दी"@,
        LangCode::Ho => "Hiri Motu"@,
        LangCode::Hu => "magyar"@,
        LangCode::Ia => "Interlingua"@,
        LangCode::Id => "Bahasa Indonesia"@,
        LangCode::Ie => "Interlingue"@,
        LangCode::Ga => "Gaeilge"@,
        LangCode::Ig => "Asụsụ Igbo"@,
        LangCode::Ik => "Iñupiaq"@,
        LangCode::Io => "Ido"@,
        LangCode::Is => "Íslenska"@,
        LangCode::It => "Italiano"@,
        LangCode::Iu => "ᐃᓄᒃᑎᑐᑦ"@,
        LangCode::Ja => "日本語 (にほんご)"@,
        LangCode::Jv => "ꦧꦱꦗꦮ"@,
        LangCode::Kl => "kalaallisut"@,
        LangCode::Kn => "ಕನ್ನಡ"@,
        LangCode::Kr => "Kanuri"@,
        LangCode::Ks => "कश्मीरी"@,
        LangCode::Kk => "қазақ тілі"@,
        LangCode::Km => "ខ្មែរ"@,
        LangCode::Ki => "Gĩkũyũ"@,
        LangCode::Rw => "Ikinyarwanda"@,
        LangCode::Ky => "Кыргызча"@,
        LangCode::Kv => "коми кыв"@,
        LangCode::Kg => "Kikongo"@,
        LangCode::Ko => "한국어"@,
        LangCode::Ku => "Kurdî"@,
        LangCode::Kj => "Kuanyama"@,
        LangCode::La => "lingua latina"@,
        LangCode::Lb => "Lëtzebuergesch"@,
        LangCode::Lg => "Luganda"@,
        LangCode::Li => "Limburgs"@,
        LangCode::Ln => "Lingála"@,
        LangCode::Lo => "ພາສາລາວ"@,
        LangCode::Lt => "lietuvių kalba"@,
        LangCode::Lu => "Tshiluba"@,
        LangCode::Lv => "latviešu valoda"@,
        LangCode::Gv => "Gaelg"@,
        LangCode::Mk => "македонски јазик"@,
        LangCode::Mg => "fiteny malagasy"@,
        LangCode::Ms => "bahasa Melayu"@,
        LangCode::Ml => "മലയാളം"@,
        LangCode::Mt => "Malti"@,
        LangCode::Mi => "te reo Māori"@,
        LangCode::Mr => "मराठी"@,
        LangCode::Mh => "Kajin M̧ajeļ"@,
        LangCode::Mn => "Монгол хэл"@,
        LangCode::Na => "Dorerin Naoero"@,
        LangCode::Nv => "Diné bizaad"@,
        LangCode::Nd => "isiNdebele"@,
        LangCode::Ne => "नेपाली"@,
        LangCode::Ng => "Owambo"@,
        LangCode::Nb => "Norsk bokmål"@,
        LangCode::Nn => "Norsk nynorsk"@,
        LangCode::No => "Norsk"@,
        LangCode::Ii => "ꆈꌠ꒿ Nuosuhxop"@,
        LangCode::Nr => "isiNdebele"@,
        LangCode::Oc => "occitan"@,
        LangCode::Oj => "ᐊᓂᔑᓈᐯᒧᐎᓐ"@,
        LangCode::Cu => "ѩзыкъ словѣньскъ"@,
        LangCode::Om => "Afaan Oromoo"@,
        LangCode::Or => "ଓଡ଼ିଆ"@,
        LangCode::Os => "ирон æвзаг"@,
        LangCode::Pa => "ਪੰਜਾਬੀ"@,
        LangCode::Pi => "पाऴि"@,
        LangCode::Fa => "فارسی"@,
        LangCode::Pl => "język polski"@,
        LangCode::Ps => "پښتو"@,
        LangCode::Pt => "Português"@,
        LangCode::Qu => "Runa Simi"@,
        LangCode::Rm => "rumantsch grischun"@,
        LangCode::Rn => "Ikirundi"@,
        LangCode::Ro => "Română"@,
        LangCode::Ru => "Русский"@,
        LangCode::Sa => "संस्कृतम्"@,
        LangCode::Sc => "sardu"@,
        LangCode::Sd => "सिन्धी"@,
        LangCode::Se => "Davvisámegiella"@,
        LangCode::Sm => "gagana fa'a Samoa"@,
        LangCode::Sg => "yângâ tî sängö"@,
        LangCode::Sr => "српски језик"@,
        LangCode::Gd => "Gàidhlig"@,
        LangCode::Sn => "chiShona"@,
        LangCode::Si => "සිංහල"@,
        LangCode::Sk => "slovenčina"@,
        LangCode::Sl => "slovenski jezik"@,
        LangCode::So => "Soomaaliga"@,
        LangCode::St => "Sesotho"@,
        LangCode::Es => "Español"@,
        LangCode::Su => "Basa Sunda"@,
        LangCode::Sw => "Kiswahili"@,
        LangCode::Ss => "SiSwati"@,
        LangCode::Sv => "svenska"@,
        LangCode::Ta => "தமிழ்"@,
        LangCode::Te => "తెలుగు"@,
        LangCode::Tg => "тоҷикӣ"@,
        LangCode::Th => "ไทย"@,
        LangCode::Ti => "ትግርኛ"@,
        LangCode::Bo => "བོད་ཡིག"@,
        LangCode::Tk => "Türkmen"@,
        LangCode::Tl => "Wikang Tagalog"@,
        LangCode::Tn => "Setswana"@,
        LangCode::To => "faka Tonga"@,
        LangCode::Tr => "Türkçe"@,
        LangCode::Ts => "Xitsonga"@,
        LangCode::Tt => "татар теле"@,
        LangCode::Tw => "Twi"@,
        LangCode::Ty => "Reo Tahiti"@,
        LangCode::Ug => "ئۇيغۇرچە‎"@,
        LangCode::Uk => "Українська"@,
        LangCode::Ur => "اردو"@,
        LangCode::Uz => "Oʻzbek"@,
        LangCode::Ve => "Tshivenḓa"@,
        LangCode::Vi => "Tiếng Việt"@,
        LangCode::Vo => "Volapük"@,
        LangCode::Wa => "walon"@,
        LangCode::Cy => "Cymraeg"@,
        LangCode::Wo => "Wollof"@,
        LangCode::Fy => "Frysk"@,
        LangCode::Xh => "isiXhosa"@,
        LangCode::Yi => "ייִדיש"@,
        LangCode::Yo => "Yorùbá"@,
        LangCode::Za => "Saɯ cueŋƅ"@,
        LangCode::Zu => "isiZulu"@,
    }
}

/// A two-byte ASCII string slice views as exactly those two bytes.
pub(crate) proof fn lemma_two_ascii_bytes(s: &str, a: u8, b: u8)
    requires
        s@.len() == 2,
        '\0' <= s@[0] <= '\u{7f}',
        '\0' <= s@[1] <= '\u{7f}',
        s@[0] as int == a as int,
        s@[1] as int == b as int,
    ensures
        s.spec_bytes() == seq![a, b],
{
    assert(vstd::string::is_ascii(s)) by {
        assert forall|i: int| 0 <= i < s@.len() implies '\0' <= #[trigger] s@[i] <= '\u{7f}' by {
            assert(i == 0 || i == 1);
        }
    };
    vstd::string::is_ascii_spec_bytes(s);
    assert(s.spec_bytes() =~= seq![a, b]);
}

impl LangCode {
    /// The lowercase string form of the code; always two ASCII letters.
    pub fn as_str(self) -> (r: &'static str)
        ensures
            r.spec_bytes() == spec_code_bytes(self),
            r@.len() == 2,
    {
        match self {
            LangCode::Aa => {
                proof {
                    reveal_strlit("aa");
                    lemma_two_ascii_bytes("aa", 97, 97);
                }
                "aa"
            },
            LangCode::Ab => {
                proof {
                    reveal_strlit("ab");
                    lemma_two_ascii_bytes("ab", 97, 98);
                }
                "ab"
            },
            LangCode::Af => {
                proof {
                    reveal_strlit("af");
                    lemma_two_ascii_bytes("af", 97, 102);
                }
                "af"
            },
            LangCode::Ak => {
                proof {
                    reveal_strlit("ak");
                    lemma_two_ascii_bytes("ak", 97, 107);
                }
                "ak"
            },
            LangCode::Sq => {
                proof {
                    reveal_strlit("sq");
                    lemma_two_ascii_bytes("sq", 115, 113);
                }
                "sq"
            },
            LangCode::Am => {
                proof {
                    reveal_strlit("am");
                    lemma_two_ascii_bytes("am", 97, 109);
                }
                "am"
            },
            LangCode::Ar => {
                proof {
                    reveal_strlit("ar");
                    lemma_two_ascii_bytes("ar", 97, 114);
                }
                "ar"
            },
            LangCode::An => {
                proof {
                    reveal_strlit("an");
                    lemma_two_ascii_bytes("an", 97, 110);
                }
                "an"
            },
            LangCode::Hy => {
                proof {
                    reveal_strlit("hy");
                    lemma_two_ascii_bytes("hy", 104, 121);
                }
                "hy"
            },
            LangCode::As => {
                proof {
                    reveal_strlit("as");
                    lemma_two_ascii_bytes("as", 97, 115);
                }
                "as"
            },
            LangCode::Av => {
                proof {
                    reveal_strlit("av");
                    lemma_two_ascii_bytes("av", 97, 118);
                }
                "av"
            },
            LangCode::Ae => {
                proof {
                    reveal_strlit("ae");
                    lemma_two_ascii_bytes("ae", 97, 101);
                }
                "ae"
            },
            LangCode::Ay => {
                proof {
                    reveal_strlit("ay");
                    lemma_two_ascii_bytes("ay", 97, 121);
                }
                "ay"
            },
            LangCode::Az => {
                proof {
                    reveal_strlit("az");
                    lemma_two_ascii_bytes("az", 97, 122);
                }
                "az"
            },
            LangCode::Bm => {
                proof {
                    reveal_strlit("bm");
                    lemma_two_ascii_bytes("bm", 98, 109);
                }
                "bm"
            },
            LangCode::Ba => {
                proof {
                    reveal_strlit("ba");
                    lemma_two_ascii_bytes("ba", 98, 97);
                }
                "ba"
            },
            LangCode::Eu => {
                proof {
                    reveal_strlit("eu");
                    lemma_two_ascii_bytes("eu", 101, 117);
                }
                "eu"
            },
            LangCode::Be => {
                proof {
                    reveal_strlit("be");
                    lemma_two_ascii_bytes("be", 98, 101);
                }
                "be"
            },
            LangCode::Bn => {
                proof {
                    reveal_strlit("bn");
                    lemma_two_ascii_bytes("bn", 98, 110);
                }
                "bn"
            },
            LangCode::Bh => {
                proof {
                    reveal_strlit("bh");
                    lemma_two_ascii_bytes("bh", 98, 104);
                }
                "bh"
            },
            LangCode::Bi => {
                proof {
                    reveal_strlit("bi");
                    lemma_two_ascii_bytes("bi", 98, 105);
                }
                "bi"
            },
            LangCode::Bs => {
                proof {
                    reveal_strlit("bs");
                    lemma_two_ascii_bytes("bs", 98, 115);
                }
                "bs"
            },
            LangCode::Br => {
                proof {
                    reveal_strlit("br");
                    lemma_two_ascii_bytes("br", 98, 114);
                }
                "br"
            },
            LangCode::Bg => {
                proof {
                    reveal_strlit("bg");
                    lemma_two_ascii_bytes("bg", 98, 103);
                }
                "bg"
            },
            LangCode::My => {
                proof {
                    reveal_strlit("my");
                    lemma_two_ascii_bytes("my", 109, 121);
                }
                "my"
            },
            LangCode::Ca => {
                proof {
                    reveal_strlit("ca");
                    lemma_two_ascii_bytes("ca", 99, 97);
                }
                "ca"
            },
            LangCode::Ch => {
                proof {
                    reveal_strlit("ch");
                    lemma_two_ascii_bytes("ch", 99, 104);
                }
                "ch"
            },
            LangCode::Ce => {
                proof {
                    reveal_strlit("ce");
                    lemma_two_ascii_bytes("ce", 99, 101);
                }
                "ce"
            },
            LangCode::Ny => {
                proof {
                    reveal_strlit("ny");
                    lemma_two_ascii_bytes("ny", 110, 121);
                }
                "ny"
            },
            LangCode::Zh => {
                proof {
                    reveal_strlit("zh");
                    lemma_two_ascii_bytes("zh", 122, 104);
                }
                "zh"
            },
            LangCode::Cv => {
                proof {
                    reveal_strlit("cv");
                    lemma_two_ascii_bytes("cv", 99, 118);
                }
                "cv"
            },
            LangCode::Kw => {
                proof {
                    reveal_strlit("kw");
                    lemma_two_ascii_bytes("kw", 107, 119);
                }
                "kw"
            },
            LangCode::Co => {
                proof {
                    reveal_strlit("co");
                    lemma_two_ascii_bytes("co", 99, 111);
                }
                "co"
            },
            LangCode::Cr => {
                proof {
                    reveal_strlit("cr");
                    lemma_two_ascii_bytes("cr", 99, 114);
                }
                "cr"
            },
            LangCode::Hr => {
                proof {
                    reveal_strlit("hr");
                    lemma_two_ascii_bytes("hr", 104, 114);
                }
                "hr"
            },
            LangCode::Cs => {
                proof {
                    reveal_strlit("cs");
                    lemma_two_ascii_bytes("cs", 99, 115);
                }
                "cs"
            },
            LangCode::Da => {
                proof {
                    reveal_strlit("da");
                    lemma_two_ascii_bytes("da", 100, 97);
                }
                "da"
            },
            LangCode::Dv => {
                proof {
                    reveal_strlit("dv");
                    lemma_two_ascii_bytes("dv", 100, 118);
                }
                "dv"
            },
            LangCode::Nl => {
                proof {
                    reveal_strlit("nl");
                    lemma_two_ascii_bytes("nl", 110, 108);
                }
                "nl"
            },
            LangCode::Dz => {
                proof {
                    reveal_strlit("dz");
                    lemma_two_ascii_bytes("dz", 100, 122);
                }
                "dz"
            },
            LangCode::En => {
                proof {
                    reveal_strlit("en");
                    lemma_two_ascii_bytes("en", 101, 110);
                }
                "en"
            },
            LangCode::Eo => {
                proof {
                    reveal_strlit("eo");
                    lemma_two_ascii_bytes("eo", 101, 111);
                }
                "eo"
            },
            LangCode::Et => {
                proof {
                    reveal_strlit("et");
                    lemma_two_ascii_bytes("et", 101, 116);
                }
                "et"
            },
            LangCode::Ee => {
                proof {
                    reveal_strlit("ee");
                    lemma_two_ascii_bytes("ee", 101, 101);
                }
                "ee"
            },
            LangCode::Fo => {
                proof {
                    reveal_strlit("fo");
                    lemma_two_ascii_bytes("fo", 102, 111);
                }
                "fo"
            },
            LangCode::Fj => {
                proof {
                    reveal_strlit("fj");
                    lemma_two_ascii_bytes("fj", 102, 106);
                }
                "fj"
            },
            LangCode::Fi => {
                proof {
                    reveal_strlit("fi");
                    lemma_two_ascii_bytes("fi", 102, 105);
                }
                "fi"
            },
            LangCode::Fr => {
                proof {
                    reveal_strlit("fr");
                    lemma_two_ascii_bytes("fr", 102, 114);
                }
                "fr"
            },
            LangCode::Ff => {
                proof {
                    reveal_strlit("ff");
                    lemma_two_ascii_bytes("ff", 102, 102);
                }
                "ff"
            },
            LangCode::Gl => {
                proof {
                    reveal_strlit("gl");
                    lemma_two_ascii_bytes("gl", 103, 108);
                }
                "gl"
            },
            LangCode::Ka => {
                proof {
                    reveal_strlit("ka");
                    lemma_two_ascii_bytes("ka", 107, 97);
                }
                "ka"
            },
            LangCode::De => {
                proof {
                    reveal_strlit("de");
                    lemma_two_ascii_bytes("de", 100, 101);
                }
                "de"
            },
            LangCode::El => {
                proof {
                    reveal_strlit("el");
                    lemma_two_ascii_bytes("el", 101, 108);
                }
                "el"
            },
            LangCode::Gn => {
                proof {
                    reveal_strlit("gn");
                    lemma_two_ascii_bytes("gn", 103, 110);
                }
                "gn"
            },
            LangCode::Gu => {
                proof {
                    reveal_strlit("gu");
                    lemma_two_ascii_bytes("gu", 103, 117);
                }
                "gu"
            },
            LangCode::Ht => {
                proof {
                    reveal_strlit("ht");
                    lemma_two_ascii_bytes("ht", 104, 116);
                }
                "ht"
            },
            LangCode::Ha => {
                proof {
                    reveal_strlit("ha");
                    lemma_two_ascii_bytes("ha", 104, 97);
                }
                "ha"
            },
            LangCode::He => {
                proof {
                    reveal_strlit("he");
                    lemma_two_ascii_bytes("he", 104, 101);
                }
                "he"
            },
            LangCode::Hz => {
                proof {
                    reveal_strlit("hz");
                    lemma_two_ascii_bytes("hz", 104, 122);
                }
                "hz"
            },
            LangCode::Hi => {
                proof {
                    reveal_strlit("hi");
                    lemma_two_ascii_bytes("hi", 104, 105);
                }
                "hi"
            },
            LangCode::Ho => {
                proof {
                    reveal_strlit("ho");
                    lemma_two_ascii_bytes("ho", 104, 111);
                }
                "ho"
            },
            LangCode::Hu => {
                proof {
                    reveal_strlit("hu");
                    lemma_two_ascii_bytes("hu", 104, 117);
                }
                "hu"
            },
            LangCode::Ia => {
                proof {
                    reveal_strlit("ia");
                    lemma_two_ascii_bytes("ia", 105, 97);
                }
                "ia"
            },
            LangCode::Id => {
                proof {
                    reveal_strlit("id");
                    lemma_two_ascii_bytes("id", 105, 100);
                }
                "id"
            },
            LangCode::Ie => {
                proof {
                    reveal_strlit("ie");
                    lemma_two_ascii_bytes("ie", 105, 101);
                }
                "ie"
            },
            LangCode::Ga => {
                proof {
                    reveal_strlit("ga");
                    lemma_two_ascii_bytes("ga", 103, 97);
                }
                "ga"
            },
            LangCode::Ig => {
                proof {
                    reveal_strlit("ig");
                    lemma_two_ascii_bytes("ig", 105, 103);
                }
                "ig"
            },
            LangCode::Ik => {
                proof {
                    reveal_strlit("ik");
                    lemma_two_ascii_bytes("ik", 105, 107);
                }
                "ik"
            },
            LangCode::Io => {
                proof {
                    reveal_strlit("io");
                    lemma_two_ascii_bytes("io", 105, 111);
                }
                "io"
            },
            LangCode::Is => {
                proof {
                    reveal_strlit("is");
                    lemma_two_ascii_bytes("is", 105, 115);
                }
                "is"
            },
            LangCode::It => {
                proof {
                    reveal_strlit("it");
                    lemma_two_ascii_bytes("it", 105, 116);
                }
                "it"
            },
            LangCode::Iu => {
                proof {
                    reveal_strlit("iu");
                    lemma_two_ascii_bytes("iu", 105, 117);
                }
                "iu"
            },
            LangCode::Ja => {
                proof {
                    reveal_strlit("ja");
                    lemma_two_ascii_bytes("ja", 106, 97);
                }
                "ja"
            },
            LangCode::Jv => {
                proof {
                    reveal_strlit("jv");
                    lemma_two_ascii_bytes("jv", 106, 118);
                }
                "jv"
            },
            LangCode::Kl => {
                proof {
                    reveal_strlit("kl");
                    lemma_two_ascii_bytes("kl", 107, 108);
                }
                "kl"
            },
            LangCode::Kn => {
                proof {
                    reveal_strlit("kn");
                    lemma_two_ascii_bytes("kn", 107, 110);
                }
                "kn"
            },
            LangCode::Kr => {
                proof {
                    reveal_strlit("kr");
                    lemma_two_ascii_bytes("kr", 107, 114);
                }
                "kr"
            },
            LangCode::Ks => {
                proof {
                    reveal_strlit("ks");
                    lemma_two_ascii_bytes("ks", 107, 115);
                }
                "ks"
            },
            LangCode::Kk => {
                proof {
                    reveal_strlit("kk");
                    lemma_two_ascii_bytes("kk", 107, 107);
                }
                "kk"
            },
            LangCode::Km => {
                proof {
                    reveal_strlit("km");
                    lemma_two_ascii_bytes("km", 107, 109);
                }
                "km"
            },
            LangCode::Ki => {
                proof {
                    reveal_strlit("ki");
                    lemma_two_ascii_bytes("ki", 107, 105);
                }
                "ki"
            },
            LangCode::Rw => {
                proof {
                    reveal_strlit("rw");
                    lemma_two_ascii_bytes("rw", 114, 119);
                }
                "rw"
            },
            LangCode::Ky => {
                proof {
                    reveal_strlit("ky");
                    lemma_two_ascii_bytes("ky", 107, 121);
                }
                "ky"
            },
            LangCode::Kv => {
                proof {
                    reveal_strlit("kv");
                    lemma_two_ascii_bytes("kv", 107, 118);
                }
                "kv"
            },
            LangCode::Kg => {
                proof {
                    reveal_strlit("kg");
                    lemma_two_ascii_bytes("kg", 107, 103);
                }
                "kg"
            },
            LangCode::Ko => {
                proof {
                    reveal_strlit("ko");
                    lemma_two_ascii_bytes("ko", 107, 111);
                }
                "ko"
            },
            LangCode::Ku => {
                proof {
                    reveal_strlit("ku");
                    lemma_two_ascii_bytes("ku", 107, 117);
                }
                "ku"
            },
            LangCode::Kj => {
                proof {
                    reveal_strlit("kj");
                    lemma_two_ascii_bytes("kj", 107, 106);
                }
                "kj"
            },
            LangCode::La => {
                proof {
                    reveal_strlit("la");
                    lemma_two_ascii_bytes("la", 108, 97);
                }
                "la"
            },
            LangCode::Lb => {
                proof {
                    reveal_strlit("lb");
                    lemma_two_ascii_bytes("lb", 108, 98);
                }
                "lb"
            },
            LangCode::Lg => {
                proof {
                    reveal_strlit("lg");
                    lemma_two_ascii_bytes("lg", 108, 103);
                }
                "lg"
            },
            LangCode::Li => {
                proof {
                    reveal_strlit("li");
                    lemma_two_ascii_bytes("li", 108, 105);
                }
                "li"
            },
            LangCode::Ln => {
                proof {
                    reveal_strlit("ln");
                    lemma_two_ascii_bytes("ln", 108, 110);
                }
                "ln"
            },
            LangCode::Lo => {
                proof {
                    reveal_strlit("lo");
                    lemma_two_ascii_bytes("lo", 108, 111);
                }
                "lo"
            },
            LangCode::Lt => {
                proof {
                    reveal_strlit("lt");
                    lemma_two_ascii_bytes("lt", 108, 116);
                }
                "lt"
            },
            LangCode::Lu => {
                proof {
                    reveal_strlit("lu");
                    lemma_two_ascii_bytes("lu", 108, 117);
                }
                "lu"
            },
            LangCode::Lv => {
                proof {
                    reveal_strlit("lv");
                    lemma_two_ascii_bytes("lv", 108, 118);
                }
                "lv"
            },
            LangCode::Gv => {
                proof {
                    reveal_strlit("gv");
                    lemma_two_ascii_bytes("gv", 103, 118);
                }
                "gv"
            },
            LangCode::Mk => {
                proof {
                    reveal_strlit("mk");
                    lemma_two_ascii_bytes("mk", 109, 107);
                }
                "mk"
            },
            LangCode::Mg => {
                proof {
                    reveal_strlit("mg");
                    lemma_two_ascii_bytes("mg", 109, 103);
                }
                "mg"
            },
            LangCode::Ms => {
                proof {
                    reveal_strlit("ms");
                    lemma_two_ascii_bytes("ms", 109, 115);
                }
                "ms"
            },
            LangCode::Ml => {
                proof {
                    reveal_strlit("ml");
                    lemma_two_ascii_bytes("ml", 109, 108);
                }
                "ml"
            },
            LangCode::Mt => {
                proof {
                    reveal_strlit("mt");
                    lemma_two_ascii_bytes("mt", 109, 116);
                }
                "mt"
            },
            LangCode::Mi => {
                proof {
                    reveal_strlit("mi");
                    lemma_two_ascii_bytes("mi", 109, 105);
                }
                "mi"
            },
            LangCode::Mr => {
                proof {
                    reveal_strlit("mr");
                    lemma_two_ascii_bytes("mr", 109, 114);
                }
                "mr"
            },
            LangCode::Mh => {
                proof {
                    reveal_strlit("mh");
                    lemma_two_ascii_bytes("mh", 109, 104);
                }
                "mh"
            },
            LangCode::Mn => {
                proof {
                    reveal_strlit("mn");
                    lemma_two_ascii_bytes("mn", 109, 110);
                }
                "mn"
            },
            LangCode::Na => {
                proof {
                    reveal_strlit("na");
                    lemma_two_ascii_bytes("na", 110, 97);
                }
                "na"
            },
            LangCode::Nv => {
                proof {
                    reveal_strlit("nv");
                    lemma_two_ascii_bytes("nv", 110, 118);
                }
                "nv"
            },
            LangCode::Nd => {
                proof {
                    reveal_strlit("nd");
                    lemma_two_ascii_bytes("nd", 110, 100);
                }
                "nd"
            },
            LangCode::Ne => {
                proof {
                    reveal_strlit("ne");
                    lemma_two_ascii_bytes("ne", 110, 101);
                }
                "ne"
            },
            LangCode::Ng => {
                proof {
                    reveal_strlit("ng");
                    lemma_two_ascii_bytes("ng", 110, 103);
                }
                "ng"
            },
            LangCode::Nb => {
                proof {
                    reveal_strlit("nb");
                    lemma_two_ascii_bytes("nb", 110, 98);
                }
                "nb"
            },
            LangCode::Nn => {
                proof {
                    reveal_strlit("nn");
                    lemma_two_ascii_bytes("nn", 110, 110);
                }
                "nn"
            },
            LangCode::No => {
                proof {
                    reveal_strlit("no");
                    lemma_two_ascii_bytes("no", 110, 111);
                }
                "no"
            },
            LangCode::Ii => {
                proof {
                    reveal_strlit("ii");
                    lemma_two_ascii_bytes("ii", 105, 105);
                }
                "ii"
            },
            LangCode::Nr => {
                proof {
                    reveal_strlit("nr");
                    lemma_two_ascii_bytes("nr", 110, 114);
                }
                "nr"
            },
            LangCode::Oc => {
                proof {
                    reveal_strlit("oc");
                    lemma_two_ascii_bytes("oc", 111, 99);
                }
                "oc"
            },
            LangCode::Oj => {
                proof {
                    reveal_strlit("oj");
                    lemma_two_ascii_bytes("oj", 111, 106);
                }
                "oj"
            },
            LangCode::Cu => {
                proof {
                    reveal_strlit("cu");
                    lemma_two_ascii_bytes("cu", 99, 117);
                }
                "cu"
            },
            LangCode::Om => {
                proof {
                    reveal_strlit("om");
                    lemma_two_ascii_bytes("om", 111, 109);
                }
                "om"
            },
            LangCode::Or => {
                proof {
                    reveal_strlit("or");
                    lemma_two_ascii_bytes("or", 111, 114);
                }
                "or"
            },
            LangCode::Os => {
                proof {
                    reveal_strlit("os");
                    lemma_two_ascii_bytes("os", 111, 115);
                }
                "os"
            },
            LangCode::Pa => {
                proof {
                    reveal_strlit("pa");
                    lemma_two_ascii_bytes("pa", 112, 97);
                }
                "pa"
            },
            LangCode::Pi => {
                proof {
                    reveal_strlit("pi");
                    lemma_two_ascii_bytes("pi", 112, 105);
                }
                "pi"
            },
            LangCode::Fa => {
                proof {
                    reveal_strlit("fa");
                    lemma_two_ascii_bytes("fa", 102, 97);
                }
                "fa"
            },
            LangCode::Pl => {
                proof {
                    reveal_strlit("pl");
                    lemma_two_ascii_bytes("pl", 112, 108);
                }
                "pl"
            },
            LangCode::Ps => {
                proof {
                    reveal_strlit("ps");
                    lemma_two_ascii_bytes("ps", 112, 115);
                }
                "ps"
            },
            LangCode::Pt => {
                proof {
                    reveal_strlit("pt");
                    lemma_two_ascii_bytes("pt", 112, 116);
                }
                "pt"
            },
            LangCode::Qu => {
                proof {
                    reveal_strlit("qu");
                    lemma_two_ascii_bytes("qu", 113, 117);
                }
                "qu"
            },
            LangCode::Rm => {
                proof {
                    reveal_strlit("rm");
                    lemma_two_ascii_bytes("rm", 114, 109);
                }
                "rm"
            },
            LangCode::Rn => {
                proof {
                    reveal_strlit("rn");
                    lemma_two_ascii_bytes("rn", 114, 110);
                }
                "rn"
            },
            LangCode::Ro => {
                proof {
                    reveal_strlit("ro");
                    lemma_two_ascii_bytes("ro", 114, 111);
                }
                "ro"
            },
            LangCode::Ru => {
                proof {
                    reveal_strlit("ru");
                    lemma_two_ascii_bytes("ru", 114, 117);
                }
                "ru"
            },
            LangCode::Sa => {
                proof {
                    reveal_strlit("sa");
                    lemma_two_ascii_bytes("sa", 115, 97);
                }
                "sa"
            },
            LangCode::Sc => {
                proof {
                    reveal_strlit("sc");
                    lemma_two_ascii_bytes("sc", 115, 99);
                }
                "sc"
            },
            LangCode::Sd => {
                proof {
                    reveal_strlit("sd");
                    lemma_two_ascii_bytes("sd", 115, 100);
                }
                "sd"
            },
            LangCode::Se => {
                proof {
                    reveal_strlit("se");
                    lemma_two_ascii_bytes("se", 115, 101);
                }
                "se"
            },
            LangCode::Sm => {
                proof {
                    reveal_strlit("sm");
                    lemma_two_ascii_bytes("sm", 115, 109);
                }
                "sm"
            },
            LangCode::Sg => {
                proof {
                    reveal_strlit("sg");
                    lemma_two_ascii_bytes("sg", 115, 103);
                }
                "sg"
            },
            LangCode::Sr => {
                proof {
                    reveal_strlit("sr");
                    lemma_two_ascii_bytes("sr", 115, 114);
                }
                "sr"
            },
            LangCode::Gd => {
                proof {
                    reveal_strlit("gd");
                    lemma_two_ascii_bytes("gd", 103, 100);
                }
                "gd"
            },
            LangCode::Sn => {
                proof {
                    reveal_strlit("sn");
                    lemma_two_ascii_bytes("sn", 115, 110);
                }
                "sn"
            },
            LangCode::Si => {
                proof {
                    reveal_strlit("si");
                    lemma_two_ascii_bytes("si", 115, 105);
                }
                "si"
            },
            LangCode::Sk => {
                proof {
                    reveal_strlit("sk");
                    lemma_two_ascii_bytes("sk", 115, 107);
                }
                "sk"
            },
            LangCode::Sl => {
                proof {
                    reveal_strlit("sl");
                    lemma_two_ascii_bytes("sl", 115, 108);
                }
                "sl"
            },
            LangCode::So => {
                proof {
                    reveal_strlit("so");
                    lemma_two_ascii_bytes("so", 115, 111);
                }
                "so"
            },
            LangCode::St => {
                proof {
                    reveal_strlit("st");
                    lemma_two_ascii_bytes("st", 115, 116);
                }
                "st"
            },
            LangCode::Es => {
                proof {
                    reveal_strlit("es");
                    lemma_two_ascii_bytes("es", 101, 115);
                }
                "es"
            },
            LangCode::Su => {
                proof {
                    reveal_strlit("su");
                    lemma_two_ascii_bytes("su", 115, 117);
                }
                "su"
            },
            LangCode::Sw => {
                proof {
                    reveal_strlit("sw");
                    lemma_two_ascii_bytes("sw", 115, 119);
                }
                "sw"
            },
            LangCode::Ss => {
                proof {
                    reveal_strlit("ss");
                    lemma_two_ascii_bytes("ss", 115, 115);
                }
                "ss"
            },
            LangCode::Sv => {
                proof {
                    reveal_strlit("sv");
                    lemma_two_ascii_bytes("sv", 115, 118);
                }
                "sv"
            },
            LangCode::Ta => {
                proof {
                    reveal_strlit("ta");
                    lemma_two_ascii_bytes("ta", 116, 97);
                }
                "ta"
            },
            LangCode::Te => {
                proof {
                    reveal_strlit("te");
                    lemma_two_ascii_bytes("te", 116, 101);
                }
                "te"
            },
            LangCode::Tg => {
                proof {
                    reveal_strlit("tg");
                    lemma_two_ascii_bytes("tg", 116, 103);
                }
                "tg"
            },
            LangCode::Th => {
                proof {
                    reveal_strlit("th");
                    lemma_two_ascii_bytes("th", 116, 104);
                }
                "th"
            },
            LangCode::Ti => {
                proof {
                    reveal_strlit("ti");
                    lemma_two_ascii_bytes("ti", 116, 105);
                }
                "ti"
            },
            LangCode::Bo => {
                proof {
                    reveal_strlit("bo");
                    lemma_two_ascii_bytes("bo", 98, 111);
                }
                "bo"
            },
            LangCode::Tk => {
                proof {
                    reveal_strlit("tk");
                    lemma_two_ascii_bytes("tk", 116, 107);
                }
                "tk"
            },
            LangCode::Tl => {
                proof {
                    reveal_strlit("tl");
                    lemma_two_ascii_bytes("tl", 116, 108);
                }
                "tl"
            },
            LangCode::Tn => {
                proof {
                    reveal_strlit("tn");
                    lemma_two_ascii_bytes("tn", 116, 110);
                }
                "tn"
            },
            LangCode::To => {
                proof {
                    reveal_strlit("to");
                    lemma_two_ascii_bytes("to", 116, 111);
                }
                "to"
            },
            LangCode::Tr => {
                proof {
                    reveal_strlit("tr");
                    lemma_two_ascii_bytes("tr", 116, 114);
                }
                "tr"
            },
            LangCode::Ts => {
                proof {
                    reveal_strlit("ts");
                    lemma_two_ascii_bytes("ts", 116, 115);
                }
                "ts"
            },
            LangCode::Tt => {
                proof {
                    reveal_strlit("tt");
                    lemma_two_ascii_bytes("tt", 116, 116);
                }
                "tt"
            },
            LangCode::Tw => {
                proof {
                    reveal_strlit("tw");
                    lemma_two_ascii_bytes("tw", 116, 119);
                }
                "tw"
            },
            LangCode::Ty => {
                proof {
                    reveal_strlit("ty");
                    lemma_two_ascii_bytes("ty", 116, 121);
                }
                "ty"
            },
            LangCode::Ug => {
                proof {
                    reveal_strlit("ug");
                    lemma_two_ascii_bytes("ug", 117, 103);
                }
                "ug"
            },
            LangCode::Uk => {
                proof {
                    reveal_strlit("uk");
                    lemma_two_ascii_bytes("uk", 117, 107);
                }
                "uk"
            },
            LangCode::Ur => {
                proof {
                    reveal_strlit("ur");
                    lemma_two_ascii_bytes("ur", 117, 114);
                }
                "ur"
            },
            LangCode::Uz => {
                proof {
                    reveal_strlit("uz");
                    lemma_two_ascii_bytes("uz", 117, 122);
                }
                "uz"
            },
            LangCode::Ve => {
                proof {
                    reveal_strlit("ve");
                    lemma_two_ascii_bytes("ve", 118, 101);
                }
                "ve"
            },
            LangCode::Vi => {
                proof {
                    reveal_strlit("vi");
                    lemma_two_ascii_bytes("vi", 118, 105);
                }
                "vi"
            },
            LangCode::Vo => {
                proof {
                    reveal_strlit("vo");
                    lemma_two_ascii_bytes("vo", 118, 111);
                }
                "vo"
            },
            LangCode::Wa => {
                proof {
                    reveal_strlit("wa");
                    lemma_two_ascii_bytes("wa", 119, 97);
                }
                "wa"
            },
            LangCode::Cy => {
                proof {
                    reveal_strlit("cy");
                    lemma_two_ascii_bytes("cy", 99, 121);
                }
                "cy"
            },
            LangCode::Wo => {
                proof {
                    reveal_strlit("wo");
                    lemma_two_ascii_bytes("wo", 119, 111);
                }
                "wo"
            },
            LangCode::Fy => {
                proof {
                    reveal_strlit("fy");
                    lemma_two_ascii_bytes("fy", 102, 121);
                }
                "fy"
            },
            LangCode::Xh => {
                proof {
                    reveal_strlit("xh");
                    lemma_two_ascii_bytes("xh", 120, 104);
                }
                "xh"
            },
            LangCode::Yi => {
                proof {
                    reveal_strlit("yi");
                    lemma_two_ascii_bytes("yi", 121, 105);
                }
                "yi"
            },
            LangCode::Yo => {
                proof {
                    reveal_strlit("yo");
                    lemma_two_ascii_bytes("yo", 121, 111);
                }
                "yo"
            },
            LangCode::Za => {
                proof {
                    reveal_strlit("za");
                    lemma_two_ascii_bytes("za", 122, 97);
                }
                "za"
            },
            LangCode::Zu => {
                proof {
                    reveal_strlit("zu");
                    lemma_two_ascii_bytes("zu", 122, 117);
                }
                "zu"
            },
        }
    }

    /// The English display name of the language; never empty.
    pub fn english_name(self) -> (r: &'static str)
        ensures
            r@ == spec_english_name(self),
            r@.len() > 0,
    {
        match self {
            LangCode::Aa => {
                proof {
                    reveal_strlit("Afar");
                }
                "Afar"
            },
            LangCode::Ab => {
                proof {
                    reveal_strlit("Abkhaz");
                }
                "Abkhaz"
            },
            LangCode::Af => {
                proof {
                    reveal_strlit("Afrikaans");
                }
                "Afrikaans"
            },
            LangCode::Ak => {
                proof {
                    reveal_strlit("Akan");
                }
                "Akan"
            },
            LangCode::Sq => {
                proof {
                    reveal_strlit("Albanian");
                }
                "Albanian"
            },
            LangCode::Am => {
                proof {
                    reveal_strlit("Amharic");
                }
                "Amharic"
            },
            LangCode::Ar => {
                proof {
                    reveal_strlit("Arabic");
                }
                "Arabic"
            },
            LangCode::An => {
                proof {
                    reveal_strlit("Aragonese");
                }
                "Aragonese"
            },
            LangCode::Hy => {
                proof {
                    reveal_strlit("Armenian");
                }
                "Armenian"
            },
            LangCode::As => {
                proof {
                    reveal_strlit("Assamese");
                }
                "Assamese"
            },
            LangCode::Av => {
                proof {
                    reveal_strlit("Avaric");
                }
                "Avaric"
            },
            LangCode::Ae => {
                proof {
                    reveal_strlit("Avestan");
                }
                "Avestan"
            },
            LangCode::Ay => {
                proof {
                    reveal_strlit("Aymara");
                }
                "Aymara"
            },
            LangCode::Az => {
                proof {
                    reveal_strlit("Azerbaijani");
                }
                "Azerbaijani"
            },
            LangCode::Bm => {
                proof {
                    reveal_strlit("Bambara");
                }
                "Bambara"
            },
            LangCode::Ba => {
                proof {
                    reveal_strlit("Bashkir");
                }
                "Bashkir"
            },
            LangCode::Eu => {
                proof {
                    reveal_strlit("Basque");
                }
                "Basque"
            },
            LangCode::Be => {
                proof {
                    reveal_strlit("Belarusian");
                }
                "Belarusian"
            },
            LangCode::Bn => {
                proof {
                    reveal_strlit("Bengali");
                }
                "Bengali"
            },
            LangCode::Bh => {
                proof {
                    reveal_strlit("Bihari");
                }
                "Bihari"
            },
            LangCode::Bi => {
                proof {
                    reveal_strlit("Bislama");
                }
                "Bislama"
            },
            LangCode::Bs => {
                proof {
                    reveal_strlit("Bosnian");
                }
                "Bosnian"
            },
            LangCode::Br => {
                proof {
                    reveal_strlit("Breton");
                }
                "Breton"
            },
            LangCode::Bg => {
                proof {
                    reveal_strlit("Bulgarian");
                }
                "Bulgarian"
            },
            LangCode::My => {
                proof {
                    reveal_strlit("Burmese");
                }
                "Burmese"
            },
            LangCode::Ca => {
                proof {
                    reveal_strlit("Catalan");
                }
                "Catalan"
            },
            LangCode::Ch => {
                proof {
                    reveal_strlit("Chamorro");
                }
                "Chamorro"
            },
            LangCode::Ce => {
                proof {
                    reveal_strlit("Chechen");
                }
                "Chechen"
            },
            LangCode::Ny => {
                proof {
                    reveal_strlit("Chichewa");
                }
                "Chichewa"
            },
            LangCode::Zh => {
                proof {
                    reveal_strlit("Chinese");
                }
                "Chinese"
            },
            LangCode::Cv => {
                proof {
                    reveal_strlit("Chuvash");
                }
                "Chuvash"
            },
            LangCode::Kw => {
                proof {
                    reveal_strlit("Cornish");
                }
                "Cornish"
            },
            LangCode::Co => {
                proof {
                    reveal_strlit("Corsican");
                }
                "Corsican"
            },
            LangCode::Cr => {
                proof {
                    reveal_strlit("Cree");
                }
                "Cree"
            },
            LangCode::Hr => {
                proof {
                    reveal_strlit("Croatian");
                }
                "Croatian"
            },
            LangCode::Cs => {
                proof {
                    reveal_strlit("Czech");
                }
                "Czech"
            },
            LangCode::Da => {
                proof {
                    reveal_strlit("Danish");
                }
                "Danish"
            },
            LangCode::Dv => {
                proof {
                    reveal_strlit("Divehi");
                }
                "Divehi"
            },
            LangCode::Nl => {
                proof {
                    reveal_strlit("Dutch");
                }
                "Dutch"
            },
            LangCode::Dz => {
                proof {
                    reveal_strlit("Dzongkha");
                }
                "Dzongkha"
            },
            LangCode::En => {
                proof {
                    reveal_strlit("English");
                }
                "English"
            },
            LangCode::Eo => {
                proof {
                    reveal_strlit("Esperanto");
                }
                "Esperanto"
            },
            LangCode::Et => {
                proof {
                    reveal_strlit("Estonian");
                }
                "Estonian"
            },
            LangCode::Ee => {
                proof {
                    reveal_strlit("Ewe");
                }
                "Ewe"
            },
            LangCode::Fo => {
                proof {
                    reveal_strlit("Faroese");
                }
                "Faroese"
            },
            LangCode::Fj => {
                proof {
                    reveal_strlit("Fijian");
                }
                "Fijian"
            },
            LangCode::Fi => {
                proof {
                    reveal_strlit("Finnish");
                }
                "Finnish"
            },
            LangCode::Fr => {
                proof {
                    reveal_strlit("French");
                }
                "French"
            },
            LangCode::Ff => {
                proof {
                    reveal_strlit("Fula");
                }
                "Fula"
            },
            LangCode::Gl => {
                proof {
                    reveal_strlit("Galician");
                }
                "Galician"
            },
            LangCode::Ka => {
                proof {
                    reveal_strlit("Georgian");
                }
                "Georgian"
            },
            LangCode::De => {
                proof {
                    reveal_strlit("German");
                }
                "German"
            },
            LangCode::El => {
                proof {
                    reveal_strlit("Greek");
                }
                "Greek"
            },
            LangCode::Gn => {
                proof {
                    reveal_strlit("Guaraní");
                }
                "Guaraní"
            },
            LangCode::Gu => {
                proof {
                    reveal_strlit("Gujarati");
                }
                "Gujarati"
            },
            LangCode::Ht => {
                proof {
                    reveal_strlit("Haitian");
                }
                "Haitian"
            },
            LangCode::Ha => {
                proof {
                    reveal_strlit("Hausa");
                }
                "Hausa"
            },
            LangCode::He => {
                proof {
                    reveal_strlit("Hebrew");
                }
                "Hebrew"
            },
            LangCode::Hz => {
                proof {
                    reveal_strlit("Herero");
                }
                "Herero"
            },
            LangCode::Hi => {
                proof {
                    reveal_strlit("Hindi");
                }
                "Hindi"
            },
            LangCode::Ho => {
                proof {
                    reveal_strlit("Hiri Motu");
                }
                "Hiri Motu"
            },
            LangCode::Hu => {
                proof {
                    reveal_strlit("Hungarian");
                }
                "Hungarian"
            },
            LangCode::Ia => {
                proof {
                    reveal_strlit("Interlingua");
                }
                "Interlingua"
            },
            LangCode::Id => {
                proof {
                    reveal_strlit("Indonesian");
                }
                "Indonesian"
            },
            LangCode::Ie => {
                proof {
                    reveal_strlit("Interlingue");
                }
                "Interlingue"
            },
            LangCode::Ga => {
                proof {
                    reveal_strlit("Irish");
                }
                "Irish"
            },
            LangCode::Ig => {
                proof {
                    reveal_strlit("Igbo");
                }
                "Igbo"
            },
            LangCode::Ik => {
                proof {
                    reveal_strlit("Inupiaq");
                }
                "Inupiaq"
            },
            LangCode::Io => {
                proof {
                    reveal_strlit("Ido");
                }
                "Ido"
            },
            LangCode::Is => {
                proof {
                    reveal_strlit("Icelandic");
                }
                "Icelandic"
            },
            LangCode::It => {
                proof {
                    reveal_strlit("Italian");
                }
                "Italian"
            },
            LangCode::Iu => {
                proof {
                    reveal_strlit("Inuktitut");
                }
                "Inuktitut"
            },
            LangCode::Ja => {
                proof {
                    reveal_strlit("Japanese");
                }
                "Japanese"
            },
            LangCode::Jv => {
                proof {
                    reveal_strlit("Javanese");
                }
                "Javanese"
            },
            LangCode::Kl => {
                proof {
                    reveal_strlit("Kalaallisut");
                }
                "Kalaallisut"
            },
            LangCode::Kn => {
                proof {
                    reveal_strlit("Kannada");
                }
                "Kannada"
            },
            LangCode::Kr => {
                proof {
                    reveal_strlit("Kanuri");
                }
                "Kanuri"
            },
            LangCode::Ks => {
                proof {
                    reveal_strlit("Kashmiri");
                }
                "Kashmiri"
            },
            LangCode::Kk => {
                proof {
                    reveal_strlit("Kazakh");
                }
                "Kazakh"
            },
            LangCode::Km => {
                proof {
                    reveal_strlit("Khmer");
                }
                "Khmer"
            },
            LangCode::Ki => {
                proof {
                    reveal_strlit("Kikuyu");
                }
                "Kikuyu"
            },
            LangCode::Rw => {
                proof {
                    reveal_strlit("Kinyarwanda");
                }
                "Kinyarwanda"
            },
            LangCode::Ky => {
                proof {
                    reveal_strlit("Kyrgyz");
                }
                "Kyrgyz"
            },
            LangCode::Kv => {
                proof {
                    reveal_strlit("Komi");
                }
                "Komi"
            },
            LangCode::Kg => {
                proof {
                    reveal_strlit("Kongo");
                }
                "Kongo"
            },
            LangCode::Ko => {
                proof {
                    reveal_strlit("Korean");
                }
                "Korean"
            },
            LangCode::Ku => {
                proof {
                    reveal_strlit("Kurdish");
                }
                "Kurdish"
            },
            LangCode::Kj => {
                proof {
                    reveal_strlit("Kwanyama");
                }
                "Kwanyama"
            },
            LangCode::La => {
                proof {
                    reveal_strlit("Latin");
                }
                "Latin"
            },
            LangCode::Lb => {
                proof {
                    reveal_strlit("Luxembourgish");
                }
                "Luxembourgish"
            },
            LangCode::Lg => {
                proof {
                    reveal_strlit("Ganda");
                }
                "Ganda"
            },
            LangCode::Li => {
                proof {
                    reveal_strlit("Limburgish");
                }
                "Limburgish"
            },
            LangCode::Ln => {
                proof {
                    reveal_strlit("Lingala");
                }
                "Lingala"
            },
            LangCode::Lo => {
                proof {
                    reveal_strlit("Lao");
                }
                "Lao"
            },
            LangCode::Lt => {
                proof {
                    reveal_strlit("Lithuanian");
                }
                "Lithuanian"
            },
            LangCode::Lu => {
                proof {
                    reveal_strlit("Luba-Katanga");
                }
                "Luba-Katanga"
            },
            LangCode::Lv => {
                proof {
                    reveal_strlit("Latvian");
                }
                "Latvian"
            },
            LangCode::Gv => {
                proof {
                    reveal_strlit("Manx");
                }
                "Manx"
            },
            LangCode::Mk => {
                proof {
                    reveal_strlit("Macedonian");
                }
                "Macedonian"
            },
            LangCode::Mg => {
                proof {
                    reveal_strlit("Malagasy");
                }
                "Malagasy"
            },
            LangCode::Ms => {
                proof {
                    reveal_strlit("Malay");
                }
                "Malay"
            },
            LangCode::Ml => {
                proof {
                    reveal_strlit("Malayalam");
                }
                "Malayalam"
            },
            LangCode::Mt => {
                proof {
                    reveal_strlit("Maltese");
                }
                "Maltese"
            },
            LangCode::Mi => {
                proof {
                    reveal_strlit("Māori");
                }
                "Māori"
            },
            LangCode::Mr => {
                proof {
                    reveal_strlit("Marathi");
                }
                "Marathi"
            },
            LangCode::Mh => {
                proof {
                    reveal_strlit("Marshallese");
                }
                "Marshallese"
            },
            LangCode::Mn => {
                proof {
                    reveal_strlit("Mongolian");
                }
                "Mongolian"
            },
            LangCode::Na => {
                proof {
                    reveal_strlit("Nauruan");
                }
                "Nauruan"
            },
            LangCode::Nv => {
                proof {
                    reveal_strlit("Navajo");
                }
                "Navajo"
            },
            LangCode::Nd => {
                proof {
                    reveal_strlit("Northern Ndebele");
                }
                "Northern Ndebele"
            },
            LangCode::Ne => {
                proof {
                    reveal_strlit("Nepali");
                }
                "Nepali"
            },
            LangCode::Ng => {
                proof {
                    reveal_strlit("Ndonga");
                }
                "Ndonga"
            },
            LangCode::Nb => {
                proof {
                    reveal_strlit("Norwegian Bokmål");
                }
                "Norwegian Bokmål"
            },
            LangCode::Nn => {
                proof {
                    reveal_strlit("Norwegian Nynorsk");
                }
                "Norwegian Nynorsk"
            },
            LangCode::No => {
                proof {
                    reveal_strlit("Norwegian");
                }
                "Norwegian"
            },
            LangCode::Ii => {
                proof {
                    reveal_strlit("Nuosu");
                }
                "Nuosu"
            },
            LangCode::Nr => {
                proof {
                    reveal_strlit("Southern Ndebele");
                }
                "Southern Ndebele"
            },
            LangCode::Oc => {
                proof {
                    reveal_strlit("Occitan");
                }
                "Occitan"
            },
            LangCode::Oj => {
                proof {
                    reveal_strlit("Ojibwe");
                }
                "Ojibwe"
            },
            LangCode::Cu => {
                proof {
                    reveal_strlit("Old Church Slavonic");
                }
                "Old Church Slavonic"
            },
            LangCode::Om => {
                proof {
                    reveal_strlit("Oromo");
                }
                "Oromo"
            },
            LangCode::Or => {
                proof {
                    reveal_strlit("Oriya");
                }
                "Oriya"
            },
            LangCode::Os => {
                proof {
                    reveal_strlit("Ossetian");
                }
                "Ossetian"
            },
            LangCode::Pa => {
                proof {
                    reveal_strlit("Punjabi");
                }
                "Punjabi"
            },
            LangCode::Pi => {
                proof {
                    reveal_strlit("Pāli");
                }
                "Pāli"
            },
            LangCode::Fa => {
                proof {
                    reveal_strlit("Persian");
                }
                "Persian"
            },
            LangCode::Pl => {
                proof {
                    reveal_strlit("Polish");
                }
                "Polish"
            },
            LangCode::Ps => {
                proof {
                    reveal_strlit("Pashto");
                }
                "Pashto"
            },
            LangCode::Pt => {
                proof {
                    reveal_strlit("Portuguese");
                }
                "Portuguese"
            },
            LangCode::Qu => {
                proof {
                    reveal_strlit("Quechua");
                }
                "Quechua"
            },
            LangCode::Rm => {
                proof {
                    reveal_strlit("Romansh");
                }
                "Romansh"
            },
            LangCode::Rn => {
                proof {
                    reveal_strlit("Kirundi");
                }
                "Kirundi"
            },
            LangCode::Ro => {
                proof {
                    reveal_strlit("Romanian");
                }
                "Romanian"
            },
            LangCode::Ru => {
                proof {
                    reveal_strlit("Russian");
                }
                "Russian"
            },
            LangCode::Sa => {
                proof {
                    reveal_strlit("Sanskrit");
                }
                "Sanskrit"
            },
            LangCode::Sc => {
                proof {
                    reveal_strlit("Sardinian");
                }
                "Sardinian"
            },
            LangCode::Sd => {
                proof {
                    reveal_strlit("Sindhi");
                }
                "Sindhi"
            },
            LangCode::Se => {
                proof {
                    reveal_strlit("Northern Sami");
                }
                "Northern Sami"
            },
            LangCode::Sm => {
                proof {
                    reveal_strlit("Samoan");
                }
                "Samoan"
            },
            LangCode::Sg => {
                proof {
                    reveal_strlit("Sango");
                }
                "Sango"
            },
            LangCode::Sr => {
                proof {
                    reveal_strlit("Serbian");
                }
                "Serbian"
            },
            LangCode::Gd => {
                proof {
                    reveal_strlit("Gaelic");
                }
                "Gaelic"
            },
            LangCode::Sn => {
                proof {
                    reveal_strlit("Shona");
                }
                "Shona"
            },
            LangCode::Si => {
                proof {
                    reveal_strlit("Sinhalese");
                }
                "Sinhalese"
            },
            LangCode::Sk => {
                proof {
                    reveal_strlit("Slovak");
                }
                "Slovak"
            },
            LangCode::Sl => {
                proof {
                    reveal_strlit("Slovene");
                }
                "Slovene"
            },
            LangCode::So => {
                proof {
                    reveal_strlit("Somali");
                }
                "Somali"
            },
            LangCode::St => {
                proof {
                    reveal_strlit("Southern Sotho");
                }
                "Southern Sotho"
            },
            LangCode::Es => {
                proof {
                    reveal_strlit("Spanish");
                }
                "Spanish"
            },
            LangCode::Su => {
                proof {
                    reveal_strlit("Sundanese");
                }
                "Sundanese"
            },
            LangCode::Sw => {
                proof {
                    reveal_strlit("Swahili");
                }
                "Swahili"
            },
            LangCode::Ss => {
                proof {
                    reveal_strlit("Swati");
                }
                "Swati"
            },
            LangCode::Sv => {
                proof {
                    reveal_strlit("Swedish");
                }
                "Swedish"
            },
            LangCode::Ta => {
                proof {
                    reveal_strlit("Tamil");
                }
                "Tamil"
            },
            LangCode::Te => {
                proof {
                    reveal_strlit("Telugu");
                }
                "Telugu"
            },
            LangCode::Tg => {
                proof {
                    reveal_strlit("Tajik");
                }
                "Tajik"
            },
            LangCode::Th => {
                proof {
                    reveal_strlit("Thai");
                }
                "Thai"
            },
            LangCode::Ti => {
                proof {
                    reveal_strlit("Tigrinya");
                }
                "Tigrinya"
            },
            LangCode::Bo => {
                proof {
                    reveal_strlit("Tibetan");
                }
                "Tibetan"
            },
            LangCode::Tk => {
                proof {
                    reveal_strlit("Turkmen");
                }
                "Turkmen"
            },
            LangCode::Tl => {
                proof {
                    reveal_strlit("Tagalog");
                }
                "Tagalog"
            },
            LangCode::Tn => {
                proof {
                    reveal_strlit("Tswana");
                }
                "Tswana"
            },
            LangCode::To => {
                proof {
                    reveal_strlit("Tonga");
                }
                "Tonga"
            },
            LangCode::Tr => {
                proof {
                    reveal_strlit("Turkish");
                }
                "Turkish"
            },
            LangCode::Ts => {
                proof {
                    reveal_strlit("Tsonga");
                }
                "Tsonga"
            },
            LangCode::Tt => {
                proof {
                    reveal_strlit("Tatar");
                }
                "Tatar"
            },
            LangCode::Tw => {
                proof {
                    reveal_strlit("Twi");
                }
                "Twi"
            },
            LangCode::Ty => {
                proof {
                    reveal_strlit("Tahitian");
                }
                "Tahitian"
            },
            LangCode::Ug => {
                proof {
                    reveal_strlit("Uyghur");
                }
                "Uyghur"
            },
            LangCode::Uk => {
                proof {
                    reveal_strlit("Ukrainian");
                }
                "Ukrainian"
            },
            LangCode::Ur => {
                proof {
                    reveal_strlit("Urdu");
                }
                "Urdu"
            },
            LangCode::Uz => {
                proof {
                    reveal_strlit("Uzbek");
                }
                "Uzbek"
            },
            LangCode::Ve => {
                proof {
                    reveal_strlit("Venda");
                }
                "Venda"
            },
            LangCode::Vi => {
                proof {
                    reveal_strlit("Vietnamese");
                }
                "Vietnamese"
            },
            LangCode::Vo => {
                proof {
                    reveal_strlit("Volapük");
                }
                "Volapük"
            },
            LangCode::Wa => {
                proof {
                    reveal_strlit("Walloon");
                }
                "Walloon"
            },
            LangCode::Cy => {
                proof {
                    reveal_strlit("Welsh");
                }
                "Welsh"
            },
            LangCode::Wo => {
                proof {
                    reveal_strlit("Wolof");
                }
                "Wolof"
            },
            LangCode::Fy => {
                proof {
                    reveal_strlit("Western Frisian");
                }
                "Western Frisian"
            },
            LangCode::Xh => {
                proof {
                    reveal_strlit("Xhosa");
                }
                "Xhosa"
            },
            LangCode::Yi => {
                proof {
                    reveal_strlit("Yiddish");
                }
                "Yiddish"
            },
            LangCode::Yo => {
                proof {
                    reveal_strlit("Yoruba");
                }
                "Yoruba"
            },
            LangCode::Za => {
                proof {
                    reveal_strlit("Zhuang");
                }
                "Zhuang"
            },
            LangCode::Zu => {
                proof {
                    reveal_strlit("Zulu");
                }
                "Zulu"
            },
        }
    }

    /// The native display name of the language; never empty.
    pub fn native_name(self) -> (r: &'static str)
        ensures
            r@ == spec_native_name(self),
            r@.len() > 0,
    {
        match self {
            LangCode::Aa => {
                proof {
                    reveal_strlit("Afaraf");
                }
                "Afaraf"
            },
            LangCode::Ab => {
                proof {
                    reveal_strlit("аҧсуа бызшәа");
                }
                "аҧсуа бызшәа"
            },
            LangCode::Af => {
                proof {
                    reveal_strlit("Afrikaans");
                }
                "Afrikaans"
            },
            LangCode::Ak => {
                proof {
                    reveal_strlit("Akan");
                }
                "Akan"
            },
            LangCode::Sq => {
                proof {
                    reveal_strlit("Shqip");
                }
                "Shqip"
            },
            LangCode::Am => {
                proof {
                    reveal_strlit("አማርኛ");
                }
                "አማርኛ"
            },
            LangCode::Ar => {
                proof {
                    reveal_strlit("العربية");
                }
                "العربية"
            },
            LangCode::An => {
                proof {
                    reveal_strlit("aragonés");
                }
                "aragonés"
            },
            LangCode::Hy => {
                proof {
                    reveal_strlit("Հայերեն");
                }
                "Հայերեն"
            },
            LangCode::As => {
                proof {
                    reveal_strlit("অসমীয়া");
                }
                "অসমীয়া"
            },
            LangCode::Av => {
                proof {
                    reveal_strlit("авар мацӀ");
                }
                "авар мацӀ"
            },
            LangCode::Ae => {
                proof {
                    reveal_strlit("avesta");
                }
                "avesta"
            },
            LangCode::Ay => {
                proof {
                    reveal_strlit("aymar aru");
                }
                "aymar aru"
            },
            LangCode::Az => {
                proof {
                    reveal_strlit("azərbaycan dili");
                }
                "azərbaycan dili"
            },
            LangCode::Bm => {
                proof {
                    reveal_strlit("bamanankan");
                }
                "bamanankan"
            },
            LangCode::Ba => {
                proof {
                    reveal_strlit("башҡорт теле");
                }
                "башҡорт теле"
            },
            LangCode::Eu => {
                proof {
                    reveal_strlit("euskara");
                }
                "euskara"
            },
            LangCode::Be => {
                proof {
                    reveal_strlit("беларуская мова");
                }
                "беларуская мова"
            },
            LangCode::Bn => {
                proof {
                    reveal_strlit("বাংলা");
                }
                "বাংলা"
            },
            LangCode::Bh => {
                proof {
                    reveal_strlit("भोजपुरी");
                }
                "भोजपुरी"
            },
            LangCode::Bi => {
                proof {
                    reveal_strlit("Bislama");
                }
                "Bislama"
            },
            LangCode::Bs => {
                proof {
                    reveal_strlit("bosanski jezik");
                }
                "bosanski jezik"
            },
            LangCode::Br => {
                proof {
                    reveal_strlit("brezhoneg");
                }
                "brezhoneg"
            },
            LangCode::Bg => {
                proof {
                    reveal_strlit("български език");
                }
                "български език"
            },
            LangCode::My => {
                proof {
                    reveal_strlit("ဗမာစာ");
                }
                "ဗမာစာ"
            },
            LangCode::Ca => {
                proof {
                    reveal_strlit("català");
                }
                "català"
            },
            LangCode::Ch => {
                proof {
                    reveal_strlit("Chamoru");
                }
                "Chamoru"
            },
            LangCode::Ce => {
                proof {
                    reveal_strlit("нохчийн мотт");
                }
                "нохчийн мотт"
            },
            LangCode::Ny => {
                proof {
                    reveal_strlit("chiCheŵa");
                }
                "chiCheŵa"
            },
            LangCode::Zh => {
                proof {
                    reveal_strlit("中文");
                }
                "中文"
            },
            LangCode::Cv => {
                proof {
                    reveal_strlit("чӑваш чӗлхи");
                }
                "чӑваш чӗлхи"
            },
            LangCode::Kw => {
                proof {
                    reveal_strlit("Kernewek");
                }
                "Kernewek"
            },
            LangCode::Co => {
                proof {
                    reveal_strlit("corsu");
                }
                "corsu"
            },
            LangCode::Cr => {
                proof {
                    reveal_strlit("ᓀᐦᐃᔭᐍᐏᐣ");
                }
                "ᓀᐦᐃᔭᐍᐏᐣ"
            },
            LangCode::Hr => {
                proof {
                    reveal_strlit("hrvatski jezik");
                }
                "hrvatski jezik"
            },
            LangCode::Cs => {
                proof {
                    reveal_strlit("čeština");
                }
                "čeština"
            },
            LangCode::Da => {
                proof {
                    reveal_strlit("dansk");
                }
                "dansk"
            },
            LangCode::Dv => {
                proof {
                    reveal_strlit("ދިވެހި");
                }
                "ދިވެހި"
            },
            LangCode::Nl => {
                proof {
                    reveal_strlit("Nederlands");
                }
                "Nederlands"
            },
            LangCode::Dz => {
                proof {
                    reveal_strlit("རྫོང་ཁ");
                }
                "རྫོང་ཁ"
            },
            LangCode::En => {
                proof {
                    reveal_strlit("English");
                }
                "English"
            },
            LangCode::Eo => {
                proof {
                    reveal_strlit("Esperanto");
                }
                "Esperanto"
            },
            LangCode::Et => {
                proof {
                    reveal_strlit("eesti");
                }
                "eesti"
            },
            LangCode::Ee => {
                proof {
                    reveal_strlit("Eʋegbe");
                }
                "Eʋegbe"
            },
            LangCode::Fo => {
                proof {
                    reveal_strlit("føroyskt");
                }
                "føroyskt"
            },
            LangCode::Fj => {
                proof {
                    reveal_strlit("vosa Vakaviti");
                }
                "vosa Vakaviti"
            },
            LangCode::Fi => {
                proof {
                    reveal_strlit("suomi");
                }
                "suomi"
            },
            LangCode::Fr => {
                proof {
                    reveal_strlit("français");
                }
                "français"
            },
            LangCode::Ff => {
                proof {
                    reveal_strlit("Fulfulde");
                }
                "Fulfulde"
            },
            LangCode::Gl => {
                proof {
                    reveal_strlit("galego");
                }
                "galego"
            },
            LangCode::Ka => {
                proof {
                    reveal_strlit("ქართული");
                }
                "ქართული"
            },
            LangCode::De => {
                proof {
                    reveal_strlit("Deutsch");
                }
                "Deutsch"
            },
            LangCode::El => {
                proof {
                    reveal_strlit("ελληνικά");
                }
                "ελληνικά"
            },
            LangCode::Gn => {
                proof {
                    reveal_strlit("Avañe'ẽ");
                }
                "Avañe'ẽ"
            },
            LangCode::Gu => {
                proof {
                    reveal_strlit("ગુજરાતી");
                }
                "ગુજરાતી"
            },
            LangCode::Ht => {
                proof {
                    reveal_strlit("Kreyòl ayisyen");
                }
                "Kreyòl ayisyen"
            },
            LangCode::Ha => {
                proof {
                    reveal_strlit("(Hausa) هَوُسَ");
                }
                "(Hausa) هَوُسَ"
            },
            LangCode::He => {
                proof {
                    reveal_strlit("עברית");
                }
                "עברית"
            },
            LangCode::Hz => {
                proof {
                    reveal_strlit("Otjiherero");
                }
                "Otjiherero"
            },
            LangCode::Hi => {
                proof {
                    reveal_strlit("हिन्दी");
                }
                "हिन्दी"
            },
            LangCode::Ho => {
                proof {
                    reveal_strlit("Hiri Motu");
                }
                "Hiri Motu"
            },
            LangCode::Hu => {
                proof {
                    reveal_strlit("magyar");
                }
                "magyar"
            },
            LangCode::Ia => {
                proof {
                    reveal_strlit("Interlingua");
                }
                "Interlingua"
            },
            LangCode::Id => {
                proof {
                    reveal_strlit("Bahasa Indonesia");
                }
                "Bahasa Indonesia"
            },
            LangCode::Ie => {
                proof {
                    reveal_strlit("Interlingue");
                }
                "Interlingue"
            },
            LangCode::Ga => {
                proof {
                    reveal_strlit("Gaeilge");
                }
                "Gaeilge"
            },
            LangCode::Ig => {
                proof {
                    reveal_strlit("Asụsụ Igbo");
                }
                "Asụsụ Igbo"
            },
            LangCode::Ik => {
                proof {
                    reveal_strlit("Iñupiaq");
                }
                "Iñupiaq"
            },
            LangCode::Io => {
                proof {
                    reveal_strlit("Ido");
                }
                "Ido"
            },
            LangCode::Is => {
                proof {
                    reveal_strlit("Íslenska");
                }
                "Íslenska"
            },
            LangCode::It => {
                proof {
                    reveal_strlit("Italiano");
                }
                "Italiano"
            },
            LangCode::Iu => {
                proof {
                    reveal_strlit("ᐃᓄᒃᑎᑐᑦ");
                }
                "ᐃᓄᒃᑎᑐᑦ"
            },
            LangCode::Ja => {
                proof {
                    reveal_strlit("日本語 (にほんご)");
                }
                "日本語 (にほんご)"
            },
            LangCode::Jv => {
                proof {
                    reveal_strlit("ꦧꦱꦗꦮ");
                }
                "ꦧꦱꦗꦮ"
            },
            LangCode::Kl => {
                proof {
                    reveal_strlit("kalaallisut");
                }
                "kalaallisut"
            },
            LangCode::Kn => {
                proof {
                    reveal_strlit("ಕನ್ನಡ");
                }
                "ಕನ್ನಡ"
            },
            LangCode::Kr => {
                proof {
                    reveal_strlit("Kanuri");
                }
                "Kanuri"
            },
            LangCode::Ks => {
                proof {
                    reveal_strlit("कश्मीरी");
                }
                "कश्मीरी"
            },
            LangCode::Kk => {
                proof {
                    reveal_strlit("қазақ тілі");
                }
                "қазақ тілі"
            },
            LangCode::Km => {
                proof {
                    reveal_strlit("ខ្មែរ");
                }
                "ខ្មែរ"
            },
            LangCode::Ki => {
                proof {
                    reveal_strlit("Gĩkũyũ");
                }
                "Gĩkũyũ"
            },
            LangCode::Rw => {
                proof {
                    reveal_strlit("Ikinyarwanda");
                }
                "Ikinyarwanda"
            },
            LangCode::Ky => {
                proof {
                    reveal_strlit("Кыргызча");
                }
                "Кыргызча"
            },
            LangCode::Kv => {
                proof {
                    reveal_strlit("коми кыв");
                }
                "коми кыв"
            },
            LangCode::Kg => {
                proof {
                    reveal_strlit("Kikongo");
                }
                "Kikongo"
            },
            LangCode::Ko => {
                proof {
                    reveal_strlit("한국어");
                }
                "한국어"
            },
            LangCode::Ku => {
                proof {
                    reveal_strlit("Kurdî");
                }
                "Kurdî"
            },
            LangCode::Kj => {
                proof {
                    reveal_strlit("Kuanyama");
                }
                "Kuanyama"
            },
            LangCode::La => {
                proof {
                    reveal_strlit("lingua latina");
                }
                "lingua latina"
            },
            LangCode::Lb => {
                proof {
                    reveal_strlit("Lëtzebuergesch");
                }
                "Lëtzebuergesch"
            },
            LangCode::Lg => {
                proof {
                    reveal_strlit("Luganda");
                }
                "Luganda"
            },
            LangCode::Li => {
                proof {
                    reveal_strlit("Limburgs");
                }
                "Limburgs"
            },
            LangCode::Ln => {
                proof {
                    reveal_strlit("Lingála");
                }
                "Lingála"
            },
            LangCode::Lo => {
                proof {
                    reveal_strlit("ພາສາລາວ");
                }
                "ພາສາລາວ"
            },
            LangCode::Lt => {
                proof {
                    reveal_strlit("lietuvių kalba");
                }
                "lietuvių kalba"
            },
            LangCode::Lu => {
                proof {
                    reveal_strlit("Tshiluba");
                }
                "Tshiluba"
            },
            LangCode::Lv => {
                proof {
                    reveal_strlit("latviešu valoda");
                }
                "latviešu valoda"
            },
            LangCode::Gv => {
                proof {
                    reveal_strlit("Gaelg");
                }
                "Gaelg"
            },
            LangCode::Mk => {
                proof {
                    reveal_strlit("македонски јазик");
                }
                "македонски јазик"
            },
            LangCode::Mg => {
                proof {
                    reveal_strlit("fiteny malagasy");
                }
                "fiteny malagasy"
            },
            LangCode::Ms => {
                proof {
                    reveal_strlit("bahasa Melayu");
                }
                "bahasa Melayu"
            },
            LangCode::Ml => {
                proof {
                    reveal_strlit("മലയാളം");
                }
                "മലയാളം"
            },
            LangCode::Mt => {
                proof {
                    reveal_strlit("Malti");
                }
                "Malti"
            },
            LangCode::Mi => {
                proof {
                    reveal_strlit("te reo Māori");
                }
                "te reo Māori"
            },
            LangCode::Mr => {
                proof {
                    reveal_strlit("मराठी");
                }
                "मराठी"
            },
            LangCode::Mh => {
                proof {
                    reveal_strlit("Kajin M̧ajeļ");
                }
                "Kajin M̧ajeļ"
            },
            LangCode::Mn => {
                proof {
                    reveal_strlit("Монгол хэл");
                }
                "Монгол хэл"
            },
            LangCode::Na => {
                proof {
                    reveal_strlit("Dorerin Naoero");
                }
                "Dorerin Naoero"
            },
            LangCode::Nv => {
                proof {
                    reveal_strlit("Diné bizaad");
                }
                "Diné bizaad"
            },
            LangCode::Nd => {
                proof {
                    reveal_strlit("isiNdebele");
                }
                "isiNdebele"
            },
            LangCode::Ne => {
                proof {
                    reveal_strlit("नेपाली");
                }
                "नेपाली"
            },
            LangCode::Ng => {
                proof {
                    reveal_strlit("Owambo");
                }
                "Owambo"
            },
            LangCode::Nb => {
                proof {
                    reveal_strlit("Norsk bokmål");
                }
                "Norsk bokmål"
            },
            LangCode::Nn => {
                proof {
                    reveal_strlit("Norsk nynorsk");
                }
                "Norsk nynorsk"
            },
            LangCode::No => {
                proof {
                    reveal_strlit("Norsk");
                }
                "Norsk"
            },
            LangCode::Ii => {
                proof {
                    reveal_strlit("ꆈꌠ꒿ Nuosuhxop");
                }
                "ꆈꌠ꒿ Nuosuhxop"
            },
            LangCode::Nr => {
                proof {
                    reveal_strlit("isiNdebele");
                }
                "isiNdebele"
            },
            LangCode::Oc => {
                proof {
                    reveal_strlit("occitan");
                }
                "occitan"
            },
            LangCode::Oj => {
                proof {
                    reveal_strlit("ᐊᓂᔑᓈᐯᒧᐎᓐ");
                }
                "ᐊᓂᔑᓈᐯᒧᐎᓐ"
            },
            LangCode::Cu => {
                proof {
                    reveal_strlit("ѩзыкъ словѣньскъ");
                }
                "ѩзыкъ словѣньскъ"
            },
            LangCode::Om => {
                proof {
                    reveal_strlit("Afaan Oromoo");
                }
                "Afaan Oromoo"
            },
            LangCode::Or => {
                proof {
                    reveal_strlit("ଓଡ଼ିଆ");
                }
                "ଓଡ଼ିଆ"
            },
            LangCode::Os => {
                proof {
                    reveal_strlit("ирон æвзаг");
                }
                "ирон æвзаг"
            },
            LangCode::Pa => {
                proof {
                    reveal_strlit("ਪੰਜਾਬੀ");
                }
                "ਪੰਜਾਬੀ"
            },
            LangCode::Pi => {
                proof {
                    reveal_strlit("पाऴि");
                }
                "पाऴि"
            },
            LangCode::Fa => {
                proof {
                    reveal_strlit("فارسی");
                }
                "فارسی"
            },
            LangCode::Pl => {
                proof {
                    reveal_strlit("język polski");
                }
                "język polski"
            },
            LangCode::Ps => {
                proof {
                    reveal_strlit("پښتو");
                }
                "پښتو"
            },
            LangCode::Pt => {
                proof {
                    reveal_strlit("Português");
                }
                "Português"
            },
            LangCode::Qu => {
                proof {
                    reveal_strlit("Runa Simi");
                }
                "Runa Simi"
            },
            LangCode::Rm => {
                proof {
                    reveal_strlit("rumantsch grischun");
                }
                "rumantsch grischun"
            },
            LangCode::Rn => {
                proof {
                    reveal_strlit("Ikirundi");
                }
                "Ikirundi"
            },
            LangCode::Ro => {
                proof {
                    reveal_strlit("Română");
                }
                "Română"
            },
            LangCode::Ru => {
                proof {
                    reveal_strlit("Русский");
                }
                "Русский"
            },
            LangCode::Sa => {
                proof {
                    reveal_strlit("संस्कृतम्");
                }
                "संस्कृतम्"
            },
            LangCode::Sc => {
                proof {
                    reveal_strlit("sardu");
                }
                "sardu"
            },
            LangCode::Sd => {
                proof {
                    reveal_strlit("सिन्धी");
                }
                "सिन्धी"
            },
            LangCode::Se => {
                proof {
                    reveal_strlit("Davvisámegiella");
                }
                "Davvisámegiella"
            },
            LangCode::Sm => {
                proof {
                    reveal_strlit("gagana fa'a Samoa");
                }
                "gagana fa'a Samoa"
            },
            LangCode::Sg => {
                proof {
                    reveal_strlit("yângâ tî sängö");
                }
                "yângâ tî sängö"
            },
            LangCode::Sr => {
                proof {
                    reveal_strlit("српски језик");
                }
                "српски језик"
            },
            LangCode::Gd => {
                proof {
                    reveal_strlit("Gàidhlig");
                }
                "Gàidhlig"
            },
            LangCode::Sn => {
                proof {
                    reveal_strlit("chiShona");
                }
                "chiShona"
            },
            LangCode::Si => {
                proof {
                    reveal_strlit("සිංහල");
                }
                "සිංහල"
            },
            LangCode::Sk => {
                proof {
                    reveal_strlit("slovenčina");
                }
                "slovenčina"
            },
            LangCode::Sl => {
                proof {
                    reveal_strlit("slovenski jezik");
                }
                "slovenski jezik"
            },
            LangCode::So => {
                proof {
                    reveal_strlit("Soomaaliga");
                }
                "Soomaaliga"
            },
            LangCode::St => {
                proof {
                    reveal_strlit("Sesotho");
                }
                "Sesotho"
            },
            LangCode::Es => {
                proof {
                    reveal_strlit("Español");
                }
                "Español"
            },
            LangCode::Su => {
                proof {
                    reveal_strlit("Basa Sunda");
                }
                "Basa Sunda"
            },
            LangCode::Sw => {
                proof {
                    reveal_strlit("Kiswahili");
                }
                "Kiswahili"
            },
            LangCode::Ss => {
                proof {
                    reveal_strlit("SiSwati");
                }
                "SiSwati"
            },
            LangCode::Sv => {
                proof {
                    reveal_strlit("svenska");
                }
                "svenska"
            },
            LangCode::Ta => {
                proof {
                    reveal_strlit("தமிழ்");
                }
                "தமிழ்"
            },
            LangCode::Te => {
                proof {
                    reveal_strlit("తెలుగు");
                }
                "తెలుగు"
            },
            LangCode::Tg => {
                proof {
                    reveal_strlit("тоҷикӣ");
                }
                "тоҷикӣ"
            },
            LangCode::Th => {
                proof {
                    reveal_strlit("ไทย");
                }
                "ไทย"
            },
            LangCode::Ti => {
                proof {
                    reveal_strlit("ትግርኛ");
                }
                "ትግርኛ"
            },
            LangCode::Bo => {
                proof {
                    reveal_strlit("བོད་ཡིག");
                }
                "བོད་ཡིག"
            },
            LangCode::Tk => {
                proof {
                    reveal_strlit("Türkmen");
                }
                "Türkmen"
            },
            LangCode::Tl => {
                proof {
                    reveal_strlit("Wikang Tagalog");
                }
                "Wikang Tagalog"
            },
            LangCode::Tn => {
                proof {
                    reveal_strlit("Setswana");
                }
                "Setswana"
            },
            LangCode::To => {
                proof {
                    reveal_strlit("faka Tonga");
                }
                "faka Tonga"
            },
            LangCode::Tr => {
                proof {
                    reveal_strlit("Türkçe");
                }
                "Türkçe"
            },
            LangCode::Ts => {
                proof {
                    reveal_strlit("Xitsonga");
                }
                "Xitsonga"
            },
            LangCode::Tt => {
                proof {
                    reveal_strlit("татар теле");
                }
                "татар теле"
            },
            LangCode::Tw => {
                proof {
                    reveal_strlit("Twi");
                }
                "Twi"
            },
            LangCode::Ty => {
                proof {
                    reveal_strlit("Reo Tahiti");
                }
                "Reo Tahiti"
            },
            LangCode::Ug => {
                proof {
                    reveal_strlit("ئۇيغۇرچە‎");
                }
                "ئۇيغۇرچە‎"
            },
            LangCode::Uk => {
                proof {
                    reveal_strlit("Українська");
                }
                "Українська"
            },
            LangCode::Ur => {
                proof {
                    reveal_strlit("اردو");
                }
                "اردو"
            },
            LangCode::Uz => {
                proof {
                    reveal_strlit("Oʻzbek");
                }
                "Oʻzbek"
            },
            LangCode::Ve => {
                proof {
                    reveal_strlit("Tshivenḓa");
                }
                "Tshivenḓa"
            },
            LangCode::Vi => {
                proof {
                    reveal_strlit("Tiếng Việt");
                }
                "Tiếng Việt"
            },
            LangCode::Vo => {
                proof {
                    reveal_strlit("Volapük");
                }
                "Volapük"
            },
            LangCode::Wa => {
                proof {
                    reveal_strlit("walon");
                }
                "walon"
            },
            LangCode::Cy => {
                proof {
                    reveal_strlit("Cymraeg");
                }
                "Cymraeg"
            },
            LangCode::Wo => {
                proof {
                    reveal_strlit("Wollof");
                }
                "Wollof"
            },
            LangCode::Fy => {
                proof {
                    reveal_strlit("Frysk");
                }
                "Frysk"
            },
            LangCode::Xh => {
                proof {
                    reveal_strlit("isiXhosa");
                }
                "isiXhosa"
            },
            LangCode::Yi => {
                proof {
                    reveal_strlit("ייִדיש");
                }
                "ייִדיש"
            },
            LangCode::Yo => {
                proof {
                    reveal_strlit("Yorùbá");
                }
                "Yorùbá"
            },
            LangCode::Za => {
                proof {
                    reveal_strlit("Saɯ cueŋƅ");
                }
                "Saɯ cueŋƅ"
            },
            LangCode::Zu => {
                proof {
                    reveal_strlit("isiZulu");
                }
                "isiZulu"
            },
        }
    }

    /// Looks a code up by its two-byte lowercase form.
    pub fn lang_of_bytes(bs: &[u8]) -> (r: Option<LangCode>)
        ensures
            r == spec_lang_of(bs@),
    {
        if bs.len() != 2 {
            return None;
        }
        let a = bs[0];
        let b = bs[1];
        if a == 97 && b == 97 {
            Some(LangCode::Aa)
        } else if a == 97 && b == 98 {
            Some(LangCode::Ab)
        } else if a == 97 && b == 102 {
            Some(LangCode::Af)
        } else if a == 97 && b == 107 {
            Some(LangCode::Ak)
        } else if a == 115 && b == 113 {
            Some(LangCode::Sq)
        } else if a == 97 && b == 109 {
            Some(LangCode::Am)
        } else if a == 97 && b == 114 {
            Some(LangCode::Ar)
        } else if a == 97 && b == 110 {
            Some(LangCode::An)
        } else if a == 104 && b == 121 {
            Some(LangCode::Hy)
        } else if a == 97 && b == 115 {
            Some(LangCode::As)
        } else if a == 97 && b == 118 {
            Some(LangCode::Av)
        } else if a == 97 && b == 101 {
            Some(LangCode::Ae)
        } else if a == 97 && b == 121 {
            Some(LangCode::Ay)
        } else if a == 97 && b == 122 {
            Some(LangCode::Az)
        } else if a == 98 && b == 109 {
            Some(LangCode::Bm)
        } else if a == 98 && b == 97 {
            Some(LangCode::Ba)
        } else if a == 101 && b == 117 {
            Some(LangCode::Eu)
        } else if a == 98 && b == 101 {
            Some(LangCode::Be)
        } else if a == 98 && b == 110 {
            Some(LangCode::Bn)
        } else if a == 98 && b == 104 {
            Some(LangCode::Bh)
        } else if a == 98 && b == 105 {
            Some(LangCode::Bi)
        } else if a == 98 && b == 115 {
            Some(LangCode::Bs)
        } else if a == 98 && b == 114 {
            Some(LangCode::Br)
        } else if a == 98 && b == 103 {
            Some(LangCode::Bg)
        } else if a == 109 && b == 121 {
            Some(LangCode::My)
        } else if a == 99 && b == 97 {
            Some(LangCode::Ca)
        } else if a == 99 && b == 104 {
            Some(LangCode::Ch)
        } else if a == 99 && b == 101 {
            Some(LangCode::Ce)
        } else if a == 110 && b == 121 {
            Some(LangCode::Ny)
        } else if a == 122 && b == 104 {
            Some(LangCode::Zh)
        } else if a == 99 && b == 118 {
            Some(LangCode::Cv)
        } else if a == 107 && b == 119 {
            Some(LangCode::Kw)
        } else if a == 99 && b == 111 {
            Some(LangCode::Co)
        } else if a == 99 && b == 114 {
            Some(LangCode::Cr)
        } else if a == 104 && b == 114 {
            Some(LangCode::Hr)
        } else if a == 99 && b == 115 {
            Some(LangCode::Cs)
        } else if a == 100 && b == 97 {
            Some(LangCode::Da)
        } else if a == 100 && b == 118 {
            Some(LangCode::Dv)
        } else if a == 110 && b == 108 {
            Some(LangCode::Nl)
        } else if a == 100 && b == 122 {
            Some(LangCode::Dz)
        } else if a == 101 && b == 110 {
            Some(LangCode::En)
        } else if a == 101 && b == 111 {
            Some(LangCode::Eo)
        } else if a == 101 && b == 116 {
            Some(LangCode::Et)
        } else if a == 101 && b == 101 {
            Some(LangCode::Ee)
        } else if a == 102 && b == 111 {
            Some(LangCode::Fo)
        } else if a == 102 && b == 106 {
            Some(LangCode::Fj)
        } else if a == 102 && b == 105 {
            Some(LangCode::Fi)
        } else if a == 102 && b == 114 {
            Some(LangCode::Fr)
        } else if a == 102 && b == 102 {
            Some(LangCode::Ff)
        } else if a == 103 && b == 108 {
            Some(LangCode::Gl)
        } else if a == 107 && b == 97 {
            Some(LangCode::Ka)
        } else if a == 100 && b == 101 {
            Some(LangCode::De)
        } else if a == 101 && b == 108 {
            Some(LangCode::El)
        } else if a == 103 && b == 110 {
            Some(LangCode::Gn)
        } else if a == 103 && b == 117 {
            Some(LangCode::Gu)
        } else if a == 104 && b == 116 {
            Some(LangCode::Ht)
        } else if a == 104 && b == 97 {
            Some(LangCode::Ha)
        } else if a == 104 && b == 101 {
            Some(LangCode::He)
        } else if a == 104 && b == 122 {
            Some(LangCode::Hz)
        } else if a == 104 && b == 105 {
            Some(LangCode::Hi)
        } else if a == 104 && b == 111 {
            Some(LangCode::Ho)
        } else if a == 104 && b == 117 {
            Some(LangCode::Hu)
        } else if a == 105 && b == 97 {
            Some(LangCode::Ia)
        } else if a == 105 && b == 100 {
            Some(LangCode::Id)
        } else if a == 105 && b == 101 {
            Some(LangCode::Ie)
        } else if a == 103 && b == 97 {
            Some(LangCode::Ga)
        } else if a == 105 && b == 103 {
            Some(LangCode::Ig)
        } else if a == 105 && b == 107 {
            Some(LangCode::Ik)
        } else if a == 105 && b == 111 {
            Some(LangCode::Io)
        } else if a == 105 && b == 115 {
            Some(LangCode::Is)
        } else if a == 105 && b == 116 {
            Some(LangCode::It)
        } else if a == 105 && b == 117 {
            Some(LangCode::Iu)
        } else if a == 106 && b == 97 {
            Some(LangCode::Ja)
        } else if a == 106 && b == 118 {
            Some(LangCode::Jv)
        } else if a == 107 && b == 108 {
            Some(LangCode::Kl)
        } else if a == 107 && b == 110 {
            Some(LangCode::Kn)
        } else if a == 107 && b == 114 {
            Some(LangCode::Kr)
        } else if a == 107 && b == 115 {
            Some(LangCode::Ks)
        } else if a == 107 && b == 107 {
            Some(LangCode::Kk)
        } else if a == 107 && b == 109 {
            Some(LangCode::Km)
        } else if a == 107 && b == 105 {
            Some(LangCode::Ki)
        } else if a == 114 && b == 119 {
            Some(LangCode::Rw)
        } else if a == 107 && b == 121 {
            Some(LangCode::Ky)
        } else if a == 107 && b == 118 {
            Some(LangCode::Kv)
        } else if a == 107 && b == 103 {
            Some(LangCode::Kg)
        } else if a == 107 && b == 111 {
            Some(LangCode::Ko)
        } else if a == 107 && b == 117 {
            Some(LangCode::Ku)
        } else if a == 107 && b == 106 {
            Some(LangCode::Kj)
        } else if a == 108 && b == 97 {
            Some(LangCode::La)
        } else if a == 108 && b == 98 {
            Some(LangCode::Lb)
        } else if a == 108 && b == 103 {
            Some(LangCode::Lg)
        } else if a == 108 && b == 105 {
            Some(LangCode::Li)
        } else if a == 108 && b == 110 {
            Some(LangCode::Ln)
        } else if a == 108 && b == 111 {
            Some(LangCode::Lo)
        } else if a == 108 && b == 116 {
            Some(LangCode::Lt)
        } else if a == 108 && b == 117 {
            Some(LangCode::Lu)
        } else if a == 108 && b == 118 {
            Some(LangCode::Lv)
        } else if a == 103 && b == 118 {
            Some(LangCode::Gv)
        } else if a == 109 && b == 107 {
            Some(LangCode::Mk)
        } else if a == 109 && b == 103 {
            Some(LangCode::Mg)
        } else if a == 109 && b == 115 {
            Some(LangCode::Ms)
        } else if a == 109 && b == 108 {
            Some(LangCode::Ml)
        } else if a == 109 && b == 116 {
            Some(LangCode::Mt)
        } else if a == 109 && b == 105 {
            Some(LangCode::Mi)
        } else if a == 109 && b == 114 {
            Some(LangCode::Mr)
        } else if a == 109 && b == 104 {
            Some(LangCode::Mh)
        } else if a == 109 && b == 110 {
            Some(LangCode::Mn)
        } else if a == 110 && b == 97 {
            Some(LangCode::Na)
        } else if a == 110 && b == 118 {
            Some(LangCode::Nv)
        } else if a == 110 && b == 100 {
            Some(LangCode::Nd)
        } else if a == 110 && b == 101 {
            Some(LangCode::Ne)
        } else if a == 110 && b == 103 {
            Some(LangCode::Ng)
        } else if a == 110 && b == 98 {
            Some(LangCode::Nb)
        } else if a == 110 && b == 110 {
            Some(LangCode::Nn)
        } else if a == 110 && b == 111 {
            Some(LangCode::No)
        } else if a == 105 && b == 105 {
            Some(LangCode::Ii)
        } else if a == 110 && b == 114 {
            Some(LangCode::Nr)
        } else if a == 111 && b == 99 {
            Some(LangCode::Oc)
        } else if a == 111 && b == 106 {
            Some(LangCode::Oj)
        } else if a == 99 && b == 117 {
            Some(LangCode::Cu)
        } else if a == 111 && b == 109 {
            Some(LangCode::Om)
        } else if a == 111 && b == 114 {
            Some(LangCode::Or)
        } else if a == 111 && b == 115 {
            Some(LangCode::Os)
        } else if a == 112 && b == 97 {
            Some(LangCode::Pa)
        } else if a == 112 && b == 105 {
            Some(LangCode::Pi)
        } else if a == 102 && b == 97 {
            Some(LangCode::Fa)
        } else if a == 112 && b == 108 {
            Some(LangCode::Pl)
        } else if a == 112 && b == 115 {
            Some(LangCode::Ps)
        } else if a == 112 && b == 116 {
            Some(LangCode::Pt)
        } else if a == 113 && b == 117 {
            Some(LangCode::Qu)
        } else if a == 114 && b == 109 {
            Some(LangCode::Rm)
        } else if a == 114 && b == 110 {
            Some(LangCode::Rn)
        } else if a == 114 && b == 111 {
            Some(LangCode::Ro)
        } else if a == 114 && b == 117 {
            Some(LangCode::Ru)
        } else if a == 115 && b == 97 {
            Some(LangCode::Sa)
        } else if a == 115 && b == 99 {
            Some(LangCode::Sc)
        } else if a == 115 && b == 100 {
            Some(LangCode::Sd)
        } else if a == 115 && b == 101 {
            Some(LangCode::Se)
        } else if a == 115 && b == 109 {
            Some(LangCode::Sm)
        } else if a == 115 && b == 103 {
            Some(LangCode::Sg)
        } else if a == 115 && b == 114 {
            Some(LangCode::Sr)
        } else if a == 103 && b == 100 {
            Some(LangCode::Gd)
        } else if a == 115 && b == 110 {
            Some(LangCode::Sn)
        } else if a == 115 && b == 105 {
            Some(LangCode::Si)
        } else if a == 115 && b == 107 {
            Some(LangCode::Sk)
        } else if a == 115 && b == 108 {
            Some(LangCode::Sl)
        } else if a == 115 && b == 111 {
            Some(LangCode::So)
        } else if a == 115 && b == 116 {
            Some(LangCode::St)
        } else if a == 101 && b == 115 {
            Some(LangCode::Es)
        } else if a == 115 && b == 117 {
            Some(LangCode::Su)
        } else if a == 115 && b == 119 {
            Some(LangCode::Sw)
        } else if a == 115 && b == 115 {
            Some(LangCode::Ss)
        } else if a == 115 && b == 118 {
            Some(LangCode::Sv)
        } else if a == 116 && b == 97 {
            Some(LangCode::Ta)
        } else if a == 116 && b == 101 {
            Some(LangCode::Te)
        } else if a == 116 && b == 103 {
            Some(LangCode::Tg)
        } else if a == 116 && b == 104 {
            Some(LangCode::Th)
        } else if a == 116 && b == 105 {
            Some(LangCode::Ti)
        } else if a == 98 && b == 111 {
            Some(LangCode::Bo)
        } else if a == 116 && b == 107 {
            Some(LangCode::Tk)
        } else if a == 116 && b == 108 {
            Some(LangCode::Tl)
        } else if a == 116 && b == 110 {
            Some(LangCode::Tn)
        } else if a == 116 && b == 111 {
            Some(LangCode::To)
        } else if a == 116 && b == 114 {
            Some(LangCode::Tr)
        } else if a == 116 && b == 115 {
            Some(LangCode::Ts)
        } else if a == 116 && b == 116 {
            Some(LangCode::Tt)
        } else if a == 116 && b == 119 {
            Some(LangCode::Tw)
        } else if a == 116 && b == 121 {
            Some(LangCode::Ty)
        } else if a == 117 && b == 103 {
            Some(LangCode::Ug)
        } else if a == 117 && b == 107 {
            Some(LangCode::Uk)
        } else if a == 117 && b == 114 {
            Some(LangCode::Ur)
        } else if a == 117 && b == 122 {
            Some(LangCode::Uz)
        } else if a == 118 && b == 101 {
            Some(LangCode::Ve)
        } else if a == 118 && b == 105 {
            Some(LangCode::Vi)
        } else if a == 118 && b == 111 {
            Some(LangCode::Vo)
        } else if a == 119 && b == 97 {
            Some(LangCode::Wa)
        } else if a == 99 && b == 121 {
            Some(LangCode::Cy)
        } else if a == 119 && b == 111 {
            Some(LangCode::Wo)
        } else if a == 102 && b == 121 {
            Some(LangCode::Fy)
        } else if a == 120 && b == 104 {
            Some(LangCode::Xh)
        } else if a == 121 && b == 105 {
            Some(LangCode::Yi)
        } else if a == 121 && b == 111 {
            Some(LangCode::Yo)
        } else if a == 122 && b == 97 {
            Some(LangCode::Za)
        } else if a == 122 && b == 117 {
            Some(LangCode::Zu)
        } else {
            None
        }
    }

    /// Parses the lowercase string form of a code, failing with
    /// [`Error::NotAcceptable`] on any other input.
    pub fn from_str(s: &str) -> (r: Result<LangCode, Error>)
        ensures
            r matches Ok(c) ==> spec_lang_of(s.spec_bytes()) == Some(c),
            r matches Err(e) ==> spec_lang_of(s.spec_bytes()) is None && e == Error::NotAcceptable,
    {
        match Self::lang_of_bytes(s.as_bytes()) {
            Some(c) => Ok(c),
            None => Err(Error::NotAcceptable),
        }
    }

    /// The position of the code in the catalog's order.
    pub fn code_index(self) -> (i: usize)
        ensures
            i == spec_code_index(self),
            i < CODE_COUNT,
    {
        match self {
            LangCode::Aa => 0,
            LangCode::Ab => 1,
            LangCode::Af => 2,
            LangCode::Ak => 3,
            LangCode::Sq => 4,
            LangCode::Am => 5,
            LangCode::Ar => 6,
            LangCode::An => 7,
            LangCode::Hy => 8,
            LangCode::As => 9,
            LangCode::Av => 10,
            LangCode::Ae => 11,
            LangCode::Ay => 12,
            LangCode::Az => 13,
            LangCode::Bm => 14,
            LangCode::Ba => 15,
            LangCode::Eu => 16,
            LangCode::Be => 17,
            LangCode::Bn => 18,
            LangCode::Bh => 19,
            LangCode::Bi => 20,
            LangCode::Bs => 21,
            LangCode::Br => 22,
            LangCode::Bg => 23,
            LangCode::My => 24,
            LangCode::Ca => 25,
            LangCode::Ch => 26,
            LangCode::Ce => 27,
            LangCode::Ny => 28,
            LangCode::Zh => 29,
            LangCode::Cv => 30,
            LangCode::Kw => 31,
            LangCode::Co => 32,
            LangCode::Cr => 33,
            LangCode::Hr => 34,
            LangCode::Cs => 35,
            LangCode::Da => 36,
            LangCode::Dv => 37,
            LangCode::Nl => 38,
            LangCode::Dz => 39,
            LangCode::En => 40,
            LangCode::Eo => 41,
            LangCode::Et => 42,
            LangCode::Ee => 43,
            LangCode::Fo => 44,
            LangCode::Fj => 45,
            LangCode::Fi => 46,
            LangCode::Fr => 47,
            LangCode::Ff => 48,
            LangCode::Gl => 49,
            LangCode::Ka => 50,
            LangCode::De => 51,
            LangCode::El => 52,
            LangCode::Gn => 53,
            LangCode::Gu => 54,
            LangCode::Ht => 55,
            LangCode::Ha => 56,
            LangCode::He => 57,
            LangCode::Hz => 58,
            LangCode::Hi => 59,
            LangCode::Ho => 60,
            LangCode::Hu => 61,
            LangCode::Ia => 62,
            LangCode::Id => 63,
            LangCode::Ie => 64,
            LangCode::Ga => 65,
            LangCode::Ig => 66,
            LangCode::Ik => 67,
            LangCode::Io => 68,
            LangCode::Is => 69,
            LangCode::It => 70,
            LangCode::Iu => 71,
            LangCode::Ja => 72,
            LangCode::Jv => 73,
            LangCode::Kl => 74,
            LangCode::Kn => 75,
            LangCode::Kr => 76,
            LangCode::Ks => 77,
            LangCode::Kk => 78,
            LangCode::Km => 79,
            LangCode::Ki => 80,
            LangCode::Rw => 81,
            LangCode::Ky => 82,
            LangCode::Kv => 83,
            LangCode::Kg => 84,
            LangCode::Ko => 85,
            LangCode::Ku => 86,
            LangCode::Kj => 87,
            LangCode::La => 88,
            LangCode::Lb => 89,
            LangCode::Lg => 90,
            LangCode::Li => 91,
            LangCode::Ln => 92,
            LangCode::Lo => 93,
            LangCode::Lt => 94,
            LangCode::Lu => 95,
            LangCode::Lv => 96,
            LangCode::Gv => 97,
            LangCode::Mk => 98,
            LangCode::Mg => 99,
            LangCode::Ms => 100,
            LangCode::Ml => 101,
            LangCode::Mt => 102,
            LangCode::Mi => 103,
            LangCode::Mr => 104,
            LangCode::Mh => 105,
            LangCode::Mn => 106,
            LangCode::Na => 107,
            LangCode::Nv => 108,
            LangCode::Nd => 109,
            LangCode::Ne => 110,
            LangCode::Ng => 111,
            LangCode::Nb => 112,
            LangCode::Nn => 113,
            LangCode::No => 114,
            LangCode::Ii => 115,
            LangCode::Nr => 116,
            LangCode::Oc => 117,
            LangCode::Oj => 118,
            LangCode::Cu => 119,
            LangCode::Om => 120,
            LangCode::Or => 121,
            LangCode::Os => 122,
            LangCode::Pa => 123,
            LangCode::Pi => 124,
            LangCode::Fa => 125,
            LangCode::Pl => 126,
            LangCode::Ps => 127,
            LangCode::Pt => 128,
            LangCode::Qu => 129,
            LangCode::Rm => 130,
            LangCode::Rn => 131,
            LangCode::Ro => 132,
            LangCode::Ru => 133,
            LangCode::Sa => 134,
            LangCode::Sc => 135,
            LangCode::Sd => 136,
            LangCode::Se => 137,
            LangCode::Sm => 138,
            LangCode::Sg => 139,
            LangCode::Sr => 140,
            LangCode::Gd => 141,
            LangCode::Sn => 142,
            LangCode::Si => 143,
            LangCode::Sk => 144,
            LangCode::Sl => 145,
            LangCode::So => 146,
            LangCode::St => 147,
            LangCode::Es => 148,
            LangCode::Su => 149,
            LangCode::Sw => 150,
            LangCode::Ss => 151,
            LangCode::Sv => 152,
            LangCode::Ta => 153,
            LangCode::Te => 154,
            LangCode::Tg => 155,
            LangCode::Th => 156,
            LangCode::Ti => 157,
            LangCode::Bo => 158,
            LangCode::Tk => 159,
            LangCode::Tl => 160,
            LangCode::Tn => 161,
            LangCode::To => 162,
            LangCode::Tr => 163,
            LangCode::Ts => 164,
            LangCode::Tt => 165,
            LangCode::Tw => 166,
            LangCode::Ty => 167,
            LangCode::Ug => 168,
            LangCode::Uk => 169,
            LangCode::Ur => 170,
            LangCode::Uz => 171,
            LangCode::Ve => 172,
            LangCode::Vi => 173,
            LangCode::Vo => 174,
            LangCode::Wa => 175,
            LangCode::Cy => 176,
            LangCode::Wo => 177,
            LangCode::Fy => 178,
            LangCode::Xh => 179,
            LangCode::Yi => 180,
            LangCode::Yo => 181,
            LangCode::Za => 182,
            LangCode::Zu => 183,
        }
    }

    /// The code at a position of the catalog's order.
    fn code_at(i: usize) -> (c: LangCode)
        requires
            i < CODE_COUNT,
        ensures
            c == spec_code_at(i as int),
    {
        if i == 0 {
            LangCode::Aa
        } else if i == 1 {
            LangCode::Ab
        } else if i == 2 {
            LangCode::Af
        } else if i == 3 {
            LangCode::Ak
        } else if i == 4 {
            LangCode::Sq
        } else if i == 5 {
            LangCode::Am
        } else if i == 6 {
            LangCode::Ar
        } else if i == 7 {
            LangCode::An
        } else if i == 8 {
            LangCode::Hy
        } else if i == 9 {
            LangCode::As
        } else if i == 10 {
            LangCode::Av
        } else if i == 11 {
            LangCode::Ae
        } else if i == 12 {
            LangCode::Ay
        } else if i == 13 {
            LangCode::Az
        } else if i == 14 {
            LangCode::Bm
        } else if i == 15 {
            LangCode::Ba
        } else if i == 16 {
            LangCode::Eu
        } else if i == 17 {
            LangCode::Be
        } else if i == 18 {
            LangCode::Bn
        } else if i == 19 {
            LangCode::Bh
        } else if i == 20 {
            LangCode::Bi
        } else if i == 21 {
            LangCode::Bs
        } else if i == 22 {
            LangCode::Br
        } else if i == 23 {
            LangCode::Bg
        } else if i == 24 {
            LangCode::My
        } else if i == 25 {
            LangCode::Ca
        } else if i == 26 {
            LangCode::Ch
        } else if i == 27 {
            LangCode::Ce
        } else if i == 28 {
            LangCode::Ny
        } else if i == 29 {
            LangCode::Zh
        } else if i == 30 {
            LangCode::Cv
        } else if i == 31 {
            LangCode::Kw
        } else if i == 32 {
            LangCode::Co
        } else if i == 33 {
            LangCode::Cr
        } else if i == 34 {
            LangCode::Hr
        } else if i == 35 {
            LangCode::Cs
        } else if i == 36 {
            LangCode::Da
        } else if i == 37 {
            LangCode::Dv
        } else if i == 38 {
            LangCode::Nl
        } else if i == 39 {
            LangCode::Dz
        } else if i == 40 {
            LangCode::En
        } else if i == 41 {
            LangCode::Eo
        } else if i == 42 {
            LangCode::Et
        } else if i == 43 {
            LangCode::Ee
        } else if i == 44 {
            LangCode::Fo
        } else if i == 45 {
            LangCode::Fj
        } else if i == 46 {
            LangCode::Fi
        } else if i == 47 {
            LangCode::Fr
        } else if i == 48 {
            LangCode::Ff
        } else if i == 49 {
            LangCode::Gl
        } else if i == 50 {
            LangCode::Ka
        } else if i == 51 {
            LangCode::De
        } else if i == 52 {
            LangCode::El
        } else if i == 53 {
            LangCode::Gn
        } else if i == 54 {
            LangCode::Gu
        } else if i == 55 {
            LangCode::Ht
        } else if i == 56 {
            LangCode::Ha
        } else if i == 57 {
            LangCode::He
        } else if i == 58 {
            LangCode::Hz
        } else if i == 59 {
            LangCode::Hi
        } else if i == 60 {
            LangCode::Ho
        } else if i == 61 {
            LangCode::Hu
        } else if i == 62 {
            LangCode::Ia
        } else if i == 63 {
            LangCode::Id
        } else if i == 64 {
            LangCode::Ie
        } else if i == 65 {
            LangCode::Ga
        } else if i == 66 {
            LangCode::Ig
        } else if i == 67 {
            LangCode::Ik
        } else if i == 68 {
            LangCode::Io
        } else if i == 69 {
            LangCode::Is
        } else if i == 70 {
            LangCode::It
        } else if i == 71 {
            LangCode::Iu
        } else if i == 72 {
            LangCode::Ja
        } else if i == 73 {
            LangCode::Jv
        } else if i == 74 {
            LangCode::Kl
        } else if i == 75 {
            LangCode::Kn
        } else if i == 76 {
            LangCode::Kr
        } else if i == 77 {
            LangCode::Ks
        } else if i == 78 {
            LangCode::Kk
        } else if i == 79 {
            LangCode::Km
        } else if i == 80 {
            LangCode::Ki
        } else if i == 81 {
            LangCode::Rw
        } else if i == 82 {
            LangCode::Ky
        } else if i == 83 {
            LangCode::Kv
        } else if i == 84 {
            LangCode::Kg
        } else if i == 85 {
            LangCode::Ko
        } else if i == 86 {
            LangCode::Ku
        } else if i == 87 {
            LangCode::Kj
        } else if i == 88 {
            LangCode::La
        } else if i == 89 {
            LangCode::Lb
        } else if i == 90 {
            LangCode::Lg
        } else if i == 91 {
            LangCode::Li
        } else if i == 92 {
            LangCode::Ln
        } else if i == 93 {
            LangCode::Lo
        } else if i == 94 {
            LangCode::Lt
        } else if i == 95 {
            LangCode::Lu
        } else if i == 96 {
            LangCode::Lv
        } else if i == 97 {
            LangCode::Gv
        } else if i == 98 {
            LangCode::Mk
        } else if i == 99 {
            LangCode::Mg
        } else if i == 100 {
            LangCode::Ms
        } else if i == 101 {
            LangCode::Ml
        } else if i == 102 {
            LangCode::Mt
        } else if i == 103 {
            LangCode::Mi
        } else if i == 104 {
            LangCode::Mr
        } else if i == 105 {
            LangCode::Mh
        } else if i == 106 {
            LangCode::Mn
        } else if i == 107 {
            LangCode::Na
        } else if i == 108 {
            LangCode::Nv
        } else if i == 109 {
            LangCode::Nd
        } else if i == 110 {
            LangCode::Ne
        } else if i == 111 {
            LangCode::Ng
        } else if i == 112 {
            LangCode::Nb
        } else if i == 113 {
            LangCode::Nn
        } else if i == 114 {
            LangCode::No
        } else if i == 115 {
            LangCode::Ii
        } else if i == 116 {
            LangCode::Nr
        } else if i == 117 {
            LangCode::Oc
        } else if i == 118 {
            LangCode::Oj
        } else if i == 119 {
            LangCode::Cu
        } else if i == 120 {
            LangCode::Om
        } else if i == 121 {
            LangCode::Or
        } else if i == 122 {
            LangCode::Os
        } else if i == 123 {
            LangCode::Pa
        } else if i == 124 {
            LangCode::Pi
        } else if i == 125 {
            LangCode::Fa
        } else if i == 126 {
            LangCode::Pl
        } else if i == 127 {
            LangCode::Ps
        } else if i == 128 {
            LangCode::Pt
        } else if i == 129 {
            LangCode::Qu
        } else if i == 130 {
            LangCode::Rm
        } else if i == 131 {
            LangCode::Rn
        } else if i == 132 {
            LangCode::Ro
        } else if i == 133 {
            LangCode::Ru
        } else if i == 134 {
            LangCode::Sa
        } else if i == 135 {
            LangCode::Sc
        } else if i == 136 {
            LangCode::Sd
        } else if i == 137 {
            LangCode::Se
        } else if i == 138 {
            LangCode::Sm
        } else if i == 139 {
            LangCode::Sg
        } else if i == 140 {
            LangCode::Sr
        } else if i == 141 {
            LangCode::Gd
        } else if i == 142 {
            LangCode::Sn
        } else if i == 143 {
            LangCode::Si
        } else if i == 144 {
            LangCode::Sk
        } else if i == 145 {
            LangCode::Sl
        } else if i == 146 {
            LangCode::So
        } else if i == 147 {
            LangCode::St
        } else if i == 148 {
            LangCode::Es
        } else if i == 149 {
            LangCode::Su
        } else if i == 150 {
            LangCode::Sw
        } else if i == 151 {
            LangCode::Ss
        } else if i == 152 {
            LangCode::Sv
        } else if i == 153 {
            LangCode::Ta
        } else if i == 154 {
            LangCode::Te
        } else if i == 155 {
            LangCode::Tg
        } else if i == 156 {
            LangCode::Th
        } else if i == 157 {
            LangCode::Ti
        } else if i == 158 {
            LangCode::Bo
        } else if i == 159 {
            LangCode::Tk
        } else if i == 160 {
            LangCode::Tl
        } else if i == 161 {
            LangCode::Tn
        } else if i == 162 {
            LangCode::To
        } else if i == 163 {
            LangCode::Tr
        } else if i == 164 {
            LangCode::Ts
        } else if i == 165 {
            LangCode::Tt
        } else if i == 166 {
            LangCode::Tw
        } else if i == 167 {
            LangCode::Ty
        } else if i == 168 {
            LangCode::Ug
        } else if i == 169 {
            LangCode::Uk
        } else if i == 170 {
            LangCode::Ur
        } else if i == 171 {
            LangCode::Uz
        } else if i == 172 {
            LangCode::Ve
        } else if i == 173 {
            LangCode::Vi
        } else if i == 174 {
            LangCode::Vo
        } else if i == 175 {
            LangCode::Wa
        } else if i == 176 {
            LangCode::Cy
        } else if i == 177 {
            LangCode::Wo
        } else if i == 178 {
            LangCode::Fy
        } else if i == 179 {
            LangCode::Xh
        } else if i == 180 {
            LangCode::Yi
        } else if i == 181 {
            LangCode::Yo
        } else if i == 182 {
            LangCode::Za
        } else {
            LangCode::Zu
        }
    }

    /// Every code of the catalog, in the catalog's order.
    pub fn all_codes() -> (v: Vec<LangCode>)
        ensures
            v@.len() == CODE_COUNT,
            forall|i: int| 0 <= i < CODE_COUNT ==> v@[i] == spec_code_at(i),
    {
        let mut v: Vec<LangCode> = Vec::new();
        let mut idx: usize = 0;
        while idx < CODE_COUNT
            invariant
                idx <= CODE_COUNT,
                v@.len() == idx,
                forall|i: int| 0 <= i < idx ==> v@[i] == spec_code_at(i),
            decreases CODE_COUNT - idx,
        {
            v.push(Self::code_at(idx));
            idx = idx + 1;
        }
        v
    }

}

/// Every code's string form parses back to the code itself: the catalog's
/// two-letter spellings round-trip through [`spec_lang_of`].
#[verifier::rlimit(100)]
pub proof fn lemma_code_round_trip(c: LangCode)
    ensures
        spec_lang_of(spec_code_bytes(c)) == Some(c),
{
}

/// Catalog positions are consistent: the code at a code's position is that
/// code itself.
pub proof fn lemma_code_at_index(c: LangCode)
    ensures
        spec_code_at(spec_code_index(c)) == c,
        0 <= spec_code_index(c) < CODE_COUNT,
{
}

/// Distinct codes occupy distinct catalog positions.
pub proof fn lemma_code_index_injective(c: LangCode, d: LangCode)
    requires
        spec_code_index(c) == spec_code_index(d),
    ensures
        c == d,
{
    lemma_code_at_index(c);
    lemma_code_at_index(d);
}

} // verus!
