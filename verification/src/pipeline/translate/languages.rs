//! Target languages offered for translation, with their FLORES-200 codes
//! (the language tokens of the local NLLB model).
use vstd::prelude::*;

use crate::text::str_eq;

verus! {

/// A translation language: its two-letter code, its English name and its
/// FLORES-200 code.
#[derive(Debug, Clone, Copy)]
pub struct Language {
    pub code: &'static str,
    pub name: &'static str,
    pub flores: &'static str,
}

/// The table of languages, as `(code, name, FLORES code)`.
pub open spec fn language_table() -> Seq<(Seq<char>, Seq<char>, Seq<char>)> {
    seq![
        ("en"@, "English"@, "eng_Latn"@),
        ("fr"@, "French"@, "fra_Latn"@),
        ("es"@, "Spanish"@, "spa_Latn"@),
        ("de"@, "German"@, "deu_Latn"@),
        ("it"@, "Italian"@, "ita_Latn"@),
        ("pt"@, "Portuguese"@, "por_Latn"@),
        ("nl"@, "Dutch"@, "nld_Latn"@),
        ("pl"@, "Polish"@, "pol_Latn"@),
        ("ru"@, "Russian"@, "rus_Cyrl"@),
        ("uk"@, "Ukrainian"@, "ukr_Cyrl"@),
        ("tr"@, "Turkish"@, "tur_Latn"@),
        ("ar"@, "Arabic"@, "arb_Arab"@),
        ("hi"@, "Hindi"@, "hin_Deva"@),
        ("ja"@, "Japanese"@, "jpn_Jpan"@),
        ("ko"@, "Korean"@, "kor_Hang"@),
        ("zh"@, "Chinese"@, "zho_Hans"@),
    ]
}

/// The view of a language row.
pub open spec fn row(l: Language) -> (Seq<char>, Seq<char>, Seq<char>) {
    (l.code@, l.name@, l.flores@)
}

/// The FLORES code of the first row of `table` whose code is `code`.
pub open spec fn lookup(table: Seq<(Seq<char>, Seq<char>, Seq<char>)>, code: Seq<char>) -> Option<Seq<char>>
    decreases table.len(),
{
    if table.len() == 0 {
        None
    } else if table[0].0 == code {
        Some(table[0].2)
    } else {
        lookup(table.drop_first(), code)
    }
}

/// The FLORES code of a language code, if the language is offered.
pub open spec fn flores_for(code: Seq<char>) -> Option<Seq<char>> {
    lookup(language_table(), code)
}

/// `c` is an ASCII lower-case letter.
pub open spec fn is_lower_letter(c: char) -> bool {
    'a' <= c && c <= 'z'
}

/// `c` is an ASCII capital letter.
pub open spec fn is_upper_letter(c: char) -> bool {
    'A' <= c && c <= 'Z'
}

/// `f` has the shape of a FLORES-200 code, the language tokens of NLLB: a
/// three-letter language code, `_`, and a four-letter script code with a
/// capital first letter (`fra_Latn`).
pub open spec fn flores_shaped(f: Seq<char>) -> bool {
    &&& f.len() == 8
    &&& is_lower_letter(f[0]) && is_lower_letter(f[1]) && is_lower_letter(f[2])
    &&& f[3] == '_'
    &&& is_upper_letter(f[4]) && is_lower_letter(f[5]) && is_lower_letter(f[6]) && is_lower_letter(f[7])
}

/// What `lookup` finds is the third column of the first row whose first
/// column is `code`.
proof fn lemma_lookup_row(table: Seq<(Seq<char>, Seq<char>, Seq<char>)>, code: Seq<char>)
    ensures
        lookup(table, code) matches Some(f) ==> exists|i: int|
            0 <= i < table.len() && (#[trigger] table[i]).0 == code && table[i].2 == f,
        lookup(table, code) is None ==> forall|i: int| 0 <= i < table.len() ==> (#[trigger] table[i]).0 != code,
    decreases table.len(),
{
    if table.len() > 0 {
        lemma_lookup_row(table.drop_first(), code);
        if table[0].0 != code {
            if let Some(f) = lookup(table, code) {
                let j = choose|j: int|
                    0 <= j < table.drop_first().len() && (#[trigger] table.drop_first()[j]).0 == code
                        && table.drop_first()[j].2 == f;
                assert(table[j + 1] == table.drop_first()[j]);
            } else {
                assert forall|i: int| 0 <= i < table.len() implies (#[trigger] table[i]).0 != code by {
                    if i > 0 {
                        assert(table[i] == table.drop_first()[i - 1]);
                    }
                }
            }
        }
    }
}

/// The row found for the first occurrence of a code.
proof fn lemma_lookup_finds(table: Seq<(Seq<char>, Seq<char>, Seq<char>)>, i: int)
    requires
        0 <= i < table.len(),
        forall|j: int| 0 <= j < i ==> (#[trigger] table[j]).0 != table[i].0,
    ensures
        lookup(table, table[i].0) == Some(table[i].2),
    decreases i,
{
    if i > 0 {
        let rest = table.drop_first();
        assert forall|j: int| 0 <= j < i - 1 implies (#[trigger] rest[j]).0 != rest[i - 1].0 by {
            assert(rest[j] == table[j + 1]);
        }
        lemma_lookup_finds(rest, i - 1);
        assert(table[0].0 != table[i].0);
    }
}

/// The local translation asks NLLB for language tokens: for every language
/// code, what `flores_for` gives is the FLORES-200 code of that very language
/// in the table (its third column, not its name), it has the shape of a
/// FLORES-200 code, and every offered language has one.
pub proof fn flores_codes_are_the_tables_tokens(code: Seq<char>)
    ensures
        flores_for(code) matches Some(f) ==> exists|i: int|
            0 <= i < language_table().len() && (#[trigger] language_table()[i]).0 == code && language_table()[i].2 == f,
        flores_for(code) matches Some(f) ==> flores_shaped(f),
        flores_for(code) is None ==> forall|i: int|
            0 <= i < language_table().len() ==> (#[trigger] language_table()[i]).0 != code,
        forall|i: int| 0 <= i < language_table().len() ==> flores_for(#[trigger] language_table()[i].0) == Some(
            language_table()[i].2,
        ),
{
    let t = language_table();
    lemma_lookup_row(t, code);
    reveal_strlit("en");
    reveal_strlit("fr");
    reveal_strlit("es");
    reveal_strlit("de");
    reveal_strlit("it");
    reveal_strlit("pt");
    reveal_strlit("nl");
    reveal_strlit("pl");
    reveal_strlit("ru");
    reveal_strlit("uk");
    reveal_strlit("tr");
    reveal_strlit("ar");
    reveal_strlit("hi");
    reveal_strlit("ja");
    reveal_strlit("ko");
    reveal_strlit("zh");
    reveal_strlit("eng_Latn");
    reveal_strlit("fra_Latn");
    reveal_strlit("spa_Latn");
    reveal_strlit("deu_Latn");
    reveal_strlit("ita_Latn");
    reveal_strlit("por_Latn");
    reveal_strlit("nld_Latn");
    reveal_strlit("pol_Latn");
    reveal_strlit("rus_Cyrl");
    reveal_strlit("ukr_Cyrl");
    reveal_strlit("tur_Latn");
    reveal_strlit("arb_Arab");
    reveal_strlit("hin_Deva");
    reveal_strlit("jpn_Jpan");
    reveal_strlit("kor_Hang");
    reveal_strlit("zho_Hans");
    assert forall|i: int| 0 <= i < t.len() implies flores_shaped(#[trigger] t[i].2) by {}
    assert forall|i: int| 0 <= i < t.len() implies lookup(t, #[trigger] t[i].0) == Some(t[i].2) by {
        assert forall|j: int| 0 <= j < i implies (#[trigger] t[j]).0 != t[i].0 by {
            assert(t[j].0[0] != t[i].0[0] || t[j].0[1] != t[i].0[1]);
        }
        lemma_lookup_finds(t, i);
    }
}

/// The languages offered, in display order.
pub fn languages() -> (r: Vec<Language>)
    ensures
        r@.map_values(|l: Language| row(l)) == language_table(),
{
    let r = vec![
        Language { code: "en", name: "English", flores: "eng_Latn" },
        Language { code: "fr", name: "French", flores: "fra_Latn" },
        Language { code: "es", name: "Spanish", flores: "spa_Latn" },
        Language { code: "de", name: "German", flores: "deu_Latn" },
        Language { code: "it", name: "Italian", flores: "ita_Latn" },
        Language { code: "pt", name: "Portuguese", flores: "por_Latn" },
        Language { code: "nl", name: "Dutch", flores: "nld_Latn" },
        Language { code: "pl", name: "Polish", flores: "pol_Latn" },
        Language { code: "ru", name: "Russian", flores: "rus_Cyrl" },
        Language { code: "uk", name: "Ukrainian", flores: "ukr_Cyrl" },
        Language { code: "tr", name: "Turkish", flores: "tur_Latn" },
        Language { code: "ar", name: "Arabic", flores: "arb_Arab" },
        Language { code: "hi", name: "Hindi", flores: "hin_Deva" },
        Language { code: "ja", name: "Japanese", flores: "jpn_Jpan" },
        Language { code: "ko", name: "Korean", flores: "kor_Hang" },
        Language { code: "zh", name: "Chinese", flores: "zho_Hans" },
    ];
    assert(r@.map_values(|l: Language| row(l)) =~= language_table());
    r
}

/// The FLORES code of `code`, if that language is offered.
pub fn flores_code_for(code: &str) -> (r: Option<&'static str>)
    ensures
        match r {
            Some(f) => flores_for(code@) == Some(f@),
            None => flores_for(code@) is None,
        },
{
    let table = languages();
    let ghost rows = table@.map_values(|l: Language| row(l));
    let mut i: usize = 0;
    assert(rows.skip(0) =~= rows);
    while i < table.len()
        invariant
            rows == table@.map_values(|l: Language| row(l)),
            rows == language_table(),
            i <= table.len(),
            lookup(rows, code@) == lookup(rows.skip(i as int), code@),
        decreases table.len() - i,
    {
        assert(rows.skip(i as int)[0] == row(table@[i as int]));
        assert(rows.skip(i as int).drop_first() =~= rows.skip(i + 1));
        if str_eq(table[i].code, code) {
            return Some(table[i].flores);
        }
        i = i + 1;
    }
    assert(rows.skip(i as int) =~= Seq::<(Seq<char>, Seq<char>, Seq<char>)>::empty());
    None
}

} // verus!
