use onsen_compo::scrub::alpha_to_sokuon;
use onsen_compo::scrub::first_char;
use onsen_compo::scrub::katakana_alphabet_map;
use onsen_compo::scrub::katakana_yomis;
use onsen_compo::scrub::read_katakana;
use onsen_compo::scrub::scrub;
use onsen_compo::scrub::tokenize_katakana;
use onsen_compo::scrub::yomi_from_feature;
use onsen_compo::scrub::Pron;

#[test]
fn it_transliterates_plain_kana() {
    assert_eq!(scrub(&"アメナカ".to_string()), "amenaka");
}

#[test]
fn it_doubles_a_consonant_after_a_sokuon() {
    assert_eq!(scrub(&"ラッパ".to_string()), "rappa");
}

#[test]
fn it_writes_a_hatsuon_as_n() {
    assert_eq!(scrub(&"パン".to_string()), "pan");
}

#[test]
fn it_prefers_digraphs_over_single_kana() {
    assert_eq!(scrub(&"シャシン".to_string()), "shasin");
}

#[test]
fn it_turns_a_long_vowel_mark_into_a_dash() {
    assert_eq!(scrub(&"ラーメン".to_string()), "ra-men");
}

#[test]
fn it_keeps_alphanumerics_and_dashes_unknowns() {
    assert_eq!(scrub(&"カA・".to_string()), "kaA-");
}

#[test]
fn it_scrubs_nothing_from_an_empty_text() {
    assert_eq!(scrub(&String::new()), "");
}

#[test]
fn it_reads_the_first_character() {
    assert_eq!(first_char("abc"), Some('a'));
    assert_eq!(first_char("ウィ"), Some('ウ'));
    assert_eq!(first_char(""), None);
}

#[test]
fn it_doubles_the_leading_consonant() {
    assert_eq!(alpha_to_sokuon("pa"), "ppa");
    assert_eq!(alpha_to_sokuon(""), "");
}

#[test]
fn it_finds_the_first_matching_table_row() {
    let map = katakana_alphabet_map();
    let row = read_katakana(&map, "キャベツ").unwrap();
    assert_eq!(row.katakana, "キャ");
    assert!(matches!(&row.alphabet, Pron::Single(s) if s == "kya"));
    assert!(read_katakana(&map, "abc").is_none());
}

#[test]
fn it_tokenizes_and_resolves_sokuon_pairs() {
    let tokens = tokenize_katakana(&"ホッカイドウ".to_string());
    let yomis = katakana_yomis(tokens);
    assert_eq!(yomis.join(""), "hokkaidou");
}

#[test]
fn it_drops_a_trailing_sokuon() {
    assert_eq!(scrub(&"アッ".to_string()), "a");
}

#[test]
fn it_takes_the_reading_from_the_seventh_feature_field() {
    assert_eq!(
        yomi_from_feature("a,b,c,d,e,f,READING,h,i", "surface"),
        "READING"
    );
}

#[test]
fn it_falls_back_to_the_surface_form() {
    assert_eq!(yomi_from_feature("a,b,c", "surface"), "surface");
    assert_eq!(yomi_from_feature("a,b,c,d,e,f,,h", "surface"), "surface");
    assert_eq!(yomi_from_feature("", "surface"), "surface");
}
