//! Transliteration of katakana readings into plain ASCII.
//!
//! Record names pass through a morphological analyzer that yields katakana
//! readings; the functions here turn such a reading into a lower-case ASCII
//! rendering: digraphs and single kana map through a fixed table, a sokuon
//! doubles the consonant that follows it, and anything unknown becomes a
//! dash. The analyzer itself is an outside process; everything from the
//! katakana text on is verified here, down to the table contents
//! ([`katakana_table`]) and the exact tokenization ([`tokenize_spec`]).

use vstd::prelude::*;
use vstd::string::StringExecFns;

use crate::comment_photos::seg_views;
use crate::text::is_prefix;
use crate::text::str_starts_with;
use crate::text::str_views;
use crate::text::string_from_chars;
use crate::text::string_to_chars;

verus! {

/// One transliterated unit: a plain syllable, a sokuon (which doubles the
/// next consonant), a hatsuon, or filler for anything unreadable.
#[derive(Debug)]
pub enum Pron {
    Single(String),
    Sokuon(String),
    Others(String),
    Hatsuon(String),
}

/// A transliterated unit by its text: what a [`Pron`] says, with the
/// carrier string abstracted to its characters.
pub enum PronView {
    Single(Seq<char>),
    Sokuon(Seq<char>),
    Others(Seq<char>),
    Hatsuon(Seq<char>),
}

/// The view of one unit.
pub open spec fn pron_view(p: Pron) -> PronView {
    match p {
        Pron::Single(s) => PronView::Single(s@),
        Pron::Sokuon(s) => PronView::Sokuon(s@),
        Pron::Others(s) => PronView::Others(s@),
        Pron::Hatsuon(s) => PronView::Hatsuon(s@),
    }
}

/// The views of a unit sequence.
pub open spec fn pron_views(ps: Seq<Pron>) -> Seq<PronView> {
    ps.map_values(|p: Pron| pron_view(p))
}

impl Pron {
    /// An exact copy of this unit.
    pub fn duplicate(&self) -> (r: Pron)
        ensures
            r == *self,
    {
        match self {
            Pron::Single(s) => Pron::Single(s.clone()),
            Pron::Sokuon(s) => Pron::Sokuon(s.clone()),
            Pron::Others(s) => Pron::Others(s.clone()),
            Pron::Hatsuon(s) => Pron::Hatsuon(s.clone()),
        }
    }
}

/// One table row: a katakana key and its transliteration.
pub struct KatakanaAlphabet {
    pub katakana: String,
    pub alphabet: Pron,
}

/// The rows of a table by their texts.
pub open spec fn table_view(m: Seq<KatakanaAlphabet>) -> Seq<(Seq<char>, PronView)> {
    m.map_values(|ka: KatakanaAlphabet| (ka.katakana@, pron_view(ka.alphabet)))
}

/// Every key of the table is nonempty, so reading a key always consumes at
/// least one character.
pub open spec fn map_wf(m: Seq<KatakanaAlphabet>) -> bool {
    forall|i: int| 0 <= i < m.len() ==> #[trigger] m[i].katakana@.len() > 0
}

/// The fixed transliteration table, row by row: digraphs before the single
/// kana they start with, so that the longest match wins.
pub open spec fn katakana_table() -> Seq<(Seq<char>, PronView)> {
    seq![
        ("ウィ"@, PronView::Single("wi"@)),
        ("ウェ"@, PronView::Single("we"@)),
        ("キャ"@, PronView::Single("kya"@)),
        ("キュ"@, PronView::Single("kyu"@)),
        ("キョ"@, PronView::Single("kyo"@)),
        ("シャ"@, PronView::Single("sha"@)),
        ("シュ"@, PronView::Single("shu"@)),
        ("ショ"@, PronView::Single("sho"@)),
        ("チャ"@, PronView::Single("cha"@)),
        ("チュ"@, PronView::Single("chu"@)),
        ("チェ"@, PronView::Single("che"@)),
        ("チョ"@, PronView::Single("cho"@)),
        ("ニャ"@, PronView::Single("nya"@)),
        ("ニュ"@, PronView::Single("nyu"@)),
        ("ニョ"@, PronView::Single("nyo"@)),
        ("ヒャ"@, PronView::Single("hya"@)),
        ("ヒュ"@, PronView::Single("hyu"@)),
        ("ヒョ"@, PronView::Single("hyo"@)),
        ("ミャ"@, PronView::Single("mya"@)),
        ("ミュ"@, PronView::Single("myu"@)),
        ("ミョ"@, PronView::Single("myo"@)),
        ("リャ"@, PronView::Single("rya"@)),
        ("リュ"@, PronView::Single("ryu"@)),
        ("リョ"@, PronView::Single("ryo"@)),
        ("ヴァ"@, PronView::Single("va"@)),
        ("ヴィ"@, PronView::Single("vi"@)),
        ("ヴェ"@, PronView::Single("ve"@)),
        ("ヴォ"@, PronView::Single("vo"@)),
        ("ギャ"@, PronView::Single("gya"@)),
        ("ギュ"@, PronView::Single("gyu"@)),
        ("ギョ"@, PronView::Single("gya"@)),
        ("ジャ"@, PronView::Single("ja"@)),
        ("ジュ"@, PronView::Single("ju"@)),
        ("ジェ"@, PronView::Single("je"@)),
        ("ジョ"@, PronView::Single("jo"@)),
        ("ヂャ"@, PronView::Single("dya"@)),
        ("ヂュ"@, PronView::Single("dyu"@)),
        ("ヂェ"@, PronView::Single("dye"@)),
        ("ヂョ"@, PronView::Single("dyo"@)),
        ("ビャ"@, PronView::Single("bya"@)),
        ("ビュ"@, PronView::Single("byu"@)),
        ("ビェ"@, PronView::Single("bye"@)),
        ("ビョ"@, PronView::Single("byo"@)),
        ("ア"@, PronView::Single("a"@)),
        ("イ"@, PronView::Single("i"@)),
        ("ウ"@, PronView::Single("u"@)),
        ("エ"@, PronView::Single("e"@)),
        ("オ"@, PronView::Single("o"@)),
        ("カ"@, PronView::Single("ka"@)),
        ("キ"@, PronView::Single("ki"@)),
        ("ク"@, PronView::Single("ku"@)),
        ("ケ"@, PronView::Single("ke"@)),
        ("コ"@, PronView::Single("ko"@)),
        ("サ"@, PronView::Single("sa"@)),
        ("シ"@, PronView::Single("si"@)),
        ("ス"@, PronView::Single("su"@)),
        ("セ"@, PronView::Single("se"@)),
        ("ソ"@, PronView::Single("so"@)),
        ("タ"@, PronView::Single("ta"@)),
        ("チ"@, PronView::Single("chi"@)),
        ("ツ"@, PronView::Single("tsu"@)),
        ("テ"@, PronView::Single("te"@)),
        ("ト"@, PronView::Single("to"@)),
        ("ナ"@, PronView::Single("na"@)),
        ("ニ"@, PronView::Single("ni"@)),
        ("ヌ"@, PronView::Single("nu"@)),
        ("ネ"@, PronView::Single("ne"@)),
        ("ノ"@, PronView::Single("no"@)),
        ("ハ"@, PronView::Single("ha"@)),
        ("ヒ"@, PronView::Single("hi"@)),
        ("フ"@, PronView::Single("fu"@)),
        ("ヘ"@, PronView::Single("he"@)),
        ("ホ"@, PronView::Single("ho"@)),
        ("マ"@, PronView::Single("ma"@)),
        ("ミ"@, PronView::Single("mi"@)),
        ("ム"@, PronView::Single("mu"@)),
        ("メ"@, PronView::Single("me"@)),
        ("モ"@, PronView::Single("mo"@)),
        ("ヤ"@, PronView::Single("ya"@)),
        ("ユ"@, PronView::Single("yu"@)),
        ("ヨ"@, PronView::Single("yo"@)),
        ("ラ"@, PronView::Single("ra"@)),
        ("リ"@, PronView::Single("ri"@)),
        ("ル"@, PronView::Single("ru"@)),
        ("レ"@, PronView::Single("re"@)),
        ("ロ"@, PronView::Single("ro"@)),
        ("ワ"@, PronView::Single("wa"@)),
        ("ヲ"@, PronView::Single("wo"@)),
        ("ガ"@, PronView::Single("ga"@)),
        ("ギ"@, PronView::Single("gi"@)),
        ("グ"@, PronView::Single("gu"@)),
        ("ゲ"@, PronView::Single("ge"@)),
        ("ゴ"@, PronView::Single("go"@)),
        ("ザ"@, PronView::Single("za"@)),
        ("ジ"@, PronView::Single("ji"@)),
        ("ズ"@, PronView::Single("zu"@)),
        ("ゼ"@, PronView::Single("ze"@)),
        ("ゾ"@, PronView::Single("zo"@)),
        ("ダ"@, PronView::Single("da"@)),
        ("ヂ"@, PronView::Single("di"@)),
        ("ヅ"@, PronView::Single("du"@)),
        ("デ"@, PronView::Single("de"@)),
        ("ド"@, PronView::Single("do"@)),
        ("バ"@, PronView::Single("ba"@)),
        ("ビ"@, PronView::Single("bi"@)),
        ("ブ"@, PronView::Single("bu"@)),
        ("ベ"@, PronView::Single("be"@)),
        ("ボ"@, PronView::Single("bo"@)),
        ("パ"@, PronView::Single("pa"@)),
        ("ピ"@, PronView::Single("pi"@)),
        ("プ"@, PronView::Single("pu"@)),
        ("ペ"@, PronView::Single("pe"@)),
        ("ポ"@, PronView::Single("po"@)),
        ("ー"@, PronView::Others("-"@)),
        ("ン"@, PronView::Hatsuon("n"@)),
        ("ッ"@, PronView::Sokuon("xtu"@)),
        ("0"@, PronView::Others("0"@)),
        ("1"@, PronView::Others("1"@)),
        ("2"@, PronView::Others("2"@)),
        ("3"@, PronView::Others("3"@)),
        ("4"@, PronView::Others("4"@)),
        ("5"@, PronView::Others("5"@)),
        ("6"@, PronView::Others("6"@)),
        ("7"@, PronView::Others("7"@)),
        ("8"@, PronView::Others("8"@)),
        ("9"@, PronView::Others("9"@)),
    ]
}

/// Add one table row.
fn push_mapping(v: &mut Vec<KatakanaAlphabet>, katakana: &str, alphabet: Pron)
    requires
        katakana@.len() > 0,
    ensures
        map_wf(old(v)@) ==> map_wf(final(v)@),
        table_view(final(v)@) == table_view(old(v)@).push((katakana@, pron_view(alphabet))),
{
    let ghost entry_view = (katakana@, pron_view(alphabet));
    v.push(KatakanaAlphabet { katakana: katakana.to_owned(), alphabet });
    proof {
        assert(table_view(v@) =~= table_view(old(v)@).push(entry_view));
    }
}

/// The fixed transliteration table as data: its rows are exactly
/// [`katakana_table`].
pub fn katakana_alphabet_map() -> (r: Vec<KatakanaAlphabet>)
    ensures
        map_wf(r@),
        table_view(r@) == katakana_table(),
{
    let mut v: Vec<KatakanaAlphabet> = Vec::new();
    proof {
        assert(table_view(v@) =~= katakana_table().take(0));
    }
    table_rows_0(&mut v);
    table_rows_1(&mut v);
    table_rows_2(&mut v);
    table_rows_3(&mut v);
    table_rows_4(&mut v);
    table_rows_5(&mut v);
    table_rows_6(&mut v);
    table_rows_7(&mut v);
    table_rows_8(&mut v);
    proof {
        assert(katakana_table().take(katakana_table().len() as int) =~= katakana_table());
    }
    v
}

fn table_rows_0(v: &mut Vec<KatakanaAlphabet>)
    requires
        map_wf(old(v)@),
        table_view(old(v)@) == katakana_table().take(0),
    ensures
        map_wf(final(v)@),
        table_view(final(v)@) == katakana_table().take(14),
{
    proof {
        reveal_strlit("ウィ");
    }
    push_mapping(v, "ウィ", Pron::Single("wi".to_owned()));
    proof {
        assert(katakana_table().take(1) =~= katakana_table().take(0).push(
            katakana_table()[0],
        ));
        assert(table_view(v@) =~= katakana_table().take(1));
    }
    proof {
        reveal_strlit("ウェ");
    }
    push_mapping(v, "ウェ", Pron::Single("we".to_owned()));
    proof {
        assert(katakana_table().take(2) =~= katakana_table().take(1).push(
            katakana_table()[1],
        ));
        assert(table_view(v@) =~= katakana_table().take(2));
    }
    proof {
        reveal_strlit("キャ");
    }
    push_mapping(v, "キャ", Pron::Single("kya".to_owned()));
    proof {
        assert(katakana_table().take(3) =~= katakana_table().take(2).push(
            katakana_table()[2],
        ));
        assert(table_view(v@) =~= katakana_table().take(3));
    }
    proof {
        reveal_strlit("キュ");
    }
    push_mapping(v, "キュ", Pron::Single("kyu".to_owned()));
    proof {
        assert(katakana_table().take(4) =~= katakana_table().take(3).push(
            katakana_table()[3],
        ));
        assert(table_view(v@) =~= katakana_table().take(4));
    }
    proof {
        reveal_strlit("キョ");
    }
    push_mapping(v, "キョ", Pron::Single("kyo".to_owned()));
    proof {
        assert(katakana_table().take(5) =~= katakana_table().take(4).push(
            katakana_table()[4],
        ));
        assert(table_view(v@) =~= katakana_table().take(5));
    }
    proof {
        reveal_strlit("シャ");
    }
    push_mapping(v, "シャ", Pron::Single("sha".to_owned()));
    proof {
        assert(katakana_table().take(6) =~= katakana_table().take(5).push(
            katakana_table()[5],
        ));
        assert(table_view(v@) =~= katakana_table().take(6));
    }
    proof {
        reveal_strlit("シュ");
    }
    push_mapping(v, "シュ", Pron::Single("shu".to_owned()));
    proof {
        assert(katakana_table().take(7) =~= katakana_table().take(6).push(
            katakana_table()[6],
        ));
        assert(table_view(v@) =~= katakana_table().take(7));
    }
    proof {
        reveal_strlit("ショ");
    }
    push_mapping(v, "ショ", Pron::Single("sho".to_owned()));
    proof {
        assert(katakana_table().take(8) =~= katakana_table().take(7).push(
            katakana_table()[7],
        ));
        assert(table_view(v@) =~= katakana_table().take(8));
    }
    proof {
        reveal_strlit("チャ");
    }
    push_mapping(v, "チャ", Pron::Single("cha".to_owned()));
    proof {
        assert(katakana_table().take(9) =~= katakana_table().take(8).push(
            katakana_table()[8],
        ));
        assert(table_view(v@) =~= katakana_table().take(9));
    }
    proof {
        reveal_strlit("チュ");
    }
    push_mapping(v, "チュ", Pron::Single("chu".to_owned()));
    proof {
        assert(katakana_table().take(10) =~= katakana_table().take(9).push(
            katakana_table()[9],
        ));
        assert(table_view(v@) =~= katakana_table().take(10));
    }
    proof {
        reveal_strlit("チェ");
    }
    push_mapping(v, "チェ", Pron::Single("che".to_owned()));
    proof {
        assert(katakana_table().take(11) =~= katakana_table().take(10).push(
            katakana_table()[10],
        ));
        assert(table_view(v@) =~= katakana_table().take(11));
    }
    proof {
        reveal_strlit("チョ");
    }
    push_mapping(v, "チョ", Pron::Single("cho".to_owned()));
    proof {
        assert(katakana_table().take(12) =~= katakana_table().take(11).push(
            katakana_table()[11],
        ));
        assert(table_view(v@) =~= katakana_table().take(12));
    }
    proof {
        reveal_strlit("ニャ");
    }
    push_mapping(v, "ニャ", Pron::Single("nya".to_owned()));
    proof {
        assert(katakana_table().take(13) =~= katakana_table().take(12).push(
            katakana_table()[12],
        ));
        assert(table_view(v@) =~= katakana_table().take(13));
    }
    proof {
        reveal_strlit("ニュ");
    }
    push_mapping(v, "ニュ", Pron::Single("nyu".to_owned()));
    proof {
        assert(katakana_table().take(14) =~= katakana_table().take(13).push(
            katakana_table()[13],
        ));
        assert(table_view(v@) =~= katakana_table().take(14));
    }
}

fn table_rows_1(v: &mut Vec<KatakanaAlphabet>)
    requires
        map_wf(old(v)@),
        table_view(old(v)@) == katakana_table().take(14),
    ensures
        map_wf(final(v)@),
        table_view(final(v)@) == katakana_table().take(28),
{
    proof {
        reveal_strlit("ニョ");
    }
    push_mapping(v, "ニョ", Pron::Single("nyo".to_owned()));
    proof {
        assert(katakana_table().take(15) =~= katakana_table().take(14).push(
            katakana_table()[14],
        ));
        assert(table_view(v@) =~= katakana_table().take(15));
    }
    proof {
        reveal_strlit("ヒャ");
    }
    push_mapping(v, "ヒャ", Pron::Single("hya".to_owned()));
    proof {
        assert(katakana_table().take(16) =~= katakana_table().take(15).push(
            katakana_table()[15],
        ));
        assert(table_view(v@) =~= katakana_table().take(16));
    }
    proof {
        reveal_strlit("ヒュ");
    }
    push_mapping(v, "ヒュ", Pron::Single("hyu".to_owned()));
    proof {
        assert(katakana_table().take(17) =~= katakana_table().take(16).push(
            katakana_table()[16],
        ));
        assert(table_view(v@) =~= katakana_table().take(17));
    }
    proof {
        reveal_strlit("ヒョ");
    }
    push_mapping(v, "ヒョ", Pron::Single("hyo".to_owned()));
    proof {
        assert(katakana_table().take(18) =~= katakana_table().take(17).push(
            katakana_table()[17],
        ));
        assert(table_view(v@) =~= katakana_table().take(18));
    }
    proof {
        reveal_strlit("ミャ");
    }
    push_mapping(v, "ミャ", Pron::Single("mya".to_owned()));
    proof {
        assert(katakana_table().take(19) =~= katakana_table().take(18).push(
            katakana_table()[18],
        ));
        assert(table_view(v@) =~= katakana_table().take(19));
    }
    proof {
        reveal_strlit("ミュ");
    }
    push_mapping(v, "ミュ", Pron::Single("myu".to_owned()));
    proof {
        assert(katakana_table().take(20) =~= katakana_table().take(19).push(
            katakana_table()[19],
        ));
        assert(table_view(v@) =~= katakana_table().take(20));
    }
    proof {
        reveal_strlit("ミョ");
    }
    push_mapping(v, "ミョ", Pron::Single("myo".to_owned()));
    proof {
        assert(katakana_table().take(21) =~= katakana_table().take(20).push(
            katakana_table()[20],
        ));
        assert(table_view(v@) =~= katakana_table().take(21));
    }
    proof {
        reveal_strlit("リャ");
    }
    push_mapping(v, "リャ", Pron::Single("rya".to_owned()));
    proof {
        assert(katakana_table().take(22) =~= katakana_table().take(21).push(
            katakana_table()[21],
        ));
        assert(table_view(v@) =~= katakana_table().take(22));
    }
    proof {
        reveal_strlit("リュ");
    }
    push_mapping(v, "リュ", Pron::Single("ryu".to_owned()));
    proof {
        assert(katakana_table().take(23) =~= katakana_table().take(22).push(
            katakana_table()[22],
        ));
        assert(table_view(v@) =~= katakana_table().take(23));
    }
    proof {
        reveal_strlit("リョ");
    }
    push_mapping(v, "リョ", Pron::Single("ryo".to_owned()));
    proof {
        assert(katakana_table().take(24) =~= katakana_table().take(23).push(
            katakana_table()[23],
        ));
        assert(table_view(v@) =~= katakana_table().take(24));
    }
    proof {
        reveal_strlit("ヴァ");
    }
    push_mapping(v, "ヴァ", Pron::Single("va".to_owned()));
    proof {
        assert(katakana_table().take(25) =~= katakana_table().take(24).push(
            katakana_table()[24],
        ));
        assert(table_view(v@) =~= katakana_table().take(25));
    }
    proof {
        reveal_strlit("ヴィ");
    }
    push_mapping(v, "ヴィ", Pron::Single("vi".to_owned()));
    proof {
        assert(katakana_table().take(26) =~= katakana_table().take(25).push(
            katakana_table()[25],
        ));
        assert(table_view(v@) =~= katakana_table().take(26));
    }
    proof {
        reveal_strlit("ヴェ");
    }
    push_mapping(v, "ヴェ", Pron::Single("ve".to_owned()));
    proof {
        assert(katakana_table().take(27) =~= katakana_table().take(26).push(
            katakana_table()[26],
        ));
        assert(table_view(v@) =~= katakana_table().take(27));
    }
    proof {
        reveal_strlit("ヴォ");
    }
    push_mapping(v, "ヴォ", Pron::Single("vo".to_owned()));
    proof {
        assert(katakana_table().take(28) =~= katakana_table().take(27).push(
            katakana_table()[27],
        ));
        assert(table_view(v@) =~= katakana_table().take(28));
    }
}

fn table_rows_2(v: &mut Vec<KatakanaAlphabet>)
    requires
        map_wf(old(v)@),
        table_view(old(v)@) == katakana_table().take(28),
    ensures
        map_wf(final(v)@),
        table_view(final(v)@) == katakana_table().take(42),
{
    proof {
        reveal_strlit("ギャ");
    }
    push_mapping(v, "ギャ", Pron::Single("gya".to_owned()));
    proof {
        assert(katakana_table().take(29) =~= katakana_table().take(28).push(
            katakana_table()[28],
        ));
        assert(table_view(v@) =~= katakana_table().take(29));
    }
    proof {
        reveal_strlit("ギュ");
    }
    push_mapping(v, "ギュ", Pron::Single("gyu".to_owned()));
    proof {
        assert(katakana_table().take(30) =~= katakana_table().take(29).push(
            katakana_table()[29],
        ));
        assert(table_view(v@) =~= katakana_table().take(30));
    }
    proof {
        reveal_strlit("ギョ");
    }
    push_mapping(v, "ギョ", Pron::Single("gya".to_owned()));
    proof {
        assert(katakana_table().take(31) =~= katakana_table().take(30).push(
            katakana_table()[30],
        ));
        assert(table_view(v@) =~= katakana_table().take(31));
    }
    proof {
        reveal_strlit("ジャ");
    }
    push_mapping(v, "ジャ", Pron::Single("ja".to_owned()));
    proof {
        assert(katakana_table().take(32) =~= katakana_table().take(31).push(
            katakana_table()[31],
        ));
        assert(table_view(v@) =~= katakana_table().take(32));
    }
    proof {
        reveal_strlit("ジュ");
    }
    push_mapping(v, "ジュ", Pron::Single("ju".to_owned()));
    proof {
        assert(katakana_table().take(33) =~= katakana_table().take(32).push(
            katakana_table()[32],
        ));
        assert(table_view(v@) =~= katakana_table().take(33));
    }
    proof {
        reveal_strlit("ジェ");
    }
    push_mapping(v, "ジェ", Pron::Single("je".to_owned()));
    proof {
        assert(katakana_table().take(34) =~= katakana_table().take(33).push(
            katakana_table()[33],
        ));
        assert(table_view(v@) =~= katakana_table().take(34));
    }
    proof {
        reveal_strlit("ジョ");
    }
    push_mapping(v, "ジョ", Pron::Single("jo".to_owned()));
    proof {
        assert(katakana_table().take(35) =~= katakana_table().take(34).push(
            katakana_table()[34],
        ));
        assert(table_view(v@) =~= katakana_table().take(35));
    }
    proof {
        reveal_strlit("ヂャ");
    }
    push_mapping(v, "ヂャ", Pron::Single("dya".to_owned()));
    proof {
        assert(katakana_table().take(36) =~= katakana_table().take(35).push(
            katakana_table()[35],
        ));
        assert(table_view(v@) =~= katakana_table().take(36));
    }
    proof {
        reveal_strlit("ヂュ");
    }
    push_mapping(v, "ヂュ", Pron::Single("dyu".to_owned()));
    proof {
        assert(katakana_table().take(37) =~= katakana_table().take(36).push(
            katakana_table()[36],
        ));
        assert(table_view(v@) =~= katakana_table().take(37));
    }
    proof {
        reveal_strlit("ヂェ");
    }
    push_mapping(v, "ヂェ", Pron::Single("dye".to_owned()));
    proof {
        assert(katakana_table().take(38) =~= katakana_table().take(37).push(
            katakana_table()[37],
        ));
        assert(table_view(v@) =~= katakana_table().take(38));
    }
    proof {
        reveal_strlit("ヂョ");
    }
    push_mapping(v, "ヂョ", Pron::Single("dyo".to_owned()));
    proof {
        assert(katakana_table().take(39) =~= katakana_table().take(38).push(
            katakana_table()[38],
        ));
        assert(table_view(v@) =~= katakana_table().take(39));
    }
    proof {
        reveal_strlit("ビャ");
    }
    push_mapping(v, "ビャ", Pron::Single("bya".to_owned()));
    proof {
        assert(katakana_table().take(40) =~= katakana_table().take(39).push(
            katakana_table()[39],
        ));
        assert(table_view(v@) =~= katakana_table().take(40));
    }
    proof {
        reveal_strlit("ビュ");
    }
    push_mapping(v, "ビュ", Pron::Single("byu".to_owned()));
    proof {
        assert(katakana_table().take(41) =~= katakana_table().take(40).push(
            katakana_table()[40],
        ));
        assert(table_view(v@) =~= katakana_table().take(41));
    }
    proof {
        reveal_strlit("ビェ");
    }
    push_mapping(v, "ビェ", Pron::Single("bye".to_owned()));
    proof {
        assert(katakana_table().take(42) =~= katakana_table().take(41).push(
            katakana_table()[41],
        ));
        assert(table_view(v@) =~= katakana_table().take(42));
    }
}

fn table_rows_3(v: &mut Vec<KatakanaAlphabet>)
    requires
        map_wf(old(v)@),
        table_view(old(v)@) == katakana_table().take(42),
    ensures
        map_wf(final(v)@),
        table_view(final(v)@) == katakana_table().take(56),
{
    proof {
        reveal_strlit("ビョ");
    }
    push_mapping(v, "ビョ", Pron::Single("byo".to_owned()));
    proof {
        assert(katakana_table().take(43) =~= katakana_table().take(42).push(
            katakana_table()[42],
        ));
        assert(table_view(v@) =~= katakana_table().take(43));
    }
    proof {
        reveal_strlit("ア");
    }
    push_mapping(v, "ア", Pron::Single("a".to_owned()));
    proof {
        assert(katakana_table().take(44) =~= katakana_table().take(43).push(
            katakana_table()[43],
        ));
        assert(table_view(v@) =~= katakana_table().take(44));
    }
    proof {
        reveal_strlit("イ");
    }
    push_mapping(v, "イ", Pron::Single("i".to_owned()));
    proof {
        assert(katakana_table().take(45) =~= katakana_table().take(44).push(
            katakana_table()[44],
        ));
        assert(table_view(v@) =~= katakana_table().take(45));
    }
    proof {
        reveal_strlit("ウ");
    }
    push_mapping(v, "ウ", Pron::Single("u".to_owned()));
    proof {
        assert(katakana_table().take(46) =~= katakana_table().take(45).push(
            katakana_table()[45],
        ));
        assert(table_view(v@) =~= katakana_table().take(46));
    }
    proof {
        reveal_strlit("エ");
    }
    push_mapping(v, "エ", Pron::Single("e".to_owned()));
    proof {
        assert(katakana_table().take(47) =~= katakana_table().take(46).push(
            katakana_table()[46],
        ));
        assert(table_view(v@) =~= katakana_table().take(47));
    }
    proof {
        reveal_strlit("オ");
    }
    push_mapping(v, "オ", Pron::Single("o".to_owned()));
    proof {
        assert(katakana_table().take(48) =~= katakana_table().take(47).push(
            katakana_table()[47],
        ));
        assert(table_view(v@) =~= katakana_table().take(48));
    }
    proof {
        reveal_strlit("カ");
    }
    push_mapping(v, "カ", Pron::Single("ka".to_owned()));
    proof {
        assert(katakana_table().take(49) =~= katakana_table().take(48).push(
            katakana_table()[48],
        ));
        assert(table_view(v@) =~= katakana_table().take(49));
    }
    proof {
        reveal_strlit("キ");
    }
    push_mapping(v, "キ", Pron::Single("ki".to_owned()));
    proof {
        assert(katakana_table().take(50) =~= katakana_table().take(49).push(
            katakana_table()[49],
        ));
        assert(table_view(v@) =~= katakana_table().take(50));
    }
    proof {
        reveal_strlit("ク");
    }
    push_mapping(v, "ク", Pron::Single("ku".to_owned()));
    proof {
        assert(katakana_table().take(51) =~= katakana_table().take(50).push(
            katakana_table()[50],
        ));
        assert(table_view(v@) =~= katakana_table().take(51));
    }
    proof {
        reveal_strlit("ケ");
    }
    push_mapping(v, "ケ", Pron::Single("ke".to_owned()));
    proof {
        assert(katakana_table().take(52) =~= katakana_table().take(51).push(
            katakana_table()[51],
        ));
        assert(table_view(v@) =~= katakana_table().take(52));
    }
    proof {
        reveal_strlit("コ");
    }
    push_mapping(v, "コ", Pron::Single("ko".to_owned()));
    proof {
        assert(katakana_table().take(53) =~= katakana_table().take(52).push(
            katakana_table()[52],
        ));
        assert(table_view(v@) =~= katakana_table().take(53));
    }
    proof {
        reveal_strlit("サ");
    }
    push_mapping(v, "サ", Pron::Single("sa".to_owned()));
    proof {
        assert(katakana_table().take(54) =~= katakana_table().take(53).push(
            katakana_table()[53],
        ));
        assert(table_view(v@) =~= katakana_table().take(54));
    }
    proof {
        reveal_strlit("シ");
    }
    push_mapping(v, "シ", Pron::Single("si".to_owned()));
    proof {
        assert(katakana_table().take(55) =~= katakana_table().take(54).push(
            katakana_table()[54],
        ));
        assert(table_view(v@) =~= katakana_table().take(55));
    }
    proof {
        reveal_strlit("ス");
    }
    push_mapping(v, "ス", Pron::Single("su".to_owned()));
    proof {
        assert(katakana_table().take(56) =~= katakana_table().take(55).push(
            katakana_table()[55],
        ));
        assert(table_view(v@) =~= katakana_table().take(56));
    }
}

fn table_rows_4(v: &mut Vec<KatakanaAlphabet>)
    requires
        map_wf(old(v)@),
        table_view(old(v)@) == katakana_table().take(56),
    ensures
        map_wf(final(v)@),
        table_view(final(v)@) == katakana_table().take(70),
{
    proof {
        reveal_strlit("セ");
    }
    push_mapping(v, "セ", Pron::Single("se".to_owned()));
    proof {
        assert(katakana_table().take(57) =~= katakana_table().take(56).push(
            katakana_table()[56],
        ));
        assert(table_view(v@) =~= katakana_table().take(57));
    }
    proof {
        reveal_strlit("ソ");
    }
    push_mapping(v, "ソ", Pron::Single("so".to_owned()));
    proof {
        assert(katakana_table().take(58) =~= katakana_table().take(57).push(
            katakana_table()[57],
        ));
        assert(table_view(v@) =~= katakana_table().take(58));
    }
    proof {
        reveal_strlit("タ");
    }
    push_mapping(v, "タ", Pron::Single("ta".to_owned()));
    proof {
        assert(katakana_table().take(59) =~= katakana_table().take(58).push(
            katakana_table()[58],
        ));
        assert(table_view(v@) =~= katakana_table().take(59));
    }
    proof {
        reveal_strlit("チ");
    }
    push_mapping(v, "チ", Pron::Single("chi".to_owned()));
    proof {
        assert(katakana_table().take(60) =~= katakana_table().take(59).push(
            katakana_table()[59],
        ));
        assert(table_view(v@) =~= katakana_table().take(60));
    }
    proof {
        reveal_strlit("ツ");
    }
    push_mapping(v, "ツ", Pron::Single("tsu".to_owned()));
    proof {
        assert(katakana_table().take(61) =~= katakana_table().take(60).push(
            katakana_table()[60],
        ));
        assert(table_view(v@) =~= katakana_table().take(61));
    }
    proof {
        reveal_strlit("テ");
    }
    push_mapping(v, "テ", Pron::Single("te".to_owned()));
    proof {
        assert(katakana_table().take(62) =~= katakana_table().take(61).push(
            katakana_table()[61],
        ));
        assert(table_view(v@) =~= katakana_table().take(62));
    }
    proof {
        reveal_strlit("ト");
    }
    push_mapping(v, "ト", Pron::Single("to".to_owned()));
    proof {
        assert(katakana_table().take(63) =~= katakana_table().take(62).push(
            katakana_table()[62],
        ));
        assert(table_view(v@) =~= katakana_table().take(63));
    }
    proof {
        reveal_strlit("ナ");
    }
    push_mapping(v, "ナ", Pron::Single("na".to_owned()));
    proof {
        assert(katakana_table().take(64) =~= katakana_table().take(63).push(
            katakana_table()[63],
        ));
        assert(table_view(v@) =~= katakana_table().take(64));
    }
    proof {
        reveal_strlit("ニ");
    }
    push_mapping(v, "ニ", Pron::Single("ni".to_owned()));
    proof {
        assert(katakana_table().take(65) =~= katakana_table().take(64).push(
            katakana_table()[64],
        ));
        assert(table_view(v@) =~= katakana_table().take(65));
    }
    proof {
        reveal_strlit("ヌ");
    }
    push_mapping(v, "ヌ", Pron::Single("nu".to_owned()));
    proof {
        assert(katakana_table().take(66) =~= katakana_table().take(65).push(
            katakana_table()[65],
        ));
        assert(table_view(v@) =~= katakana_table().take(66));
    }
    proof {
        reveal_strlit("ネ");
    }
    push_mapping(v, "ネ", Pron::Single("ne".to_owned()));
    proof {
        assert(katakana_table().take(67) =~= katakana_table().take(66).push(
            katakana_table()[66],
        ));
        assert(table_view(v@) =~= katakana_table().take(67));
    }
    proof {
        reveal_strlit("ノ");
    }
    push_mapping(v, "ノ", Pron::Single("no".to_owned()));
    proof {
        assert(katakana_table().take(68) =~= katakana_table().take(67).push(
            katakana_table()[67],
        ));
        assert(table_view(v@) =~= katakana_table().take(68));
    }
    proof {
        reveal_strlit("ハ");
    }
    push_mapping(v, "ハ", Pron::Single("ha".to_owned()));
    proof {
        assert(katakana_table().take(69) =~= katakana_table().take(68).push(
            katakana_table()[68],
        ));
        assert(table_view(v@) =~= katakana_table().take(69));
    }
    proof {
        reveal_strlit("ヒ");
    }
    push_mapping(v, "ヒ", Pron::Single("hi".to_owned()));
    proof {
        assert(katakana_table().take(70) =~= katakana_table().take(69).push(
            katakana_table()[69],
        ));
        assert(table_view(v@) =~= katakana_table().take(70));
    }
}

fn table_rows_5(v: &mut Vec<KatakanaAlphabet>)
    requires
        map_wf(old(v)@),
        table_view(old(v)@) == katakana_table().take(70),
    ensures
        map_wf(final(v)@),
        table_view(final(v)@) == katakana_table().take(84),
{
    proof {
        reveal_strlit("フ");
    }
    push_mapping(v, "フ", Pron::Single("fu".to_owned()));
    proof {
        assert(katakana_table().take(71) =~= katakana_table().take(70).push(
            katakana_table()[70],
        ));
        assert(table_view(v@) =~= katakana_table().take(71));
    }
    proof {
        reveal_strlit("ヘ");
    }
    push_mapping(v, "ヘ", Pron::Single("he".to_owned()));
    proof {
        assert(katakana_table().take(72) =~= katakana_table().take(71).push(
            katakana_table()[71],
        ));
        assert(table_view(v@) =~= katakana_table().take(72));
    }
    proof {
        reveal_strlit("ホ");
    }
    push_mapping(v, "ホ", Pron::Single("ho".to_owned()));
    proof {
        assert(katakana_table().take(73) =~= katakana_table().take(72).push(
            katakana_table()[72],
        ));
        assert(table_view(v@) =~= katakana_table().take(73));
    }
    proof {
        reveal_strlit("マ");
    }
    push_mapping(v, "マ", Pron::Single("ma".to_owned()));
    proof {
        assert(katakana_table().take(74) =~= katakana_table().take(73).push(
            katakana_table()[73],
        ));
        assert(table_view(v@) =~= katakana_table().take(74));
    }
    proof {
        reveal_strlit("ミ");
    }
    push_mapping(v, "ミ", Pron::Single("mi".to_owned()));
    proof {
        assert(katakana_table().take(75) =~= katakana_table().take(74).push(
            katakana_table()[74],
        ));
        assert(table_view(v@) =~= katakana_table().take(75));
    }
    proof {
        reveal_strlit("ム");
    }
    push_mapping(v, "ム", Pron::Single("mu".to_owned()));
    proof {
        assert(katakana_table().take(76) =~= katakana_table().take(75).push(
            katakana_table()[75],
        ));
        assert(table_view(v@) =~= katakana_table().take(76));
    }
    proof {
        reveal_strlit("メ");
    }
    push_mapping(v, "メ", Pron::Single("me".to_owned()));
    proof {
        assert(katakana_table().take(77) =~= katakana_table().take(76).push(
            katakana_table()[76],
        ));
        assert(table_view(v@) =~= katakana_table().take(77));
    }
    proof {
        reveal_strlit("モ");
    }
    push_mapping(v, "モ", Pron::Single("mo".to_owned()));
    proof {
        assert(katakana_table().take(78) =~= katakana_table().take(77).push(
            katakana_table()[77],
        ));
        assert(table_view(v@) =~= katakana_table().take(78));
    }
    proof {
        reveal_strlit("ヤ");
    }
    push_mapping(v, "ヤ", Pron::Single("ya".to_owned()));
    proof {
        assert(katakana_table().take(79) =~= katakana_table().take(78).push(
            katakana_table()[78],
        ));
        assert(table_view(v@) =~= katakana_table().take(79));
    }
    proof {
        reveal_strlit("ユ");
    }
    push_mapping(v, "ユ", Pron::Single("yu".to_owned()));
    proof {
        assert(katakana_table().take(80) =~= katakana_table().take(79).push(
            katakana_table()[79],
        ));
        assert(table_view(v@) =~= katakana_table().take(80));
    }
    proof {
        reveal_strlit("ヨ");
    }
    push_mapping(v, "ヨ", Pron::Single("yo".to_owned()));
    proof {
        assert(katakana_table().take(81) =~= katakana_table().take(80).push(
            katakana_table()[80],
        ));
        assert(table_view(v@) =~= katakana_table().take(81));
    }
    proof {
        reveal_strlit("ラ");
    }
    push_mapping(v, "ラ", Pron::Single("ra".to_owned()));
    proof {
        assert(katakana_table().take(82) =~= katakana_table().take(81).push(
            katakana_table()[81],
        ));
        assert(table_view(v@) =~= katakana_table().take(82));
    }
    proof {
        reveal_strlit("リ");
    }
    push_mapping(v, "リ", Pron::Single("ri".to_owned()));
    proof {
        assert(katakana_table().take(83) =~= katakana_table().take(82).push(
            katakana_table()[82],
        ));
        assert(table_view(v@) =~= katakana_table().take(83));
    }
    proof {
        reveal_strlit("ル");
    }
    push_mapping(v, "ル", Pron::Single("ru".to_owned()));
    proof {
        assert(katakana_table().take(84) =~= katakana_table().take(83).push(
            katakana_table()[83],
        ));
        assert(table_view(v@) =~= katakana_table().take(84));
    }
}

fn table_rows_6(v: &mut Vec<KatakanaAlphabet>)
    requires
        map_wf(old(v)@),
        table_view(old(v)@) == katakana_table().take(84),
    ensures
        map_wf(final(v)@),
        table_view(final(v)@) == katakana_table().take(98),
{
    proof {
        reveal_strlit("レ");
    }
    push_mapping(v, "レ", Pron::Single("re".to_owned()));
    proof {
        assert(katakana_table().take(85) =~= katakana_table().take(84).push(
            katakana_table()[84],
        ));
        assert(table_view(v@) =~= katakana_table().take(85));
    }
    proof {
        reveal_strlit("ロ");
    }
    push_mapping(v, "ロ", Pron::Single("ro".to_owned()));
    proof {
        assert(katakana_table().take(86) =~= katakana_table().take(85).push(
            katakana_table()[85],
        ));
        assert(table_view(v@) =~= katakana_table().take(86));
    }
    proof {
        reveal_strlit("ワ");
    }
    push_mapping(v, "ワ", Pron::Single("wa".to_owned()));
    proof {
        assert(katakana_table().take(87) =~= katakana_table().take(86).push(
            katakana_table()[86],
        ));
        assert(table_view(v@) =~= katakana_table().take(87));
    }
    proof {
        reveal_strlit("ヲ");
    }
    push_mapping(v, "ヲ", Pron::Single("wo".to_owned()));
    proof {
        assert(katakana_table().take(88) =~= katakana_table().take(87).push(
            katakana_table()[87],
        ));
        assert(table_view(v@) =~= katakana_table().take(88));
    }
    proof {
        reveal_strlit("ガ");
    }
    push_mapping(v, "ガ", Pron::Single("ga".to_owned()));
    proof {
        assert(katakana_table().take(89) =~= katakana_table().take(88).push(
            katakana_table()[88],
        ));
        assert(table_view(v@) =~= katakana_table().take(89));
    }
    proof {
        reveal_strlit("ギ");
    }
    push_mapping(v, "ギ", Pron::Single("gi".to_owned()));
    proof {
        assert(katakana_table().take(90) =~= katakana_table().take(89).push(
            katakana_table()[89],
        ));
        assert(table_view(v@) =~= katakana_table().take(90));
    }
    proof {
        reveal_strlit("グ");
    }
    push_mapping(v, "グ", Pron::Single("gu".to_owned()));
    proof {
        assert(katakana_table().take(91) =~= katakana_table().take(90).push(
            katakana_table()[90],
        ));
        assert(table_view(v@) =~= katakana_table().take(91));
    }
    proof {
        reveal_strlit("ゲ");
    }
    push_mapping(v, "ゲ", Pron::Single("ge".to_owned()));
    proof {
        assert(katakana_table().take(92) =~= katakana_table().take(91).push(
            katakana_table()[91],
        ));
        assert(table_view(v@) =~= katakana_table().take(92));
    }
    proof {
        reveal_strlit("ゴ");
    }
    push_mapping(v, "ゴ", Pron::Single("go".to_owned()));
    proof {
        assert(katakana_table().take(93) =~= katakana_table().take(92).push(
            katakana_table()[92],
        ));
        assert(table_view(v@) =~= katakana_table().take(93));
    }
    proof {
        reveal_strlit("ザ");
    }
    push_mapping(v, "ザ", Pron::Single("za".to_owned()));
    proof {
        assert(katakana_table().take(94) =~= katakana_table().take(93).push(
            katakana_table()[93],
        ));
        assert(table_view(v@) =~= katakana_table().take(94));
    }
    proof {
        reveal_strlit("ジ");
    }
    push_mapping(v, "ジ", Pron::Single("ji".to_owned()));
    proof {
        assert(katakana_table().take(95) =~= katakana_table().take(94).push(
            katakana_table()[94],
        ));
        assert(table_view(v@) =~= katakana_table().take(95));
    }
    proof {
        reveal_strlit("ズ");
    }
    push_mapping(v, "ズ", Pron::Single("zu".to_owned()));
    proof {
        assert(katakana_table().take(96) =~= katakana_table().take(95).push(
            katakana_table()[95],
        ));
        assert(table_view(v@) =~= katakana_table().take(96));
    }
    proof {
        reveal_strlit("ゼ");
    }
    push_mapping(v, "ゼ", Pron::Single("ze".to_owned()));
    proof {
        assert(katakana_table().take(97) =~= katakana_table().take(96).push(
            katakana_table()[96],
        ));
        assert(table_view(v@) =~= katakana_table().take(97));
    }
    proof {
        reveal_strlit("ゾ");
    }
    push_mapping(v, "ゾ", Pron::Single("zo".to_owned()));
    proof {
        assert(katakana_table().take(98) =~= katakana_table().take(97).push(
            katakana_table()[97],
        ));
        assert(table_view(v@) =~= katakana_table().take(98));
    }
}

fn table_rows_7(v: &mut Vec<KatakanaAlphabet>)
    requires
        map_wf(old(v)@),
        table_view(old(v)@) == katakana_table().take(98),
    ensures
        map_wf(final(v)@),
        table_view(final(v)@) == katakana_table().take(112),
{
    proof {
        reveal_strlit("ダ");
    }
    push_mapping(v, "ダ", Pron::Single("da".to_owned()));
    proof {
        assert(katakana_table().take(99) =~= katakana_table().take(98).push(
            katakana_table()[98],
        ));
        assert(table_view(v@) =~= katakana_table().take(99));
    }
    proof {
        reveal_strlit("ヂ");
    }
    push_mapping(v, "ヂ", Pron::Single("di".to_owned()));
    proof {
        assert(katakana_table().take(100) =~= katakana_table().take(99).push(
            katakana_table()[99],
        ));
        assert(table_view(v@) =~= katakana_table().take(100));
    }
    proof {
        reveal_strlit("ヅ");
    }
    push_mapping(v, "ヅ", Pron::Single("du".to_owned()));
    proof {
        assert(katakana_table().take(101) =~= katakana_table().take(100).push(
            katakana_table()[100],
        ));
        assert(table_view(v@) =~= katakana_table().take(101));
    }
    proof {
        reveal_strlit("デ");
    }
    push_mapping(v, "デ", Pron::Single("de".to_owned()));
    proof {
        assert(katakana_table().take(102) =~= katakana_table().take(101).push(
            katakana_table()[101],
        ));
        assert(table_view(v@) =~= katakana_table().take(102));
    }
    proof {
        reveal_strlit("ド");
    }
    push_mapping(v, "ド", Pron::Single("do".to_owned()));
    proof {
        assert(katakana_table().take(103) =~= katakana_table().take(102).push(
            katakana_table()[102],
        ));
        assert(table_view(v@) =~= katakana_table().take(103));
    }
    proof {
        reveal_strlit("バ");
    }
    push_mapping(v, "バ", Pron::Single("ba".to_owned()));
    proof {
        assert(katakana_table().take(104) =~= katakana_table().take(103).push(
            katakana_table()[103],
        ));
        assert(table_view(v@) =~= katakana_table().take(104));
    }
    proof {
        reveal_strlit("ビ");
    }
    push_mapping(v, "ビ", Pron::Single("bi".to_owned()));
    proof {
        assert(katakana_table().take(105) =~= katakana_table().take(104).push(
            katakana_table()[104],
        ));
        assert(table_view(v@) =~= katakana_table().take(105));
    }
    proof {
        reveal_strlit("ブ");
    }
    push_mapping(v, "ブ", Pron::Single("bu".to_owned()));
    proof {
        assert(katakana_table().take(106) =~= katakana_table().take(105).push(
            katakana_table()[105],
        ));
        assert(table_view(v@) =~= katakana_table().take(106));
    }
    proof {
        reveal_strlit("ベ");
    }
    push_mapping(v, "ベ", Pron::Single("be".to_owned()));
    proof {
        assert(katakana_table().take(107) =~= katakana_table().take(106).push(
            katakana_table()[106],
        ));
        assert(table_view(v@) =~= katakana_table().take(107));
    }
    proof {
        reveal_strlit("ボ");
    }
    push_mapping(v, "ボ", Pron::Single("bo".to_owned()));
    proof {
        assert(katakana_table().take(108) =~= katakana_table().take(107).push(
            katakana_table()[107],
        ));
        assert(table_view(v@) =~= katakana_table().take(108));
    }
    proof {
        reveal_strlit("パ");
    }
    push_mapping(v, "パ", Pron::Single("pa".to_owned()));
    proof {
        assert(katakana_table().take(109) =~= katakana_table().take(108).push(
            katakana_table()[108],
        ));
        assert(table_view(v@) =~= katakana_table().take(109));
    }
    proof {
        reveal_strlit("ピ");
    }
    push_mapping(v, "ピ", Pron::Single("pi".to_owned()));
    proof {
        assert(katakana_table().take(110) =~= katakana_table().take(109).push(
            katakana_table()[109],
        ));
        assert(table_view(v@) =~= katakana_table().take(110));
    }
    proof {
        reveal_strlit("プ");
    }
    push_mapping(v, "プ", Pron::Single("pu".to_owned()));
    proof {
        assert(katakana_table().take(111) =~= katakana_table().take(110).push(
            katakana_table()[110],
        ));
        assert(table_view(v@) =~= katakana_table().take(111));
    }
    proof {
        reveal_strlit("ペ");
    }
    push_mapping(v, "ペ", Pron::Single("pe".to_owned()));
    proof {
        assert(katakana_table().take(112) =~= katakana_table().take(111).push(
            katakana_table()[111],
        ));
        assert(table_view(v@) =~= katakana_table().take(112));
    }
}

fn table_rows_8(v: &mut Vec<KatakanaAlphabet>)
    requires
        map_wf(old(v)@),
        table_view(old(v)@) == katakana_table().take(112),
    ensures
        map_wf(final(v)@),
        table_view(final(v)@) == katakana_table().take(126),
{
    proof {
        reveal_strlit("ポ");
    }
    push_mapping(v, "ポ", Pron::Single("po".to_owned()));
    proof {
        assert(katakana_table().take(113) =~= katakana_table().take(112).push(
            katakana_table()[112],
        ));
        assert(table_view(v@) =~= katakana_table().take(113));
    }
    proof {
        reveal_strlit("ー");
    }
    push_mapping(v, "ー", Pron::Others("-".to_owned()));
    proof {
        assert(katakana_table().take(114) =~= katakana_table().take(113).push(
            katakana_table()[113],
        ));
        assert(table_view(v@) =~= katakana_table().take(114));
    }
    proof {
        reveal_strlit("ン");
    }
    push_mapping(v, "ン", Pron::Hatsuon("n".to_owned()));
    proof {
        assert(katakana_table().take(115) =~= katakana_table().take(114).push(
            katakana_table()[114],
        ));
        assert(table_view(v@) =~= katakana_table().take(115));
    }
    proof {
        reveal_strlit("ッ");
    }
    push_mapping(v, "ッ", Pron::Sokuon("xtu".to_owned()));
    proof {
        assert(katakana_table().take(116) =~= katakana_table().take(115).push(
            katakana_table()[115],
        ));
        assert(table_view(v@) =~= katakana_table().take(116));
    }
    proof {
        reveal_strlit("0");
    }
    push_mapping(v, "0", Pron::Others("0".to_owned()));
    proof {
        assert(katakana_table().take(117) =~= katakana_table().take(116).push(
            katakana_table()[116],
        ));
        assert(table_view(v@) =~= katakana_table().take(117));
    }
    proof {
        reveal_strlit("1");
    }
    push_mapping(v, "1", Pron::Others("1".to_owned()));
    proof {
        assert(katakana_table().take(118) =~= katakana_table().take(117).push(
            katakana_table()[117],
        ));
        assert(table_view(v@) =~= katakana_table().take(118));
    }
    proof {
        reveal_strlit("2");
    }
    push_mapping(v, "2", Pron::Others("2".to_owned()));
    proof {
        assert(katakana_table().take(119) =~= katakana_table().take(118).push(
            katakana_table()[118],
        ));
        assert(table_view(v@) =~= katakana_table().take(119));
    }
    proof {
        reveal_strlit("3");
    }
    push_mapping(v, "3", Pron::Others("3".to_owned()));
    proof {
        assert(katakana_table().take(120) =~= katakana_table().take(119).push(
            katakana_table()[119],
        ));
        assert(table_view(v@) =~= katakana_table().take(120));
    }
    proof {
        reveal_strlit("4");
    }
    push_mapping(v, "4", Pron::Others("4".to_owned()));
    proof {
        assert(katakana_table().take(121) =~= katakana_table().take(120).push(
            katakana_table()[120],
        ));
        assert(table_view(v@) =~= katakana_table().take(121));
    }
    proof {
        reveal_strlit("5");
    }
    push_mapping(v, "5", Pron::Others("5".to_owned()));
    proof {
        assert(katakana_table().take(122) =~= katakana_table().take(121).push(
            katakana_table()[121],
        ));
        assert(table_view(v@) =~= katakana_table().take(122));
    }
    proof {
        reveal_strlit("6");
    }
    push_mapping(v, "6", Pron::Others("6".to_owned()));
    proof {
        assert(katakana_table().take(123) =~= katakana_table().take(122).push(
            katakana_table()[122],
        ));
        assert(table_view(v@) =~= katakana_table().take(123));
    }
    proof {
        reveal_strlit("7");
    }
    push_mapping(v, "7", Pron::Others("7".to_owned()));
    proof {
        assert(katakana_table().take(124) =~= katakana_table().take(123).push(
            katakana_table()[123],
        ));
        assert(table_view(v@) =~= katakana_table().take(124));
    }
    proof {
        reveal_strlit("8");
    }
    push_mapping(v, "8", Pron::Others("8".to_owned()));
    proof {
        assert(katakana_table().take(125) =~= katakana_table().take(124).push(
            katakana_table()[124],
        ));
        assert(table_view(v@) =~= katakana_table().take(125));
    }
    proof {
        reveal_strlit("9");
    }
    push_mapping(v, "9", Pron::Others("9".to_owned()));
    proof {
        assert(katakana_table().take(126) =~= katakana_table().take(125).push(
            katakana_table()[125],
        ));
        assert(table_view(v@) =~= katakana_table().take(126));
    }
}

/// The first character of a string, when it has one.
pub fn first_char(t: &str) -> (r: Option<char>)
    ensures
        match r {
            Some(c) => t@.len() > 0 && c == t@[0],
            None => t@.len() == 0,
        },
{
    if t.unicode_len() == 0 {
        None
    } else {
        Some(t.get_char(0))
    }
}

/// A syllable with its leading consonant doubled, the rendering of a sokuon
/// before it; an empty syllable stays empty.
pub open spec fn sokuon_of(t: Seq<char>) -> Seq<char> {
    if t.len() == 0 {
        Seq::empty()
    } else {
        seq![t[0]] + t
    }
}

/// Double the leading character of a syllable.
pub fn alpha_to_sokuon(t: &str) -> (r: String)
    ensures
        r@ == sokuon_of(t@),
{
    match first_char(t) {
        None => String::new(),
        Some(c) => {
            let mut out: Vec<char> = Vec::new();
            out.push(c);
            let mut tc = string_to_chars(t);
            out.append(&mut tc);
            proof {
                assert(out@ =~= sokuon_of(t@));
            }
            string_from_chars(&out)
        },
    }
}

/// The first table row whose katakana key starts the text, or nothing when
/// no key matches.
pub fn read_katakana<'a>(map: &'a Vec<KatakanaAlphabet>, text: &str) -> (r: Option<
    &'a KatakanaAlphabet,
>)
    ensures
        match r {
            Some(ka) => exists|i: int|
                0 <= i < map@.len() && *ka == map@[i] && is_prefix(map@[i].katakana@, text@) && (
                forall|j: int| 0 <= j < i ==> !is_prefix(#[trigger] map@[j].katakana@, text@)),
            None => forall|i: int|
                0 <= i < map@.len() ==> !is_prefix(#[trigger] map@[i].katakana@, text@),
        },
{
    let mut i: usize = 0;
    while i < map.len()
        invariant
            i <= map@.len(),
            forall|j: int| 0 <= j < i ==> !is_prefix(#[trigger] map@[j].katakana@, text@),
        decreases map@.len() - i,
    {
        if str_starts_with(text, map[i].katakana.as_str()) {
            return Some(&map[i]);
        }
        i = i + 1;
    }
    None
}

pub uninterp spec fn is_alphanumeric_spec(c: char) -> bool;

/// Relies on `char::is_alphanumeric`: whether the character is alphabetic or
/// numeric in Unicode terms, a fixed property of the character.
#[verifier::external_body]
fn char_is_alphanumeric(c: char) -> (r: bool)
    ensures
        r == is_alphanumeric_spec(c),
{
    c.is_alphanumeric()
}

/// The first table row whose key starts the text.
pub open spec fn first_match(tbl: Seq<(Seq<char>, PronView)>, t: Seq<char>) -> Option<
    (Seq<char>, PronView),
>
    decreases tbl.len(),
{
    if tbl.len() == 0 {
        None
    } else if is_prefix(tbl[0].0, t) {
        Some(tbl[0])
    } else {
        first_match(tbl.drop_first(), t)
    }
}

proof fn lemma_first_match_at(m: Seq<KatakanaAlphabet>, t: Seq<char>, i: int)
    requires
        0 <= i < m.len(),
        is_prefix(m[i].katakana@, t),
        forall|j: int| 0 <= j < i ==> !is_prefix(#[trigger] m[j].katakana@, t),
    ensures
        first_match(table_view(m), t) == Some((m[i].katakana@, pron_view(m[i].alphabet))),
    decreases i,
{
    assert(table_view(m)[0] == (m[0].katakana@, pron_view(m[0].alphabet)));
    if i == 0 {
    } else {
        assert(!is_prefix(m[0].katakana@, t));
        let rest = m.drop_first();
        assert(rest[i - 1] == m[i]);
        assert forall|j: int| 0 <= j < i - 1 implies !is_prefix(
            #[trigger] rest[j].katakana@,
            t,
        ) by {
            assert(rest[j] == m[j + 1]);
        }
        lemma_first_match_at(rest, t, i - 1);
        assert(table_view(m).drop_first() =~= table_view(rest));
    }
}

proof fn lemma_first_match_none(m: Seq<KatakanaAlphabet>, t: Seq<char>)
    requires
        forall|i: int| 0 <= i < m.len() ==> !is_prefix(#[trigger] m[i].katakana@, t),
    ensures
        first_match(table_view(m), t) is None,
    decreases m.len(),
{
    if m.len() > 0 {
        assert(table_view(m)[0] == (m[0].katakana@, pron_view(m[0].alphabet)));
        assert(!is_prefix(m[0].katakana@, t));
        let rest = m.drop_first();
        assert forall|j: int| 0 <= j < rest.len() implies !is_prefix(
            #[trigger] rest[j].katakana@,
            t,
        ) by {
            assert(rest[j] == m[j + 1]);
        }
        lemma_first_match_none(rest, t);
        assert(table_view(m).drop_first() =~= table_view(rest));
    }
}

/// The tokenization of a text against a table: at each position the first
/// matching key is consumed and yields its row's unit; where nothing
/// matches, one character is consumed and yields itself when alphanumeric,
/// a dash otherwise. A matched key shorter than one character or longer
/// than the text (which a well-formed table never holds) counts as one
/// character, so every step makes progress.
pub open spec fn tokenize_spec(tbl: Seq<(Seq<char>, PronView)>, t: Seq<char>) -> Seq<PronView>
    decreases t.len(),
{
    if t.len() == 0 {
        Seq::empty()
    } else {
        match first_match(tbl, t) {
            Some(e) => {
                let k = if 1 <= e.0.len() <= t.len() {
                    e.0.len() as int
                } else {
                    1
                };
                seq![e.1] + tokenize_spec(tbl, t.skip(k))
            },
            None => {
                let p = if is_alphanumeric_spec(t[0]) {
                    PronView::Single(seq![t[0]])
                } else {
                    PronView::Others(seq!['-'])
                };
                seq![p] + tokenize_spec(tbl, t.skip(1))
            },
        }
    }
}

/// Cut a katakana text into transliterated units, exactly as
/// [`tokenize_spec`] reads it against the fixed table. Each step consumes at
/// least one character.
pub fn tokenize_katakana(text: &String) -> (r: Vec<Pron>)
    ensures
        pron_views(r@) == tokenize_spec(katakana_table(), text@),
        r@.len() <= text@.len(),
{
    let ghost tbl = katakana_table();
    let map = katakana_alphabet_map();
    let n = text.as_str().unicode_len();
    let mut out: Vec<Pron> = Vec::new();
    let mut i: usize = 0;
    proof {
        assert(text@.skip(0) =~= text@);
        assert(pron_views(out@) =~= Seq::<PronView>::empty());
        assert(pron_views(out@) + tokenize_spec(tbl, text@) =~= tokenize_spec(tbl, text@));
    }
    while i < n
        invariant
            i <= n,
            n == text@.len(),
            out@.len() <= i,
            map_wf(map@),
            table_view(map@) == katakana_table(),
            tbl == katakana_table(),
            pron_views(out@) + tokenize_spec(tbl, text@.skip(i as int)) == tokenize_spec(
                tbl,
                text@,
            ),
        decreases n - i,
    {
        let ghost prev = pron_views(out@);
        let rest = text.as_str().substring_char(i, n);
        match read_katakana(&map, rest) {
            Some(ka) => {
                let k = ka.katakana.as_str().unicode_len();
                proof {
                    let w = choose|w: int|
                        0 <= w < map@.len() && *ka == map@[w] && is_prefix(
                            map@[w].katakana@,
                            rest@,
                        ) && (forall|j: int|
                            0 <= j < w ==> !is_prefix(#[trigger] map@[j].katakana@, rest@));
                    assert(map@[w].katakana@.len() > 0);
                    assert(ka.katakana@.len() <= rest@.len());
                    lemma_first_match_at(map@, rest@, w);
                    assert(first_match(tbl, rest@) == Some(
                        (ka.katakana@, pron_view(ka.alphabet)),
                    ));
                }
                out.push(ka.alphabet.duplicate());
                i = i + k;
                proof {
                    assert(rest@.skip(k as int) =~= text@.skip(i as int));
                    assert(tokenize_spec(tbl, rest@) == seq![pron_view(ka.alphabet)]
                        + tokenize_spec(tbl, text@.skip(i as int)));
                    assert(pron_views(out@) =~= prev.push(pron_view(ka.alphabet)));
                    assert(pron_views(out@) + tokenize_spec(tbl, text@.skip(i as int))
                        =~= tokenize_spec(tbl, text@));
                }
            },
            None => {
                proof {
                    lemma_first_match_none(map@, rest@);
                }
                let c = match first_char(rest) {
                    Some(c) => c,
                    None => {
                        proof {
                            assert(false);
                        }
                        ' '
                    },
                };
                let ghost unit: PronView;
                if char_is_alphanumeric(c) {
                    let mut v: Vec<char> = Vec::new();
                    v.push(c);
                    out.push(Pron::Single(string_from_chars(&v)));
                    proof {
                        unit = PronView::Single(seq![c]);
                        assert(pron_views(out@) =~= prev.push(unit));
                    }
                } else {
                    proof {
                        reveal_strlit("-");
                    }
                    out.push(Pron::Others("-".to_owned()));
                    proof {
                        unit = PronView::Others(seq!['-']);
                        assert("-"@ =~= seq!['-']);
                        assert(pron_views(out@) =~= prev.push(unit));
                    }
                }
                i = i + 1;
                proof {
                    assert(rest@.skip(1) =~= text@.skip(i as int));
                    assert(rest@[0] == c);
                    assert(tokenize_spec(tbl, rest@) == seq![unit] + tokenize_spec(
                        tbl,
                        text@.skip(i as int),
                    ));
                    assert(pron_views(out@) + tokenize_spec(tbl, text@.skip(i as int))
                        =~= tokenize_spec(tbl, text@));
                }
            },
        }
    }
    proof {
        assert(text@.skip(n as int) =~= Seq::<char>::empty());
        assert(pron_views(out@) =~= tokenize_spec(tbl, text@));
    }
    out
}

/// The readings a unit sequence yields, given a possibly pending sokuon: a
/// sokuon is held back and doubles the consonant of the next plain syllable;
/// before a hatsuon it is written out as it is; a trailing sokuon is
/// dropped.
pub open spec fn yomis_spec(ps: Seq<PronView>, pending: Option<Seq<char>>) -> Seq<Seq<char>>
    decreases ps.len(),
{
    if ps.len() == 0 {
        Seq::empty()
    } else {
        let rest = ps.drop_first();
        match pending {
            None => match ps[0] {
                PronView::Single(s) => seq![s] + yomis_spec(rest, None),
                PronView::Others(s) => seq![s] + yomis_spec(rest, None),
                PronView::Hatsuon(s) => seq![s] + yomis_spec(rest, None),
                PronView::Sokuon(s) => yomis_spec(rest, Some(s)),
            },
            Some(s0) => match ps[0] {
                PronView::Single(s1) => seq![sokuon_of(s1)] + yomis_spec(rest, None),
                PronView::Others(s1) => seq![s1] + yomis_spec(rest, None),
                PronView::Sokuon(s) => yomis_spec(rest, Some(s)),
                PronView::Hatsuon(s1) => seq![s0, s1] + yomis_spec(rest, None),
            },
        }
    }
}

/// The view of a pending sokuon.
pub open spec fn opt_view(p: Option<String>) -> Option<Seq<char>> {
    match p {
        Some(s) => Some(s@),
        None => None,
    }
}

/// Resolve the unit sequence into readings, exactly as [`yomis_spec`] says.
pub fn katakana_yomis(pron: Vec<Pron>) -> (r: Vec<String>)
    ensures
        str_views(r@) == yomis_spec(pron_views(pron@), None),
{
    let mut out: Vec<String> = Vec::new();
    let mut pending: Option<String> = None;
    let n = pron.len();
    let mut i: usize = 0;
    proof {
        assert(pron@.skip(0) =~= pron@);
        assert(pron_views(pron@.skip(0)) =~= pron_views(pron@));
        assert(str_views(out@) =~= Seq::<Seq<char>>::empty());
    }
    while i < n
        invariant
            i <= n,
            n == pron@.len(),
            str_views(out@) + yomis_spec(pron_views(pron@.skip(i as int)), opt_view(pending))
                == yomis_spec(pron_views(pron@), None),
        decreases n - i,
    {
        let ghost rem = pron_views(pron@.skip(i as int));
        let ghost pv = opt_view(pending);
        proof {
            assert(pron@.skip(i as int)[0] == pron@[i as int]);
            assert(rem[0] == pron_view(pron@[i as int]));
            assert(rem.drop_first() =~= pron_views(pron@.skip(i + 1 as int)));
        }
        let p = &pron[i];
        let pend_now = match &pending {
            Some(s0) => Some(s0.clone()),
            None => None,
        };
        match pend_now {
            None => {
                match p {
                    Pron::Single(s) => {
                        out.push(s.clone());
                    },
                    Pron::Others(s) => {
                        out.push(s.clone());
                    },
                    Pron::Hatsuon(s) => {
                        out.push(s.clone());
                    },
                    Pron::Sokuon(s) => {
                        pending = Some(s.clone());
                    },
                }
            },
            Some(s0) => {
                match p {
                    Pron::Single(s1) => {
                        out.push(alpha_to_sokuon(s1.as_str()));
                        pending = None;
                    },
                    Pron::Others(s1) => {
                        out.push(s1.clone());
                        pending = None;
                    },
                    Pron::Sokuon(s) => {
                        pending = Some(s.clone());
                    },
                    Pron::Hatsuon(s1) => {
                        out.push(s0);
                        out.push(s1.clone());
                        pending = None;
                    },
                }
            },
        }
        proof {
            assert(str_views(out@) + yomis_spec(
                pron_views(pron@.skip(i + 1 as int)),
                opt_view(pending),
            ) =~= yomis_spec(pron_views(pron@), None));
        }
        i = i + 1;
    }
    proof {
        assert(pron@.skip(n as int) =~= Seq::<Pron>::empty());
        assert(pron_views(pron@.skip(n as int)) =~= Seq::<PronView>::empty());
        assert(str_views(out@) =~= yomis_spec(pron_views(pron@), None));
    }
    out
}

/// The concatenation of a sequence of readings.
pub open spec fn concat_views(ss: Seq<Seq<char>>) -> Seq<char>
    decreases ss.len(),
{
    if ss.len() == 0 {
        Seq::empty()
    } else {
        ss[0] + concat_views(ss.drop_first())
    }
}

pub proof fn lemma_concat_snoc(ss: Seq<Seq<char>>, x: Seq<char>)
    ensures
        concat_views(ss.push(x)) == concat_views(ss) + x,
    decreases ss.len(),
{
    if ss.len() == 0 {
        assert(ss.push(x)[0] == x);
        assert(ss.push(x).drop_first() =~= Seq::<Seq<char>>::empty());
        assert(concat_views(Seq::<Seq<char>>::empty()) == Seq::<char>::empty());
        assert(concat_views(ss) == Seq::<char>::empty());
        assert(concat_views(ss.push(x)) =~= concat_views(ss) + x);
    } else {
        lemma_concat_snoc(ss.drop_first(), x);
        assert(ss.push(x).drop_first() =~= ss.drop_first().push(x));
        assert(ss.push(x)[0] == ss[0]);
        assert(concat_views(ss.push(x)) =~= concat_views(ss) + x);
    }
}

/// Join readings into one string.
pub fn join_strings(v: &Vec<String>) -> (r: String)
    ensures
        r@ == concat_views(str_views(v@)),
{
    let mut r = String::new();
    let mut i: usize = 0;
    proof {
        assert(str_views(v@.take(0)) =~= Seq::<Seq<char>>::empty());
    }
    while i < v.len()
        invariant
            i <= v@.len(),
            r@ == concat_views(str_views(v@.take(i as int))),
        decreases v@.len() - i,
    {
        r.append(v[i].as_str());
        proof {
            lemma_concat_snoc(str_views(v@.take(i as int)), v@[i as int]@);
            assert(str_views(v@.take(i + 1 as int)) =~= str_views(v@.take(i as int)).push(
                v@[i as int]@,
            ));
        }
        i = i + 1;
    }
    proof {
        assert(v@.take(v@.len() as int) =~= v@);
    }
    r
}

/// Transliterate a katakana reading into plain ASCII: tokenize it against
/// the fixed table, resolve sokuon doubling, and join the readings — exactly
/// the composition of [`tokenize_spec`], [`yomis_spec`] and the
/// concatenation, so equal inputs always yield equal results. The
/// morphological step that produces the katakana from free text is the
/// surrounding process's work.
pub fn scrub(text: &String) -> (r: String)
    ensures
        r@ == concat_views(yomis_spec(tokenize_spec(katakana_table(), text@), None)),
{
    let katakanas = tokenize_katakana(text);
    let yomis = katakana_yomis(katakanas);
    join_strings(&yomis)
}

/// Length of the leading comma-free run of `s`.
pub open spec fn csv_prefix_len(s: Seq<char>) -> int
    decreases s.len(),
{
    if s.len() == 0 || s[0] == ',' {
        0
    } else {
        1 + csv_prefix_len(s.drop_first())
    }
}

pub proof fn lemma_csv_prefix_len_bounds(s: Seq<char>)
    ensures
        0 <= csv_prefix_len(s) <= s.len(),
    decreases s.len(),
{
    if s.len() > 0 && s[0] != ',' {
        lemma_csv_prefix_len_bounds(s.drop_first());
    }
}

pub proof fn lemma_csv_prefix_len_is(s: Seq<char>, n: int)
    requires
        0 <= n <= s.len(),
        forall|k: int| 0 <= k < n ==> s[k] != ',',
        n == s.len() || s[n] == ',',
    ensures
        csv_prefix_len(s) == n,
    decreases n,
{
    if n > 0 {
        lemma_csv_prefix_len_is(s.drop_first(), n - 1);
    }
}

/// The comma-separated fields of `s`, empty fields kept.
pub open spec fn csv_fields(s: Seq<char>) -> Seq<Seq<char>>
    decreases s.len(),
    via csv_fields_decreases
{
    let k = csv_prefix_len(s);
    if k == s.len() {
        seq![s]
    } else {
        seq![s.take(k)] + csv_fields(s.skip(k + 1))
    }
}

#[via_fn]
proof fn csv_fields_decreases(s: Seq<char>) {
    lemma_csv_prefix_len_bounds(s);
}

/// Split `v[i..]` at its commas, mirroring [`csv_fields`].
fn split_csv(v: &Vec<char>, i: usize) -> (r: Vec<Vec<char>>)
    requires
        i <= v@.len(),
    ensures
        seg_views(r@) == csv_fields(v@.skip(i as int)),
    decreases v@.len() - i,
{
    let ghost s = v@.skip(i as int);
    let mut j = i;
    while j < v.len() && v[j] != ','
        invariant
            i <= j <= v@.len(),
            forall|k: int| i <= k < j ==> v@[k] != ',',
        decreases v@.len() - j,
    {
        j = j + 1;
    }
    proof {
        lemma_csv_prefix_len_is(s, j - i as int);
    }
    let mut seg: Vec<char> = Vec::new();
    let mut k = i;
    while k < j
        invariant
            i <= k <= j <= v@.len(),
            seg@ == v@.subrange(i as int, k as int),
        decreases j - k,
    {
        seg.push(v[k]);
        k = k + 1;
        proof {
            assert(seg@ =~= v@.subrange(i as int, k as int));
        }
    }
    proof {
        assert(s.take(j - i as int) =~= v@.subrange(i as int, j as int));
    }
    if j == v.len() {
        let mut r: Vec<Vec<char>> = Vec::new();
        r.push(seg);
        proof {
            assert(s.take(j - i as int) =~= s);
            assert(seg_views(r@) =~= csv_fields(s));
        }
        r
    } else {
        let mut rest = split_csv(v, j + 1);
        let mut r: Vec<Vec<char>> = Vec::new();
        r.push(seg);
        r.append(&mut rest);
        proof {
            assert(s.skip((j - i as int) + 1) =~= v@.skip(j + 1 as int));
            assert(seg_views(r@) =~= csv_fields(s));
        }
        r
    }
}

/// The reading a morphological feature string carries: its seventh
/// comma-separated field, or the surface form when that field is missing or
/// empty.
pub open spec fn yomi_spec(feature: Seq<char>, surface: Seq<char>) -> Seq<char> {
    let parts = csv_fields(feature);
    if parts.len() <= 6 || parts[6].len() == 0 {
        surface
    } else {
        parts[6]
    }
}

/// Extract the reading of one analyzed token.
pub fn yomi_from_feature(feature: &str, surface: &str) -> (r: String)
    ensures
        r@ == yomi_spec(feature@, surface@),
{
    let chars = string_to_chars(feature);
    let parts = split_csv(&chars, 0);
    proof {
        assert(chars@.skip(0) =~= feature@);
    }
    if parts.len() <= 6 {
        surface.to_owned()
    } else {
        let p6 = &parts[6];
        if p6.len() == 0 {
            surface.to_owned()
        } else {
            string_from_chars(p6)
        }
    }
}

} // verus!
