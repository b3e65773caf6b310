//! OCR layout of the scanned pages and the per-page overrides that users
//! make to it.
use vstd::prelude::*;
use std::collections::BTreeMap;
use crate::geometry::{Linie, Rect};
use crate::DecodeError;

verus! {

/// Layout type of a page; each has its own columns. On the wire each is
/// written as a fixed token.
#[derive(Debug, Clone, Copy, PartialEq, Eq, Structural, PartialOrd, Hash)]
pub enum SeitenTyp {
    BestandsverzeichnisHorz,
    BestandsverzeichnisHorzZuUndAbschreibungen,
    BestandsverzeichnisVert,
    BestandsverzeichnisVertTyp2,
    BestandsverzeichnisVertZuUndAbschreibungen,
    BestandsverzeichnisVertZuUndAbschreibungenAlt,
    Abt1Horz,
    Abt1Vert,
    Abt1VertTyp2,
    Abt2HorzVeraenderungen,
    Abt2Horz,
    Abt2VertVeraenderungen,
    Abt2Vert,
    Abt2VertTyp2,
    Abt3HorzVeraenderungenLoeschungen,
    Abt3VertVeraenderungenLoeschungen,
    Abt3Horz,
    Abt3VertVeraenderungen,
    Abt3VertLoeschungen,
    Abt3Vert,
}

/// The wire token of each page type.
pub open spec fn token_of(t: SeitenTyp) -> &'static str {
    match t {
        SeitenTyp::BestandsverzeichnisHorz => "bv-horz",
        SeitenTyp::BestandsverzeichnisHorzZuUndAbschreibungen => "bv-horz-zu-und-abschreibungen",
        SeitenTyp::BestandsverzeichnisVert => "bv-vert",
        SeitenTyp::BestandsverzeichnisVertTyp2 => "bv-vert-typ2",
        SeitenTyp::BestandsverzeichnisVertZuUndAbschreibungen => "bv-vert-zu-und-abschreibungen",
        SeitenTyp::BestandsverzeichnisVertZuUndAbschreibungenAlt => "bv-vert-zu-und-abschreibungen-alt",
        SeitenTyp::Abt1Horz => "abt1-horz",
        SeitenTyp::Abt1Vert => "abt1-vert",
        SeitenTyp::Abt1VertTyp2 => "abt1-vert-typ2",
        SeitenTyp::Abt2HorzVeraenderungen => "abt2-horz-veraenderungen",
        SeitenTyp::Abt2Horz => "abt2-horz",
        SeitenTyp::Abt2VertVeraenderungen => "abt2-vert-veraenderungen",
        SeitenTyp::Abt2Vert => "abt2-vert",
        SeitenTyp::Abt2VertTyp2 => "abt2-vert-typ2",
        SeitenTyp::Abt3HorzVeraenderungenLoeschungen => "abt3-horz-veraenderungen-loeschungen",
        SeitenTyp::Abt3VertVeraenderungenLoeschungen => "abt3-vert-veraenderungen-loeschungen",
        SeitenTyp::Abt3Horz => "abt3-horz",
        SeitenTyp::Abt3VertVeraenderungen => "abt3-vert-veraenderungen",
        SeitenTyp::Abt3VertLoeschungen => "abt3-vert-loeschungen",
        SeitenTyp::Abt3Vert => "abt3-vert",
    }
}

/// No two page types share a token, so a token names its page type.
pub proof fn lemma_token_names_page_type(a: SeitenTyp, b: SeitenTyp)
    ensures
        token_of(a)@ == token_of(b)@ ==> a == b,
{
    reveal_strlit("bv-horz");
    reveal_strlit("bv-horz-zu-und-abschreibungen");
    reveal_strlit("bv-vert");
    reveal_strlit("bv-vert-typ2");
    reveal_strlit("bv-vert-zu-und-abschreibungen");
    reveal_strlit("bv-vert-zu-und-abschreibungen-alt");
    reveal_strlit("abt1-horz");
    reveal_strlit("abt1-vert");
    reveal_strlit("abt1-vert-typ2");
    reveal_strlit("abt2-horz-veraenderungen");
    reveal_strlit("abt2-horz");
    reveal_strlit("abt2-vert-veraenderungen");
    reveal_strlit("abt2-vert");
    reveal_strlit("abt2-vert-typ2");
    reveal_strlit("abt3-horz-veraenderungen-loeschungen");
    reveal_strlit("abt3-vert-veraenderungen-loeschungen");
    reveal_strlit("abt3-horz");
    reveal_strlit("abt3-vert-veraenderungen");
    reveal_strlit("abt3-vert-loeschungen");
    reveal_strlit("abt3-vert");
    if token_of(a)@ == token_of(b)@ {
        let (x, y) = (token_of(a)@, token_of(b)@);
        assert(x.len() == y.len());
        assert(x[3] == y[3] && x[5] == y[5]);
    }
}

/// Two strings with the same characters.
fn same_text(a: &str, b: &str) -> (r: bool)
    ensures
        r == (a@ == b@),
{
    String::from_str(a) == String::from_str(b)
}

impl SeitenTyp {
    /// Every page type, each once.
    pub fn all() -> (r: Vec<SeitenTyp>)
        ensures
            forall|t: SeitenTyp| #[trigger] r@.contains(t),
    {
        let r = vec![
            SeitenTyp::BestandsverzeichnisHorz,
            SeitenTyp::BestandsverzeichnisHorzZuUndAbschreibungen,
            SeitenTyp::BestandsverzeichnisVert,
            SeitenTyp::BestandsverzeichnisVertTyp2,
            SeitenTyp::BestandsverzeichnisVertZuUndAbschreibungen,
            SeitenTyp::BestandsverzeichnisVertZuUndAbschreibungenAlt,
            SeitenTyp::Abt1Horz,
            SeitenTyp::Abt1Vert,
            SeitenTyp::Abt1VertTyp2,
            SeitenTyp::Abt2HorzVeraenderungen,
            SeitenTyp::Abt2Horz,
            SeitenTyp::Abt2VertVeraenderungen,
            SeitenTyp::Abt2Vert,
            SeitenTyp::Abt2VertTyp2,
            SeitenTyp::Abt3HorzVeraenderungenLoeschungen,
            SeitenTyp::Abt3VertVeraenderungenLoeschungen,
            SeitenTyp::Abt3Horz,
            SeitenTyp::Abt3VertVeraenderungen,
            SeitenTyp::Abt3VertLoeschungen,
            SeitenTyp::Abt3Vert,
        ];
        assert forall|t: SeitenTyp| #[trigger] r@.contains(t) by {
            match t {
                SeitenTyp::BestandsverzeichnisHorz => assert(r@[0] == t),
                SeitenTyp::BestandsverzeichnisHorzZuUndAbschreibungen => assert(r@[1] == t),
                SeitenTyp::BestandsverzeichnisVert => assert(r@[2] == t),
                SeitenTyp::BestandsverzeichnisVertTyp2 => assert(r@[3] == t),
                SeitenTyp::BestandsverzeichnisVertZuUndAbschreibungen => assert(r@[4] == t),
                SeitenTyp::BestandsverzeichnisVertZuUndAbschreibungenAlt => assert(r@[5] == t),
                SeitenTyp::Abt1Horz => assert(r@[6] == t),
                SeitenTyp::Abt1Vert => assert(r@[7] == t),
                SeitenTyp::Abt1VertTyp2 => assert(r@[8] == t),
                SeitenTyp::Abt2HorzVeraenderungen => assert(r@[9] == t),
                SeitenTyp::Abt2Horz => assert(r@[10] == t),
                SeitenTyp::Abt2VertVeraenderungen => assert(r@[11] == t),
                SeitenTyp::Abt2Vert => assert(r@[12] == t),
                SeitenTyp::Abt2VertTyp2 => assert(r@[13] == t),
                SeitenTyp::Abt3HorzVeraenderungenLoeschungen => assert(r@[14] == t),
                SeitenTyp::Abt3VertVeraenderungenLoeschungen => assert(r@[15] == t),
                SeitenTyp::Abt3Horz => assert(r@[16] == t),
                SeitenTyp::Abt3VertVeraenderungen => assert(r@[17] == t),
                SeitenTyp::Abt3VertLoeschungen => assert(r@[18] == t),
                SeitenTyp::Abt3Vert => assert(r@[19] == t),
            }
        }
        r
    }

    /// The wire token of this page type.
    pub fn token(&self) -> (r: &'static str)
        ensures
            r == token_of(*self),
    {
        match self {
            SeitenTyp::BestandsverzeichnisHorz => "bv-horz",
            SeitenTyp::BestandsverzeichnisHorzZuUndAbschreibungen => "bv-horz-zu-und-abschreibungen",
            SeitenTyp::BestandsverzeichnisVert => "bv-vert",
            SeitenTyp::BestandsverzeichnisVertTyp2 => "bv-vert-typ2",
            SeitenTyp::BestandsverzeichnisVertZuUndAbschreibungen => "bv-vert-zu-und-abschreibungen",
            SeitenTyp::BestandsverzeichnisVertZuUndAbschreibungenAlt => "bv-vert-zu-und-abschreibungen-alt",
            SeitenTyp::Abt1Horz => "abt1-horz",
            SeitenTyp::Abt1Vert => "abt1-vert",
            SeitenTyp::Abt1VertTyp2 => "abt1-vert-typ2",
            SeitenTyp::Abt2HorzVeraenderungen => "abt2-horz-veraenderungen",
            SeitenTyp::Abt2Horz => "abt2-horz",
            SeitenTyp::Abt2VertVeraenderungen => "abt2-vert-veraenderungen",
            SeitenTyp::Abt2Vert => "abt2-vert",
            SeitenTyp::Abt2VertTyp2 => "abt2-vert-typ2",
            SeitenTyp::Abt3HorzVeraenderungenLoeschungen => "abt3-horz-veraenderungen-loeschungen",
            SeitenTyp::Abt3VertVeraenderungenLoeschungen => "abt3-vert-veraenderungen-loeschungen",
            SeitenTyp::Abt3Horz => "abt3-horz",
            SeitenTyp::Abt3VertVeraenderungen => "abt3-vert-veraenderungen",
            SeitenTyp::Abt3VertLoeschungen => "abt3-vert-loeschungen",
            SeitenTyp::Abt3Vert => "abt3-vert",
        }
    }

    /// The page type whose token is `s`; any other string is refused.
    pub fn from_token(s: &str) -> (r: Result<SeitenTyp, DecodeError>)
        ensures
            forall|t: SeitenTyp| #![trigger token_of(t)]
                r == Ok::<SeitenTyp, DecodeError>(t) <==> token_of(t)@ == s@,
            r is Err ==> r == Err::<SeitenTyp, DecodeError>(DecodeError::UnknownPageType),
    {
        let all = SeitenTyp::all();
        for i in 0..all.len()
            invariant
                forall|t: SeitenTyp| #[trigger] all@.contains(t),
                forall|k: int| 0 <= k < i ==> token_of(all@[k])@ != s@,
        {
            let t = all[i];
            if same_text(t.token(), s) {
                proof {
                    assert forall|u: SeitenTyp| #![trigger token_of(u)]
                        token_of(u)@ == s@ implies u == t by {
                        lemma_token_names_page_type(u, t);
                    }
                }
                return Ok(t);
            }
        }
        assert forall|t: SeitenTyp| #![trigger token_of(t)] token_of(t)@ != s@ by {
            assert(all@.contains(t));
        }
        Err(DecodeError::UnknownPageType)
    }
}

/// hOCR layout of all pages, keyed by page number in decimal.
#[derive(Debug, Clone, Default, PartialEq, Eq)]
pub struct HocrLayout {
    pub seiten: BTreeMap<String, HocrSeite>,
}

impl HocrLayout {
    /// No page is held: the layout is left out of an encoding.
    pub open spec fn is_empty_spec(&self) -> bool {
        self.seiten@.is_empty()
    }

    pub fn is_empty(&self) -> (r: bool)
        ensures
            r == self.is_empty_spec(),
    {
        self.seiten.is_empty()
    }
}

/// One page: its size in millimetres, the recognised text and the lines a
/// user drew on it.
#[derive(Debug, Clone, Default, PartialEq, Eq)]
pub struct HocrSeite {
    pub breite_mm: u32,
    pub hoehe_mm: u32,
    pub parsed: ParsedHocr,
    pub rote_linien: Vec<Linie>,
}

/// Recognised text of a page: image bounds and content areas, in pixels.
#[derive(Debug, Clone, Default, PartialEq, Eq)]
pub struct ParsedHocr {
    pub bounds: Rect,
    pub careas: Vec<HocrArea>,
}

/// A content area and its paragraphs.
#[derive(Debug, Clone, PartialEq, Eq)]
pub struct HocrArea {
    pub bounds: Rect,
    pub paragraphs: Vec<HocrParagraph>,
}

/// A paragraph and its lines.
#[derive(Debug, Clone, PartialEq, Eq)]
pub struct HocrParagraph {
    pub bounds: Rect,
    pub lines: Vec<HocrLine>,
}

/// A line and its words.
#[derive(Debug, Clone, PartialEq, Eq)]
pub struct HocrLine {
    pub bounds: Rect,
    pub words: Vec<HocrWord>,
}

/// A recognised word, with the confidence of its recognition.
#[derive(Debug, Clone, PartialEq, Eq)]
pub struct HocrWord {
    pub bounds: Rect,
    pub confidence: u32,
    pub text: String,
}

/// Overrides a user made to one page: its type, column bounds keyed by
/// column id, and row positions placed by hand and automatically.
#[derive(Debug, Clone, Default, PartialEq, Eq)]
pub struct AnpassungSeite {
    pub klassifikation_neu: Option<SeitenTyp>,
    pub spalten: BTreeMap<String, Rect>,
    pub zeilen: BTreeMap<String, u32>,
    pub zeilen_auto: BTreeMap<String, u32>,
}

} // verus!
