//! The exchange envelope: digitisation flag, OCR layout, page overrides and
//! the analysed register sheet, with the rule that decides which optional
//! parts a minimal encoding leaves out.
use vstd::prelude::*;
use std::collections::BTreeMap;
use crate::layout::{AnpassungSeite, HocrLayout};
use crate::register::{Grundbuch, Titelblatt};

verus! {

/// The unit exchanged between producer and consumer.
#[derive(Debug, Clone, PartialEq, Eq)]
pub struct PdfFile {
    /// The sheet was digitised from a scanned file.
    pub digitalisiert: bool,
    /// OCR layout of the scanned pages.
    pub hocr: HocrLayout,
    /// User overrides of the page layout, keyed by page number in decimal.
    pub anpassungen_seite: BTreeMap<String, AnpassungSeite>,
    /// The analysed register sheet.
    pub analysiert: Grundbuch,
}

/// Which optional parts of an envelope an encoding leaves out.
#[derive(Debug, Clone, Copy, PartialEq, Eq, Structural)]
pub struct Omitted {
    pub hocr: bool,
    pub anpassungen_seite: bool,
    pub bestandsverzeichnis: bool,
    pub abt1: bool,
    pub abt2: bool,
    pub abt3: bool,
}

impl Omitted {
    /// Every optional part is left out.
    pub open spec fn all(&self) -> bool {
        self.hocr && self.anpassungen_seite && self.bestandsverzeichnis && self.abt1 && self.abt2
            && self.abt3
    }
}

impl PdfFile {
    /// Layout, overrides and all four sections are empty.
    pub open spec fn is_minimal(&self) -> bool {
        &&& self.hocr.is_empty_spec()
        &&& self.anpassungen_seite@.is_empty()
        &&& self.analysiert.sections_empty()
    }

    /// Both envelopes hold the same values, part by part.
    pub open spec fn same_content(&self, o: &PdfFile) -> bool {
        &&& self.digitalisiert == o.digitalisiert
        &&& self.hocr.seiten@ == o.hocr.seiten@
        &&& self.anpassungen_seite@ == o.anpassungen_seite@
        &&& self.analysiert.titelblatt == o.analysiert.titelblatt
        &&& self.analysiert.bestandsverzeichnis.eintraege@
            == o.analysiert.bestandsverzeichnis.eintraege@
        &&& self.analysiert.bestandsverzeichnis.zuschreibungen@
            == o.analysiert.bestandsverzeichnis.zuschreibungen@
        &&& self.analysiert.bestandsverzeichnis.abschreibungen@
            == o.analysiert.bestandsverzeichnis.abschreibungen@
        &&& self.analysiert.abt1.eintraege@ == o.analysiert.abt1.eintraege@
        &&& self.analysiert.abt1.grundlagen_eintragungen@
            == o.analysiert.abt1.grundlagen_eintragungen@
        &&& self.analysiert.abt1.veraenderungen@ == o.analysiert.abt1.veraenderungen@
        &&& self.analysiert.abt1.loeschungen@ == o.analysiert.abt1.loeschungen@
        &&& self.analysiert.abt2.eintraege@ == o.analysiert.abt2.eintraege@
        &&& self.analysiert.abt2.veraenderungen@ == o.analysiert.abt2.veraenderungen@
        &&& self.analysiert.abt2.loeschungen@ == o.analysiert.abt2.loeschungen@
        &&& self.analysiert.abt3.eintraege@ == o.analysiert.abt3.eintraege@
        &&& self.analysiert.abt3.veraenderungen@ == o.analysiert.abt3.veraenderungen@
        &&& self.analysiert.abt3.loeschungen@ == o.analysiert.abt3.loeschungen@
    }

    /// An encoding leaves out the layout when it holds no page, the overrides
    /// when there are none, and each section whose lists are all empty.
    pub open spec fn omitted_spec(&self) -> Omitted {
        Omitted {
            hocr: self.hocr.is_empty_spec(),
            anpassungen_seite: self.anpassungen_seite@.is_empty(),
            bestandsverzeichnis: self.analysiert.bestandsverzeichnis.is_empty_spec(),
            abt1: self.analysiert.abt1.is_empty_spec(),
            abt2: self.analysiert.abt2.is_empty_spec(),
            abt3: self.analysiert.abt3.is_empty_spec(),
        }
    }

    /// The optional parts that an encoding leaves out (see `omitted_spec`).
    pub fn omitted(&self) -> (r: Omitted)
        ensures
            r == self.omitted_spec(),
    {
        Omitted {
            hocr: self.hocr.is_empty(),
            anpassungen_seite: self.anpassungen_seite.is_empty(),
            bestandsverzeichnis: self.analysiert.bestandsverzeichnis.is_empty(),
            abt1: self.analysiert.abt1.is_empty(),
            abt2: self.analysiert.abt2.is_empty(),
            abt3: self.analysiert.abt3.is_empty(),
        }
    }

    /// The envelope that decoding a minimal encoding gives: its flag and
    /// title block, every omitted part at its default.
    pub fn from_minimal(digitalisiert: bool, titelblatt: Titelblatt) -> (r: PdfFile)
        ensures
            r.digitalisiert == digitalisiert,
            r.analysiert.titelblatt == titelblatt,
            r.is_minimal(),
    {
        PdfFile {
            digitalisiert,
            hocr: HocrLayout { seiten: BTreeMap::new() },
            anpassungen_seite: BTreeMap::new(),
            analysiert: Grundbuch::new(titelblatt),
        }
    }
}

/// An envelope with empty layout, no overrides and four empty sections has
/// every optional part omitted, so that only its flag and title block are
/// encoded; and the envelope decoded from those two (any minimal envelope
/// with the same flag and title block) holds the same values as `f`.
pub proof fn lemma_minimal_round_trip(f: PdfFile, decoded: PdfFile)
    requires
        f.is_minimal(),
        decoded.is_minimal(),
        decoded.digitalisiert == f.digitalisiert,
        decoded.analysiert.titelblatt == f.analysiert.titelblatt,
    ensures
        f.omitted_spec().all(),
        f.same_content(&decoded),
{
    assert(f.hocr.seiten@ =~= decoded.hocr.seiten@);
    assert(f.anpassungen_seite@ =~= decoded.anpassungen_seite@);
    assert(f.analysiert.bestandsverzeichnis.eintraege@ =~= decoded.analysiert.bestandsverzeichnis.eintraege@);
    assert(f.analysiert.bestandsverzeichnis.zuschreibungen@ =~= decoded.analysiert.bestandsverzeichnis.zuschreibungen@);
    assert(f.analysiert.bestandsverzeichnis.abschreibungen@ =~= decoded.analysiert.bestandsverzeichnis.abschreibungen@);
    assert(f.analysiert.abt1.eintraege@ =~= decoded.analysiert.abt1.eintraege@);
    assert(f.analysiert.abt1.grundlagen_eintragungen@ =~= decoded.analysiert.abt1.grundlagen_eintragungen@);
    assert(f.analysiert.abt1.veraenderungen@ =~= decoded.analysiert.abt1.veraenderungen@);
    assert(f.analysiert.abt1.loeschungen@ =~= decoded.analysiert.abt1.loeschungen@);
    assert(f.analysiert.abt2.eintraege@ =~= decoded.analysiert.abt2.eintraege@);
    assert(f.analysiert.abt2.veraenderungen@ =~= decoded.analysiert.abt2.veraenderungen@);
    assert(f.analysiert.abt2.loeschungen@ =~= decoded.analysiert.abt2.loeschungen@);
    assert(f.analysiert.abt3.eintraege@ =~= decoded.analysiert.abt3.eintraege@);
    assert(f.analysiert.abt3.veraenderungen@ =~= decoded.analysiert.abt3.veraenderungen@);
    assert(f.analysiert.abt3.loeschungen@ =~= decoded.analysiert.abt3.loeschungen@);
}

} // verus!
