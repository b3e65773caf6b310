//! The analysed register sheet: title block and the four sections with
//! their entries, changes and deletions, each record with its redaction
//! status.
use vstd::prelude::*;
use crate::area::FlurstueckGroesse;
use crate::geometry::PositionInPdf;
use crate::text::StringOrLines;
use crate::DecodeError;

verus! {

/// Whether a record counts as struck through: the manual flag where it is
/// set, else the automatic flag where it is set, else not.
pub open spec fn redaction_status(manual: Option<bool>, automatic: Option<bool>) -> bool {
    match manual {
        Some(m) => m,
        None => match automatic {
            Some(a) => a,
            None => false,
        },
    }
}

/// The manual flag wins whenever it is set, also against the automatic one.
pub proof fn lemma_redaction_precedence(manual: Option<bool>, automatic: Option<bool>)
    ensures
        manual matches Some(m) ==> redaction_status(manual, automatic) == m,
        manual is None ==> (automatic matches Some(a) ==> redaction_status(manual, automatic) == a),
        manual is None && automatic is None ==> !redaction_status(manual, automatic),
{
}

/// The redaction status of a record with these two flags.
pub fn effective_redaction(manual: Option<bool>, automatic: Option<bool>) -> (r: bool)
    ensures
        r == redaction_status(manual, automatic),
{
    match manual {
        Some(m) => m,
        None => match automatic {
            Some(a) => a,
            None => false,
        },
    }
}

/// Title block: court, register name and sheet number, which together
/// identify one register sheet.
#[derive(Debug, Default, Clone, PartialEq, Eq, PartialOrd, Ord, Hash)]
pub struct Titelblatt {
    pub amtsgericht: String,
    pub grundbuch_von: String,
    pub blatt: String,
}

/// The analysed register sheet: title block and four sections.
#[derive(Debug, Clone, PartialEq, Eq)]
pub struct Grundbuch {
    pub titelblatt: Titelblatt,
    pub bestandsverzeichnis: Bestandsverzeichnis,
    pub abt1: Abteilung1,
    pub abt2: Abteilung2,
    pub abt3: Abteilung3,
}

impl Grundbuch {
    /// All four sections are empty.
    pub open spec fn sections_empty(&self) -> bool {
        self.bestandsverzeichnis.is_empty_spec() && self.abt1.is_empty_spec()
            && self.abt2.is_empty_spec() && self.abt3.is_empty_spec()
    }

    /// A sheet with this title block and four empty sections.
    pub fn new(titelblatt: Titelblatt) -> (r: Grundbuch)
        ensures
            r.titelblatt == titelblatt,
            r.sections_empty(),
    {
        Grundbuch {
            titelblatt,
            bestandsverzeichnis: Bestandsverzeichnis {
                eintraege: Vec::new(),
                zuschreibungen: Vec::new(),
                abschreibungen: Vec::new(),
            },
            abt1: Abteilung1 {
                eintraege: Vec::new(),
                grundlagen_eintragungen: Vec::new(),
                veraenderungen: Vec::new(),
                loeschungen: Vec::new(),
            },
            abt2: Abteilung2 {
                eintraege: Vec::new(),
                veraenderungen: Vec::new(),
                loeschungen: Vec::new(),
            },
            abt3: Abteilung3 {
                eintraege: Vec::new(),
                veraenderungen: Vec::new(),
                loeschungen: Vec::new(),
            },
        }
    }
}

/// Property index: its entries, additions and write-offs.
#[derive(Debug, Default, Clone, PartialEq, Eq)]
pub struct Bestandsverzeichnis {
    pub eintraege: Vec<BvEintrag>,
    pub zuschreibungen: Vec<BvZuschreibung>,
    pub abschreibungen: Vec<BvAbschreibung>,
}

impl Bestandsverzeichnis {
    /// All lists are empty: the section is left out of an encoding.
    pub open spec fn is_empty_spec(&self) -> bool {
        self.eintraege@.len() == 0 && self.zuschreibungen@.len() == 0
            && self.abschreibungen@.len() == 0
    }

    pub fn is_empty(&self) -> (r: bool)
        ensures
            r == self.is_empty_spec(),
    {
        self.eintraege.len() == 0 && self.zuschreibungen.len() == 0
            && self.abschreibungen.len() == 0
    }
}

/// Entry of the property index: a parcel, or a right that counts as land.
#[derive(Debug, Clone, PartialEq, Eq)]
pub enum BvEintrag {
    Flurstueck(BvEintragFlurstueck),
    Recht(BvEintragRecht),
}

impl BvEintrag {
    pub fn ist_geroetet(&self) -> (r: bool)
        ensures
            r == match self {
                BvEintrag::Flurstueck(f) => redaction_status(f.manuell_geroetet, f.automatisch_geroetet),
                BvEintrag::Recht(e) => redaction_status(e.manuell_geroetet, e.automatisch_geroetet),
            },
    {
        match self {
            BvEintrag::Flurstueck(f) => effective_redaction(f.manuell_geroetet, f.automatisch_geroetet),
            BvEintrag::Recht(e) => effective_redaction(e.manuell_geroetet, e.automatisch_geroetet),
        }
    }
}

/// The fields that a property-index payload carries, before its shape is
/// decided; absent text fields hold the empty text, an absent size the
/// empty size.
#[derive(Debug, Clone, PartialEq, Eq)]
pub struct BvEintragFelder {
    pub lfd_nr: Option<usize>,
    pub bisherige_lfd_nr: Option<usize>,
    pub flur: Option<usize>,
    pub flurstueck: String,
    pub gemarkung: Option<String>,
    pub bezeichnung: Option<StringOrLines>,
    pub groesse: FlurstueckGroesse,
    pub zu_nr: StringOrLines,
    pub text: StringOrLines,
    pub automatisch_geroetet: Option<bool>,
    pub manuell_geroetet: Option<bool>,
    pub position_in_pdf: Option<PositionInPdf>,
}

impl BvEintrag {
    /// The shape of a payload: a parcel is tried first and fits any payload
    /// with a district number; a right fits the rest. Both need a running
    /// number.
    pub open spec fn decode_spec(f: BvEintragFelder) -> Result<BvEintrag, DecodeError> {
        if f.lfd_nr is None {
            Err(DecodeError::MissingRunningNumber)
        } else if f.flur is Some {
            Ok(
                BvEintrag::Flurstueck(
                    BvEintragFlurstueck {
                        lfd_nr: f.lfd_nr->0,
                        bisherige_lfd_nr: f.bisherige_lfd_nr,
                        flur: f.flur->0,
                        flurstueck: f.flurstueck,
                        gemarkung: f.gemarkung,
                        bezeichnung: f.bezeichnung,
                        groesse: f.groesse,
                        automatisch_geroetet: f.automatisch_geroetet,
                        manuell_geroetet: f.manuell_geroetet,
                        position_in_pdf: f.position_in_pdf,
                    },
                ),
            )
        } else {
            Ok(
                BvEintrag::Recht(
                    BvEintragRecht {
                        lfd_nr: f.lfd_nr->0,
                        zu_nr: f.zu_nr,
                        bisherige_lfd_nr: f.bisherige_lfd_nr,
                        text: f.text,
                        automatisch_geroetet: f.automatisch_geroetet,
                        manuell_geroetet: f.manuell_geroetet,
                        position_in_pdf: f.position_in_pdf,
                    },
                ),
            )
        }
    }

    /// Decides the shape of a payload (see `decode_spec`).
    pub fn from_felder(f: BvEintragFelder) -> (r: Result<BvEintrag, DecodeError>)
        ensures
            r == Self::decode_spec(f),
    {
        match f.lfd_nr {
            None => Err(DecodeError::MissingRunningNumber),
            Some(lfd_nr) => match f.flur {
                Some(flur) => Ok(
                    BvEintrag::Flurstueck(
                        BvEintragFlurstueck {
                            lfd_nr,
                            bisherige_lfd_nr: f.bisherige_lfd_nr,
                            flur,
                            flurstueck: f.flurstueck,
                            gemarkung: f.gemarkung,
                            bezeichnung: f.bezeichnung,
                            groesse: f.groesse,
                            automatisch_geroetet: f.automatisch_geroetet,
                            manuell_geroetet: f.manuell_geroetet,
                            position_in_pdf: f.position_in_pdf,
                        },
                    ),
                ),
                None => Ok(
                    BvEintrag::Recht(
                        BvEintragRecht {
                            lfd_nr,
                            zu_nr: f.zu_nr,
                            bisherige_lfd_nr: f.bisherige_lfd_nr,
                            text: f.text,
                            automatisch_geroetet: f.automatisch_geroetet,
                            manuell_geroetet: f.manuell_geroetet,
                            position_in_pdf: f.position_in_pdf,
                        },
                    ),
                ),
            },
        }
    }

    /// The payload of an entry: a district number exactly for a parcel, so
    /// that decoding gives the entry back.
    pub fn into_felder(self) -> (r: BvEintragFelder)
        ensures
            r.flur is Some <==> self is Flurstueck,
            Self::decode_spec(r) == Ok::<BvEintrag, DecodeError>(self),
    {
        match self {
            BvEintrag::Flurstueck(e) => BvEintragFelder {
                lfd_nr: Some(e.lfd_nr),
                bisherige_lfd_nr: e.bisherige_lfd_nr,
                flur: Some(e.flur),
                flurstueck: e.flurstueck,
                gemarkung: e.gemarkung,
                bezeichnung: e.bezeichnung,
                groesse: e.groesse,
                zu_nr: StringOrLines::default(),
                text: StringOrLines::default(),
                automatisch_geroetet: e.automatisch_geroetet,
                manuell_geroetet: e.manuell_geroetet,
                position_in_pdf: e.position_in_pdf,
            },
            BvEintrag::Recht(e) => BvEintragFelder {
                lfd_nr: Some(e.lfd_nr),
                bisherige_lfd_nr: e.bisherige_lfd_nr,
                flur: None,
                flurstueck: String::new(),
                gemarkung: None,
                bezeichnung: None,
                groesse: FlurstueckGroesse::default(),
                zu_nr: e.zu_nr,
                text: e.text,
                automatisch_geroetet: e.automatisch_geroetet,
                manuell_geroetet: e.manuell_geroetet,
                position_in_pdf: e.position_in_pdf,
            },
        }
    }
}

/// Entry for a right that counts as land.
#[derive(Debug, Clone, PartialEq, Eq)]
pub struct BvEintragRecht {
    pub lfd_nr: usize,
    pub zu_nr: StringOrLines,
    pub bisherige_lfd_nr: Option<usize>,
    pub text: StringOrLines,
    pub automatisch_geroetet: Option<bool>,
    pub manuell_geroetet: Option<bool>,
    pub position_in_pdf: Option<PositionInPdf>,
}

/// Entry for a cadastral parcel.
#[derive(Debug, Clone, PartialEq, Eq)]
pub struct BvEintragFlurstueck {
    pub lfd_nr: usize,
    pub bisherige_lfd_nr: Option<usize>,
    pub flur: usize,
    pub flurstueck: String,
    pub gemarkung: Option<String>,
    pub bezeichnung: Option<StringOrLines>,
    pub groesse: FlurstueckGroesse,
    pub automatisch_geroetet: Option<bool>,
    pub manuell_geroetet: Option<bool>,
    pub position_in_pdf: Option<PositionInPdf>,
}

/// Addition to the property index.
#[derive(Debug, Default, Clone, PartialEq, Eq)]
pub struct BvZuschreibung {
    pub bv_nr: StringOrLines,
    pub text: StringOrLines,
    pub automatisch_geroetet: Option<bool>,
    pub manuell_geroetet: Option<bool>,
    pub position_in_pdf: Option<PositionInPdf>,
}

impl BvZuschreibung {
    pub fn ist_geroetet(&self) -> (r: bool)
        ensures
            r == redaction_status(self.manuell_geroetet, self.automatisch_geroetet),
    {
        effective_redaction(self.manuell_geroetet, self.automatisch_geroetet)
    }

    /// Neither the entry numbers nor the text hold anything.
    pub fn ist_leer(&self) -> (r: bool)
        ensures
            r == (self.bv_nr.is_empty_spec() && self.text.is_empty_spec()),
    {
        self.bv_nr.is_empty() && self.text.is_empty()
    }
}

/// Write-off from the property index.
#[derive(Debug, Default, Clone, PartialEq, Eq)]
pub struct BvAbschreibung {
    pub bv_nr: StringOrLines,
    pub text: StringOrLines,
    pub automatisch_geroetet: Option<bool>,
    pub manuell_geroetet: Option<bool>,
    pub position_in_pdf: Option<PositionInPdf>,
}

impl BvAbschreibung {
    pub fn ist_geroetet(&self) -> (r: bool)
        ensures
            r == redaction_status(self.manuell_geroetet, self.automatisch_geroetet),
    {
        effective_redaction(self.manuell_geroetet, self.automatisch_geroetet)
    }

    /// Neither the entry numbers nor the text hold anything.
    pub fn ist_leer(&self) -> (r: bool)
        ensures
            r == (self.bv_nr.is_empty_spec() && self.text.is_empty_spec()),
    {
        self.bv_nr.is_empty() && self.text.is_empty()
    }
}

/// Section one (owners): entries, grounds of entry, changes and deletions.
#[derive(Debug, Default, Clone, PartialEq, Eq)]
pub struct Abteilung1 {
    pub eintraege: Vec<Abt1Eintrag>,
    pub grundlagen_eintragungen: Vec<Abt1GrundEintragung>,
    pub veraenderungen: Vec<Abt1Veraenderung>,
    pub loeschungen: Vec<Abt1Loeschung>,
}

impl Abteilung1 {
    /// All lists are empty: the section is left out of an encoding.
    pub open spec fn is_empty_spec(&self) -> bool {
        self.eintraege@.len() == 0 && self.grundlagen_eintragungen@.len() == 0
            && self.veraenderungen@.len() == 0 && self.loeschungen@.len() == 0
    }

    pub fn is_empty(&self) -> (r: bool)
        ensures
            r == self.is_empty_spec(),
    {
        self.eintraege.len() == 0 && self.grundlagen_eintragungen.len() == 0
            && self.veraenderungen.len() == 0 && self.loeschungen.len() == 0
    }
}

/// Owner entry in either of its two shapes.
#[derive(Debug, Clone, PartialEq, Eq)]
pub enum Abt1Eintrag {
    V1(Abt1EintragV1),
    V2(Abt1EintragV2),
}

/// The fields that an owner-entry payload carries, before its shape is
/// decided; absent text fields hold the empty text.
#[derive(Debug, Clone, PartialEq, Eq)]
pub struct Abt1EintragFelder {
    pub lfd_nr: Option<usize>,
    pub version: Option<usize>,
    pub eigentuemer: StringOrLines,
    pub bv_nr: StringOrLines,
    pub grundlage_der_eintragung: StringOrLines,
    pub automatisch_geroetet: Option<bool>,
    pub manuell_geroetet: Option<bool>,
    pub position_in_pdf: Option<PositionInPdf>,
}

impl Abt1Eintrag {
    /// The shape of a payload: the older one is tried first and fits any
    /// payload without a version field; the newer one fits the rest. Both
    /// need a running number.
    pub open spec fn decode_spec(f: Abt1EintragFelder) -> Result<Abt1Eintrag, DecodeError> {
        if f.lfd_nr is None {
            Err(DecodeError::MissingRunningNumber)
        } else if f.version is None {
            Ok(
                Abt1Eintrag::V1(
                    Abt1EintragV1 {
                        lfd_nr: f.lfd_nr->0,
                        eigentuemer: f.eigentuemer,
                        bv_nr: f.bv_nr,
                        grundlage_der_eintragung: f.grundlage_der_eintragung,
                        automatisch_geroetet: f.automatisch_geroetet,
                        manuell_geroetet: f.manuell_geroetet,
                        position_in_pdf: f.position_in_pdf,
                    },
                ),
            )
        } else {
            Ok(
                Abt1Eintrag::V2(
                    Abt1EintragV2 {
                        lfd_nr: f.lfd_nr->0,
                        eigentuemer: f.eigentuemer,
                        version: f.version->0,
                        automatisch_geroetet: f.automatisch_geroetet,
                        manuell_geroetet: f.manuell_geroetet,
                        position_in_pdf: f.position_in_pdf,
                    },
                ),
            )
        }
    }

    /// Decides the shape of a payload (see `decode_spec`).
    pub fn from_felder(f: Abt1EintragFelder) -> (r: Result<Abt1Eintrag, DecodeError>)
        ensures
            r == Self::decode_spec(f),
    {
        match f.lfd_nr {
            None => Err(DecodeError::MissingRunningNumber),
            Some(lfd_nr) => match f.version {
                None => Ok(
                    Abt1Eintrag::V1(
                        Abt1EintragV1 {
                            lfd_nr,
                            eigentuemer: f.eigentuemer,
                            bv_nr: f.bv_nr,
                            grundlage_der_eintragung: f.grundlage_der_eintragung,
                            automatisch_geroetet: f.automatisch_geroetet,
                            manuell_geroetet: f.manuell_geroetet,
                            position_in_pdf: f.position_in_pdf,
                        },
                    ),
                ),
                Some(version) => Ok(
                    Abt1Eintrag::V2(
                        Abt1EintragV2 {
                            lfd_nr,
                            eigentuemer: f.eigentuemer,
                            version,
                            automatisch_geroetet: f.automatisch_geroetet,
                            manuell_geroetet: f.manuell_geroetet,
                            position_in_pdf: f.position_in_pdf,
                        },
                    ),
                ),
            },
        }
    }

    /// The payload of an entry: a version field exactly for the newer shape,
    /// so that decoding gives the entry back.
    pub fn into_felder(self) -> (r: Abt1EintragFelder)
        ensures
            r.version is None <==> self is V1,
            Self::decode_spec(r) == Ok::<Abt1Eintrag, DecodeError>(self),
    {
        match self {
            Abt1Eintrag::V1(e) => Abt1EintragFelder {
                lfd_nr: Some(e.lfd_nr),
                version: None,
                eigentuemer: e.eigentuemer,
                bv_nr: e.bv_nr,
                grundlage_der_eintragung: e.grundlage_der_eintragung,
                automatisch_geroetet: e.automatisch_geroetet,
                manuell_geroetet: e.manuell_geroetet,
                position_in_pdf: e.position_in_pdf,
            },
            Abt1Eintrag::V2(e) => Abt1EintragFelder {
                lfd_nr: Some(e.lfd_nr),
                version: Some(e.version),
                eigentuemer: e.eigentuemer,
                bv_nr: StringOrLines::default(),
                grundlage_der_eintragung: StringOrLines::default(),
                automatisch_geroetet: e.automatisch_geroetet,
                manuell_geroetet: e.manuell_geroetet,
                position_in_pdf: e.position_in_pdf,
            },
        }
    }

    pub fn get_lfd_nr(&self) -> (r: usize)
        ensures
            r == match self {
                Abt1Eintrag::V1(e) => e.lfd_nr,
                Abt1Eintrag::V2(e) => e.lfd_nr,
            },
    {
        match self {
            Abt1Eintrag::V1(e) => e.lfd_nr,
            Abt1Eintrag::V2(e) => e.lfd_nr,
        }
    }

    /// The owner text, its lines joined by CRLF.
    pub fn get_eigentuemer(&self) -> (r: String)
        ensures
            r@ == match self {
                Abt1Eintrag::V1(e) => e.eigentuemer.text_spec(),
                Abt1Eintrag::V2(e) => e.eigentuemer.text_spec(),
            },
    {
        match self {
            Abt1Eintrag::V1(e) => e.eigentuemer.text(),
            Abt1Eintrag::V2(e) => e.eigentuemer.text(),
        }
    }

    pub fn ist_geroetet(&self) -> (r: bool)
        ensures
            r == match self {
                Abt1Eintrag::V1(e) => redaction_status(e.manuell_geroetet, e.automatisch_geroetet),
                Abt1Eintrag::V2(e) => redaction_status(e.manuell_geroetet, e.automatisch_geroetet),
            },
    {
        match self {
            Abt1Eintrag::V1(e) => e.ist_geroetet(),
            Abt1Eintrag::V2(e) => e.ist_geroetet(),
        }
    }
}

/// A payload without a version field decodes to the older shape, one with a
/// version field to the newer shape, and one without a running number to an
/// error.
pub proof fn lemma_variant_resolution(f: Abt1EintragFelder)
    ensures
        f.lfd_nr is Some && f.version is None ==> (Abt1Eintrag::decode_spec(f) matches Ok(
            Abt1Eintrag::V1(e),
        ) && e.lfd_nr == f.lfd_nr->0),
        f.lfd_nr is Some && f.version is Some ==> (Abt1Eintrag::decode_spec(f) matches Ok(
            Abt1Eintrag::V2(e),
        ) && e.lfd_nr == f.lfd_nr->0 && e.version == f.version->0),
        f.lfd_nr is None ==> Abt1Eintrag::decode_spec(f) == Err::<Abt1Eintrag, DecodeError>(
            DecodeError::MissingRunningNumber,
        ),
{
}

/// Owner entry in the older shape, without a version field.
#[derive(Debug, Clone, PartialEq, Eq)]
pub struct Abt1EintragV1 {
    pub lfd_nr: usize,
    pub eigentuemer: StringOrLines,
    pub bv_nr: StringOrLines,
    pub grundlage_der_eintragung: StringOrLines,
    pub automatisch_geroetet: Option<bool>,
    pub manuell_geroetet: Option<bool>,
    pub position_in_pdf: Option<PositionInPdf>,
}

impl Abt1EintragV1 {
    pub fn ist_geroetet(&self) -> (r: bool)
        ensures
            r == redaction_status(self.manuell_geroetet, self.automatisch_geroetet),
    {
        effective_redaction(self.manuell_geroetet, self.automatisch_geroetet)
    }
}

/// Owner entry in the newer shape, which carries a version field.
#[derive(Debug, Clone, PartialEq, Eq)]
pub struct Abt1EintragV2 {
    pub lfd_nr: usize,
    pub eigentuemer: StringOrLines,
    pub version: usize,
    pub automatisch_geroetet: Option<bool>,
    pub manuell_geroetet: Option<bool>,
    pub position_in_pdf: Option<PositionInPdf>,
}

impl Abt1EintragV2 {
    pub fn ist_geroetet(&self) -> (r: bool)
        ensures
            r == redaction_status(self.manuell_geroetet, self.automatisch_geroetet),
    {
        effective_redaction(self.manuell_geroetet, self.automatisch_geroetet)
    }
}

/// Ground on which an owner was entered.
#[derive(Debug, Default, Clone, PartialEq, Eq)]
pub struct Abt1GrundEintragung {
    pub bv_nr: StringOrLines,
    pub text: StringOrLines,
    pub automatisch_geroetet: Option<bool>,
    pub manuell_geroetet: Option<bool>,
    pub position_in_pdf: Option<PositionInPdf>,
}

impl Abt1GrundEintragung {
    pub fn ist_geroetet(&self) -> (r: bool)
        ensures
            r == redaction_status(self.manuell_geroetet, self.automatisch_geroetet),
    {
        effective_redaction(self.manuell_geroetet, self.automatisch_geroetet)
    }
}

/// Change in section one.
#[derive(Debug, Default, Clone, PartialEq, Eq)]
pub struct Abt1Veraenderung {
    pub lfd_nr: StringOrLines,
    pub text: StringOrLines,
    pub automatisch_geroetet: Option<bool>,
    pub manuell_geroetet: Option<bool>,
    pub position_in_pdf: Option<PositionInPdf>,
}

impl Abt1Veraenderung {
    pub fn ist_geroetet(&self) -> (r: bool)
        ensures
            r == redaction_status(self.manuell_geroetet, self.automatisch_geroetet),
    {
        effective_redaction(self.manuell_geroetet, self.automatisch_geroetet)
    }
}

/// Deletion in section one.
#[derive(Debug, Default, Clone, PartialEq, Eq)]
pub struct Abt1Loeschung {
    pub lfd_nr: StringOrLines,
    pub text: StringOrLines,
    pub automatisch_geroetet: Option<bool>,
    pub manuell_geroetet: Option<bool>,
    pub position_in_pdf: Option<PositionInPdf>,
}

impl Abt1Loeschung {
    pub fn ist_geroetet(&self) -> (r: bool)
        ensures
            r == redaction_status(self.manuell_geroetet, self.automatisch_geroetet),
    {
        effective_redaction(self.manuell_geroetet, self.automatisch_geroetet)
    }
}

/// Section two (rights): entries, changes and deletions.
#[derive(Debug, Default, Clone, PartialEq, Eq)]
pub struct Abteilung2 {
    pub eintraege: Vec<Abt2Eintrag>,
    pub veraenderungen: Vec<Abt2Veraenderung>,
    pub loeschungen: Vec<Abt2Loeschung>,
}

impl Abteilung2 {
    /// All lists are empty: the section is left out of an encoding.
    pub open spec fn is_empty_spec(&self) -> bool {
        self.eintraege@.len() == 0 && self.veraenderungen@.len() == 0
            && self.loeschungen@.len() == 0
    }

    pub fn is_empty(&self) -> (r: bool)
        ensures
            r == self.is_empty_spec(),
    {
        self.eintraege.len() == 0 && self.veraenderungen.len() == 0 && self.loeschungen.len() == 0
    }
}

/// Entry in section two.
#[derive(Debug, Clone, PartialEq, Eq)]
pub struct Abt2Eintrag {
    pub lfd_nr: usize,
    pub bv_nr: StringOrLines,
    pub text: StringOrLines,
    pub automatisch_geroetet: Option<bool>,
    pub manuell_geroetet: Option<bool>,
    pub position_in_pdf: Option<PositionInPdf>,
}

impl Abt2Eintrag {
    pub fn ist_geroetet(&self) -> (r: bool)
        ensures
            r == redaction_status(self.manuell_geroetet, self.automatisch_geroetet),
    {
        effective_redaction(self.manuell_geroetet, self.automatisch_geroetet)
    }
}

/// Change in section two.
#[derive(Debug, Default, Clone, PartialEq, Eq)]
pub struct Abt2Veraenderung {
    pub lfd_nr: StringOrLines,
    pub text: StringOrLines,
    pub automatisch_geroetet: Option<bool>,
    pub manuell_geroetet: Option<bool>,
    pub position_in_pdf: Option<PositionInPdf>,
}

impl Abt2Veraenderung {
    pub fn ist_geroetet(&self) -> (r: bool)
        ensures
            r == redaction_status(self.manuell_geroetet, self.automatisch_geroetet),
    {
        effective_redaction(self.manuell_geroetet, self.automatisch_geroetet)
    }
}

/// Deletion in section two.
#[derive(Debug, Default, Clone, PartialEq, Eq)]
pub struct Abt2Loeschung {
    pub lfd_nr: StringOrLines,
    pub text: StringOrLines,
    pub automatisch_geroetet: Option<bool>,
    pub manuell_geroetet: Option<bool>,
    pub position_in_pdf: Option<PositionInPdf>,
}

impl Abt2Loeschung {
    pub fn ist_geroetet(&self) -> (r: bool)
        ensures
            r == redaction_status(self.manuell_geroetet, self.automatisch_geroetet),
    {
        effective_redaction(self.manuell_geroetet, self.automatisch_geroetet)
    }
}

/// Section three (charges): entries, changes and deletions.
#[derive(Debug, Default, Clone, PartialEq, Eq)]
pub struct Abteilung3 {
    pub eintraege: Vec<Abt3Eintrag>,
    pub veraenderungen: Vec<Abt3Veraenderung>,
    pub loeschungen: Vec<Abt3Loeschung>,
}

impl Abteilung3 {
    /// All lists are empty: the section is left out of an encoding.
    pub open spec fn is_empty_spec(&self) -> bool {
        self.eintraege@.len() == 0 && self.veraenderungen@.len() == 0
            && self.loeschungen@.len() == 0
    }

    pub fn is_empty(&self) -> (r: bool)
        ensures
            r == self.is_empty_spec(),
    {
        self.eintraege.len() == 0 && self.veraenderungen.len() == 0 && self.loeschungen.len() == 0
    }
}

/// Entry in section three.
#[derive(Debug, Clone, PartialEq, Eq)]
pub struct Abt3Eintrag {
    pub lfd_nr: usize,
    pub bv_nr: StringOrLines,
    pub betrag: StringOrLines,
    pub text: StringOrLines,
    pub automatisch_geroetet: Option<bool>,
    pub manuell_geroetet: Option<bool>,
    pub position_in_pdf: Option<PositionInPdf>,
}

impl Abt3Eintrag {
    pub fn ist_geroetet(&self) -> (r: bool)
        ensures
            r == redaction_status(self.manuell_geroetet, self.automatisch_geroetet),
    {
        effective_redaction(self.manuell_geroetet, self.automatisch_geroetet)
    }
}

/// Change in section three.
#[derive(Debug, Default, Clone, PartialEq, Eq)]
pub struct Abt3Veraenderung {
    pub lfd_nr: StringOrLines,
    pub betrag: StringOrLines,
    pub text: StringOrLines,
    pub automatisch_geroetet: Option<bool>,
    pub manuell_geroetet: Option<bool>,
    pub position_in_pdf: Option<PositionInPdf>,
}

impl Abt3Veraenderung {
    pub fn ist_geroetet(&self) -> (r: bool)
        ensures
            r == redaction_status(self.manuell_geroetet, self.automatisch_geroetet),
    {
        effective_redaction(self.manuell_geroetet, self.automatisch_geroetet)
    }
}

/// Deletion in section three.
#[derive(Debug, Default, Clone, PartialEq, Eq)]
pub struct Abt3Loeschung {
    pub lfd_nr: StringOrLines,
    pub betrag: StringOrLines,
    pub text: StringOrLines,
    pub automatisch_geroetet: Option<bool>,
    pub manuell_geroetet: Option<bool>,
    pub position_in_pdf: Option<PositionInPdf>,
}

impl Abt3Loeschung {
    pub fn ist_geroetet(&self) -> (r: bool)
        ensures
            r == redaction_status(self.manuell_geroetet, self.automatisch_geroetet),
    {
        effective_redaction(self.manuell_geroetet, self.automatisch_geroetet)
    }
}

} // verus!
