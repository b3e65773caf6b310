//! Data model and derivation rules of the exchange format for digitised
//! land-register sheets: flexible legal text, dehyphenation of OCR lines,
//! parcel areas, redaction status of register records, and the envelope that
//! bundles OCR layout, page overrides and the analysed register sheet.
use vstd::prelude::*;

pub mod area;
pub mod dehyphen;
pub mod document;
pub mod geometry;
pub mod layout;
pub mod register;
pub mod text;

pub use area::FlurstueckGroesse;
pub use dehyphen::{unhyphenate, Dehyphenator};
pub use document::{Omitted, PdfFile};
pub use geometry::{Linie, PositionInPdf, Punkt, Rect};
pub use layout::{
    AnpassungSeite, HocrArea, HocrLayout, HocrLine, HocrParagraph, HocrSeite, HocrWord,
    ParsedHocr, SeitenTyp,
};
pub use register::{
    effective_redaction, Abt1Eintrag, Abt1EintragFelder, Abt1EintragV1, Abt1EintragV2,
    Abt1GrundEintragung, Abt1Loeschung, Abt1Veraenderung, Abt2Eintrag, Abt2Loeschung,
    Abt2Veraenderung, Abt3Eintrag, Abt3Loeschung, Abt3Veraenderung, Abteilung1, Abteilung2,
    Abteilung3, Bestandsverzeichnis, BvAbschreibung, BvEintrag, BvEintragFelder,
    BvEintragFlurstueck, BvEintragRecht, BvZuschreibung, Grundbuch, Titelblatt,
};
pub use text::StringOrLines;

verus! {

/// A payload that fits none of the shapes the format allows.
#[derive(Debug, Clone, Copy, PartialEq, Eq, Structural)]
pub enum DecodeError {
    /// An entry without a running number fits none of its shapes.
    MissingRunningNumber,
    /// A page-type token outside the closed set.
    UnknownPageType,
}

} // verus!
