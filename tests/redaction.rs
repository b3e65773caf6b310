use grundbuch_format::{
    effective_redaction, Abt1Eintrag, Abt1EintragV1, Abt1EintragV2, Abt1GrundEintragung,
    Abt1Loeschung, Abt1Veraenderung, Abt2Eintrag, Abt2Loeschung, Abt2Veraenderung, Abt3Eintrag,
    Abt3Loeschung, Abt3Veraenderung, BvAbschreibung, BvEintrag, BvEintragFlurstueck,
    BvEintragRecht, BvZuschreibung, FlurstueckGroesse, PositionInPdf, Rect, StringOrLines,
};

const CASES: [(Option<bool>, Option<bool>, bool); 8] = [
    (Some(true), Some(true), true),
    (Some(true), Some(false), true),
    (Some(false), Some(true), false),
    (Some(false), Some(false), false),
    (None, Some(true), true),
    (None, Some(false), false),
    (Some(true), None, true),
    (None, None, false),
];

fn empty() -> StringOrLines {
    StringOrLines::default()
}

fn kinds(manual: Option<bool>, auto: Option<bool>) -> Vec<bool> {
    let v1 = Abt1EintragV1 {
        lfd_nr: 1,
        eigentuemer: empty(),
        bv_nr: empty(),
        grundlage_der_eintragung: empty(),
        automatisch_geroetet: auto,
        manuell_geroetet: manual,
        position_in_pdf: None,
    };
    let v2 = Abt1EintragV2 {
        lfd_nr: 2,
        eigentuemer: empty(),
        version: 2,
        automatisch_geroetet: auto,
        manuell_geroetet: manual,
        position_in_pdf: None,
    };
    let flst = BvEintragFlurstueck {
        lfd_nr: 1,
        bisherige_lfd_nr: None,
        flur: 3,
        flurstueck: "12/4".to_string(),
        gemarkung: None,
        bezeichnung: None,
        groesse: FlurstueckGroesse::default(),
        automatisch_geroetet: auto,
        manuell_geroetet: manual,
        position_in_pdf: None,
    };
    let recht = BvEintragRecht {
        lfd_nr: 2,
        zu_nr: empty(),
        bisherige_lfd_nr: None,
        text: empty(),
        automatisch_geroetet: auto,
        manuell_geroetet: manual,
        position_in_pdf: None,
    };
    let abt2 = Abt2Eintrag {
        lfd_nr: 1,
        bv_nr: empty(),
        text: empty(),
        automatisch_geroetet: auto,
        manuell_geroetet: manual,
        position_in_pdf: None,
    };
    let abt3 = Abt3Eintrag {
        lfd_nr: 1,
        bv_nr: empty(),
        betrag: empty(),
        text: empty(),
        automatisch_geroetet: auto,
        manuell_geroetet: manual,
        position_in_pdf: None,
    };
    vec![
        BvEintrag::Flurstueck(flst).ist_geroetet(),
        BvEintrag::Recht(recht).ist_geroetet(),
        BvZuschreibung { automatisch_geroetet: auto, manuell_geroetet: manual, ..Default::default() }
            .ist_geroetet(),
        BvAbschreibung { automatisch_geroetet: auto, manuell_geroetet: manual, ..Default::default() }
            .ist_geroetet(),
        v1.ist_geroetet(),
        v2.ist_geroetet(),
        Abt1Eintrag::V1(v1.clone()).ist_geroetet(),
        Abt1Eintrag::V2(v2.clone()).ist_geroetet(),
        Abt1GrundEintragung { automatisch_geroetet: auto, manuell_geroetet: manual, ..Default::default() }
            .ist_geroetet(),
        Abt1Veraenderung { automatisch_geroetet: auto, manuell_geroetet: manual, ..Default::default() }
            .ist_geroetet(),
        Abt1Loeschung { automatisch_geroetet: auto, manuell_geroetet: manual, ..Default::default() }
            .ist_geroetet(),
        abt2.ist_geroetet(),
        Abt2Veraenderung { automatisch_geroetet: auto, manuell_geroetet: manual, ..Default::default() }
            .ist_geroetet(),
        Abt2Loeschung { automatisch_geroetet: auto, manuell_geroetet: manual, ..Default::default() }
            .ist_geroetet(),
        abt3.ist_geroetet(),
        Abt3Veraenderung { automatisch_geroetet: auto, manuell_geroetet: manual, ..Default::default() }
            .ist_geroetet(),
        Abt3Loeschung { automatisch_geroetet: auto, manuell_geroetet: manual, ..Default::default() }
            .ist_geroetet(),
    ]
}

#[test]
fn precedence_holds_for_every_record_kind() {
    for (manual, auto, want) in CASES {
        let got = kinds(manual, auto);
        assert_eq!(got.len(), 17);
        for (k, g) in got.iter().enumerate() {
            assert_eq!(*g, want, "kind {} with manual {:?}, automatic {:?}", k, manual, auto);
        }
    }
}

#[test]
fn manual_false_overrides_automatic_true() {
    assert!(!effective_redaction(Some(false), Some(true)));
    assert!(effective_redaction(Some(true), Some(false)));
}

#[test]
fn unflagged_record_is_not_redacted() {
    assert!(!effective_redaction(None, None));
    assert!(!Abt2Loeschung::default().ist_geroetet());
}

#[test]
fn position_does_not_affect_redaction() {
    let p = PositionInPdf {
        seite: "3".to_string(),
        rect: Rect { min_x: 1, min_y: 2, max_x: 3, max_y: 4 },
    };
    let z = BvZuschreibung { automatisch_geroetet: Some(true), position_in_pdf: Some(p), ..Default::default() };
    assert!(z.ist_geroetet());
}
