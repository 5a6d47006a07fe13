use chess::{
    sort_captured, turn_label, update_enable_ai_button_ui, AIEnabled, ButtonInteraction,
    ButtonShade, CapturedLedger, Piece, PieceColor, PieceType, Square, Turn,
};

#[test]
fn piece_values() {
    assert_eq!(PieceType::PawnWhite.get_value(), 1);
    assert_eq!(PieceType::KnightBlack.get_value(), 3);
    assert_eq!(PieceType::BishopWhite.get_value(), 3);
    assert_eq!(PieceType::RookBlack.get_value(), 5);
    assert_eq!(PieceType::QueenWhite.get_value(), 9);
    assert_eq!(PieceType::KingBlack.get_value(), 0);
    assert_eq!(PieceType::Empty.get_value(), 0);
}

#[test]
fn captured_kinds_sort_by_rank_stably() {
    let mut v = vec![
        PieceType::QueenBlack,
        PieceType::PawnBlack,
        PieceType::KingWhite,
        PieceType::RookBlack,
        PieceType::PawnWhite,
        PieceType::KnightBlack,
        PieceType::BishopBlack,
    ];
    sort_captured(&mut v);
    assert_eq!(
        v,
        vec![
            PieceType::PawnBlack,
            PieceType::PawnWhite,
            PieceType::KnightBlack,
            PieceType::BishopBlack,
            PieceType::RookBlack,
            PieceType::QueenBlack,
            PieceType::KingWhite,
        ]
    );
    let mut empty: Vec<PieceType> = Vec::new();
    sort_captured(&mut empty);
    assert!(empty.is_empty());
}

#[test]
fn ledger_records_and_balances_material() {
    let mut ledger = CapturedLedger::new();
    assert_eq!(ledger.material_advantage(), 0);
    ledger.record(&Piece::new(PieceType::RookBlack, Square::new(0, 7)));
    ledger.record(&Piece::new(PieceType::PawnBlack, Square::new(1, 6)));
    ledger.record(&Piece::new(PieceType::KnightWhite, Square::new(1, 0)));
    assert_eq!(ledger.black, vec![PieceType::PawnBlack, PieceType::RookBlack]);
    assert_eq!(ledger.white, vec![PieceType::KnightWhite]);
    assert_eq!(ledger.material_advantage(), 3);
    ledger.record(&Piece::new(PieceType::QueenWhite, Square::new(3, 0)));
    assert_eq!(ledger.material_advantage(), -6);
}

#[test]
fn ai_button_click_toggles() {
    let mut ai = AIEnabled(false);
    let u = update_enable_ai_button_ui(ButtonInteraction::Clicked, &mut ai);
    assert_eq!(ai, AIEnabled(true));
    assert_eq!(u.shade, ButtonShade::Enabled);
    assert!(u.relabel);
    assert_eq!(ai.label(), "AI enabled");
    let u = update_enable_ai_button_ui(ButtonInteraction::Clicked, &mut ai);
    assert_eq!(ai, AIEnabled(false));
    assert_eq!(u.shade, ButtonShade::Disabled);
    assert_eq!(ai.label(), "AI disabled");
}

#[test]
fn ai_button_hover_only_shades() {
    let mut ai = AIEnabled(true);
    let u = update_enable_ai_button_ui(ButtonInteraction::Hovered, &mut ai);
    assert_eq!(ai, AIEnabled(true));
    assert_eq!(u.shade, ButtonShade::EnabledHover);
    assert!(!u.relabel);
    let u = update_enable_ai_button_ui(ButtonInteraction::Idle, &mut ai);
    assert_eq!(u.shade, ButtonShade::Enabled);
    let mut off = AIEnabled(false);
    let u = update_enable_ai_button_ui(ButtonInteraction::Hovered, &mut off);
    assert_eq!(u.shade, ButtonShade::DisabledHover);
    let u = update_enable_ai_button_ui(ButtonInteraction::Idle, &mut off);
    assert_eq!(u.shade, ButtonShade::Disabled);
    assert_eq!(off, AIEnabled(false));
}

#[test]
fn turn_label_names_side_and_ordinal() {
    assert_eq!(turn_label(&Turn::new()), "Turn:  White\n       1st");
    assert_eq!(turn_label(&Turn { color: PieceColor::Black, n: 2 }), "Turn:  Black\n       2nd");
    assert_eq!(turn_label(&Turn { color: PieceColor::White, n: 3 }), "Turn:  White\n       3rd");
    assert_eq!(turn_label(&Turn { color: PieceColor::White, n: 11 }), "Turn:  White\n       11th");
    assert_eq!(turn_label(&Turn { color: PieceColor::Black, n: 12 }), "Turn:  Black\n       12th");
    assert_eq!(turn_label(&Turn { color: PieceColor::White, n: 21 }), "Turn:  White\n       21st");
    assert_eq!(turn_label(&Turn { color: PieceColor::Black, n: 112 }), "Turn:  Black\n       112th");
    assert_eq!(turn_label(&Turn { color: PieceColor::White, n: 1003 }), "Turn:  White\n       1003rd");
}
