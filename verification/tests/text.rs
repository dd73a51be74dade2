//! The text helpers and the small display types.
use offline_chess_puzzles::board::PieceKind;
use offline_chess_puzzles::lang::{piece_localized, tr, Language, PickListWrapper};
use offline_chess_puzzles::puzzles::{PuzzleAction, PuzzleMessage, PuzzleTab};
use offline_chess_puzzles::strutil::{flip_sign, parse_usize, split_spaces, str_eq, usize_to_string};
use offline_chess_puzzles::PieceWithColor;

#[test]
fn translation_table_maps_piece_initials() {
    assert_eq!(tr(&Language::English, "knight"), "N");
    assert_eq!(tr(&Language::Dutch, "knight"), "P");
    assert_eq!(tr(&Language::Spanish, "bishop"), "A");
    assert_eq!(tr(&Language::French, "bishop"), "F");
    assert_eq!(tr(&Language::Portuguese, "king"), "R");
}

#[test]
fn translation_table_maps_messages() {
    assert_eq!(tr(&Language::English, "white_to_move"), "White to move");
    assert_eq!(tr(&Language::Dutch, "black_to_move"), "Zwart aan zet");
    assert_eq!(tr(&Language::English, "mate_in"), "Mate in ");
}

#[test]
fn unknown_key_comes_back_unchanged() {
    assert_eq!(tr(&Language::English, "no_such_key"), "no_such_key");
}

#[test]
fn piece_localized_falls_back_to_the_king() {
    assert_eq!(piece_localized(&Language::English, "Q"), "Q");
    assert_eq!(piece_localized(&Language::Spanish, "N"), "C");
    assert_eq!(piece_localized(&Language::English, "Z"), "K");
}

#[test]
fn language_pick_list_has_all_five() {
    let langs = PickListWrapper::get_langs(Language::French);
    assert_eq!(langs.len(), 5);
    assert!(matches!(langs[1].item, Language::English));
    assert!(matches!(langs[1].lang, Language::French));
    let one = PickListWrapper::new_lang(Language::English, Language::Dutch);
    assert!(matches!(one.item, Language::Dutch));
}

#[test]
fn string_equality_is_by_characters() {
    assert!(str_eq("abc", "abc"));
    assert!(!str_eq("abc", "abd"));
    assert!(!str_eq("abc", "ab"));
    assert!(str_eq("", ""));
}

#[test]
fn decimal_rendering_and_parsing() {
    assert_eq!(usize_to_string(0), "0");
    assert_eq!(usize_to_string(12345), "12345");
    assert_eq!(parse_usize("42"), Some(42));
    assert_eq!(parse_usize(""), None);
    assert_eq!(parse_usize("12x"), None);
    assert_eq!(parse_usize("99999999999999999999999999"), None);
}

#[test]
fn sign_flip_is_textual() {
    assert_eq!(flip_sign("0.35"), "-0.35");
    assert_eq!(flip_sign("-0.35"), "0.35");
    assert_eq!(flip_sign(""), "-");
}

#[test]
fn splitting_on_spaces() {
    let parts = split_spaces("d1d8 g8g7 d8d7");
    assert_eq!(parts, vec!["d1d8", "g8g7", "d8d7"]);
    let single = split_spaces("e2e4");
    assert_eq!(single, vec!["e2e4"]);
}

#[test]
fn promotion_letters_map_to_pieces() {
    assert!(matches!(PuzzleTab::check_promotion("e7e8q"), Some(PieceKind::Queen)));
    assert!(matches!(PuzzleTab::check_promotion("e7e8r"), Some(PieceKind::Rook)));
    assert!(matches!(PuzzleTab::check_promotion("e7e8n"), Some(PieceKind::Knight)));
    assert!(matches!(PuzzleTab::check_promotion("e7e8b"), Some(PieceKind::Bishop)));
    assert!(matches!(PuzzleTab::check_promotion("e7e8R"), Some(PieceKind::Rook)));
    assert!(matches!(PuzzleTab::check_promotion("e7e8N"), Some(PieceKind::Knight)));
    assert!(matches!(PuzzleTab::check_promotion("e7e8B"), Some(PieceKind::Bishop)));
    assert!(matches!(PuzzleTab::check_promotion("e7e8x"), Some(PieceKind::Queen)));
    assert!(PuzzleTab::check_promotion("e7e8").is_none());
}

#[test]
fn puzzle_tab_update_names_the_host_action() {
    let tab = PuzzleTab::new();
    let a = tab.update(PuzzleMessage::CopyText("fen".to_string()));
    assert!(matches!(a, PuzzleAction::CopyToClipboard(t) if t == "fen"));
    let a = tab.update(PuzzleMessage::OpenLink("url".to_string()));
    assert!(matches!(a, PuzzleAction::OpenLink(t) if t == "url"));
    let a = tab.update(PuzzleMessage::ChangeTextInputs("x".to_string()));
    assert!(matches!(a, PuzzleAction::DoNothing));
    assert!(matches!(tab.update(PuzzleMessage::TakeScreenshot), PuzzleAction::TakeScreenshot));
    assert!(matches!(tab.update(PuzzleMessage::ExportToPDF), PuzzleAction::ExportToPDF));
}

#[test]
fn sprite_indices_follow_the_sheet_order() {
    assert_eq!(PieceWithColor::WhitePawn.index(), 0);
    assert_eq!(PieceWithColor::WhiteKing.index(), 5);
    assert_eq!(PieceWithColor::BlackPawn.index(), 6);
    assert_eq!(PieceWithColor::BlackKing.index(), 11);
}
