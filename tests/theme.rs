use nostromo_notes::mode::Mode;
use nostromo_notes::theme::{ColorScheme, ThemeColor};

#[test]
fn scheme_names_round_trip() {
    for s in ColorScheme::all_schemes() {
        assert_eq!(ColorScheme::from_string(&s.to_string()), s);
    }
    assert_eq!(ColorScheme::from_string("Purple"), ColorScheme::Green);
    assert_eq!(ColorScheme::LightGreen.to_string(), "LightGreen");
}

#[test]
fn scheme_display_names_and_colors() {
    assert_eq!(ColorScheme::Amber.name(), "Retro Amber");
    assert_eq!(ColorScheme::Orange.primary_color(), ThemeColor::Rgb(255, 165, 0));
    assert_eq!(ColorScheme::Blue.secondary_color(), ThemeColor::LightBlue);
    assert_eq!(ColorScheme::all_schemes().len(), 7);
    assert_eq!(ColorScheme::BrightRed.index(), 6);
}

#[test]
fn mode_labels() {
    assert_eq!(Mode::Normal.to_string(), "NAVIGATE");
    assert_eq!(Mode::SelectingMoveDestination.to_string(), "SELECT MOVE DEST");
}
