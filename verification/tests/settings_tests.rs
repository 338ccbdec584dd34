use simplenote::settings::{available_fonts, font_catalog, font_path_for, str_equal, ThemeMode};

#[test]
fn theme_labels() {
    assert_eq!(ThemeMode::System.label(), "OSに追従");
    assert_eq!(ThemeMode::Dark.label(), "ダーク");
    assert_eq!(ThemeMode::Light.label(), "ライト");
}

#[test]
fn theme_default_follows_system() {
    assert_eq!(ThemeMode::default(), ThemeMode::System);
}

#[test]
fn catalog_lists_six_fonts_in_order() {
    let c = font_catalog();
    assert_eq!(c.len(), 6);
    assert_eq!(c[0], ("Yu Gothic", r"C:\Windows\Fonts\YuGothR.ttc"));
    assert_eq!(c[1].0, "Meiryo");
    assert_eq!(c[5], ("BIZ UDMincho", r"C:\Windows\Fonts\BIZ-UDMinchoM.ttc"));
}

#[test]
fn font_path_lookup() {
    assert_eq!(font_path_for("Meiryo"), Some(r"C:\Windows\Fonts\meiryo.ttc"));
    assert_eq!(font_path_for("MS Mincho"), Some(r"C:\Windows\Fonts\msmincho.ttc"));
    assert_eq!(font_path_for("Comic Sans"), None);
    assert_eq!(font_path_for("meiryo"), None);
    assert_eq!(font_path_for(""), None);
}

#[test]
fn available_fonts_keeps_installed_in_order() {
    let r = available_fonts(&vec![false, true, false, true, false, false]);
    assert_eq!(r.len(), 2);
    assert_eq!(r[0].0, "Meiryo");
    assert_eq!(r[1].0, "MS Mincho");
    assert!(available_fonts(&vec![]).is_empty());
    assert_eq!(available_fonts(&vec![true; 6]), font_catalog());
    let short = available_fonts(&vec![true]);
    assert_eq!(short.len(), 1);
    assert_eq!(short[0].0, "Yu Gothic");
}

#[test]
fn string_equality() {
    assert!(str_equal("Yu Gothic", "Yu Gothic"));
    assert!(!str_equal("Yu Gothic", "Yu Gothic "));
    assert!(str_equal("", ""));
}

#[test]
fn available_fonts_are_found_by_name() {
    for flags in [vec![true; 6], vec![false, true, true, false, false, true]] {
        for (name, path) in available_fonts(&flags) {
            assert_eq!(font_path_for(name), Some(path));
        }
    }
}
