use wayle_config::palettes::{add_theme, builtins, wayle, Palette, ThemeEntry};
use wayle_config::wayle_theme;

fn palette(c: &str) -> Palette {
    Palette {
        bg: c.to_string(),
        surface: c.to_string(),
        elevated: c.to_string(),
        fg: c.to_string(),
        fg_muted: c.to_string(),
        primary: c.to_string(),
        red: c.to_string(),
        yellow: c.to_string(),
        green: c.to_string(),
        blue: c.to_string(),
    }
}

#[test]
fn wayle_palette_uses_theme_constants() {
    let p = wayle();
    assert_eq!(p.bg, wayle_theme::BG);
    assert_eq!(p.bg, "#141420");
    assert_eq!(p.fg_muted, "#8a8ca4");
    assert_eq!(p.blue, "#78a0e0");
}

#[test]
fn builtins_are_named_and_flagged() {
    let all = builtins();
    assert_eq!(all.len(), 45);
    assert_eq!(all[0].name, "wayle");
    assert_eq!(all[0].palette, wayle());
    assert_eq!(all[1].name, "catppuccin-mocha");
    assert_eq!(all[44].name, "tokyo-night-day");
    assert!(all.iter().all(|t| t.builtin));
    let mut names: Vec<&str> = all.iter().map(|t| t.name.as_str()).collect();
    names.sort();
    names.dedup();
    assert_eq!(names.len(), 45);
}

#[test]
fn add_theme_skips_taken_names() {
    let mut all = builtins();
    let custom = ThemeEntry { name: String::from("mine"), palette: palette("#000000"), builtin: false };
    assert!(add_theme(&mut all, custom));
    assert_eq!(all.len(), 46);
    assert_eq!(all[45].name, "mine");
    let clash = ThemeEntry { name: String::from("nord"), palette: palette("#ffffff"), builtin: false };
    assert!(!add_theme(&mut all, clash));
    assert_eq!(all.len(), 46);
    let nord = all.iter().find(|t| t.name == "nord").unwrap();
    assert!(nord.builtin);
    assert_ne!(nord.palette.bg, "#ffffff");
}
