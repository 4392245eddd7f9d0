use c41_ui::theme::css;
use c41_ui::theme::grey;

#[test]
fn palette_matches_darktable_css() {
    assert_eq!(grey::G15, "#262626", "bg_color");
    assert_eq!(grey::G20, "#303030", "plugin_bg_color");
    assert_eq!(grey::G75, "#b9b9b9", "fg_color");
    assert_eq!(grey::G50, "#777777", "darkroom_bg_color — middle grey, functional");
    assert_eq!(grey::G40, "#5e5e5e", "lighttable_bg_color");
}

#[test]
fn css_interpolates_every_placeholder() {
    let sheet = css();
    assert!(!sheet.contains("{g"), "un-interpolated placeholder left in the CSS");
    assert!(!sheet.contains("{{"), "escaped brace leaked into the output");
    assert!(sheet.contains("#262626"), "background grey missing");
    assert!(sheet.contains("#777777"), "darkroom canvas grey missing");
}

#[test]
fn no_accent_colour_survives() {
    let sheet = css();
    let mut seen = 0;
    for tok in sheet.split(|c: char| !(c.is_ascii_hexdigit() || c == '#')) {
        if let Some(hex) = tok.strip_prefix('#') {
            if hex.len() == 6 {
                let (r, g, b) = (&hex[0..2], &hex[2..4], &hex[4..6]);
                assert!(r == g && g == b, "non-grey colour {tok} in the theme");
                seen += 1;
            }
        }
    }
    assert!(seen > 0);
}
