use nt_progress::bars::{
    bar_request, bar_style, colorize, draw_bar, draw_braille, draw_dots, draw_gradient,
    draw_interactive, gradient_style, interactive_style, numeric_text, pad_text, parse_usize,
    ratio_text, spinner_frames, IndicatorKind, PadAlign,
};
use nt_progress::bars::{format_kind, ratio_denominator, Denominator, FormatKind};
use nt_progress::indicators::ColorName;
use nt_progress::template::{scan_template, split_tag, TemplatePiece};

fn strings(v: &[&str]) -> Vec<String> {
    v.iter().map(|s| s.to_string()).collect()
}

#[test]
fn parse_usize_accepts_plain_decimal_numbers() {
    assert_eq!(parse_usize("42"), Some(42));
    assert_eq!(parse_usize("+7"), Some(7));
    assert_eq!(parse_usize("007"), Some(7));
    assert_eq!(parse_usize(""), None);
    assert_eq!(parse_usize("+"), None);
    assert_eq!(parse_usize("-1"), None);
    assert_eq!(parse_usize("1a"), None);
    assert_eq!(parse_usize("18446744073709551615"), Some(usize::MAX));
    assert_eq!(parse_usize("18446744073709551616"), None);
}

#[test]
fn standard_and_block_bars() {
    let style = bar_style(&Vec::new(), '=');
    assert_eq!(draw_bar(&style, 5, 10), "[=====     ]");
    assert_eq!(draw_bar(&style, 15, 4), "[====]");
    let style = bar_style(&strings(&["#"]), '\u{2588}');
    assert_eq!(draw_bar(&style, 5, 10), "[#####     ]");
    let style = bar_style(&strings(&["ab", "-", "nope", "blue", "<", ">"]), '=');
    assert_eq!(style.fill, '=');
    assert_eq!(style.empty, '-');
    assert_eq!(style.fill_color, None);
    assert_eq!(style.empty_color, Some(ColorName::Blue));
    let bar = draw_bar(&style, 1, 2);
    assert!(bar.starts_with("<="));
    assert!(bar.contains('-'));
    assert!(bar.ends_with("\x1b[0m>"));
}

#[test]
fn interactive_dots_braille_and_gradient_bars() {
    let st = interactive_style(&strings(&["", "", "", "*.|"]), 5);
    assert_eq!(draw_interactive(&st, 2), "[**|..]");
    let st = interactive_style(&Vec::new(), 10);
    assert_eq!(st.width, 10);
    assert_eq!(draw_interactive(&st, 3), "[===>      ]");
    assert_eq!(draw_dots(2, 3, 4), "\u{28ff}\u{28ff}\u{28c4}\u{2800}");
    assert_eq!(draw_braille(1, 0, 3), "\u{28ff}\u{2804}\u{2804}");
    let gs = gradient_style(&strings(&["", "", "", "", "blue", "cyan"]), 4);
    assert_eq!(gs.width, 4);
    assert_eq!(gs.start, ColorName::Blue);
    assert_eq!(gs.end, ColorName::Cyan);
    let g = draw_gradient(&gs, 2);
    assert!(g.starts_with('['));
    assert!(g.ends_with("  ]"));
    assert_eq!(g.matches('=').count(), 2);
}

#[test]
fn bar_requests_follow_their_parameters() {
    let req = bar_request(&strings(&["block", "12", "smooth", "#"])).ok().unwrap();
    assert_eq!(req.kind, IndicatorKind::Block);
    assert_eq!(req.width, 12);
    assert!(req.smooth);
    assert_eq!(req.params, strings(&["#"]));
    let req = bar_request(&strings(&["custom", "Dots", "x"])).ok().unwrap();
    assert_eq!(req.kind, IndicatorKind::Dots);
    assert_eq!(req.params, strings(&["x"]));
    let req = bar_request(&strings(&["10"])).ok().unwrap();
    assert_eq!(req.kind, IndicatorKind::Bar);
    assert_eq!(req.width, 10);
    match bar_request(&strings(&["custom"])) {
        Err(e) => assert_eq!(e.to_string(), "Display operation error: Missing custom indicator name"),
        Ok(_) => panic!("expected an error"),
    }
    match bar_request(&strings(&["custom", "waves"])) {
        Err(e) => assert_eq!(e.to_string(), "Display operation error: Unknown custom indicator type: waves"),
        Ok(_) => panic!("expected an error"),
    }
}

#[test]
fn texts_of_formats() {
    assert_eq!(numeric_text(75, &Vec::new()), "75%");
    assert_eq!(numeric_text(75, &strings(&["false"])), "75");
    assert_eq!(ratio_text(7, 10), "7/10");
    assert_eq!(pad_text("test", PadAlign::Left, &strings(&["10"])), "      test");
    assert_eq!(pad_text("test", PadAlign::Right, &strings(&["10"])), "test      ");
    assert_eq!(pad_text("test", PadAlign::Center, &strings(&["10"])), "   test   ");
    assert_eq!(pad_text("test", PadAlign::Left, &strings(&["x"])), "test");
    assert_eq!(pad_text("é", PadAlign::Left, &Vec::new()), " é");
    assert_eq!(colorize("World", &strings(&["red"])).ok().unwrap(), "\x1B[31mWorld\x1B[0m");
    assert!(colorize("World", &Vec::new()).is_err());
    match colorize("World", &strings(&[" mauve "])) {
        Err(e) => assert_eq!(e.to_string(), "Display operation error: Unknown color: mauve"),
        Ok(_) => panic!("expected an error"),
    }
    assert_eq!(spinner_frames(&Vec::new()).ok().unwrap(), vec!['-', '\\', '|', '/']);
    assert_eq!(spinner_frames(&strings(&["ab"])).ok().unwrap(), vec!['a', 'b']);
    assert!(spinner_frames(&strings(&[""])).is_err());
}

#[test]
fn templates_split_into_text_and_tags() {
    let pieces = scan_template("a{x}{{b}}{c");
    let shown: Vec<String> = pieces
        .iter()
        .map(|p| match p {
            TemplatePiece::Text(t) => format!("T:{}", t),
            TemplatePiece::Tag(t) => format!("G:{}", t),
        })
        .collect();
    assert_eq!(shown, vec!["T:a", "G:x", "T:{", "T:b", "T:}", "T:{", "T:c"]);
    let tag = split_tag(" p : bar:block:10 ");
    assert_eq!(tag.name, "p");
    assert_eq!(tag.formats, Some(strings(&["bar", "block", "10"])));
    let tag = split_tag("name");
    assert_eq!(tag.name, "name");
    assert_eq!(tag.formats, None);
}

#[test]
fn format_names_and_ratio_denominators() {
    assert_eq!(format_kind("lpad"), FormatKind::Pad(PadAlign::Left));
    assert_eq!(format_kind("bar"), FormatKind::Bar);
    assert_eq!(format_kind("Bar"), FormatKind::Plain);
    assert!(matches!(ratio_denominator(&strings(&["10"])), Denominator::Number(10)));
    assert!(matches!(ratio_denominator(&strings(&["total"])), Denominator::Variable(ref v) if v == "total"));
    assert!(matches!(ratio_denominator(&Vec::new()), Denominator::Default));
}

#[test]
fn gradient_bars_take_the_requested_width() {
    let request = bar_request(&strings(&["custom", "gradient", "20"])).ok().unwrap();
    assert_eq!(request.kind, IndicatorKind::Gradient);
    let style = gradient_style(&request.params, request.width);
    assert_eq!(style.width, 20);
    let bar = draw_gradient(&style, 0);
    assert_eq!(bar, format!("[{}]", " ".repeat(20)));
}
