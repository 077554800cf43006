use centrum_launcher::color::{hex_code, is_color_query, parse_color, Opacity};

fn rgb(text: &str) -> Option<(u8, u8, u8)> {
    parse_color(text).map(|c| (c.red, c.green, c.blue))
}

#[test]
fn texts_that_are_colors_being_typed() {
    for t in ["#", "#fff", "rgb(", "rgba(1", "rgb(1,2,3)"] {
        assert!(is_color_query(t), "{:?}", t);
    }
    for t in ["", "rgb", " #fff", "ff0000", "hsl(1,2,3)"] {
        assert!(!is_color_query(t), "{:?}", t);
    }
}

#[test]
fn hexadecimal_colors() {
    assert_eq!(rgb("#ff8000"), Some((255, 128, 0)));
    assert_eq!(rgb("#FF8000"), Some((255, 128, 0)));
    let c = parse_color("#00000080").expect("a color");
    assert_eq!((c.red, c.green, c.blue), (0, 0, 0));
    assert!(matches!(c.opacity, Opacity::Byte(128)));
    assert!(matches!(parse_color("#010203").expect("a color").opacity, Opacity::Full));
    assert_eq!(rgb("#ff80"), None);
    assert_eq!(rgb("#ff80000"), None);
    assert_eq!(rgb("#ff800g"), None);
    assert_eq!(rgb("#12,3,4"), None);
    assert_eq!(rgb("#é1234"), None);
    assert_eq!(rgb("#"), None);
}

#[test]
fn colors_from_channels() {
    assert_eq!(rgb("#1,2,3"), Some((1, 2, 3)));
    assert_eq!(rgb("# 255 , 0,+7 "), Some((255, 0, 7)));
    assert_eq!(rgb("rgb(10, 20, 30)"), Some((10, 20, 30)));
    assert_eq!(rgb("rgb(10, 20, 30"), Some((10, 20, 30)));
    assert_eq!(rgb("rgb(10,20,30))"), Some((10, 20, 30)));
    let c = parse_color("rgba(1, 2, 3, 0.5 )").expect("a color");
    assert_eq!((c.red, c.green, c.blue), (1, 2, 3));
    match c.opacity {
        Opacity::Fraction(t) => assert_eq!(t, "0.5"),
        other => panic!("unexpected opacity {:?}", other),
    }
    match parse_color("#1,2,3,x").expect("a color").opacity {
        Opacity::Fraction(t) => assert_eq!(t, "x"),
        other => panic!("unexpected opacity {:?}", other),
    }
    assert_eq!(rgb("rgb(1,2)"), None);
    assert_eq!(rgb("rgb(1,2,3,4,5)"), None);
    assert_eq!(rgb("rgb(256,0,0)"), None);
    assert_eq!(rgb("rgb(a,0,0)"), None);
    assert_eq!(rgb("rgb(-1,0,0)"), None);
    assert_eq!(rgb("rgba(1,2,3"), Some((1, 2, 3)));
    assert_eq!(rgb("#1,2,\u{a0}3"), Some((1, 2, 3)));
    assert_eq!(rgb("#1,2,\u{a0}33"), None);
    assert_eq!(rgb("#1,2,333"), None);
    assert_eq!(rgb("#1,2,33"), None);
    assert_eq!(rgb("plain"), None);
}

#[test]
fn colors_are_written_as_nine_characters_in_upper_case() {
    assert_eq!(hex_code(255, 128, 0, 255), "#FF8000FF");
    assert_eq!(hex_code(0, 0, 0, 0), "#00000000");
    assert_eq!(hex_code(10, 171, 205, 9), "#0AABCD09");
    for (r, g, b, a) in [(1u8, 2u8, 3u8, 4u8), (254, 17, 160, 99), (16, 15, 240, 255)] {
        let text = hex_code(r, g, b, a);
        assert_eq!(text, format!("#{:02X}{:02X}{:02X}{:02X}", r, g, b, a));
        let c = parse_color(&text).expect("a color");
        assert_eq!((c.red, c.green, c.blue), (r, g, b));
        match c.opacity {
            Opacity::Byte(x) => assert_eq!(x, a),
            other => panic!("unexpected opacity {:?}", other),
        }
    }
}
