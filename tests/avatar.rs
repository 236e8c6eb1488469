use sha2::Digest;
use svg_avatars::color::{color_text, construct_color, Hsl};
use svg_avatars::geometry::{path_data, PathProperties};
use svg_avatars::rings::DIVIDER_SCALE;
use svg_avatars::text::push_fixed;
use svg_avatars::theme::{calculate_theme, SvgTheme};
use svg_avatars::{Rings, SvgAvatarBuilder};

fn count_paths(text: &str) -> usize {
    text.matches("<path").count()
}

#[test]
fn scenario_foo_three_rings() {
    let svg = SvgAvatarBuilder::new()
        .identifier("foo")
        .rings(Rings::Three)
        .build()
        .to_string();
    assert_eq!(count_paths(&svg), 24);
    assert!(svg.contains(r#"viewBox="-1.1 -1.1 2.3 2.3""#));
    assert!(svg.contains(r#"stroke="black""#));
    assert!(svg.contains(r#"stroke-width="0.01""#));
    // The outermost ring has radius 1.
    assert_eq!(svg.matches(" A1.000000,1.000000,").count(), 8);
    assert_eq!(svg.matches(" A0.741582,0.741582,").count(), 8);
    assert_eq!(svg.matches(" A0.455342,0.455342,").count(), 8);
}

#[test]
fn build_is_deterministic() {
    let a = SvgAvatarBuilder::new().identifier("foo").rings(Rings::Two).build();
    let b = SvgAvatarBuilder::new().identifier("foo").rings(Rings::Two).build();
    assert_eq!(a.to_string(), b.to_string());
}

#[test]
fn distinct_identifiers_differ() {
    let a = SvgAvatarBuilder::new().identifier("foo").build();
    let b = SvgAvatarBuilder::new().identifier("bar").build();
    assert_ne!(a.to_string(), b.to_string());
}

#[test]
fn identifiers_are_additive() {
    let a = SvgAvatarBuilder::new().identifier("foo").identifier("bar").build();
    let b = SvgAvatarBuilder::new().identifier_bytes(b"foobar").build();
    let c = SvgAvatarBuilder::new().identifier("foobar").build();
    assert_eq!(a.to_string(), b.to_string());
    assert_eq!(a.to_string(), c.to_string());
}

#[test]
fn path_count_follows_ring_count() {
    let count = |r: Rings| count_paths(&SvgAvatarBuilder::new().identifier("x").rings(r).build().to_string());
    assert_eq!(count(Rings::One), 8);
    assert_eq!(count(Rings::Two), 16);
    assert_eq!(count(Rings::Three), 24);
    assert_eq!(count(Rings::Four), 32);
}

#[test]
fn dividers_decrease_from_full_radius() {
    for r in [Rings::One, Rings::Two, Rings::Three, Rings::Four] {
        let d = r.to_dividers();
        assert_eq!(d.len(), r.count());
        assert_eq!(d[0], DIVIDER_SCALE);
        for i in 1..d.len() {
            assert!(d[i] < d[i - 1]);
        }
    }
    assert_eq!(Rings::Four.to_dividers(), vec![1_000_000, 808_013, 603_553, 375_000]);
    assert_eq!(Rings::Two.to_dividers(), vec![1_000_000, 603_553]);
}

#[test]
fn dividers_match_the_blended_falloff() {
    for r in [Rings::One, Rings::Two, Rings::Three, Rings::Four] {
        let n = r.count() as f64;
        for (i, d) in r.to_dividers().iter().enumerate() {
            let f = (n - i as f64) / n;
            let expected = (f.sqrt() + f) / 2.0;
            assert!(((*d as f64) / 1e6 - expected).abs() < 1e-6);
        }
    }
}

#[test]
fn color_bounds_hold_for_every_seed() {
    for b in 0..=255u8 {
        let theme = SvgTheme::new([b; 32], String::from("black"));
        let c = construct_color(0, 0, &theme);
        assert!(60 <= c.saturation && c.saturation <= 300);
        assert!(120 <= c.lightness && c.lightness <= 270);
    }
}

#[test]
fn color_of_extreme_seeds() {
    let theme = SvgTheme::new([0; 32], String::from("black"));
    let c = construct_color(0, 0, &theme);
    assert_eq!(c, Hsl { hue: 0, saturation: 60, lightness: 120 });
    assert_eq!(color_text(&c), "hsl(0.00, 20.00%, 40.00%)");

    let theme = SvgTheme::new([0xff; 32], String::from("black"));
    let c = construct_color(3, 7, &theme);
    assert_eq!(c, Hsl { hue: 7650, saturation: 300, lightness: 270 });
    assert_eq!(color_text(&c), "hsl(30.00, 100.00%, 90.00%)");
}

#[test]
fn color_composes_themes_and_seed() {
    let mut hash = [0u8; 32];
    hash[0] = 0b1010_0110;
    hash[1] = 0x01;
    let theme = SvgTheme::new(hash, String::from("red"));
    assert_eq!(theme.global_theme, 0b1010_0111);
    assert_eq!(theme.ring_theme(0), 0b1010_0111);
    assert_eq!(theme.ring_theme(1), 0x01);
    assert_eq!(theme.ring_theme(2), 0);
    // h = 10, s = 1, l = 2.
    let c = construct_color(0, 0, &theme);
    assert_eq!(c.hue, 360 * 167 + 120 * 167 + 510 * 10);
    assert_eq!(c.saturation, 140);
    assert_eq!(c.lightness, 220);
    // 85260 / 255 = 334.35..., 140 / 3 = 46.66..., 220 / 3 = 73.33...
    assert_eq!(color_text(&c), "hsl(334.35, 46.66%, 73.33%)");
}

#[test]
fn theme_is_a_xor_fold() {
    assert_eq!(calculate_theme(&[]), 0);
    assert_eq!(calculate_theme(&[1, 2, 4]), 7);
    assert_eq!(calculate_theme(&[0xff, 0x0f]), 0xf0);
}

#[test]
fn digest_seeds_the_fill_of_the_first_path() {
    let hash: [u8; 32] = sha2::Sha256::digest(b"foo").into();
    let theme = SvgTheme::new(hash, String::from("black"));
    let fill = color_text(&construct_color(0, 0, &theme));
    let svg = SvgAvatarBuilder::new().identifier("foo").build().to_string();
    assert!(svg.contains(&format!(r#"fill="{fill}""#)));
    // Hashing nothing would give other colours.
    let plain = SvgTheme::new(*b"foo\0\0\0\0\0\0\0\0\0\0\0\0\0\0\0\0\0\0\0\0\0\0\0\0\0\0\0\0\0", String::from("black"));
    assert_ne!(construct_color(0, 0, &plain), construct_color(0, 0, &theme));
}

#[test]
fn defaults_are_four_rings_and_black() {
    let a = SvgAvatarBuilder::new().identifier("foo").build();
    let b = SvgAvatarBuilder::default()
        .identifier("foo")
        .rings(Rings::Four)
        .stroke_color("black")
        .build();
    assert_eq!(a.to_string(), b.to_string());
    assert_eq!(Rings::default(), Rings::Four);
    assert_eq!(count_paths(&a.to_string()), 32);
}

#[test]
fn stroke_color_is_passed_verbatim() {
    let svg = SvgAvatarBuilder::new()
        .identifier("foo")
        .stroke_color("rgb(36, 138, 71)")
        .build()
        .to_string();
    assert_eq!(svg.matches(r#"stroke="rgb(36, 138, 71)""#).count(), 32);
}

#[test]
fn sector_paths_are_written_exactly() {
    let d = path_data(&PathProperties::sector(0), 1_000_000);
    assert_eq!(
        d,
        "M0,0 L0.000000000000,-1.000000000000 A1.000000,1.000000,0,0,1,0.707107000000,-0.707107000000 z"
    );
    let d = path_data(&PathProperties::sector(2), 375_000);
    assert_eq!(
        d,
        "M0,0 L0.375000000000,0.000000000000 A0.375000,0.375000,0,0,1,0.265165125000,0.265165125000 z"
    );
}

#[test]
fn fixed_point_text() {
    let mut s = String::new();
    push_fixed(&mut s, -707_107_000_000, 12);
    assert_eq!(s, "-0.707107000000");
    let mut s = String::from("x=");
    push_fixed(&mut s, 12_345, 2);
    assert_eq!(s, "x=123.45");
    let mut s = String::new();
    push_fixed(&mut s, 5, 3);
    assert_eq!(s, "0.005");
}

#[test]
fn ring_names_and_counts() {
    assert_eq!(Rings::One.name(), "One");
    assert_eq!(Rings::Three.name(), "Three");
    assert_eq!(Rings::Two.count(), 2);
    assert_eq!(Rings::Four.count(), 4);
}

#[test]
fn avatar_exposes_its_document() {
    let avatar = SvgAvatarBuilder::new().identifier("foo").rings(Rings::One).build();
    let text = avatar.to_string();
    assert_eq!(avatar.document().to_string(), text);
    assert_eq!(avatar.into_document().to_string(), text);
}

#[test]
fn avatar_clone_and_owned_document() {
    let avatar = SvgAvatarBuilder::new().identifier("foo").build();
    let copy = avatar.clone();
    let before = avatar.to_string();
    assert_eq!(copy.to_string(), before);
    let mut document = avatar.into_document();
    svg::Node::assign(&mut document, "width", "180");
    assert!(document.to_string().contains(r#"width="180""#));
    assert_eq!(copy.to_string(), before);
}

#[test]
fn avatar_converts_into_text_and_bytes() {
    let avatar = SvgAvatarBuilder::new().identifier("foo").rings(Rings::One).build();
    let text = avatar.to_string();
    let s: String = avatar.clone().into();
    assert_eq!(s, text);
    let b: Vec<u8> = avatar.into();
    assert_eq!(b, text.into_bytes());
}

#[test]
fn builder_clone_builds_the_same_text() {
    let b = SvgAvatarBuilder::new().identifier("prefix").rings(Rings::Two);
    let c = b.clone();
    assert_eq!(b.build().to_string(), c.build().to_string());
}

#[test]
fn avatar_converts_into_its_document() {
    let avatar = SvgAvatarBuilder::new().identifier("foo").rings(Rings::Two).build();
    let text = avatar.to_string();
    let document: svg::Document = avatar.into();
    assert_eq!(document.to_string(), text);
    assert_eq!(text.matches("<path").count(), 16);
}
