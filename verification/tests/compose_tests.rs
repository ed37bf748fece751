use nanoterm::compose::{compose, Align, DrawCommand};
use nanoterm::geom::{center_vert, Rect};
use nanoterm::layout::select;
use nanoterm::num::FixedNum;
use nanoterm::quote::Quote;

fn frame_geom() -> Rect {
    Rect { x: 0, y: 0, width: 100, height: 60 }
}

fn sample_quote() -> Quote {
    Quote {
        price: FixedNum::Finite(1_234_560),
        change_1h: Some(FixedNum::Finite(500_000)),
        change_24h: FixedNum::Finite(2_000_000),
    }
}

fn all_text_lines(cmds: &[DrawCommand]) -> Vec<String> {
    let mut out = Vec::new();
    for c in cmds {
        if let DrawCommand::Text { lines, .. } = c {
            for l in lines {
                out.push(l.text.clone());
            }
        }
    }
    out
}

#[test]
fn frame_for_quote_without_1h_never_mentions_it() {
    let q = Quote { change_1h: None, ..sample_quote() };
    for h in [20u16, 34, 45, 60] {
        let p = select(h);
        let t = compose(&q, &p, frame_geom(), None);
        for text in all_text_lines(&t.commands) {
            assert!(!text.contains("Change 1h"));
        }
    }
}

#[test]
fn body_lists_price_separator_and_changes() {
    let q = sample_quote();
    let p = select(60);
    let t = compose(&q, &p, frame_geom(), None);
    let body = t
        .commands
        .iter()
        .filter_map(|c| match c {
            DrawCommand::Text { lines, align, .. } if lines.len() > 1 => {
                assert_eq!(*align, Align::Center);
                Some(lines)
            }
            _ => None,
        })
        .next()
        .expect("a body text command");
    assert_eq!(body.len(), 5);
    assert_eq!(body[0].text.as_str(), "Price: $1.23456");
    assert_eq!(body[1].text.as_str(), "");
    assert_eq!(body[2].text.as_str(), "Change 24h: % +2.00000");
    assert_eq!(body[3].text.as_str(), "");
    assert_eq!(body[4].text.as_str(), "Change 1h: % +0.50000");
}

#[test]
fn low_profile_hides_the_1h_change_even_when_present() {
    let q = sample_quote();
    let p = select(20);
    let t = compose(&q, &p, frame_geom(), None);
    for text in all_text_lines(&t.commands) {
        assert!(!text.contains("Change 1h"));
    }
}

#[test]
fn degenerate_profile_draws_only_the_notice() {
    let q = sample_quote();
    let p = select(18);
    let t = compose(&q, &p, frame_geom(), None);
    assert_eq!(t.commands.len(), 2);
    match &t.commands[0] {
        DrawCommand::Panel { rect, title } => {
            assert_eq!(*rect, frame_geom());
            assert_eq!(title.as_str(), "Nanoterm by Kurtsley");
        }
        _ => panic!("outer panel first"),
    }
    match &t.commands[1] {
        DrawCommand::Text { lines, .. } => {
            assert_eq!(lines.len(), 1);
            assert_eq!(lines[0].text.as_str(), "Terminal too small!");
        }
        _ => panic!("notice text second"),
    }
}

#[test]
fn footer_always_offers_the_quit_hint() {
    let q = sample_quote();
    let p = select(60);
    let t = compose(&q, &p, frame_geom(), None);
    let last = t.commands.last().expect("commands");
    match last {
        DrawCommand::Text { lines, .. } => {
            assert_eq!(lines.len(), 3);
            assert_eq!(lines[0].text.as_str(), "press 'q' to exit");
            assert_eq!(lines[1].text.as_str(), "");
            assert_eq!(lines[2].text.as_str(), "made with tui-rs - https://github.com/fdehau/tui-rs");
        }
        _ => panic!("footer text last"),
    }
}

#[test]
fn non_finite_price_renders_the_placeholder() {
    let q = Quote { price: FixedNum::NonFinite, ..sample_quote() };
    let p = select(60);
    let t = compose(&q, &p, frame_geom(), None);
    let texts = all_text_lines(&t.commands);
    assert!(texts.iter().any(|t| t == "Price: $\u{2014}"));
}

#[test]
fn logo_is_blitted_into_the_image_pane() {
    let q = sample_quote();
    let p = select(60);
    // a wide solid image: white, 4 by 2 pixels
    let mut pixels = Vec::new();
    for _ in 0..8 {
        pixels.extend_from_slice(&[255, 255, 255, 255]);
    }
    let logo = nanoterm::blit::RasterImage { width: 4, height: 2, pixels };
    let t = compose(&q, &p, frame_geom(), Some(&logo));
    let image = t
        .commands
        .iter()
        .find_map(|c| match c {
            DrawCommand::Image { rect, rows, cols, cells } => Some((rect, rows, cols, cells)),
            _ => None,
        })
        .expect("an image command");
    let (rect, rows, cols, cells) = image;
    assert_eq!(*rows, rect.height);
    assert_eq!(*cols, rect.width);
    assert_eq!(cells.len(), *rows as usize * *cols as usize);
    // some cells carry the image, and the letterbox bands are empty
    assert!(cells.iter().any(|c| *c == nanoterm::blit::Cell::Rgb(255, 255, 255)));
    assert!(cells.iter().any(|c| *c == nanoterm::blit::Cell::Empty));
}

#[test]
fn frame_without_logo_has_no_image_command() {
    let q = sample_quote();
    let p = select(60);
    let t = compose(&q, &p, frame_geom(), None);
    assert!(!t
        .commands
        .iter()
        .any(|c| matches!(c, DrawCommand::Image { .. })));
}

#[test]
fn center_vert_splits_the_leftover_evenly() {
    assert_eq!(center_vert(10, 4), (3, 3));
    assert_eq!(center_vert(9, 4), (2, 3));
    assert_eq!(center_vert(4, 4), (0, 0));
    assert_eq!(center_vert(3, 5), (0, 0));
}
