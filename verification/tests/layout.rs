use light_factory_tui::layout::{centered_rect, popup_layout, wrapped_rows, Rect};
use light_factory_tui::modal_view::{LineStyle, StyledLine};

fn line(text: &str) -> StyledLine {
    StyledLine { text: text.to_string(), style: LineStyle::Plain }
}

/// The wrapped rows of `body[..=upto]`, at the popup's inner width.
fn rows_through(body: &[StyledLine], upto: usize, width: u16) -> usize {
    body[..=upto].iter().map(|l| wrapped_rows(&l.text, width)).sum()
}

#[test]
fn draw_popup_sizes_itself_from_wrapped_rows_not_logical_lines() {
    let long = "wrap ".repeat(40);
    let body = vec![line(&long), line("TAIL-MARKER")];
    let area = Rect { x: 0, y: 0, width: 80, height: 24 };
    let layout = popup_layout(area, &body, None);
    let inner_width = layout.popup.width - 2;
    assert!(wrapped_rows(&long, inner_width) > 1, "the long line wraps");
    let (body_area, scroll) = layout.body.expect("the body has room");
    assert_eq!(scroll, 0);
    assert!(
        rows_through(&body, 1, inner_width) <= body_area.height as usize,
        "a line below a wrapping one was clipped out of the box"
    );
    let footer = layout.footer.expect("the pinned footer must survive");
    assert_eq!(footer.y, body_area.y + body_area.height);
}

#[test]
fn draw_popup_scrolls_wrapped_rows_to_keep_the_focused_line_visible() {
    let mut body: Vec<StyledLine> =
        (0..40).map(|i| line(&format!("{} row-{i:02}", "pad ".repeat(20)))).collect();
    body.push(line("FOCUSED-ROW"));
    let focus = body.len() - 1;
    let area = Rect { x: 0, y: 0, width: 80, height: 12 };
    let layout = popup_layout(area, &body, Some(focus));
    assert!(layout.popup.height <= area.height, "the box stops growing at the terminal");
    let inner_width = layout.popup.width - 2;
    let (body_area, scroll) = layout.body.expect("the body has room");
    let last_row = rows_through(&body, focus, inner_width) - 1;
    assert!(
        scroll as usize <= last_row && last_row < scroll as usize + body_area.height as usize,
        "the focused row scrolled off screen"
    );
    assert!(layout.footer.is_some(), "the pinned footer must survive");
}

#[test]
fn a_short_popup_is_centered_and_sized_to_its_rows() {
    let body = vec![line("one"), line("two")];
    let layout = popup_layout(Rect { x: 0, y: 0, width: 100, height: 40 }, &body, None);
    assert_eq!(layout.popup, Rect { x: 20, y: 17, width: 60, height: 5 });
    assert_eq!(layout.body, Some((Rect { x: 21, y: 18, width: 58, height: 2 }, 0)));
    assert_eq!(layout.footer, Some(Rect { x: 21, y: 20, width: 58, height: 1 }));
}

#[test]
fn a_popup_without_an_inside_draws_only_its_frame() {
    let layout = popup_layout(Rect { x: 0, y: 0, width: 4, height: 3 }, &vec![line("x")], Some(0));
    assert_eq!(layout.body, None);
    assert_eq!(layout.footer, None);
}

#[test]
fn an_empty_line_still_takes_a_row() {
    assert_eq!(wrapped_rows("", 10), 1);
    assert_eq!(wrapped_rows("abc", 0), 1);
}

#[test]
fn the_help_pane_is_centered() {
    let r = centered_rect(80, 90, Rect { x: 0, y: 0, width: 100, height: 50 });
    assert_eq!(r.width, 80);
    assert_eq!(r.x, 10);
    assert!(r.height >= 44 && r.height <= 46);
}

#[test]
fn a_centered_rect_sits_where_its_percentages_put_it() {
    for &(px, py) in &[(80u16, 90u16), (50, 50), (33, 67), (100, 100), (0, 10), (81, 19)] {
        for &(x, y, w, h) in &[(0u16, 0u16, 100u16, 50u16), (3, 2, 11, 7), (5, 9, 1, 1), (0, 0, 0, 0), (7, 1, 257, 63)] {
            let r = centered_rect(px, py, Rect { x, y, width: w, height: h });
            let (sx, sy) = (i64::from((100 - px) / 2), i64::from((100 - py) / 2));
            let near = |v: i64, hundredths: i64| (100 * v - hundredths).abs() <= 50;
            assert!(near(i64::from(r.x), 100 * i64::from(x) + i64::from(w) * sx), "{px} {py} {x} {w}: {r:?}");
            assert!(near(i64::from(r.x + r.width), 100 * i64::from(x) + i64::from(w) * (sx + i64::from(px))));
            assert!(near(i64::from(r.y), 100 * i64::from(y) + i64::from(h) * sy), "{px} {py} {y} {h}: {r:?}");
            assert!(near(i64::from(r.y + r.height), 100 * i64::from(y) + i64::from(h) * (sy + i64::from(py))));
        }
    }
}
