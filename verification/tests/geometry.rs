use leveler_tui::geometry::{horizontal_inset, side_by_side, Rect};
use leveler_tui::render::pages::app_frame;
use leveler_tui::secondary::layout;

fn rect(x: u16, y: u16, width: u16, height: u16) -> Rect {
    Rect { x, y, width, height }
}

#[test]
fn an_inset_takes_both_sides() {
    assert_eq!(horizontal_inset(rect(3, 1, 10, 4), 2), rect(5, 1, 6, 4));
    assert_eq!(horizontal_inset(rect(3, 1, 3, 4), 2), rect(5, 1, 0, 4));
}

#[test]
fn panes_share_the_columns_to_the_nearest_one() {
    for percent in [0u16, 1, 33, 40, 45, 50, 67, 99, 100] {
        for width in (0u16..400).chain([1000, 9999, 32_767, 65_000]) {
            for x in [0u16, 7, 301] {
                let (list, detail) = side_by_side(rect(x, 2, width, 9), percent);
                let first = ((u32::from(percent) * u32::from(width) + 50) / 100) as u16;
                assert_eq!(list, rect(x, 2, first, 9), "{percent}% of {width} at {x}");
                assert_eq!(detail, rect(x + first, 2, width - first, 9));
            }
        }
    }
}

#[test]
fn page_slots_are_the_rows_of_the_area() {
    for height in (5u16..120).chain([1000, 32_767, 65_000]) {
        for composer in [0u16, 1, 3, 10] {
            if composer + 5 > height {
                continue;
            }
            for y in [0u16, 4, 500] {
                let l = layout(rect(1, y, 40, height), composer);
                let body = height - 4 - composer;
                assert_eq!(l.header, rect(1, y, 40, 1), "height {height} composer {composer}");
                assert_eq!(l.rule_top, rect(1, y + 1, 40, 1));
                assert_eq!(l.content, rect(3, y + 2, 36, body));
                assert_eq!(l.composer, rect(3, y + 2 + body, 36, composer));
                assert_eq!(l.rule_bottom, rect(1, y + height - 2, 40, 1));
                assert_eq!(l.footer, rect(1, y + height - 1, 40, 1));
            }
        }
    }
}

#[test]
fn slots_stay_in_an_area_without_room() {
    for height in 0u16..6 {
        let l = layout(rect(0, 3, 20, height), 9);
        for part in [l.header, l.rule_top, l.content, l.composer, l.rule_bottom, l.footer] {
            assert!(part.y >= 3 && part.y + part.height <= 3 + height, "{part:?}");
        }
    }
}

#[test]
fn the_app_frame_keeps_one_row_for_each_strip() {
    for height in (3u16..200).chain([5000, 60_000]) {
        let (head, body, status) = app_frame(rect(2, 6, 50, height));
        assert_eq!(head, rect(2, 6, 50, 1));
        assert_eq!(body, rect(2, 7, 50, height - 2));
        assert_eq!(status, rect(2, 6 + height - 1, 50, 1));
    }
}

#[test]
fn an_area_without_room_is_still_tiled() {
    for height in (0u16..40).chain([64_000]) {
        for y in [0u16, 3, 700] {
            for composer in (0u16..14).chain([37, 300]) {
                let area = rect(0, y, 20, height);
                let l = layout(area, composer);
                let parts = [l.header, l.rule_top, l.content, l.composer, l.rule_bottom, l.footer];
                let mut at = y;
                for part in parts {
                    assert_eq!(part.y, at, "height {height} composer {composer}: {l:?}");
                    at += part.height;
                }
                assert_eq!(at, y + height, "height {height} composer {composer}: {l:?}");
                assert!(height == 0 || l.content.height >= 1, "{l:?}");
                assert!(l.composer.height <= composer, "{l:?}");
                for strip in [l.header, l.rule_top, l.rule_bottom, l.footer] {
                    assert!(strip.height <= 1, "{l:?}");
                }
            }
            let (head, body, status) = app_frame(rect(0, y, 20, height));
            assert_eq!((head.y, body.y), (y, y + head.height));
            assert_eq!(status.y, body.y + body.height);
            assert_eq!(status.y + status.height, y + height);
            assert!(head.height <= 1 && status.height <= 1);
            assert!(height == 0 || body.height >= 1, "height {height}: {body:?}");
        }
    }
}
