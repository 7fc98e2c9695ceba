use rmux::{centered_rect, pane_areas, pane_frame, screen_areas, Area, LayoutKind};

fn area(x: u16, y: u16, width: u16, height: u16) -> Area {
    Area { x, y, width, height }
}

#[test]
fn frame_inside_is_one_cell_in() {
    assert_eq!(pane_frame(area(0, 0, 10, 5)), (area(1, 1, 8, 3), 3, 8));
    assert_eq!(pane_frame(area(4, 2, 2, 2)), (area(5, 3, 0, 0), 1, 1));
    assert_eq!(pane_frame(area(4, 2, 1, 1)), (area(5, 3, 0, 0), 1, 1));
    assert_eq!(pane_frame(area(4, 2, 0, 0)), (area(4, 2, 0, 0), 1, 1));
}

#[test]
fn screen_splits_into_body_and_status() {
    let (body, status) = screen_areas(area(0, 0, 80, 24));
    assert_eq!(body, area(0, 0, 80, 23));
    assert_eq!(status, area(0, 23, 80, 1));
    let (body, status) = screen_areas(area(3, 5, 10, 2));
    assert_eq!(body, area(3, 5, 10, 1));
    assert_eq!(status, area(3, 6, 10, 1));
}

#[test]
fn panes_share_the_body_evenly() {
    let r = pane_areas(area(0, 0, 100, 10), LayoutKind::Horizontal, 2);
    assert_eq!(r, vec![area(0, 0, 50, 10), area(50, 0, 50, 10)]);
    let r = pane_areas(area(0, 0, 100, 10), LayoutKind::Vertical, 2);
    assert_eq!(r, vec![area(0, 0, 100, 5), area(0, 5, 100, 5)]);
    assert_eq!(pane_areas(area(0, 0, 100, 10), LayoutKind::Vertical, 0).len(), 1);
}

#[test]
fn tiny_panes_still_get_a_cell() {
    let r = pane_areas(area(0, 0, 4, 3), LayoutKind::Horizontal, 4);
    assert_eq!(r.len(), 4);
    for a in r {
        let (_, rows, cols) = pane_frame(a);
        assert!(rows >= 1 && cols >= 1);
    }
}

#[test]
fn overlay_is_centred() {
    let r = centered_rect(80, 3, area(0, 0, 100, 24));
    assert_eq!(r.x, 10);
    assert_eq!(r.width, 80);
    assert_eq!(r.height, 3);
    assert!(r.y + r.height <= 24);
    let r = centered_rect(80, 3, area(0, 0, 100, 40));
    assert_eq!((r.x, r.width, r.height), (10, 80, 3));
    assert!(r.y + 3 <= 40);
    let r = centered_rect(80, 3, area(7, 2, 33, 10));
    assert_eq!(r.width, 26);
    assert_eq!(r.x, 7 + 3);
    assert!(r.y >= 2 && r.y <= 12);
}
