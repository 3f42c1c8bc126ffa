use nt_progress::cursor::CursorPosition;

#[test]
fn test_cursor_position_creation() {
    let pos = CursorPosition::new(5, 10);
    assert_eq!(pos.x, 5);
    assert_eq!(pos.y, 10);

    let origin = CursorPosition::origin();
    assert_eq!(origin.x, 0);
    assert_eq!(origin.y, 0);
}

#[test]
fn test_cursor_position_movement() {
    let pos = CursorPosition::new(5, 10);

    let right = pos.right(3);
    assert_eq!(right.x, 8);
    assert_eq!(right.y, 10);

    let left = pos.left(2);
    assert_eq!(left.x, 3);
    assert_eq!(left.y, 10);

    let down = pos.down(4);
    assert_eq!(down.x, 5);
    assert_eq!(down.y, 14);

    let up = pos.up(3);
    assert_eq!(up.x, 5);
    assert_eq!(up.y, 7);
}

#[test]
fn test_cursor_position_offset() {
    let pos = CursorPosition::new(5, 10);

    let offset = pos.offset(2, -3);
    assert_eq!(offset.x, 7);
    assert_eq!(offset.y, 7);

    let underflow = pos.offset(-10, -20);
    assert_eq!(underflow.x, 0);
    assert_eq!(underflow.y, 0);
}

#[test]
fn test_cursor_position_conversion() {
    let pos = CursorPosition::from((8, 12));
    assert_eq!(pos.x, 8);
    assert_eq!(pos.y, 12);

    let tuple = pos.as_tuple();
    assert_eq!(tuple, (8, 12));
}

#[test]
fn test_cursor_position_display() {
    let pos = CursorPosition::new(5, 10);
    assert_eq!(pos.to_string(), "(5, 10)");
}

#[test]
fn moves_stop_at_the_edges_and_come_back() {
    let pos = CursorPosition::new(65530, 2);
    assert_eq!(pos.right(10).x, 65535);
    assert_eq!(pos.right(3).left(3), pos);
    assert_eq!(pos.up(5).y, 0);
    assert_eq!(pos.offset(0, 0), pos);
}

#[test]
fn large_moves_saturate() {
    let pos = CursorPosition::new(5, 10);
    assert_eq!(pos.right(40000), CursorPosition::new(40005, 10));
    assert_eq!(pos.left(40000), CursorPosition::new(0, 10));
    assert_eq!(pos.down(65535), CursorPosition::new(5, 65535));
    assert_eq!(pos.up(32768), CursorPosition::new(5, 0));
}
