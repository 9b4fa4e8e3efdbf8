use toyterm::term::{Dimention, Term, DEFAULT_HEIGHT, DEFAULT_WIDTH};

fn blank(width: usize) -> Vec<Option<char>> {
    let mut row = Vec::new();
    for _ in 0..width {
        row.push(None);
    }
    row
}

fn cells(text: &str, width: usize) -> Vec<Option<char>> {
    let mut row: Vec<Option<char>> = text.chars().map(Some).collect();
    while row.len() < width {
        row.push(None);
    }
    row
}

fn assert_shape<T>(term: &Term<T>, width: u32, height: u32) {
    assert_eq!(term.width(), width);
    assert_eq!(term.height(), height);
    assert_eq!(term.buffers().len(), height as usize);
    for row in term.buffers().iter() {
        assert_eq!(row.len(), width as usize);
    }
    assert!(term.x() < width);
    assert!(term.y() < height);
}

#[test]
fn new_grid_has_default_size_and_is_blank() {
    let term: Term<char> = Term::new();
    assert_eq!(DEFAULT_WIDTH, 80);
    assert_eq!(DEFAULT_HEIGHT, 25);
    assert_shape(&term, 80, 25);
    assert_eq!((term.x(), term.y()), (0, 0));
    for row in term.buffers().iter() {
        assert_eq!(row, &blank(80));
    }
}

#[test]
fn default_grid_equals_new_grid() {
    let a: Term<u8> = Term::default();
    let b: Term<u8> = Term::new();
    assert_eq!(a.width(), b.width());
    assert_eq!(a.height(), b.height());
    assert_eq!((a.x(), a.y()), (b.x(), b.y()));
    assert_eq!(a.buffers(), b.buffers());
}

#[test]
fn sized_grid_is_blank() {
    let term: Term<char> = Term::with_size(3, 2);
    assert_shape(&term, 3, 2);
    assert_eq!((term.x(), term.y()), (0, 0));
    assert_eq!(term.buffers(), &vec![blank(3), blank(3)]);
}

#[test]
fn smallest_grid_scrolls_on_every_push() {
    let mut term: Term<char> = Term::with_size(1, 1);
    assert!(term.push_element(Some('a')).is_ok());
    assert_eq!((term.x(), term.y()), (0, 0));
    assert_eq!(term.buffers(), &vec![blank(1)]);
    assert_shape(&term, 1, 1);
}

#[test]
fn pushing_a_row_wraps_to_the_next_row() {
    let mut term: Term<char> = Term::with_size(3, 2);
    assert_eq!((term.x(), term.y()), (0, 0));
    assert!(term.push_element(Some('a')).is_ok());
    assert_eq!((term.x(), term.y()), (1, 0));
    assert!(term.push_element(Some('b')).is_ok());
    assert_eq!((term.x(), term.y()), (2, 0));
    assert!(term.push_element(Some('c')).is_ok());
    assert_eq!((term.x(), term.y()), (0, 1));
    assert_eq!(term.buffers()[0], cells("abc", 3));
    assert_eq!(term.buffers()[1], blank(3));
}

#[test]
fn line_feed_on_the_last_row_scrolls() {
    let mut term: Term<char> = Term::with_size(3, 2);
    for c in ['a', 'b', 'c'] {
        assert!(term.push_element(Some(c)).is_ok());
    }
    assert!(term.push_element(Some('d')).is_ok());
    assert_eq!((term.x(), term.y()), (1, 1));
    assert_eq!(term.buffers(), &vec![cells("abc", 3), cells("d", 3)]);
    term.line_feed();
    assert_eq!(term.y(), 1);
    assert_eq!(term.x(), 1);
    assert_eq!(term.buffers()[0], cells("d", 3));
    assert_eq!(term.buffers()[1], blank(3));
    assert_shape(&term, 3, 2);
}

#[test]
fn carriage_return_then_push_overwrites_column_zero() {
    let mut term: Term<char> = Term::with_size(3, 2);
    term.line_feed();
    assert!(term.push_element(Some('a')).is_ok());
    assert!(term.push_element(Some('b')).is_ok());
    assert_eq!((term.x(), term.y()), (2, 1));
    term.carriage_return();
    assert_eq!((term.x(), term.y()), (0, 1));
    assert!(term.push_element(Some('x')).is_ok());
    assert_eq!((term.x(), term.y()), (1, 1));
    assert_eq!(term.buffers(), &vec![blank(3), cells("xb", 3)]);
}

#[test]
fn carriage_return_keeps_the_row_and_the_cells() {
    let mut term: Term<char> = Term::with_size(4, 3);
    term.line_feed();
    assert!(term.push_element(Some('q')).is_ok());
    let before = term.buffers().clone();
    term.carriage_return();
    assert_eq!((term.x(), term.y()), (0, 1));
    assert_eq!(term.buffers(), &before);
    term.carriage_return();
    assert_eq!((term.x(), term.y()), (0, 1));
}

#[test]
fn line_feed_above_the_last_row_only_moves_the_cursor() {
    let mut term: Term<char> = Term::with_size(3, 3);
    assert!(term.push_element(Some('a')).is_ok());
    let before = term.buffers().clone();
    term.line_feed();
    assert_eq!((term.x(), term.y()), (1, 1));
    assert_eq!(term.buffers(), &before);
    term.line_feed();
    assert_eq!((term.x(), term.y()), (1, 2));
    assert_eq!(term.buffers(), &before);
}

#[test]
fn as_many_line_feeds_as_rows_scroll_once() {
    let mut term: Term<char> = Term::with_size(2, 3);
    assert!(term.push_element(Some('a')).is_ok());
    assert_eq!((term.x(), term.y()), (1, 0));
    assert_eq!(term.buffers(), &vec![cells("a", 2), blank(2), blank(2)]);
    term.line_feed();
    term.line_feed();
    assert_eq!((term.x(), term.y()), (1, 2));
    assert_eq!(term.buffers(), &vec![cells("a", 2), blank(2), blank(2)]);
    term.line_feed();
    assert_eq!((term.x(), term.y()), (1, 2));
    assert_eq!(term.buffers(), &vec![blank(2), blank(2), blank(2)]);
    assert_shape(&term, 2, 3);
}

#[test]
fn scrolling_moves_the_lower_rows_up() {
    let mut term: Term<char> = Term::with_size(2, 3);
    for c in ['a', 'b', 'c', 'd', 'e'] {
        assert!(term.push_element(Some(c)).is_ok());
    }
    assert_eq!((term.x(), term.y()), (1, 2));
    term.line_feed();
    assert_eq!((term.x(), term.y()), (1, 2));
    assert_eq!(term.buffers(), &vec![cells("cd", 2), cells("e", 2), blank(2)]);
}

#[test]
fn full_row_on_the_last_row_scrolls_it_up() {
    let mut term: Term<char> = Term::with_size(3, 2);
    term.line_feed();
    assert_eq!((term.x(), term.y()), (0, 1));
    for c in ['x', 'y', 'z'] {
        assert!(term.push_element(Some(c)).is_ok());
    }
    assert_eq!((term.x(), term.y()), (0, 1));
    assert_eq!(term.buffers(), &vec![cells("xyz", 3), blank(3)]);
}

#[test]
fn pushing_an_unset_cell_clears_it() {
    let mut term: Term<char> = Term::with_size(2, 2);
    assert!(term.push_element(Some('a')).is_ok());
    term.carriage_return();
    assert!(term.push_element(None).is_ok());
    assert_eq!((term.x(), term.y()), (1, 0));
    assert_eq!(term.buffers(), &vec![blank(2), blank(2)]);
}

#[test]
fn rotate_by_zero_changes_nothing() {
    let mut term: Term<char> = Term::with_size(2, 2);
    assert!(term.push_element(Some('a')).is_ok());
    assert!(term.rotate_buffer(0).is_ok());
    assert_eq!((term.x(), term.y()), (1, 0));
    assert_eq!(term.buffers(), &vec![cells("a", 2), blank(2)]);
}

#[test]
fn rotate_moves_rows_up_and_keeps_the_cursor() {
    let mut term: Term<char> = Term::with_size(2, 3);
    for c in ['a', 'b', 'c', 'd', 'e'] {
        assert!(term.push_element(Some(c)).is_ok());
    }
    assert_eq!(term.buffers(), &vec![cells("ab", 2), cells("cd", 2), cells("e", 2)]);
    assert!(term.rotate_buffer(1).is_ok());
    assert_eq!((term.x(), term.y()), (1, 2));
    assert_eq!(term.buffers(), &vec![cells("cd", 2), cells("e", 2), blank(2)]);
    assert!(term.rotate_buffer(2).is_ok());
    assert_eq!((term.x(), term.y()), (1, 2));
    assert_eq!(term.buffers(), &vec![blank(2), blank(2), blank(2)]);
    assert_shape(&term, 2, 3);
}

#[test]
fn rotate_by_more_than_the_height_blanks_the_grid() {
    let mut term: Term<char> = Term::with_size(2, 2);
    for c in ['a', 'b', 'c'] {
        assert!(term.push_element(Some(c)).is_ok());
    }
    assert!(term.rotate_buffer(5).is_ok());
    assert_eq!((term.x(), term.y()), (1, 1));
    assert_eq!(term.buffers(), &vec![blank(2), blank(2)]);
}

#[test]
fn rotate_in_steps_equals_rotate_at_once() {
    let mut a: Term<char> = Term::with_size(2, 4);
    let mut b: Term<char> = Term::with_size(2, 4);
    for c in ['a', 'b', 'c', 'd', 'e', 'f', 'g'] {
        assert!(a.push_element(Some(c)).is_ok());
        assert!(b.push_element(Some(c)).is_ok());
    }
    assert!(a.rotate_buffer(3).is_ok());
    for _ in 0..3 {
        assert!(b.rotate_buffer(1).is_ok());
    }
    assert_eq!(a.buffers(), b.buffers());
    assert_eq!(a.buffers(), &vec![cells("g", 2), blank(2), blank(2), blank(2)]);
}

#[test]
fn shape_and_cursor_hold_after_every_operation() {
    let mut term: Term<u8> = Term::with_size(5, 4);
    let mut seed: u32 = 12345;
    for step in 0..2000u32 {
        seed = seed.wrapping_mul(1103515245).wrapping_add(12345);
        match (seed >> 16) % 5 {
            0 => term.carriage_return(),
            1 => term.line_feed(),
            2 => assert!(term.rotate_buffer(((seed >> 8) % 6) as usize).is_ok()),
            3 => assert!(term.push_element(None).is_ok()),
            _ => assert!(term.push_element(Some((step % 256) as u8)).is_ok()),
        }
        assert_shape(&term, 5, 4);
    }
}

#[test]
fn default_grid_wraps_after_eighty_cells() {
    let mut term: Term<u8> = Term::new();
    for i in 0..80u8 {
        assert_eq!((term.x(), term.y()), (i as u32, 0));
        assert!(term.push_element(Some(i)).is_ok());
    }
    assert_eq!((term.x(), term.y()), (0, 1));
    let row: Vec<Option<u8>> = (0..80u8).map(Some).collect();
    assert_eq!(term.buffers()[0], row);
}

#[test]
fn default_grid_scrolls_after_twenty_five_line_feeds() {
    let mut term: Term<u8> = Term::new();
    assert!(term.push_element(Some(1)).is_ok());
    term.line_feed();
    assert!(term.push_element(Some(2)).is_ok());
    term.carriage_return();
    // cursor is on row 1; 23 feeds reach the last row, the next one scrolls
    for _ in 0..23 {
        term.line_feed();
    }
    assert_eq!(term.y(), 24);
    assert_eq!(term.buffers()[0][0], Some(1));
    assert_eq!(term.buffers()[1][1], Some(2));
    term.line_feed();
    assert_eq!(term.y(), 24);
    assert_eq!(term.buffers()[0][1], Some(2));
    assert_eq!(term.buffers()[0][0], None);
    assert_eq!(term.buffers().len(), 25);
}

#[test]
fn clone_is_independent() {
    let mut term: Term<char> = Term::with_size(2, 2);
    assert!(term.push_element(Some('a')).is_ok());
    let copy = term.clone();
    assert!(term.push_element(Some('b')).is_ok());
    assert_eq!(copy.buffers(), &vec![cells("a", 2), blank(2)]);
    assert_eq!((copy.x(), copy.y()), (1, 0));
    assert_eq!(term.buffers(), &vec![cells("ab", 2), blank(2)]);
}
