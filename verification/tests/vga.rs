use bootcore::failure::Failure;
use bootcore::traits::Write;
use bootcore::vga::{
    VgaConsole, CHR_SPACE, DEF_ATTR, DEF_BUF_ADDR, DEF_NUM_COLS, DEF_NUM_ROWS, MAX_PAGE,
    MAX_SHADOW_COLS, MAX_SHADOW_ROWS,
};

const BLANK: u16 = DEF_ATTR | CHR_SPACE;

fn cell(chr: u8) -> u16 {
    DEF_ATTR | chr as u16
}

fn console(cols: usize, rows: usize) -> VgaConsole {
    let mut c = VgaConsole::new(DEF_BUF_ADDR, cols, rows);
    c.init();
    c
}

fn screen(c: &VgaConsole, cells: usize) -> Vec<u16> {
    let mut text = vec![0xffffu16; cells];
    c.commit(&mut text);
    text
}

#[test]
fn vga_constants() {
    assert_eq!(DEF_BUF_ADDR, 0xb8000);
    assert_eq!((DEF_NUM_COLS, DEF_NUM_ROWS), (80, 25));
    assert_eq!(DEF_ATTR, 0x0700);
    assert_eq!(CHR_SPACE, 0x20);
    assert_eq!(MAX_PAGE, 1);
    assert_eq!((MAX_SHADOW_COLS, MAX_SHADOW_ROWS), (160, 50));
}

#[test]
fn new_console_starts_on_the_last_line() {
    let mut c = console(4, 3);
    assert!(c.get_trunc());
    assert_eq!(screen(&c, 12), vec![0u16; 12]);
    c.write_char(b'a');
    let mut expected = vec![0u16; 12];
    expected[8] = cell(b'a');
    assert_eq!(screen(&c, 12), expected);
}

#[test]
fn default_console_has_the_default_geometry() {
    let mut c = VgaConsole::defaults();
    c.init();
    c.write_char(b'x');
    let text = screen(&c, 80 * 25);
    assert_eq!(text[80 * 24], cell(b'x'));
    assert_eq!(text.iter().filter(|&&v| v != 0).count(), 1);
}

#[test]
fn characters_advance_the_cursor() {
    let mut c = console(4, 3);
    c.set_cursor_pos(0, 0);
    c.write_char(b'a');
    c.write_char(b'b');
    let text = screen(&c, 12);
    assert_eq!(&text[..3], &[cell(b'a'), cell(b'b'), 0]);
}

#[test]
fn line_feed_goes_to_the_start_of_the_next_line() {
    let mut c = console(4, 3);
    c.set_cursor_pos(2, 0);
    c.write_char(b'a');
    c.write_char(b'\n');
    c.write_char(b'b');
    let text = screen(&c, 12);
    assert_eq!(text[2], cell(b'a'));
    assert_eq!(text[4], cell(b'b'));
}

#[test]
fn carriage_return_goes_to_the_start_of_the_line() {
    let mut c = console(4, 3);
    c.set_cursor_pos(0, 1);
    c.write_char(b'a');
    c.write_char(b'b');
    c.write_char(b'\r');
    c.write_char(b'c');
    let text = screen(&c, 12);
    assert_eq!(&text[4..7], &[cell(b'c'), cell(b'b'), 0]);
}

#[test]
fn right_edge_breaks_the_line() {
    let mut c = console(2, 3);
    c.set_cursor_pos(0, 0);
    assert_eq!(c.write(b"abc"), Ok(3));
    let text = screen(&c, 6);
    assert_eq!(&text[..4], &[cell(b'a'), cell(b'b'), cell(b'c'), 0]);
}

#[test]
fn last_line_scrolls() {
    let mut c = console(2, 3);
    c.set_cursor_pos(0, 0);
    assert_eq!(c.write(b"abcdef"), Ok(6));
    assert_eq!(
        screen(&c, 6),
        vec![cell(b'c'), cell(b'd'), cell(b'e'), cell(b'f'), BLANK, BLANK]
    );
    c.write_char(b'g');
    assert_eq!(
        screen(&c, 6),
        vec![cell(b'c'), cell(b'd'), cell(b'e'), cell(b'f'), cell(b'g'), BLANK]
    );
}

#[test]
fn scroll_moves_lines_up_and_blanks_the_rest() {
    let mut c = console(2, 3);
    c.set_cursor_pos(0, 0);
    c.set_trunc(false);
    assert_eq!(c.write(b"abcde"), Ok(5));
    c.scroll_page(1);
    assert_eq!(screen(&c, 6), vec![cell(b'c'), cell(b'd'), cell(b'e'), 0, BLANK, BLANK]);
    c.scroll_page(0);
    assert_eq!(screen(&c, 6), vec![cell(b'c'), cell(b'd'), cell(b'e'), 0, BLANK, BLANK]);
    c.scroll_page(7);
    assert_eq!(screen(&c, 6), vec![BLANK, BLANK, BLANK, BLANK, BLANK, BLANK]);
}

#[test]
fn scroll_is_capped_at_all_lines_but_one() {
    let mut c = console(2, 3);
    c.set_cursor_pos(0, 0);
    assert_eq!(c.write(b"abcde"), Ok(5));
    c.scroll_page(2);
    let by_two = screen(&c, 6);
    assert_eq!(by_two, vec![cell(b'e'), 0, BLANK, BLANK, BLANK, BLANK]);
    let mut d = console(2, 3);
    d.set_cursor_pos(0, 0);
    assert_eq!(d.write(b"abcde"), Ok(5));
    d.scroll_page(usize::MAX);
    assert_eq!(screen(&d, 6), by_two);
}

#[test]
fn clear_blanks_the_screen_and_keeps_the_cursor() {
    let mut c = console(3, 2);
    c.set_cursor_pos(1, 0);
    assert_eq!(c.write(b"ab\ncd"), Ok(5));
    c.set_cursor_pos(1, 1);
    c.clear();
    assert_eq!(screen(&c, 6), vec![BLANK; 6]);
    c.write_char(b'z');
    let mut expected = vec![BLANK; 6];
    expected[4] = cell(b'z');
    assert_eq!(screen(&c, 6), expected);
}

#[test]
fn clear_of_a_single_line_changes_nothing() {
    let mut c = console(3, 1);
    assert_eq!(c.write(b"ab"), Ok(2));
    c.clear();
    assert_eq!(screen(&c, 3), vec![cell(b'a'), cell(b'b'), 0]);
}

#[test]
fn cursor_position_is_clamped() {
    let mut c = console(4, 3);
    c.set_cursor_pos(100, 100);
    c.write_char(b'a');
    let mut expected = vec![0u16; 12];
    expected[7] = cell(b'a');
    expected[8] = BLANK;
    expected[9] = BLANK;
    expected[10] = BLANK;
    expected[11] = BLANK;
    assert_eq!(screen(&c, 12), expected);
    c.set_cursor_pos(3, 0);
    c.write_char(b'b');
    assert_eq!(screen(&c, 12)[3], cell(b'b'));
}

#[test]
fn truncating_write_shows_the_tail() {
    let mut c = console(2, 2);
    c.set_cursor_pos(0, 0);
    assert_eq!(c.write(b"abcdefg"), Ok(4));
    assert_eq!(screen(&c, 4), vec![cell(b'f'), cell(b'g'), BLANK, BLANK]);
}

#[test]
fn full_write_shows_everything() {
    let mut c = console(2, 2);
    c.set_cursor_pos(0, 0);
    c.set_trunc(false);
    assert!(!c.get_trunc());
    assert_eq!(c.write(b"abcdefg"), Ok(7));
    assert_eq!(screen(&c, 4), vec![cell(b'e'), cell(b'f'), cell(b'g'), BLANK]);
}

#[test]
fn empty_write_changes_nothing() {
    let mut c = console(2, 2);
    let res: Result<usize, Failure> = c.write(b"");
    assert_eq!(res, Ok(0));
    assert_eq!(screen(&c, 4), vec![0u16; 4]);
}

#[test]
fn commit_leaves_the_rest_of_the_text_buffer_alone() {
    let mut c = console(2, 2);
    c.set_cursor_pos(0, 0);
    c.write_char(b'a');
    let mut text = vec![0xeeeeu16; 7];
    c.commit(&mut text);
    assert_eq!(text, vec![cell(b'a'), 0, 0, 0, 0xeeee, 0xeeee, 0xeeee]);
}

#[test]
fn write_str_writes_the_bytes_of_the_string() {
    let mut c = console(4, 2);
    c.set_cursor_pos(0, 0);
    assert_eq!(c.write_str("ok\n!"), Ok(4));
    assert_eq!(screen(&c, 8), vec![cell(b'o'), cell(b'k'), 0, 0, cell(b'!'), 0, 0, 0]);
}

#[test]
fn console_reports_its_geometry_and_cursor() {
    let mut c = VgaConsole::new(0xb8000, 4, 3);
    assert_eq!(c.dimensions(), (4, 3));
    assert_eq!(c.cursor(), (0, 2));
    assert_eq!(c.text_address(), 0xb8000);
    assert!(!c.is_ready());
    c.init();
    assert!(c.is_ready());
    c.write_char(b'a');
    assert_eq!(c.cursor(), (1, 2));
    c.write_char(b'\n');
    assert_eq!(c.cursor(), (0, 2));
    c.set_cursor_pos(9, 1);
    assert_eq!(c.cursor(), (3, 1));
    c.write_char(b'b');
    assert_eq!(c.cursor(), (0, 2));
    c.write_char(b'c');
    c.write_char(b'\r');
    assert_eq!(c.cursor(), (0, 2));
}

#[test]
fn console_outside_the_shadow_buffer_is_not_ready() {
    assert!(!VgaConsole::new(0xb8000, 161, 25).is_ready());
    assert!(!VgaConsole::new(0xb8000, 80, 51).is_ready());
    assert!(!VgaConsole::new(0xb8000, 0, 25).is_ready());
    let mut largest = VgaConsole::new(0xb8000, 160, 50);
    largest.init();
    assert!(largest.is_ready());
    assert_eq!(screen(&largest, 8000), vec![0u16; 8000]);
}
