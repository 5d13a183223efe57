use std::time::{Duration, Instant};

use editor_core::buffer::{Buf, InvalidData};
use editor_core::output::Output;
use editor_core::rows::EditorRows;
use editor_core::screen::{document_info_text, draw_status_line, position_info_text};
use editor_core::status::StatusMessage;
use editor_core::text::{chars_of, find_from, push_decimal, rfind_before, string_of};

fn chars(s: &str) -> Vec<char> {
    s.chars().collect()
}

fn text(v: &[char]) -> String {
    v.iter().collect()
}

fn expired(output: &mut Output) {
    output.status_message.message_after(6_000_000_000);
}

#[test]
fn buffer_gathers_text_and_flushes() {
    let mut buf = Buf::new();
    buf.push_chr('a');
    buf.push_str("bc");
    buf.push_chars(&chars("de"));
    assert_eq!(buf.write("f\u{e9}".as_bytes()), Ok(3));
    assert_eq!(buf.flush(), "abcdef\u{e9}");
    assert_eq!(buf.flush(), "");
}

#[test]
fn buffer_refuses_invalid_utf8() {
    let mut buf = Buf::new();
    buf.push_str("ok");
    assert_eq!(buf.write(&[0x66, 0xff, 0x66]), Err(InvalidData));
    assert_eq!(buf.write(&[0xc3]), Err(InvalidData));
    assert_eq!(buf.flush(), "ok");
}

#[test]
fn text_converts_both_ways() {
    assert_eq!(chars_of("a\u{1F525}b"), vec!['a', '\u{1F525}', 'b']);
    assert_eq!(string_of(&vec!['x', '\t', 'y']), "x\ty");
    assert_eq!(string_of(&Vec::new()), "");
}

#[test]
fn decimal_numerals() {
    for (n, s) in [(0u128, "0"), (7, "7"), (10, "10"), (4096, "4096"), (18446744073709551616, "18446744073709551616")] {
        let mut out = chars("n=");
        push_decimal(&mut out, n);
        assert_eq!(text(&out), format!("n={}", s));
    }
}

#[test]
fn find_from_gives_the_first_occurrence() {
    let hay = chars("abcabcabc");
    assert_eq!(find_from(&hay, &chars("abc"), 0), Some(0));
    assert_eq!(find_from(&hay, &chars("abc"), 1), Some(3));
    assert_eq!(find_from(&hay, &chars("abc"), 6), Some(6));
    assert_eq!(find_from(&hay, &chars("abc"), 7), None);
    assert_eq!(find_from(&hay, &chars("cab"), 0), Some(2));
    assert_eq!(find_from(&hay, &chars("x"), 0), None);
    assert_eq!(find_from(&hay, &chars(""), 4), Some(4));
    assert_eq!(find_from(&hay, &chars(""), 9), Some(9));
    assert_eq!(find_from(&hay, &chars(""), 10), None);
    assert_eq!(find_from(&chars("ab"), &chars("abc"), 0), None);
}

#[test]
fn rfind_before_gives_the_last_occurrence() {
    let hay = chars("abcabcabc");
    assert_eq!(rfind_before(&hay, &chars("abc"), 9), Some(6));
    assert_eq!(rfind_before(&hay, &chars("abc"), 8), Some(3));
    assert_eq!(rfind_before(&hay, &chars("abc"), 3), Some(0));
    assert_eq!(rfind_before(&hay, &chars("abc"), 2), None);
    assert_eq!(rfind_before(&hay, &chars(""), 5), Some(5));
    assert_eq!(rfind_before(&hay, &chars("zz"), 9), None);
}

#[test]
fn status_message_is_read_within_its_lifetime() {
    let mut status = StatusMessage::new("hello");
    assert_eq!(status.message().map(|m| m.as_str()), Some("hello"));
    status.set_message("again".to_string());
    assert_eq!(status.message_after(5_000_000_000).map(|m| m.as_str()), Some("again"));
    assert_eq!(status.message().map(|m| m.as_str()), Some("again"));
}

#[test]
fn status_message_runs_out_on_a_late_read() {
    let mut status = StatusMessage::new("hello");
    assert_eq!(status.message_after(5_000_000_001), None);
    assert_eq!(status.message_after(0), None);
    assert_eq!(status.message(), None);
    status.set_message("back".to_string());
    assert_eq!(status.message().map(|m| m.as_str()), Some("back"));
}

#[test]
fn document_info_names_file_state_and_lines() {
    let name = "notes.txt".to_string();
    assert_eq!(text(&document_info_text(Some(&name), 0, 12)), "notes.txt  -- 12 lines");
    assert_eq!(text(&document_info_text(Some(&name), 3, 1)), "notes.txt Modified! -- 1 lines");
    assert_eq!(text(&document_info_text(None, 0, 0)), "[No Name]  -- 0 lines");
}

#[test]
fn position_info_counts_from_one() {
    let rows = EditorRows::from_file("f".to_string(), "abc\nde");
    assert_eq!(text(&position_info_text(&rows, 1, 0)), "col 2/4 row 1/3");
    assert_eq!(text(&position_info_text(&rows, 0, 2)), "col 1/1 row 3/3");
    assert_eq!(text(&position_info_text(&EditorRows::new(), 0, 0)), "Empty File");
}

#[test]
fn status_line_is_as_wide_as_the_screen() {
    let mut buf = Buf::new();
    draw_status_line(&mut buf, &chars("left"), &chars("right"), 12);
    assert_eq!(buf.flush(), "left   right");
    draw_status_line(&mut buf, &chars("a long text at the left"), &chars("right"), 12);
    assert_eq!(buf.flush(), "a long text right");
    draw_status_line(&mut buf, &chars("left"), &chars("right"), 3);
    assert_eq!(buf.flush(), "lefright");
    draw_status_line(&mut buf, &chars("left"), &chars("right"), 9);
    assert_eq!(buf.flush(), "leftright");
}

#[test]
fn clear_screen_wipes_and_goes_home() {
    let output = Output::new((80, 25), EditorRows::new());
    assert_eq!(output.clear_screen(), "\x1b[2J\x1b[1;1H");
}

#[test]
fn frame_of_a_small_document() {
    let rows = EditorRows::from_file("dir/notes.txt".to_string(), "hello\n\tworld");
    let mut output = Output::new((20, 4), rows);
    expired(&mut output);
    output.cursor_controller.cursor_x = 1;
    output.cursor_controller.cursor_y = 1;
    let frame = output.refresh();
    let expected = [
        "\x1b[1;1H",
        "hello\x1b[K\n\r",
        "        world\x1b[K\n\r",
        "\u{1F525}\x1b[K\n\r",
        "\x1b[7m",
        "notes.txt  -- 2 line",
        "col 2/7 row 2/3",
        "\x1b[0m",
        "\x1b[2;9H",
    ]
    .concat();
    assert_eq!(frame, expected);
    assert_eq!(output.cursor_controller.render_x, 8);
}

#[test]
fn frame_pads_the_status_bar() {
    let rows = EditorRows::from_file("n".to_string(), "x");
    let mut output = Output::new((40, 2), rows);
    expired(&mut output);
    output.insert_char('y');
    let frame = output.refresh();
    let bar = format!("n Modified! -- 1 lines{}col 2/3 row 1/2", " ".repeat(40 - 22 - 15));
    assert_eq!(frame, format!("\x1b[1;1Hyx\x1b[K\n\r\x1b[7m{}\x1b[0m\x1b[1;2H", bar));
}

#[test]
fn frame_shows_the_status_message_while_it_lasts() {
    let mut output = Output::new((60, 2), EditorRows::from_file("n".to_string(), "x"));
    let frame = output.refresh();
    let help = "HELP: CTRL + {q: exits, s: save, f: search}";
    let bar = format!("{}{}col 1/2 row 1/2", help, " ".repeat(60 - 43 - 15));
    assert_eq!(frame, format!("\x1b[1;1Hx\x1b[K\n\r\x1b[7m{}\x1b[0m\x1b[1;1H", bar));
}

#[test]
fn frame_of_an_empty_document_has_the_banner() {
    let mut output = Output::new((40, 5), EditorRows::new());
    expired(&mut output);
    let frame = output.refresh();
    let welcome = "\u{1F525} Editor --- Version 0.1.0";
    let hint = "CTRL + q to quit";
    let expected = [
        "\x1b[1;1H".to_string(),
        format!("\u{1F525}{}{}\x1b[K\n\r", " ".repeat((40 - 26) / 2 - 2), welcome),
        "\u{1F525}\x1b[K\n\r".to_string(),
        format!("\u{1F525}{}{}\x1b[K\n\r", " ".repeat((40 - 16) / 2), hint),
        "\u{1F525}\x1b[K\n\r".to_string(),
        "\x1b[7m".to_string(),
        format!("[No Name]  -- 0 lines{}Empty File", " ".repeat(40 - 21 - 10)),
        "\x1b[0m".to_string(),
        "\x1b[1;1H".to_string(),
    ]
    .concat();
    assert_eq!(frame, expected);
}

#[test]
fn banner_is_cut_to_a_narrow_screen() {
    let mut output = Output::new((10, 5), EditorRows::new());
    expired(&mut output);
    let frame = output.refresh();
    assert!(frame.starts_with("\x1b[1;1H\u{1F525}\u{1F525} Editor -\x1b[K\n\r\u{1F525}\x1b[K\n\r\u{1F525}CTRL + q t\x1b[K\n\r"));
}

#[test]
fn frame_shows_the_part_of_the_document_in_the_viewport() {
    let text = (0..30).map(|i| format!("line {:02} abcdefghijklmnopqrstuvwxyz", i)).collect::<Vec<_>>().join("\n");
    let mut output = Output::new((10, 4), EditorRows::from_file("n".to_string(), &text));
    expired(&mut output);
    output.cursor_controller.cursor_x = 20;
    output.cursor_controller.cursor_y = 17;
    let frame = output.refresh();
    assert_eq!((output.cursor_controller.row_offset, output.cursor_controller.col_offset), (15, 11));
    let row = "defghijklm\x1b[K\n\r";
    assert!(frame.starts_with(&format!("\x1b[1;1H{}{}{}\x1b[7m", row, row, row)), "{:?}", frame);
    assert!(frame.ends_with("\x1b[0m\x1b[3;10H"));
}

#[test]
fn screen_rows_past_the_document_show_the_marker() {
    let mut output = Output::new((10, 4), EditorRows::from_file("n".to_string(), "r0\nr1\nr2\nr3\nr4"));
    expired(&mut output);
    output.cursor_controller.cursor_y = 5;
    let frame = output.refresh();
    assert_eq!(output.cursor_controller.row_offset, 3);
    assert!(
        frame.starts_with("\x1b[1;1Hr3\x1b[K\n\rr4\x1b[K\n\r\u{1F525}\x1b[K\n\r\x1b[7m"),
        "{:?}",
        frame
    );
    assert!(frame.ends_with("\x1b[3;1H"));
}

#[test]
fn a_new_stamp_makes_an_old_message_fresh() {
    let now = Instant::now();
    let long_ago = now.checked_sub(Duration::from_secs(6)).unwrap_or(now);
    let mut status = StatusMessage::new_at("old", long_ago);
    if long_ago != now {
        assert_eq!(status.message(), None);
    }
    let mut status = StatusMessage::new_at("old", long_ago);
    status.set_message_at("new".to_string(), Instant::now());
    assert_eq!(status.message().map(|m| m.as_str()), Some("new"));
    let mut status = StatusMessage::new_at("old", long_ago);
    status.set_message("newer".to_string());
    assert_eq!(status.message().map(|m| m.as_str()), Some("newer"));
    let mut status = StatusMessage::new("fresh");
    assert_eq!(status.message().map(|m| m.as_str()), Some("fresh"));
}

#[test]
fn a_stamp_of_the_past_lets_the_message_run_out() {
    let now = Instant::now();
    if let Some(long_ago) = now.checked_sub(Duration::from_secs(6)) {
        let mut status = StatusMessage::new("fresh");
        status.set_message_at("stale".to_string(), long_ago);
        assert_eq!(status.message(), None);
        assert_eq!(status.message(), None);
    }
}

#[test]
fn refresh_puts_the_cursor_into_bounds_and_empties_the_buffer() {
    let mut output = Output::new((10, 4), EditorRows::from_file("n".to_string(), "a\tb"));
    output.cursor_controller.cursor_x = 9;
    output.buffer.push_str("left over");
    let frame = output.refresh();
    assert!(frame.starts_with("left over\x1b[1;1H"));
    assert_eq!(output.cursor_controller.cursor_x, 3);
    assert_eq!(output.refresh().find("left over"), None);
}
