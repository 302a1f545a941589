use merlin_matrix::printer::{EditableText, HtmlMessageBuffer, PlainMessageBuffer};
use merlin_matrix::text::{join_strs, split_str};

#[test]
fn split_keeps_empty_pieces() {
    let parts = split_str("a<br><br>b<br>", "<br>");
    assert_eq!(parts, vec!["a".to_string(), String::new(), "b".to_string(), String::new()]);
    assert_eq!(split_str("", "\n"), vec![String::new()]);
    assert_eq!(split_str("abab", "ab"), vec![String::new(), String::new(), String::new()]);
}

#[test]
fn join_of_split_is_identity() {
    for s in ["", "a", "a\nb", "\n\n", "x\ny\n", "héllo\nwörld"] {
        assert_eq!(join_strs(&split_str(s, "\n"), "\n"), s);
    }
    assert_eq!(join_strs(&split_str("a<br>b<br>", "<br>"), "<br>"), "a<br>b<br>");
}

#[test]
fn plain_print_appends_to_last_line() {
    let mut b = PlainMessageBuffer::default();
    assert_eq!(b.text(), "");
    b.print("a\nb");
    assert_eq!(b.text(), "a\nb");
    b.print("c");
    assert_eq!(b.text(), "a\nbc");
    b.print("\nd");
    assert_eq!(b.text(), "a\nbc\nd");
}

#[test]
fn plain_println_starts_a_new_line() {
    let mut b = PlainMessageBuffer::default();
    b.println("first");
    assert_eq!(b.text(), "first");
    b.println("second");
    assert_eq!(b.text(), "first\nsecond");
    b.println("");
    assert_eq!(b.text(), "first\nsecond\n");
}

#[test]
fn plain_replace_discards_old_text() {
    let mut b = PlainMessageBuffer::default();
    b.print("old\ntext");
    b.replace("new");
    assert_eq!(b.text(), "new");
    b.print("er");
    assert_eq!(b.text(), "newer");
}

#[test]
fn html_buffer_keeps_bodies_apart() {
    let mut b = HtmlMessageBuffer::default();
    b.println("Latency: measuring", "Latency: <i>measuring</i>");
    assert_eq!(b.plain_text(), "Latency: measuring");
    assert_eq!(b.html_text(), "Latency: <i>measuring</i>");
    b.print_plain(" (1)");
    b.print_html("<br>x");
    assert_eq!(b.plain_text(), "Latency: measuring (1)");
    assert_eq!(b.html_text(), "Latency: <i>measuring</i><br>x");
}

#[test]
fn html_println_continues_the_plain_line() {
    // the plain body is printed on the same line, the HTML body on a new one
    let mut b = HtmlMessageBuffer::default();
    b.print("a", "b");
    b.println("c", "d");
    assert_eq!(b.plain_text(), "ac");
    assert_eq!(b.html_text(), "b<br>d");
    b.println_plain("e");
    assert_eq!(b.plain_text(), "ac\ne");
    assert_eq!(b.html_text(), "b<br>d");
}

#[test]
fn html_replace_variants() {
    let mut b = HtmlMessageBuffer::default();
    b.print("p", "h");
    b.replace_plain("P");
    assert_eq!(b.plain_text(), "P");
    assert_eq!(b.html_text(), "h");
    b.replace_html("H<br>I");
    assert_eq!(b.html_text(), "H<br>I");
    b.replace("x", "y");
    assert_eq!((b.plain_text(), b.html_text()), ("x".to_string(), "y".to_string()));
}

#[test]
fn editable_text_print_and_println() {
    let mut t = EditableText::new("a\nb", "x<br>y");
    assert_eq!(t.plain_text(), "a\nb");
    assert_eq!(t.html_text(), "x<br>y");
    t.print("c", "<i>z</i>");
    assert_eq!(t.plain_text(), "a\nbc");
    assert_eq!(t.html_text(), "x<br>y<i>z</i>");
    t.println("d", "e");
    assert_eq!(t.plain_text(), "a\nbc\nd");
    assert_eq!(t.html_text(), "x<br>y<i>z</i><br>e");
    t.replace("q", "r");
    assert_eq!((t.plain_text(), t.html_text()), ("q".to_string(), "r".to_string()));
}

#[test]
fn print_adds_a_line_per_line_break() {
    let mut b = PlainMessageBuffer::default();
    b.print("no break");
    assert_eq!(b.text().split('\n').count(), 1);
    b.print("x\ny\n");
    assert_eq!(b.text().split('\n').count(), 1 + 2);
    assert_eq!(b.text(), "no breakx\ny\n");
    b.print("");
    assert_eq!(b.text().split('\n').count(), 3);
}
