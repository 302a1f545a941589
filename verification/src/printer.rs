//! Line buffers behind the bot's printer-like replies. A buffer keeps its text
//! as a list of lines; printing appends to the last line, printing a line
//! starts new ones, and replacing discards what was there. The plain buffer
//! separates lines with a newline, the HTML one with `<br>`.
use vstd::prelude::*;

use crate::text::{
    join, join_strs, lemma_join_concat, lemma_join_extend_last, lemma_join_split,
    lemma_split_len, lemma_split_nonempty, occurrences, split, split_str,
};

verus! {

/// The line separator of plain text.
pub open spec fn newline() -> Seq<char> {
    seq!['\n']
}

/// The line separator of HTML text.
pub open spec fn html_break() -> Seq<char> {
    seq!['<', 'b', 'r', '>']
}

proof fn lemma_newline()
    ensures
        "\n"@ == newline(),
{
    reveal_strlit("\n");
    assert("\n"@ =~= newline());
}

proof fn lemma_html_break()
    ensures
        "<br>"@ == html_break(),
{
    reveal_strlit("<br>");
    assert("<br>"@ =~= html_break());
}

/// Lines after printing `content` at the end of `lines`: its first piece
/// continues the last line, the others become new lines.
pub open spec fn pushed(lines: Seq<Seq<char>>, content: Seq<char>, sep: Seq<char>) -> Seq<Seq<char>> {
    let p = split(content, sep);
    if lines.len() > 0 {
        lines.drop_last() + seq![lines.last() + p[0]] + p.drop_first()
    } else {
        p
    }
}

/// Lines after printing `content` on new lines after `lines`.
pub open spec fn pushed_ln(lines: Seq<Seq<char>>, content: Seq<char>, sep: Seq<char>) -> Seq<
    Seq<char>,
> {
    lines + split(content, sep)
}

/// Text of `lines` once printed `content` at its end is the old text followed by `content`.
pub proof fn law_print_appends(lines: Seq<Seq<char>>, content: Seq<char>, sep: Seq<char>)
    ensures
        join(pushed(lines, content, sep), sep) == join(lines, sep) + content,
{
    let p = split(content, sep);
    lemma_split_nonempty(content, sep);
    lemma_join_split(content, sep);
    if lines.len() == 0 {
        assert(Seq::<char>::empty() + content =~= content);
    } else {
        let extended = lines.update(lines.len() - 1, lines.last() + p[0]);
        assert(lines.drop_last() + seq![lines.last() + p[0]] =~= extended);
        lemma_join_extend_last(lines, p[0], sep);
        if p.len() == 1 {
            assert(p.drop_first() =~= Seq::<Seq<char>>::empty());
            assert(extended + p.drop_first() =~= extended);
        } else {
            lemma_join_concat(extended, p.drop_first(), sep);
            assert(join(lines, sep) + p[0] + sep + join(p.drop_first(), sep) =~= join(lines, sep) + (
            p[0] + sep + join(p.drop_first(), sep)));
        }
    }
}

/// Printing `content` on a new line puts one separator between the old text
/// and `content`, unless there was no line before.
pub proof fn law_println_appends_line(lines: Seq<Seq<char>>, content: Seq<char>, sep: Seq<char>)
    ensures
        join(pushed_ln(lines, content, sep), sep) == if lines.len() > 0 {
            join(lines, sep) + sep + content
        } else {
            content
        },
{
    lemma_split_nonempty(content, sep);
    lemma_join_split(content, sep);
    if lines.len() == 0 {
        assert(lines + split(content, sep) =~= split(content, sep));
    } else {
        lemma_join_concat(lines, split(content, sep), sep);
    }
}

/// Printing `content` continues the last line and starts a new line at each
/// separator in it: the number of lines becomes the old number, at least one,
/// plus the number of separators in `content`, and the lines before the last
/// stay as they were.
pub proof fn law_print_line_count(lines: Seq<Seq<char>>, content: Seq<char>, sep: Seq<char>)
    ensures
        pushed(lines, content, sep).len() == (if lines.len() > 0 {
            lines.len()
        } else {
            1
        }) + occurrences(content, sep),
        forall|i: int| 0 <= i < lines.len() - 1 ==> #[trigger] pushed(lines, content, sep)[i] == lines[i],
{
    lemma_split_len(content, sep);
}

/// Printing `content` on a new line adds one line, and one more for each
/// separator in `content`, after the lines there were, which stay as they
/// were.
pub proof fn law_println_line_count(lines: Seq<Seq<char>>, content: Seq<char>, sep: Seq<char>)
    ensures
        pushed_ln(lines, content, sep).len() == lines.len() + 1 + occurrences(content, sep),
        forall|i: int| 0 <= i < lines.len() ==> #[trigger] pushed_ln(lines, content, sep)[i] == lines[i],
{
    lemma_split_len(content, sep);
}

/// Replacing the lines with `content` makes the text exactly `content`.
pub proof fn law_replace_sets_text(content: Seq<char>, sep: Seq<char>)
    ensures
        join(split(content, sep), sep) == content,
{
    lemma_join_split(content, sep);
}

/// Prints `content` at the end of `v`, continuing its last line.
pub(crate) fn push(v: &mut Vec<String>, content: &str, line_break: &str)
    requires
        line_break@.len() > 0,
    ensures
        final(v).deep_view() == pushed(old(v).deep_view(), content@, line_break@),
{
    let splitted = split_str(content, line_break);
    proof {
        lemma_split_nonempty(content@, line_break@);
    }
    if v.len() > 0 {
        let ghost before = v.deep_view();
        let mut last = v.pop().unwrap();
        last.append(splitted[0].as_str());
        v.push(last);
        let ghost base = v.deep_view();
        proof {
            assert(base =~= before.drop_last() + seq![before.last() + splitted.deep_view()[0]]);
        }
        let mut i: usize = 1;
        while i < splitted.len()
            invariant
                1 <= i <= splitted@.len(),
                v.deep_view() == base + splitted.deep_view().subrange(1, i as int),
            decreases splitted.len() - i,
        {
            let ghost prev = v.deep_view();
            v.push(splitted[i].clone());
            proof {
                assert(v.deep_view() =~= prev.push(splitted@[i as int]@));
                assert(splitted.deep_view().subrange(1, i + 1) =~= splitted.deep_view().subrange(
                    1,
                    i as int,
                ).push(splitted@[i as int]@));
            }
            i = i + 1;
        }
        proof {
            assert(splitted.deep_view().subrange(1, splitted@.len() as int)
                =~= splitted.deep_view().drop_first());
        }
    } else {
        *v = splitted;
    }
}

/// Prints `content` on new lines after `v`.
pub(crate) fn push_ln(v: &mut Vec<String>, content: &str, line_break: &str)
    requires
        line_break@.len() > 0,
    ensures
        final(v).deep_view() == pushed_ln(old(v).deep_view(), content@, line_break@),
{
    let splitted = split_str(content, line_break);
    let ghost base = v.deep_view();
    let mut i: usize = 0;
    while i < splitted.len()
        invariant
            i <= splitted@.len(),
            v.deep_view() == base + splitted.deep_view().take(i as int),
        decreases splitted.len() - i,
    {
        let ghost prev = v.deep_view();
        v.push(splitted[i].clone());
        proof {
            assert(v.deep_view() =~= prev.push(splitted@[i as int]@));
            assert(splitted.deep_view().take(i + 1) =~= splitted.deep_view().take(i as int).push(
                splitted@[i as int]@,
            ));
        }
        i = i + 1;
    }
    assert(splitted.deep_view().take(splitted@.len() as int) =~= splitted.deep_view());
}

/// Replaces the lines of `v` with those of `content`.
pub(crate) fn replace(v: &mut Vec<String>, content: &str, line_break: &str)
    requires
        line_break@.len() > 0,
    ensures
        final(v).deep_view() == split(content@, line_break@),
{
    *v = split_str(content, line_break);
}

/// A plain-text reply being built up line by line.
pub struct PlainMessageBuffer {
    content: Vec<String>,
}

impl View for PlainMessageBuffer {
    type V = Seq<Seq<char>>;

    closed spec fn view(&self) -> Seq<Seq<char>> {
        self.content.deep_view()
    }
}

impl Default for PlainMessageBuffer {
    fn default() -> (res: Self)
        ensures
            res@ == Seq::<Seq<char>>::empty(),
    {
        PlainMessageBuffer { content: Vec::new() }
    }
}

impl PlainMessageBuffer {
    /// Appends `content` at the end of the text.
    pub fn print(&mut self, content: &str)
        ensures
            final(self)@ == pushed(old(self)@, content@, newline()),
            join(final(self)@, newline()) == join(old(self)@, newline()) + content@,
            final(self)@.len() == (if old(self)@.len() > 0 {
                old(self)@.len()
            } else {
                1
            }) + occurrences(content@, newline()),
    {
        proof {
            lemma_newline();
            law_print_appends(self@, content@, newline());
            law_print_line_count(self@, content@, newline());
        }
        push(&mut self.content, content, "\n");
    }

    /// Appends `content` on a new line.
    pub fn println(&mut self, content: &str)
        ensures
            final(self)@ == pushed_ln(old(self)@, content@, newline()),
    {
        proof {
            lemma_newline();
        }
        push_ln(&mut self.content, content, "\n");
    }

    /// Replaces the whole text with `content`.
    pub fn replace(&mut self, content: &str)
        ensures
            final(self)@ == split(content@, newline()),
            join(final(self)@, newline()) == content@,
    {
        proof {
            lemma_newline();
            lemma_join_split(content@, newline());
        }
        replace(&mut self.content, content, "\n");
    }

    /// The text of the reply: its lines joined with newlines.
    pub fn text(&self) -> (res: String)
        ensures
            res@ == join(self@, newline()),
    {
        proof {
            lemma_newline();
        }
        join_strs(&self.content, "\n")
    }
}

/// A reply with a plain-text body and an HTML body, built up side by side.
pub struct HtmlMessageBuffer {
    plain: Vec<String>,
    html: Vec<String>,
}

impl View for HtmlMessageBuffer {
    /// Lines of the plain body, then lines of the HTML body.
    type V = (Seq<Seq<char>>, Seq<Seq<char>>);

    closed spec fn view(&self) -> (Seq<Seq<char>>, Seq<Seq<char>>) {
        (self.plain.deep_view(), self.html.deep_view())
    }
}

impl Default for HtmlMessageBuffer {
    fn default() -> (res: Self)
        ensures
            res@.0 == Seq::<Seq<char>>::empty(),
            res@.1 == Seq::<Seq<char>>::empty(),
    {
        HtmlMessageBuffer { plain: Vec::new(), html: Vec::new() }
    }
}

impl HtmlMessageBuffer {
    /// Appends `plain` at the end of the plain body.
    pub fn print_plain(&mut self, plain: &str)
        ensures
            final(self)@.0 == pushed(old(self)@.0, plain@, newline()),
            final(self)@.1 == old(self)@.1,
    {
        proof {
            lemma_newline();
        }
        push(&mut self.plain, plain, "\n");
    }

    /// Appends `html` at the end of the HTML body.
    pub fn print_html(&mut self, html: &str)
        ensures
            final(self)@.0 == old(self)@.0,
            final(self)@.1 == pushed(old(self)@.1, html@, html_break()),
    {
        proof {
            lemma_html_break();
        }
        push(&mut self.html, html, "<br>");
    }

    /// Appends to both bodies.
    pub fn print(&mut self, plain: &str, html: &str)
        ensures
            final(self)@.0 == pushed(old(self)@.0, plain@, newline()),
            final(self)@.1 == pushed(old(self)@.1, html@, html_break()),
    {
        self.print_plain(plain);
        self.print_html(html);
    }

    /// Appends `plain` on a new line of the plain body.
    pub fn println_plain(&mut self, plain: &str)
        ensures
            final(self)@.0 == pushed_ln(old(self)@.0, plain@, newline()),
            final(self)@.1 == old(self)@.1,
    {
        proof {
            lemma_newline();
        }
        push_ln(&mut self.plain, plain, "\n");
    }

    /// Appends `html` on a new line of the HTML body.
    pub fn println_html(&mut self, html: &str)
        ensures
            final(self)@.0 == old(self)@.0,
            final(self)@.1 == pushed_ln(old(self)@.1, html@, html_break()),
    {
        proof {
            lemma_html_break();
        }
        push_ln(&mut self.html, html, "<br>");
    }

    /// Appends `plain` to the end of the plain body's last line and `html` on a
    /// new line of the HTML body.
    pub fn println(&mut self, plain: &str, html: &str)
        ensures
            final(self)@.0 == pushed(old(self)@.0, plain@, newline()),
            final(self)@.1 == pushed_ln(old(self)@.1, html@, html_break()),
    {
        self.print_plain(plain);
        self.println_html(html);
    }

    /// Replaces the plain body.
    pub fn replace_plain(&mut self, plain: &str)
        ensures
            final(self)@.0 == split(plain@, newline()),
            final(self)@.1 == old(self)@.1,
    {
        proof {
            lemma_newline();
        }
        replace(&mut self.plain, plain, "\n");
    }

    /// Replaces the HTML body.
    pub fn replace_html(&mut self, html: &str)
        ensures
            final(self)@.0 == old(self)@.0,
            final(self)@.1 == split(html@, html_break()),
    {
        proof {
            lemma_html_break();
        }
        replace(&mut self.html, html, "<br>");
    }

    /// Replaces both bodies.
    pub fn replace(&mut self, plain: &str, html: &str)
        ensures
            final(self)@.0 == split(plain@, newline()),
            final(self)@.1 == split(html@, html_break()),
    {
        self.replace_plain(plain);
        self.replace_html(html);
    }

    /// The plain body: its lines joined with newlines.
    pub fn plain_text(&self) -> (res: String)
        ensures
            res@ == join(self@.0, newline()),
    {
        proof {
            lemma_newline();
        }
        join_strs(&self.plain, "\n")
    }

    /// The HTML body: its lines joined with `<br>`.
    pub fn html_text(&self) -> (res: String)
        ensures
            res@ == join(self@.1, html_break()),
    {
        proof {
            lemma_html_break();
        }
        join_strs(&self.html, "<br>")
    }
}


/// The text of a reply that is edited in place: its plain body split into
/// lines at newlines and its HTML body split at `<br>`.
pub struct EditableText {
    plain_buffer: Vec<String>,
    html_buffer: Vec<String>,
}

impl View for EditableText {
    /// Lines of the plain body, then lines of the HTML body.
    type V = (Seq<Seq<char>>, Seq<Seq<char>>);

    closed spec fn view(&self) -> (Seq<Seq<char>>, Seq<Seq<char>>) {
        (self.plain_buffer.deep_view(), self.html_buffer.deep_view())
    }
}

impl EditableText {
    /// The text of a new reply.
    pub fn new(plain: &str, html: &str) -> (res: Self)
        ensures
            res@.0 == split(plain@, newline()),
            res@.1 == split(html@, html_break()),
    {
        proof {
            lemma_newline();
            lemma_html_break();
        }
        EditableText { plain_buffer: split_str(plain, "\n"), html_buffer: split_str(html, "<br>") }
    }

    /// Replaces both bodies.
    pub fn replace(&mut self, plain: &str, html: &str)
        ensures
            final(self)@.0 == split(plain@, newline()),
            final(self)@.1 == split(html@, html_break()),
    {
        proof {
            lemma_newline();
            lemma_html_break();
        }
        self.plain_buffer = split_str(plain, "\n");
        self.html_buffer = split_str(html, "<br>");
    }

    /// Appends `plain` to the plain body and `html` to the HTML body.
    pub fn print(&mut self, plain: &str, html: &str)
        ensures
            final(self)@.0 == split(join(old(self)@.0, newline()) + plain@, newline()),
            final(self)@.1 == split(join(old(self)@.1, html_break()) + html@, html_break()),
    {
        proof {
            lemma_newline();
            lemma_html_break();
        }
        let mut plain_joined = join_strs(&self.plain_buffer, "\n");
        plain_joined.append(plain);
        let mut html_joined = join_strs(&self.html_buffer, "<br>");
        html_joined.append(html);
        self.replace(plain_joined.as_str(), html_joined.as_str());
    }

    /// Appends `plain` to the plain body on a new line, and `html` to the HTML
    /// body after a `<br>`.
    pub fn println(&mut self, plain: &str, html: &str)
        ensures
            final(self)@.0 == split(join(old(self)@.0, newline()) + newline() + plain@, newline()),
            final(self)@.1 == split(
                join(old(self)@.1, html_break()) + html_break() + html@,
                html_break(),
            ),
    {
        proof {
            lemma_newline();
            lemma_html_break();
        }
        let mut plain_joined = join_strs(&self.plain_buffer, "\n");
        plain_joined.append("\n");
        plain_joined.append(plain);
        let mut html_joined = join_strs(&self.html_buffer, "<br>");
        html_joined.append("<br>");
        html_joined.append(html);
        self.replace(plain_joined.as_str(), html_joined.as_str());
    }

    /// The plain body.
    pub fn plain_text(&self) -> (res: String)
        ensures
            res@ == join(self@.0, newline()),
    {
        proof {
            lemma_newline();
        }
        join_strs(&self.plain_buffer, "\n")
    }

    /// The HTML body.
    pub fn html_text(&self) -> (res: String)
        ensures
            res@ == join(self@.1, html_break()),
    {
        proof {
            lemma_html_break();
        }
        join_strs(&self.html_buffer, "<br>")
    }
}

/// After an edit that prints `plain` and `html`, each body reads as before
/// followed by what was printed to it.
pub proof fn law_edit_print(
    old_plain_lines: Seq<Seq<char>>,
    old_html_lines: Seq<Seq<char>>,
    plain: Seq<char>,
    html: Seq<char>,
)
    ensures
        join(split(join(old_plain_lines, newline()) + plain, newline()), newline()) == join(
            old_plain_lines,
            newline(),
        ) + plain,
        join(split(join(old_html_lines, html_break()) + html, html_break()), html_break()) == join(
            old_html_lines,
            html_break(),
        ) + html,
{
    lemma_join_split(join(old_plain_lines, newline()) + plain, newline());
    lemma_join_split(join(old_html_lines, html_break()) + html, html_break());
}

} // verus!
