//! Help pages of commands. The argument parser renders its help as text; this
//! module takes that text apart (description, usage line, argument and option
//! sections) and lays it out again as a plain-text and an HTML page.
use vstd::prelude::*;
use vstd::utf8::encode_utf8;

use crate::text::{
    chars_of, find_char, find_char_in, join, join_strs, lines, lines_of, split, split_str,
    string_of, trim, trim_chars, trim_str, words, words_of,
};

verus! {

/// An ASCII letter, as `char::is_ascii_alphabetic` recognises it.
pub open spec fn is_ascii_alpha(c: char) -> bool {
    let u = c as u32;
    (0x41 <= u <= 0x5A) || (0x61 <= u <= 0x7A)
}

/// A section header line of a help text, such as `Options:`: letters followed by a colon.
pub open spec fn is_header(t: Seq<char>) -> bool {
    &&& t.len() > 0
    &&& t.last() == ':'
    &&& forall|k: int| 0 <= k < t.len() - 1 ==> is_ascii_alpha(#[trigger] t[k])
}

/// The section that the lines `ls` leave open: the name of the last header among them.
pub open spec fn section_after(ls: Seq<Seq<char>>) -> Option<Seq<char>>
    decreases ls.len(),
{
    if ls.len() == 0 {
        None
    } else {
        let t = trim(ls.last());
        if t.len() > 0 && is_header(t) {
            Some(t.drop_last())
        } else {
            section_after(ls.drop_last())
        }
    }
}

/// The trimmed, non-empty, non-header lines of `ls` that stand in a section called `name`.
pub open spec fn section_entries(ls: Seq<Seq<char>>, name: Seq<char>) -> Seq<Seq<char>>
    decreases ls.len(),
{
    if ls.len() == 0 {
        Seq::<Seq<char>>::empty()
    } else {
        let prev = section_entries(ls.drop_last(), name);
        let t = trim(ls.last());
        if t.len() == 0 || is_header(t) {
            prev
        } else if section_after(ls.drop_last()) == Some(name) {
            prev.push(t)
        } else {
            prev
        }
    }
}

/// An entry of the arguments section: a bracketed tag and its description, or a
/// positional argument's description.
pub open spec fn arg_entry(line: Seq<char>) -> (Option<Seq<char>>, Seq<char>) {
    let s = trim(line);
    if s.len() > 0 && s[0] == '[' {
        match find_char(s, ' ') {
            Some(i) => (Some(trim(s.take(i))), trim(s.skip(i + 1))),
            None => (Some(trim(s)), Seq::<char>::empty()),
        }
    } else {
        (None, s)
    }
}

/// Whether a word is a flag, that is, starts with `-`.
pub open spec fn is_flag(w: Seq<char>) -> bool {
    w.len() > 0 && w[0] == '-'
}

/// Number of flags at the start of `ws`.
pub open spec fn leading_flags(ws: Seq<Seq<char>>) -> nat
    decreases ws.len(),
{
    if ws.len() > 0 && is_flag(ws[0]) {
        1 + leading_flags(ws.drop_first())
    } else {
        0
    }
}

/// An entry of the options section: its flags, and the description that follows them.
pub open spec fn option_entry(line: Seq<char>) -> (Seq<char>, Seq<char>) {
    let ws = split(trim(line), seq![' ']);
    let k = leading_flags(ws) as int;
    (join(ws.take(k), seq![' ']), join(ws.skip(k), seq![' ']))
}

/// First line of a help text.
pub open spec fn help_description(s: Seq<char>) -> Seq<char> {
    let ls = lines(s);
    if ls.len() >= 1 {
        ls[0]
    } else {
        Seq::<char>::empty()
    }
}

/// Words of the third line of a help text after the first one, joined by spaces.
pub open spec fn help_usage(s: Seq<char>) -> Seq<char> {
    let ls = lines(s);
    if ls.len() >= 3 && words(ls[2]).len() > 0 {
        join(words(ls[2]).drop_first(), seq![' '])
    } else {
        Seq::<char>::empty()
    }
}

/// Lines of a help text after its first three.
pub open spec fn help_body(s: Seq<char>) -> Seq<Seq<char>> {
    let ls = lines(s);
    if ls.len() >= 3 {
        ls.skip(3)
    } else {
        Seq::<Seq<char>>::empty()
    }
}

/// Argument entries of a help text.
pub open spec fn help_args(s: Seq<char>) -> Seq<(Option<Seq<char>>, Seq<char>)> {
    section_entries(help_body(s), "Arguments"@).map_values(
        |l: Seq<char>| arg_entry(l),
    )
}

/// Option entries of a help text.
pub open spec fn help_options(s: Seq<char>) -> Seq<(Seq<char>, Seq<char>)> {
    section_entries(help_body(s), "Options"@).map_values(
        |l: Seq<char>| option_entry(l),
    )
}

/// A parsed help page.
pub struct HelpMessage {
    pub name: String,
    pub description: String,
    pub usage: String,
    /// tag (`None` for a positional argument) and description
    pub args: Vec<(Option<String>, String)>,
    /// flags and description
    pub options: Vec<(String, String)>,
}

/// What a help page holds.
pub struct HelpView {
    pub name: Seq<char>,
    pub description: Seq<char>,
    pub usage: Seq<char>,
    pub args: Seq<(Option<Seq<char>>, Seq<char>)>,
    pub options: Seq<(Seq<char>, Seq<char>)>,
}

impl View for HelpMessage {
    type V = HelpView;

    open spec fn view(&self) -> HelpView {
        HelpView {
            name: self.name@,
            description: self.description@,
            usage: self.usage@,
            args: self.args.deep_view(),
            options: self.options.deep_view(),
        }
    }
}

/// Width in bytes of a text, as `str::len` gives it.
pub open spec fn width(t: Seq<char>) -> int {
    encode_utf8(t).len() as usize as int
}

/// The text shown for an argument's tag.
pub open spec fn tag_text(tag: Option<Seq<char>>) -> Seq<char> {
    match tag {
        Some(t) => t,
        None => "(positional)"@,
    }
}

/// Widest argument tag.
pub open spec fn max_arg_width(args: Seq<(Option<Seq<char>>, Seq<char>)>) -> int
    decreases args.len(),
{
    if args.len() == 0 {
        0
    } else {
        let m = max_arg_width(args.drop_last());
        let w = width(tag_text(args.last().0));
        if w > m {
            w
        } else {
            m
        }
    }
}

/// Widest option flags.
pub open spec fn max_option_width(options: Seq<(Seq<char>, Seq<char>)>) -> int
    decreases options.len(),
{
    if options.len() == 0 {
        0
    } else {
        let m = max_option_width(options.drop_last());
        let w = width(options.last().0);
        if w > m {
            w
        } else {
            m
        }
    }
}

/// `n` spaces.
pub open spec fn spaces(n: int) -> Seq<char> {
    Seq::new(n as nat, |i: int| ' ')
}

/// A row of a plain-text table, with the tag padded to `longest` bytes.
pub open spec fn plain_row(tag: Seq<char>, desc: Seq<char>, longest: int) -> Seq<char> {
    "  "@ + tag + spaces(longest - width(tag)) + "  "@ + desc + "\n"@
}

/// A row of an HTML table.
pub open spec fn html_row(tag: Seq<char>, desc: Seq<char>) -> Seq<char> {
    "<tr><td>"@ + tag + "</td><td>"@ + desc + "</td></tr>\n"@
}

/// Plain-text rows of the arguments, tags padded to the widest.
pub open spec fn plain_arg_rows(args: Seq<(Option<Seq<char>>, Seq<char>)>, longest: int) -> Seq<
    char,
>
    decreases args.len(),
{
    if args.len() == 0 {
        Seq::<char>::empty()
    } else {
        plain_arg_rows(args.drop_last(), longest) + plain_row(
            tag_text(args.last().0),
            args.last().1,
            longest,
        )
    }
}

/// Plain-text rows of the options, flags padded to the widest.
pub open spec fn plain_option_rows(options: Seq<(Seq<char>, Seq<char>)>, longest: int) -> Seq<char>
    decreases options.len(),
{
    if options.len() == 0 {
        Seq::<char>::empty()
    } else {
        plain_option_rows(options.drop_last(), longest) + plain_row(
            options.last().0,
            options.last().1,
            longest,
        )
    }
}

/// HTML table rows of the arguments.
pub open spec fn html_arg_rows(args: Seq<(Option<Seq<char>>, Seq<char>)>) -> Seq<char>
    decreases args.len(),
{
    if args.len() == 0 {
        Seq::<char>::empty()
    } else {
        html_arg_rows(args.drop_last()) + html_row(tag_text(args.last().0), args.last().1)
    }
}

/// HTML table rows of the options.
pub open spec fn html_option_rows(options: Seq<(Seq<char>, Seq<char>)>) -> Seq<char>
    decreases options.len(),
{
    if options.len() == 0 {
        Seq::<char>::empty()
    } else {
        html_option_rows(options.drop_last()) + html_row(options.last().0, options.last().1)
    }
}

/// The plain-text help page.
pub open spec fn plain_page(h: HelpView) -> Seq<char> {
    let head = "Help Page for ."@ + h.name + h.description + "\n"@ + "\nUsage: "@ + h.usage
        + "\n"@;
    let arguments = if h.args.len() > 0 {
        "\nArguments:\n"@ + plain_arg_rows(h.args, max_arg_width(h.args))
    } else {
        Seq::<char>::empty()
    };
    let options = if h.options.len() > 0 {
        "\nOptions:\n"@ + plain_option_rows(h.options, max_option_width(h.options))
    } else {
        Seq::<char>::empty()
    };
    head + arguments + options
}

/// The HTML help page.
pub open spec fn html_page(h: HelpView) -> Seq<char> {
    let head = "<h2>Help Page for ."@ + h.name + "</h2>"@ + h.description + "\n"@
        + "<br><br><b>Usage</b>: "@ + h.usage + "<br>\n"@;
    let arguments = if h.args.len() > 0 {
        "<h4>Arguments</h4><table>\n"@ + html_arg_rows(h.args) + "\n</table>\n"@
    } else {
        Seq::<char>::empty()
    };
    let options = if h.options.len() > 0 {
        "<h4>Options</h4><table>\n"@ + html_option_rows(h.options) + "\n</table>\n"@
    } else {
        Seq::<char>::empty()
    };
    head + arguments + options
}

proof fn lemma_max_arg_width(args: Seq<(Option<Seq<char>>, Seq<char>)>, i: int)
    requires
        0 <= i < args.len(),
    ensures
        width(tag_text(args[i].0)) <= max_arg_width(args),
        max_arg_width(args) >= 0,
    decreases args.len(),
{
    if i < args.len() - 1 {
        lemma_max_arg_width(args.drop_last(), i);
    } else if args.len() > 1 {
        lemma_max_arg_width(args.drop_last(), 0);
    }
}

proof fn lemma_max_option_width(options: Seq<(Seq<char>, Seq<char>)>, i: int)
    requires
        0 <= i < options.len(),
    ensures
        width(options[i].0) <= max_option_width(options),
        max_option_width(options) >= 0,
    decreases options.len(),
{
    if i < options.len() - 1 {
        lemma_max_option_width(options.drop_last(), i);
    } else if options.len() > 1 {
        lemma_max_option_width(options.drop_last(), 0);
    }
}

proof fn lemma_leading_flags(ws: Seq<Seq<char>>, k: int)
    requires
        0 <= k <= ws.len(),
        forall|j: int| 0 <= j < k ==> is_flag(#[trigger] ws[j]),
        k == ws.len() || !is_flag(ws[k]),
    ensures
        leading_flags(ws) == k,
    decreases k,
{
    if k > 0 {
        assert forall|j: int| 0 <= j < k - 1 implies is_flag(#[trigger] ws.drop_first()[j]) by {
            assert(ws.drop_first()[j] == ws[j + 1]);
        }
        lemma_leading_flags(ws.drop_first(), k - 1);
    }
}

fn is_ascii_alphabetic(c: char) -> (res: bool)
    ensures
        res == is_ascii_alpha(c),
{
    let u = c as u32;
    (0x41 <= u && u <= 0x5A) || (0x61 <= u && u <= 0x7A)
}

/// Whether a trimmed line is a section header.
fn header_check(chars: &Vec<char>) -> (res: bool)
    ensures
        res == is_header(chars@),
{
    let n = chars.len();
    if n == 0 || chars[n - 1] != ':' {
        return false;
    }
    let mut i: usize = 0;
    while i + 1 < n
        invariant
            n == chars@.len(),
            n > 0,
            i < n,
            forall|k: int| 0 <= k < i ==> is_ascii_alpha(#[trigger] chars@[k]),
        decreases n - i,
    {
        if !is_ascii_alphabetic(chars[i]) {
            return false;
        }
        i = i + 1;
    }
    true
}

/// The elements `v[from..to]`, cloned.
fn sub_strings(v: &Vec<String>, from: usize, to: usize) -> (res: Vec<String>)
    requires
        from <= to <= v@.len(),
    ensures
        res.deep_view() == v.deep_view().subrange(from as int, to as int),
{
    let mut res: Vec<String> = Vec::new();
    let mut i = from;
    while i < to
        invariant
            from <= i <= to,
            to <= v@.len(),
            res.deep_view() == v.deep_view().subrange(from as int, i as int),
        decreases to - i,
    {
        let ghost prev = res.deep_view();
        res.push(v[i].clone());
        assert(res.deep_view() =~= prev.push(v@[i as int]@));
        assert(v.deep_view().subrange(from as int, i + 1) =~= v.deep_view().subrange(
            from as int,
            i as int,
        ).push(v@[i as int]@));
        i = i + 1;
    }
    res
}

fn parse_arg_entry(line: &String) -> (res: (Option<String>, String))
    ensures
        res.deep_view() == arg_entry(line@),
{
    let s = trim_str(line.as_str());
    let chars = chars_of(s.as_str());
    if chars.len() > 0 && chars[0] == '[' {
        match find_char_in(&chars, ' ') {
            Some(i) => {
                let tag_part = chars_of(string_of(&chars, 0, i).as_str());
                let rest_part = chars_of(string_of(&chars, i + 1, chars.len()).as_str());
                proof {
                    assert(chars@.subrange(0, i as int) =~= chars@.take(i as int));
                    assert(chars@.subrange(i + 1, chars@.len() as int) =~= chars@.skip(i + 1));
                }
                (Some(trim_chars(&tag_part)), trim_chars(&rest_part))
            },
            None => (Some(trim_chars(&chars)), String::new()),
        }
    } else {
        (None, s)
    }
}

fn parse_option_entry(line: &String) -> (res: (String, String))
    ensures
        res.deep_view() == option_entry(line@),
{
    let s = trim_str(line.as_str());
    proof {
        reveal_strlit(" ");
        assert(" "@ =~= seq![' ']);
    }
    let ws = split_str(s.as_str(), " ");
    let n = ws.len();
    let mut k: usize = 0;
    while k < n && ws[k].as_str().unicode_len() > 0 && ws[k].as_str().get_char(0) == '-'
        invariant
            n == ws@.len(),
            k <= n,
            forall|j: int| 0 <= j < k ==> is_flag(#[trigger] ws.deep_view()[j]),
        decreases n - k,
    {
        k = k + 1;
    }
    proof {
        lemma_leading_flags(ws.deep_view(), k as int);
    }
    let flags = sub_strings(&ws, 0, k);
    let desc = sub_strings(&ws, k, n);
    proof {
        assert(ws.deep_view().subrange(0, k as int) =~= ws.deep_view().take(k as int));
        assert(ws.deep_view().subrange(k as int, n as int) =~= ws.deep_view().skip(k as int));
    }
    (join_strs(&flags, " "), join_strs(&desc, " "))
}

impl HelpMessage {
    /// Takes apart the help text `s` of the command `name`.
    pub fn parse(name: String, s: &str) -> (res: Self)
        ensures
            res@.name == name@,
            res@.description == help_description(s@),
            res@.usage == help_usage(s@),
            res@.args == help_args(s@),
            res@.options == help_options(s@),
    {
        let ls = lines_of(s);
        let ghost lv = lines(s@);
        let description = if ls.len() >= 1 {
            ls[0].clone()
        } else {
            String::new()
        };
        let usage = if ls.len() >= 3 {
            let ws = words_of(ls[2].as_str());
            if ws.len() > 0 {
                let tail = sub_strings(&ws, 1, ws.len());
                assert(ws.deep_view().subrange(1, ws@.len() as int) =~= ws.deep_view().drop_first());
                proof {
                    reveal_strlit(" ");
                    assert(" "@ =~= seq![' ']);
                }
                join_strs(&tail, " ")
            } else {
                String::new()
            }
        } else {
            String::new()
        };
        let ghost body = help_body(s@);
        let start: usize = if ls.len() >= 3 {
            3
        } else {
            ls.len()
        };
        proof {
            if ls@.len() < 3 {
                assert(lv.skip(start as int) =~= Seq::<Seq<char>>::empty());
            }
        }
        proof {
            reveal_strlit("Arguments");
            reveal_strlit("Options");
            assert("Arguments"@.len() != "Options"@.len());
        }
        let arguments_name = String::from_str("Arguments");
        let options_name = String::from_str("Options");
        let mut section: Option<String> = None;
        let mut arg_lines: Vec<String> = Vec::new();
        let mut option_lines: Vec<String> = Vec::new();
        let mut j = start;
        while j < ls.len()
            invariant
                lv == ls.deep_view(),
                body == lv.skip(start as int),
                start <= j <= ls@.len(),
                arguments_name@ == "Arguments"@,
                options_name@ == "Options"@,
                "Arguments"@ != "Options"@,
                section.deep_view() == section_after(body.take(j - start)),
                arg_lines.deep_view() == section_entries(body.take(j - start), "Arguments"@),
                option_lines.deep_view() == section_entries(body.take(j - start), "Options"@),
            decreases ls.len() - j,
        {
            let ghost before = body.take(j - start);
            let ghost now = body.take(j + 1 - start);
            proof {
                assert(now.drop_last() =~= before);
                assert(now.last() == lv[j as int]);
            }
            let t = trim_str(ls[j].as_str());
            let tc = chars_of(t.as_str());
            if tc.len() == 0 {
            } else if header_check(&tc) {
                section = Some(string_of(&tc, 0, tc.len() - 1));
                assert(tc@.subrange(0, tc@.len() - 1) =~= tc@.drop_last());
            } else {
                match &section {
                    Some(name) => {
                        if *name == arguments_name {
                            let ghost prev = arg_lines.deep_view();
                            arg_lines.push(t);
                            assert(arg_lines.deep_view() =~= prev.push(trim(lv[j as int])));
                        } else if *name == options_name {
                            let ghost prev = option_lines.deep_view();
                            option_lines.push(t);
                            assert(option_lines.deep_view() =~= prev.push(trim(lv[j as int])));
                        }
                    },
                    None => {},
                }
            }
            j = j + 1;
        }
        proof {
            assert(body.take(ls@.len() - start) =~= body);
        }
        let mut args: Vec<(Option<String>, String)> = Vec::new();
        let mut i: usize = 0;
        while i < arg_lines.len()
            invariant
                i <= arg_lines@.len(),
                args.deep_view() == arg_lines.deep_view().take(i as int).map_values(
                    |l: Seq<char>| arg_entry(l),
                ),
            decreases arg_lines.len() - i,
        {
            let e = parse_arg_entry(&arg_lines[i]);
            let ghost prev = args.deep_view();
            args.push(e);
            proof {
                assert(args.deep_view() =~= prev.push(arg_entry(arg_lines@[i as int]@)));
                assert(arg_lines.deep_view().take(i + 1).map_values(|l: Seq<char>| arg_entry(l))
                    =~= arg_lines.deep_view().take(i as int).map_values(
                    |l: Seq<char>| arg_entry(l),
                ).push(arg_entry(arg_lines@[i as int]@)));
            }
            i = i + 1;
        }
        assert(arg_lines.deep_view().take(arg_lines@.len() as int) =~= arg_lines.deep_view());
        let mut options: Vec<(String, String)> = Vec::new();
        let mut i: usize = 0;
        while i < option_lines.len()
            invariant
                i <= option_lines@.len(),
                options.deep_view() == option_lines.deep_view().take(i as int).map_values(
                    |l: Seq<char>| option_entry(l),
                ),
            decreases option_lines.len() - i,
        {
            let e = parse_option_entry(&option_lines[i]);
            let ghost prev = options.deep_view();
            options.push(e);
            proof {
                assert(options.deep_view() =~= prev.push(option_entry(option_lines@[i as int]@)));
                assert(option_lines.deep_view().take(i + 1).map_values(
                    |l: Seq<char>| option_entry(l),
                ) =~= option_lines.deep_view().take(i as int).map_values(
                    |l: Seq<char>| option_entry(l),
                ).push(option_entry(option_lines@[i as int]@)));
            }
            i = i + 1;
        }
        assert(option_lines.deep_view().take(option_lines@.len() as int)
            =~= option_lines.deep_view());
        HelpMessage { name, description, usage, args, options }
    }
}


/// Appends `n` spaces to `out`.
fn push_spaces(out: &mut String, n: usize)
    ensures
        final(out)@ == old(out)@ + spaces(n as int),
{
    let mut i: usize = 0;
    while i < n
        invariant
            i <= n,
            out@ == old(out)@ + spaces(i as int),
        decreases n - i,
    {
        crate::text::push_char(out, ' ');
        i = i + 1;
        assert(out@ =~= old(out)@ + spaces(i as int));
    }
}

fn tag_str(tag: &Option<String>) -> (res: &str)
    ensures
        res@ == tag_text(tag.deep_view()),
{
    match tag {
        Some(t) => t.as_str(),
        None => "(positional)",
    }
}

impl HelpMessage {
    fn longest_arg(&self) -> (res: usize)
        ensures
            res as int == max_arg_width(self@.args),
    {
        let mut longest: usize = 0;
        let mut i: usize = 0;
        while i < self.args.len()
            invariant
                i <= self.args@.len(),
                longest as int == max_arg_width(self@.args.take(i as int)),
            decreases self.args.len() - i,
        {
            let w = tag_str(&self.args[i].0).len();
            proof {
                assert(self@.args.take(i + 1).drop_last() =~= self@.args.take(i as int));
                assert(self@.args.take(i + 1).last() == self@.args[i as int]);
            }
            if w > longest {
                longest = w;
            }
            i = i + 1;
        }
        assert(self@.args.take(self.args@.len() as int) =~= self@.args);
        longest
    }

    fn longest_option(&self) -> (res: usize)
        ensures
            res as int == max_option_width(self@.options),
    {
        let mut longest: usize = 0;
        let mut i: usize = 0;
        while i < self.options.len()
            invariant
                i <= self.options@.len(),
                longest as int == max_option_width(self@.options.take(i as int)),
            decreases self.options.len() - i,
        {
            let w = self.options[i].0.as_str().len();
            proof {
                assert(self@.options.take(i + 1).drop_last() =~= self@.options.take(i as int));
                assert(self@.options.take(i + 1).last() == self@.options[i as int]);
            }
            if w > longest {
                longest = w;
            }
            i = i + 1;
        }
        assert(self@.options.take(self.options@.len() as int) =~= self@.options);
        longest
    }

    /// The help page as plain text.
    pub fn plain(&self) -> (res: String)
        ensures
            res@ == plain_page(self@),
    {
        let ghost h = self@;
        let mut out = String::from_str("Help Page for .");
        out.append(self.name.as_str());
        out.append(self.description.as_str());
        out.append("\n");
        out.append("\nUsage: ");
        out.append(self.usage.as_str());
        out.append("\n");
        let ghost head = out@;
        if self.args.len() > 0 {
            let longest = self.longest_arg();
            out.append("\nArguments:\n");
            let ghost start = out@;
            let mut i: usize = 0;
            while i < self.args.len()
                invariant
                    h == self@,
                    i <= self.args@.len(),
                    longest as int == max_arg_width(h.args),
                    out@ == start + plain_arg_rows(h.args.take(i as int), longest as int),
                decreases self.args.len() - i,
            {
                let tag = tag_str(&self.args[i].0);
                let w = tag.len();
                proof {
                    lemma_max_arg_width(h.args, i as int);
                    assert(h.args.take(i + 1).drop_last() =~= h.args.take(i as int));
                    assert(h.args.take(i + 1).last() == h.args[i as int]);
                }
                let ghost before = out@;
                out.append("  ");
                out.append(tag);
                push_spaces(&mut out, longest - w);
                out.append("  ");
                out.append(self.args[i].1.as_str());
                out.append("\n");
                assert(out@ =~= before + plain_row(tag@, h.args[i as int].1, longest as int));
                i = i + 1;
            }
            assert(h.args.take(self.args@.len() as int) =~= h.args);
            assert(out@ =~= head + ("\nArguments:\n"@ + plain_arg_rows(h.args, max_arg_width(h.args))));
        } else {
            assert(out@ =~= head + Seq::<char>::empty());
        }
        let ghost middle = out@;
        if self.options.len() > 0 {
            let longest = self.longest_option();
            out.append("\nOptions:\n");
            let ghost start = out@;
            let mut i: usize = 0;
            while i < self.options.len()
                invariant
                    h == self@,
                    i <= self.options@.len(),
                    longest as int == max_option_width(h.options),
                    out@ == start + plain_option_rows(h.options.take(i as int), longest as int),
                decreases self.options.len() - i,
            {
                let tag = self.options[i].0.as_str();
                let w = tag.len();
                proof {
                    lemma_max_option_width(h.options, i as int);
                    assert(h.options.take(i + 1).drop_last() =~= h.options.take(i as int));
                    assert(h.options.take(i + 1).last() == h.options[i as int]);
                }
                let ghost before = out@;
                out.append("  ");
                out.append(tag);
                push_spaces(&mut out, longest - w);
                out.append("  ");
                out.append(self.options[i].1.as_str());
                out.append("\n");
                assert(out@ =~= before + plain_row(tag@, h.options[i as int].1, longest as int));
                i = i + 1;
            }
            assert(h.options.take(self.options@.len() as int) =~= h.options);
            assert(out@ =~= middle + ("\nOptions:\n"@ + plain_option_rows(
                h.options,
                max_option_width(h.options),
            )));
        } else {
            assert(out@ =~= middle + Seq::<char>::empty());
        }
        out
    }

    /// The help page as HTML.
    pub fn html(&self) -> (res: String)
        ensures
            res@ == html_page(self@),
    {
        let ghost h = self@;
        let mut out = String::from_str("<h2>Help Page for .");
        out.append(self.name.as_str());
        out.append("</h2>");
        out.append(self.description.as_str());
        out.append("\n");
        out.append("<br><br><b>Usage</b>: ");
        out.append(self.usage.as_str());
        out.append("<br>\n");
        let ghost head = out@;
        if self.args.len() > 0 {
            out.append("<h4>Arguments</h4><table>\n");
            let ghost start = out@;
            let mut i: usize = 0;
            while i < self.args.len()
                invariant
                    h == self@,
                    i <= self.args@.len(),
                    out@ == start + html_arg_rows(h.args.take(i as int)),
                decreases self.args.len() - i,
            {
                let tag = tag_str(&self.args[i].0);
                proof {
                    assert(h.args.take(i + 1).drop_last() =~= h.args.take(i as int));
                    assert(h.args.take(i + 1).last() == h.args[i as int]);
                }
                let ghost before = out@;
                out.append("<tr><td>");
                out.append(tag);
                out.append("</td><td>");
                out.append(self.args[i].1.as_str());
                out.append("</td></tr>\n");
                assert(out@ =~= before + html_row(tag@, h.args[i as int].1));
                i = i + 1;
            }
            out.append("\n</table>\n");
            assert(h.args.take(self.args@.len() as int) =~= h.args);
            assert(out@ =~= head + ("<h4>Arguments</h4><table>\n"@ + html_arg_rows(h.args)
                + "\n</table>\n"@));
        } else {
            assert(out@ =~= head + Seq::<char>::empty());
        }
        let ghost middle = out@;
        if self.options.len() > 0 {
            out.append("<h4>Options</h4><table>\n");
            let ghost start = out@;
            let mut i: usize = 0;
            while i < self.options.len()
                invariant
                    h == self@,
                    i <= self.options@.len(),
                    out@ == start + html_option_rows(h.options.take(i as int)),
                decreases self.options.len() - i,
            {
                proof {
                    assert(h.options.take(i + 1).drop_last() =~= h.options.take(i as int));
                    assert(h.options.take(i + 1).last() == h.options[i as int]);
                }
                let ghost before = out@;
                out.append("<tr><td>");
                out.append(self.options[i].0.as_str());
                out.append("</td><td>");
                out.append(self.options[i].1.as_str());
                out.append("</td></tr>\n");
                assert(out@ =~= before + html_row(h.options[i as int].0, h.options[i as int].1));
                i = i + 1;
            }
            out.append("\n</table>\n");
            assert(h.options.take(self.options@.len() as int) =~= h.options);
            assert(out@ =~= middle + ("<h4>Options</h4><table>\n"@ + html_option_rows(h.options)
                + "\n</table>\n"@));
        } else {
            assert(out@ =~= middle + Seq::<char>::empty());
        }
        out
    }
}

} // verus!
