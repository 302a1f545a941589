//! Command dispatch: the index of registered commands, how a message becomes
//! a command line, and how a command's permission is settled from the rules
//! that apply to its qualifiers.
use vstd::prelude::*;

use crate::text::{chars_of, occurs_at, string_of};

verus! {

/// Entry of the command index that `name` finds: the first one registered under it.
pub open spec fn lookup<C>(entries: Seq<(Seq<char>, C)>, name: Seq<char>) -> Option<C>
    decreases entries.len(),
{
    if entries.len() == 0 {
        None
    } else if entries[0].0 == name {
        Some(entries[0].1)
    } else {
        lookup(entries.drop_first(), name)
    }
}

/// Whether a command is registered under `name`.
pub open spec fn registered<C>(entries: Seq<(Seq<char>, C)>, name: Seq<char>) -> bool {
    exists|i: int| 0 <= i < entries.len() && #[trigger] entries[i].0 == name
}

proof fn lemma_lookup_push<C>(entries: Seq<(Seq<char>, C)>, name: Seq<char>, cmd: C, other: Seq<char>)
    requires
        !registered(entries, name),
    ensures
        lookup(entries.push((name, cmd)), other) == if other == name {
            Some(cmd)
        } else {
            lookup(entries, other)
        },
    decreases entries.len(),
{
    let pushed = entries.push((name, cmd));
    if entries.len() == 0 {
        assert(pushed.drop_first() =~= Seq::<(Seq<char>, C)>::empty());
    } else {
        assert(pushed.drop_first() =~= entries.drop_first().push((name, cmd)));
        assert(entries[0].0 != name);
        if !(entries[0].0 == other) {
            assert forall|i: int| 0 <= i < entries.drop_first().len() implies #[trigger] entries.drop_first()[i].0
                != name by {
                assert(entries.drop_first()[i] == entries[i + 1]);
            }
            lemma_lookup_push(entries.drop_first(), name, cmd, other);
        }
    }
}

proof fn lemma_lookup_registered<C>(entries: Seq<(Seq<char>, C)>, name: Seq<char>)
    ensures
        lookup(entries, name) is Some <==> registered(entries, name),
    decreases entries.len(),
{
    if entries.len() > 0 {
        lemma_lookup_registered(entries.drop_first(), name);
        if registered(entries, name) && entries[0].0 != name {
            let i = choose|i: int| 0 <= i < entries.len() && #[trigger] entries[i].0 == name;
            assert(entries.drop_first()[i - 1].0 == name);
        }
        if registered(entries.drop_first(), name) {
            let i = choose|i: int|
                0 <= i < entries.drop_first().len() && #[trigger] entries.drop_first()[i].0 == name;
            assert(entries[i + 1].0 == name);
        }
    }
}

/// A command registered under a new name is what the index then finds under
/// that name, and every other name finds what it found before.
pub proof fn law_register_then_get<C>(
    entries: Seq<(Seq<char>, C)>,
    name: Seq<char>,
    cmd: C,
    other: Seq<char>,
)
    requires
        !registered(entries, name),
    ensures
        lookup(entries.push((name, cmd)), name) == Some(cmd),
        other != name ==> lookup(entries.push((name, cmd)), other) == lookup(entries, other),
{
    lemma_lookup_push(entries, name, cmd, name);
    lemma_lookup_push(entries, name, cmd, other);
}

/// Commands by the name they are invoked with.
pub struct CmdIndex<C> {
    entries: Vec<(String, C)>,
}

impl<C> View for CmdIndex<C> {
    /// The registered names and commands, in the order of registration.
    type V = Seq<(Seq<char>, C)>;

    closed spec fn view(&self) -> Seq<(Seq<char>, C)> {
        self.entries@.map_values(|e: (String, C)| (e.0@, e.1))
    }
}

impl<C> CmdIndex<C> {
    /// An index without commands.
    pub fn new() -> (res: Self)
        ensures
            res@ == Seq::<(Seq<char>, C)>::empty(),
    {
        CmdIndex { entries: Vec::new() }
    }

    /// Number of registered commands.
    pub fn len(&self) -> (res: usize)
        ensures
            res == self@.len(),
    {
        self.entries.len()
    }

    /// The command registered `i`-th.
    pub fn command_at(&self, i: usize) -> (res: &C)
        requires
            i < self@.len(),
        ensures
            *res == self@[i as int].1,
    {
        &self.entries[i].1
    }

    fn position(&self, name: &str) -> (res: Option<usize>)
        ensures
            match res {
                Some(i) => i < self@.len() && self@[i as int].0 == name@ && lookup(self@, name@)
                    == Some(self@[i as int].1),
                None => !registered(self@, name@) && lookup(self@, name@) is None,
            },
    {
        let key = String::from_str(name);
        let mut i: usize = 0;
        assert(self@.skip(0) =~= self@);
        while i < self.entries.len()
            invariant
                key@ == name@,
                i <= self@.len(),
                self@.len() == self.entries@.len(),
                forall|k: int| 0 <= k < i ==> #[trigger] self@[k].0 != name@,
                lookup(self@, name@) == lookup(self@.skip(i as int), name@),
            decreases self.entries.len() - i,
        {
            let ghost rest = self@.skip(i as int);
            assert(rest[0] == self@[i as int]);
            if self.entries[i].0 == key {
                return Some(i);
            }
            assert(rest.drop_first() =~= self@.skip(i + 1));
            i = i + 1;
        }
        proof {
            lemma_lookup_registered(self@, name@);
            if registered(self@, name@) {
                let k = choose|k: int| 0 <= k < self@.len() && #[trigger] self@[k].0 == name@;
            }
        }
        None
    }

    /// Whether a command is registered under `name`.
    pub fn contains(&self, name: &str) -> (res: bool)
        ensures
            res == registered(self@, name@),
    {
        proof {
            lemma_lookup_registered(self@, name@);
        }
        self.position(name).is_some()
    }

    /// Registers `cmd` under `name`; two commands cannot share a name.
    pub fn register(&mut self, name: &str, cmd: C)
        requires
            !registered(old(self)@, name@),
        ensures
            final(self)@ == old(self)@.push((name@, cmd)),
    {
        let ghost before = self@;
        self.entries.push((String::from_str(name), cmd));
        assert(self@ =~= before.push((name@, cmd)));
    }

    /// The command registered under `name`.
    pub fn get(&self, name: &str) -> (res: Option<&C>)
        ensures
            match res {
                Some(c) => lookup(self@, name@) == Some(*c),
                None => lookup(self@, name@) is None,
            },
    {
        match self.position(name) {
            Some(i) => Some(&self.entries[i].1),
            None => None,
        }
    }
}

/// First definite answer among `answers`, in order.
pub open spec fn first_answer(answers: Seq<Option<bool>>) -> Option<bool>
    decreases answers.len(),
{
    if answers.len() == 0 {
        None
    } else {
        let earlier = first_answer(answers.drop_last());
        if earlier is Some {
            earlier
        } else {
            answers.last()
        }
    }
}

/// Whether a command may run: the first rule found among its qualifiers, in
/// order of priority, decides; when none is found, its default does.
pub open spec fn resolve(default_permission: bool, answers: Seq<Option<bool>>) -> bool {
    match first_answer(answers) {
        Some(b) => b,
        None => default_permission,
    }
}

/// What a permission check holds: the command's default, how many qualifiers
/// it has, and the rule found for each qualifier asked so far.
pub struct PermissionCheckView {
    pub default_permission: bool,
    pub qualifiers: nat,
    pub answers: Seq<Option<bool>>,
}

/// The permission check of one command invocation, asked qualifier by qualifier.
pub struct PermissionCheck {
    default_permission: bool,
    qualifiers: usize,
    asked: usize,
    decided: Option<bool>,
    answers: Ghost<Seq<Option<bool>>>,
}

impl View for PermissionCheck {
    type V = PermissionCheckView;

    closed spec fn view(&self) -> PermissionCheckView {
        PermissionCheckView {
            default_permission: self.default_permission,
            qualifiers: self.qualifiers as nat,
            answers: self.answers@,
        }
    }
}

/// Whether the check is settled: a rule was found, or every qualifier was asked.
pub open spec fn settled(v: PermissionCheckView) -> bool {
    first_answer(v.answers) is Some || v.answers.len() >= v.qualifiers
}

impl PermissionCheck {
    #[verifier::type_invariant]
    closed spec fn consistent(self) -> bool {
        &&& self.asked == self.answers@.len()
        &&& self.asked <= self.qualifiers
        &&& self.decided == first_answer(self.answers@)
    }

    /// A check for a command with `qualifiers` qualifiers and the given default.
    pub fn new(default_permission: bool, qualifiers: usize) -> (res: Self)
        ensures
            res@.default_permission == default_permission,
            res@.qualifiers == qualifiers,
            res@.answers == Seq::<Option<bool>>::empty(),
    {
        PermissionCheck {
            default_permission,
            qualifiers,
            asked: 0,
            decided: None,
            answers: Ghost(Seq::empty()),
        }
    }

    /// The index of the qualifier to ask about next, or `None` once settled.
    pub fn next_qualifier(&self) -> (res: Option<usize>)
        ensures
            match res {
                Some(i) => !settled(self@) && i == self@.answers.len(),
                None => settled(self@),
            },
    {
        proof {
            use_type_invariant(self);
        }
        if self.decided.is_none() && self.asked < self.qualifiers {
            Some(self.asked)
        } else {
            None
        }
    }

    /// Records the rule found for the qualifier last asked about.
    pub fn record(&mut self, answer: Option<bool>)
        requires
            !settled(old(self)@),
        ensures
            final(self)@.default_permission == old(self)@.default_permission,
            final(self)@.qualifiers == old(self)@.qualifiers,
            final(self)@.answers == old(self)@.answers.push(answer),
    {
        proof {
            use_type_invariant(&*self);
        }
        let ghost next = self.answers@.push(answer);
        proof {
            assert(next.drop_last() =~= self.answers@);
        }
        *self = PermissionCheck {
            default_permission: self.default_permission,
            qualifiers: self.qualifiers,
            asked: self.asked + 1,
            decided: if self.decided.is_some() {
                self.decided
            } else {
                answer
            },
            answers: Ghost(next),
        };
    }

    /// Whether the command may run, once the check is settled.
    pub fn allowed(&self) -> (res: bool)
        requires
            settled(self@),
        ensures
            res == resolve(self@.default_permission, self@.answers),
    {
        proof {
            use_type_invariant(self);
        }
        match self.decided {
            Some(b) => b,
            None => self.default_permission,
        }
    }
}

/// Once a rule is found for one of the qualifiers asked so far, the rules of
/// the qualifiers after it do not change the outcome: asking may stop there.
pub proof fn law_first_rule_decides(default_permission: bool, answers: Seq<Option<bool>>, later: Seq<
    Option<bool>,
>)
    requires
        first_answer(answers) is Some,
    ensures
        resolve(default_permission, answers + later) == resolve(default_permission, answers),
    decreases later.len(),
{
    if later.len() > 0 {
        law_first_rule_decides(default_permission, answers, later.drop_last());
        assert((answers + later).drop_last() =~= answers + later.drop_last());
        lemma_first_answer_prefix(answers, later.drop_last());
    } else {
        assert(answers + later =~= answers);
    }
}

/// A command without qualifiers is settled before any rule is asked for, and
/// no rule can turn it on or off: it runs exactly when its default says so.
pub proof fn law_unqualified_command_uses_default(default_permission: bool)
    ensures
        settled(
            PermissionCheckView {
                default_permission,
                qualifiers: 0,
                answers: Seq::<Option<bool>>::empty(),
            },
        ),
        resolve(default_permission, Seq::<Option<bool>>::empty()) == default_permission,
{
}

/// When no rule is found for any of the qualifiers, the command's default decides.
pub proof fn law_no_rule_uses_default(default_permission: bool, answers: Seq<Option<bool>>)
    requires
        forall|i: int| 0 <= i < answers.len() ==> #[trigger] answers[i] is None,
    ensures
        resolve(default_permission, answers) == default_permission,
{
    lemma_no_answer(answers);
}

proof fn lemma_no_answer(answers: Seq<Option<bool>>)
    requires
        forall|i: int| 0 <= i < answers.len() ==> #[trigger] answers[i] is None,
    ensures
        first_answer(answers) is None,
    decreases answers.len(),
{
    if answers.len() > 0 {
        let rest = answers.drop_last();
        assert forall|i: int| 0 <= i < rest.len() implies #[trigger] rest[i] is None by {
            assert(rest[i] == answers[i]);
        }
        lemma_no_answer(rest);
        assert(answers.last() == answers[answers.len() - 1]);
    }
}

proof fn lemma_first_answer_prefix(answers: Seq<Option<bool>>, later: Seq<Option<bool>>)
    requires
        first_answer(answers) is Some,
    ensures
        first_answer(answers + later) == first_answer(answers),
    decreases later.len(),
{
    if later.len() > 0 {
        assert((answers + later).drop_last() =~= answers + later.drop_last());
        lemma_first_answer_prefix(answers, later.drop_last());
    } else {
        assert(answers + later =~= answers);
    }
}

/// Words of a command line as `shlex::split` gives them (`None` for a line it
/// cannot split, such as one with an unclosed quote).
pub uninterp spec fn shlex_split(s: Seq<char>) -> Option<Seq<Seq<char>>>;

/// `shlex::split`: the command line split into words the way a POSIX shell would.
#[verifier::external_body]
fn shell_words(s: &str) -> (res: Option<Vec<String>>)
    ensures
        res.deep_view() == shlex_split(s@),
{
    shlex::split(s)
}

/// The words that make up a command invocation: none when the line could not
/// be split or holds no word.
pub fn command_from_words(words: Option<Vec<String>>) -> (res: Option<Vec<String>>)
    ensures
        res.deep_view() == match words.deep_view() {
            Some(w) => if w.len() > 0 {
                Some(w)
            } else {
                None
            },
            None => None,
        },
{
    match words {
        Some(w) => if w.len() > 0 {
            Some(w)
        } else {
            None
        },
        None => None,
    }
}

/// Splits a command line into its words; the first one names the command.
pub fn command_words(cmd_string: &str) -> (res: Option<Vec<String>>)
    ensures
        res.deep_view() == match shlex_split(cmd_string@) {
            Some(w) => if w.len() > 0 {
                Some(w)
            } else {
                None
            },
            None => None,
        },
{
    command_from_words(shell_words(cmd_string))
}

/// The command line of a message that starts with the command prefix: the
/// rest of the message after the prefix.
pub fn strip_command_prefix(body: &str, prefix: &str) -> (res: Option<String>)
    ensures
        match res {
            Some(rest) => prefix@.is_prefix_of(body@) && rest@ == body@.skip(prefix@.len() as int),
            None => !prefix@.is_prefix_of(body@),
        },
{
    let b = chars_of(body);
    let p = chars_of(prefix);
    if occurs_at(&b, 0, &p) {
        assert(b@.skip(0) =~= b@);
        let rest = string_of(&b, p.len(), b.len());
        assert(b@.subrange(p@.len() as int, b@.len() as int) =~= b@.skip(p@.len() as int));
        Some(rest)
    } else {
        assert(b@.skip(0) =~= b@);
        None
    }
}

/// The reply to a command that failed: the plain and HTML bodies, around the
/// error's debug rendering.
pub fn crash_reply(error: &str) -> (res: (String, String))
    ensures
        res.0@ == "Oops, that's a crash\n"@ + error@,
        res.1@ == "Oops, that's a crash<br><pre>"@ + error@ + "</pre>"@,
{
    let mut plain = String::from_str("Oops, that's a crash\n");
    plain.append(error);
    let mut html = String::from_str("Oops, that's a crash<br><pre>");
    html.append(error);
    html.append("</pre>");
    (plain, html)
}

} // verus!
