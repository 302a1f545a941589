//! The error a command reports when what it found contradicts the data model.
use vstd::prelude::*;

verus! {

/// How `{:?}` renders a string: quoted, with special characters escaped.
pub uninterp spec fn debug_quoted(s: Seq<char>) -> Seq<char>;

/// `<str as Debug>::fmt`: the string quoted and escaped as Rust writes string
/// literals; the rendering is left unstated.
#[verifier::external_body]
fn quote_debug(s: &str) -> (res: String)
    ensures
        res@ == debug_quoted(s@),
{
    format!("{:?}", s)
}

/// An error that carries a message.
pub struct ErrorMsg(pub String);

impl ErrorMsg {
    /// How the error reads: its debug rendering, `ErrorMsg("...")`.
    pub fn text(&self) -> (res: String)
        ensures
            res@ == "ErrorMsg("@ + debug_quoted(self.0@) + ")"@,
    {
        let mut out = String::from_str("ErrorMsg(");
        let q = quote_debug(self.0.as_str());
        out.append(q.as_str());
        out.append(")");
        out
    }
}

} // verus!
