//! The two HTTP faces of the pipeline: the display page, which shows the
//! reaction that was delivered last, and the pull endpoint, which answers one
//! message with one reaction.
//!
//! The server itself runs with the caller. Here is what a request is answered
//! with.

use crate::text::{substitute, substituted};
use vstd::prelude::*;

verus! {

/// The page that is served, with a slot for the face.
pub const TEMPLATE_HTML: &'static str = "{FACE}";

/// The slot of [`TEMPLATE_HTML`] that the face goes into.
pub const FACE_SLOT: &'static str = "{FACE}";

/// The header that opens the display page to scripts of any origin.
pub const ALLOW_ORIGIN_HEADER: &'static str = "Access-Control-Allow-Origin";

/// The value sent with [`ALLOW_ORIGIN_HEADER`].
pub const ANY_ORIGIN: &'static str = "*";

/// What one character is written as in HTML: the six characters that HTML
/// reads as markup become entities, every other character stays.
pub open spec fn entity(c: char) -> Seq<char> {
    if c == '&' {
        seq!['&', 'a', 'm', 'p', ';']
    } else if c == '<' {
        seq!['&', 'l', 't', ';']
    } else if c == '>' {
        seq!['&', 'g', 't', ';']
    } else if c == '"' {
        seq!['&', 'q', 'u', 'o', 't', ';']
    } else if c == '\'' {
        seq!['&', '#', 'x', '2', '7', ';']
    } else if c == '/' {
        seq!['&', '#', 'x', '2', 'F', ';']
    } else {
        seq![c]
    }
}

/// `text` with each character written as HTML.
pub open spec fn escaped(text: Seq<char>) -> Seq<char>
    decreases text.len(),
{
    if text.len() == 0 {
        Seq::empty()
    } else {
        escaped(text.drop_last()) + entity(text.last())
    }
}

/// Whether `c` is one of the characters that HTML reads as the start or the
/// end of markup, of a tag or of a quoted value.
pub open spec fn is_markup(c: char) -> bool {
    c == '<' || c == '>' || c == '"' || c == '\'' || c == '/'
}

/// No character of an escaped text is read as markup.
pub proof fn lemma_escaped_is_free_of_markup(text: Seq<char>)
    ensures
        forall|i: int| 0 <= i < escaped(text).len() ==> !is_markup(#[trigger] escaped(text)[i]),
    decreases text.len(),
{
    if text.len() > 0 {
        lemma_escaped_is_free_of_markup(text.drop_last());
        let head = escaped(text.drop_last());
        let tail = entity(text.last());
        assert forall|i: int| 0 <= i < escaped(text).len() implies !is_markup(
            #[trigger] escaped(text)[i],
        ) by {
            if i < head.len() {
                assert(escaped(text)[i] == head[i]);
            } else {
                assert(escaped(text)[i] == tail[i - head.len()]);
            }
        }
    }
}

/// Escaping goes character by character: the escaped form of two texts put
/// together is their escaped forms put together.
pub proof fn lemma_escaped_of_joined(front: Seq<char>, back: Seq<char>)
    ensures
        escaped(front + back) == escaped(front) + escaped(back),
    decreases back.len(),
{
    if back.len() == 0 {
        assert(front + back =~= front);
        assert(escaped(front) + escaped(back) =~= escaped(front));
    } else {
        lemma_escaped_of_joined(front, back.drop_last());
        assert((front + back).drop_last() =~= front + back.drop_last());
        assert(escaped(front) + (escaped(back.drop_last()) + entity(back.last())) =~= (escaped(
            front,
        ) + escaped(back.drop_last())) + entity(back.last()));
    }
}

/// Calls `html_escape::encode_safe`.
///
/// Believed, not proved: the result is the text with `&`, `<`, `>`, `"`, `'`
/// and `/` replaced by `&amp;`, `&lt;`, `&gt;`, `&quot;`, `&#x27;` and
/// `&#x2F;`, and nothing else changed.
#[verifier::external_body]
fn encode_safe(text: &str) -> (safe: String)
    ensures
        safe@ == escaped(text@),
{
    html_escape::encode_safe(text).into_owned()
}

/// The display cell: the one value that the display page shows. A write
/// replaces it whole; a reader sees the last value written.
pub struct CatWebServer {
    face: String,
}

impl CatWebServer {
    /// The value currently shown.
    pub closed spec fn face(&self) -> Seq<char> {
        self.face@
    }

    /// A cell that shows `default_face` until the first reaction arrives.
    pub fn new(default_face: &str) -> (server: Self)
        ensures
            server.face() == default_face@,
    {
        CatWebServer { face: String::from_str(default_face) }
    }

    /// Shows `new_face` from now on.
    pub fn update_face(&mut self, new_face: &str)
        ensures
            final(self).face() == new_face@,
    {
        self.face = String::from_str(new_face);
    }

    /// The value currently shown.
    pub fn current_face(&self) -> (face: &String)
        ensures
            face@ == self.face(),
    {
        &self.face
    }

    /// The body of the display page: the page with the face in its slot,
    /// written as HTML, so that no character of a reaction is read as markup.
    pub fn render(&self) -> (page: String)
        ensures
            page@ == substituted(TEMPLATE_HTML@, FACE_SLOT@, escaped(self.face())),
            page@ == escaped(self.face()),
    {
        let safe = encode_safe(self.face.as_str());
        let page = substitute(TEMPLATE_HTML, FACE_SLOT, safe.as_str());
        proof {
            reveal_strlit("{FACE}");
            let slot = FACE_SLOT@;
            assert(slot.subrange(0, slot.len() as int) == slot);
            assert(substituted(slot.subrange(slot.len() as int, slot.len() as int), slot, safe@)
                == Seq::<char>::empty());
            assert(safe@ + Seq::<char>::empty() == safe@);
        }
        page
    }
}

/// How a request to the pull endpoint ended.
#[derive(Debug)]
pub enum PullOutcome {
    /// The request carried no `message` parameter.
    MissingParameter,
    /// The reaction gate let the message pass and the model answered.
    Reacted(String),
    /// The reaction gate did not let the message pass.
    Declined,
    /// The turn with the model failed.
    Failed,
}

/// The answer to an HTTP request: the status and the body.
#[derive(Debug)]
pub struct HttpReply {
    pub status: u16,
    pub body: String,
}

/// The name of the parameter that carries the message.
pub const MESSAGE_PARAMETER: &'static str = "message";

/// The status of the answer to a pull request.
pub open spec fn pull_status(outcome: PullOutcome) -> u16 {
    match outcome {
        PullOutcome::MissingParameter => 400,
        PullOutcome::Reacted(_) => 200,
        PullOutcome::Declined => 204,
        PullOutcome::Failed => 500,
    }
}

/// The answer of the pull endpoint: the reaction as the body where there is
/// one, an empty body otherwise. A request without the parameter is the
/// client's fault, a failed turn the server's.
pub fn pull_reply(outcome: PullOutcome) -> (reply: HttpReply)
    ensures
        reply.status == pull_status(outcome),
        reply.body@ == match outcome {
            PullOutcome::Reacted(displayable) => displayable@,
            _ => Seq::<char>::empty(),
        },
{
    match outcome {
        PullOutcome::MissingParameter => HttpReply { status: 400, body: String::new() },
        PullOutcome::Reacted(displayable) => HttpReply { status: 200, body: displayable },
        PullOutcome::Declined => HttpReply { status: 204, body: String::new() },
        PullOutcome::Failed => HttpReply { status: 500, body: String::new() },
    }
}

} // verus!
