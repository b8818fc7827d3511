//! Pushing a reaction into a scene-control backend.
//!
//! The backend is remote: every question put to it is answered later, and may
//! fail. This module holds what is decided between two answers. The caller
//! owns the connection, asks what a [`SearchStep`] tells it to ask, and hands
//! the answer back.

use crate::bus::{wake, LoopStep, Received};
use crate::text::texts;
use vstd::prelude::*;

verus! {

#[verifier::external_type_specification]
#[verifier::external_body]
pub struct ExObsError(obws::error::Error);

/// Why the text of a source could not be updated.
#[derive(Debug)]
pub enum ObsControllerError {
    /// No scene holds an item with this source name.
    NoSceneName(String),
    /// The backend, or the connection to it, failed.
    Unknown(obws::error::Error),
}

/// A search for a source that has not ended yet: the scenes before `next` were
/// listed and do not hold it; the items of scene `next` are being asked for.
#[derive(Debug)]
pub struct SceneSearch {
    source_name: String,
    text: String,
    scenes: usize,
    next: usize,
}

/// What a [`SceneSearch`] stands for in contracts.
pub struct SceneSearchView {
    pub source_name: Seq<char>,
    pub text: Seq<char>,
    pub scenes: nat,
    pub next: nat,
}

/// What the caller does next.
#[derive(Debug)]
pub enum SearchStep {
    /// List the items of scene `search.scene()` and call
    /// [`SceneSearch::items_listed`] with the answer.
    ListItems(SceneSearch),
    /// Set the text of the input named `input` and pass the answer to
    /// [`ObsController::text_set`].
    SetText { input: String, text: String },
    /// The update is over.
    Done(Result<(), ObsControllerError>),
}

impl View for SceneSearch {
    type V = SceneSearchView;

    closed spec fn view(&self) -> SceneSearchView {
        SceneSearchView {
            source_name: self.source_name@,
            text: self.text@,
            scenes: self.scenes as nat,
            next: self.next as nat,
        }
    }
}

impl SceneSearchView {
    /// The step taken once the scenes before `self.next` are known not to hold
    /// the source: the next scene is listed, or there is none left.
    pub open spec fn resume(self) -> SearchStepView {
        if self.next < self.scenes {
            SearchStepView::ListItems(self)
        } else {
            SearchStepView::NotFound(self.source_name)
        }
    }

    /// The step taken when the items of scene `self.next` carry the source
    /// names `items`.
    pub open spec fn after_items(self, items: Seq<Seq<char>>) -> SearchStepView {
        if items.contains(self.source_name) {
            SearchStepView::SetText { input: self.source_name, text: self.text }
        } else {
            (SceneSearchView { next: self.next + 1, ..self }).resume()
        }
    }

    /// Where the search ends when scene `i` holds the items `world[i]` and no
    /// listing fails.
    pub open spec fn outcome(self, world: Seq<Seq<Seq<char>>>) -> SearchStepView
        decreases self.scenes - self.next,
    {
        if self.next < self.scenes {
            match self.after_items(world[self.next as int]) {
                SearchStepView::ListItems(rest) => rest.outcome(world),
                step => step,
            }
        } else {
            SearchStepView::NotFound(self.source_name)
        }
    }
}

/// What a [`SearchStep`] stands for in contracts. A failure of the backend is
/// carried as it came.
pub enum SearchStepView {
    ListItems(SceneSearchView),
    SetText { input: Seq<char>, text: Seq<char> },
    NotFound(Seq<char>),
    Failed(obws::error::Error),
    Updated,
}

impl View for SearchStep {
    type V = SearchStepView;

    open spec fn view(&self) -> SearchStepView {
        match *self {
            SearchStep::ListItems(search) => SearchStepView::ListItems(search@),
            SearchStep::SetText { input, text } => SearchStepView::SetText {
                input: input@,
                text: text@,
            },
            SearchStep::Done(Ok(())) => SearchStepView::Updated,
            SearchStep::Done(Err(ObsControllerError::NoSceneName(name))) => {
                SearchStepView::NotFound(name@)
            },
            SearchStep::Done(Err(ObsControllerError::Unknown(e))) => SearchStepView::Failed(e),
        }
    }
}

impl SceneSearch {
    #[verifier::type_invariant]
    spec fn holds_a_scene(self) -> bool {
        self.next < self.scenes
    }

    /// The position, in the listing of scenes, of the scene whose items are
    /// wanted next.
    pub fn scene(&self) -> (index: usize)
        ensures
            index == self@.next,
            self@.next < self@.scenes,
    {
        proof {
            use_type_invariant(self);
        }
        self.next
    }

    /// Takes the answer to the listing of scene `self.scene()`: the source
    /// names of its items, or the failure.
    ///
    /// A failure ends the update. A scene that holds the source ends the
    /// search: its text is set next. Otherwise the search moves to the scene
    /// after it, and ends without a match when there is none.
    pub fn items_listed(self, items: Result<Vec<String>, obws::error::Error>) -> (step: SearchStep)
        ensures
            match items {
                Ok(found) => step@ == self@.after_items(texts(found@)),
                Err(e) => step@ == SearchStepView::Failed(e),
            },
    {
        proof {
            use_type_invariant(&self);
        }
        match items {
            Err(e) => SearchStep::Done(Err(ObsControllerError::Unknown(e))),
            Ok(found) => {
                if holds(&found, &self.source_name) {
                    SearchStep::SetText { input: self.source_name, text: self.text }
                } else {
                    resume(self.source_name, self.text, self.scenes, self.next + 1)
                }
            },
        }
    }
}

/// Whether one of `items` is `name`.
fn holds(items: &Vec<String>, name: &String) -> (found: bool)
    ensures
        found == texts(items@).contains(name@),
{
    let mut i: usize = 0;
    while i < items.len()
        invariant
            i <= items.len(),
            forall|j: int| 0 <= j < i ==> texts(items@)[j] != name@,
        decreases items.len() - i,
    {
        if items[i] == *name {
            assert(texts(items@)[i as int] == name@);
            return true;
        }
        i += 1;
    }
    false
}

/// Goes on with scene `next` of `scenes`, or ends the search where there is
/// none.
fn resume(source_name: String, text: String, scenes: usize, next: usize) -> (step: SearchStep)
    ensures
        step@ == (SceneSearchView {
            source_name: source_name@,
            text: text@,
            scenes: scenes as nat,
            next: next as nat,
        }).resume(),
{
    if next < scenes {
        SearchStep::ListItems(SceneSearch { source_name, text, scenes, next })
    } else {
        SearchStep::Done(Err(ObsControllerError::NoSceneName(source_name)))
    }
}

/// A text for a source: what [`ObsController::update_from_message`] is started
/// with.
#[derive(Debug)]
pub struct SceneText {
    pub source_name: String,
    pub text: String,
}

/// The decisions of the scene-control sink.
pub struct ObsController;

impl ObsController {
    /// Starts the update of the source `source_name` with the text `msg`,
    /// given the answer to the listing of all scenes: how many there are, or
    /// the failure.
    ///
    /// The scenes are searched in the order of the listing, and the first that
    /// holds an item with that source name decides.
    pub fn update_from_message(
        source_name: String,
        msg: String,
        scenes: Result<usize, obws::error::Error>,
    ) -> (step: SearchStep)
        ensures
            match scenes {
                Ok(count) => step@ == (SceneSearchView {
                    source_name: source_name@,
                    text: msg@,
                    scenes: count as nat,
                    next: 0,
                }).resume(),
                Err(e) => step@ == SearchStepView::Failed(e),
            },
    {
        match scenes {
            Ok(count) => resume(source_name, msg, count, 0),
            Err(e) => SearchStep::Done(Err(ObsControllerError::Unknown(e))),
        }
    }

    /// Decides what the sink's loop does after a wait on its subscription and
    /// its stop signal: a message that came in is the new text of the source
    /// `source_name`.
    ///
    /// Whether that update then succeeds or fails, the loop waits again: a
    /// failure of this sink ends nothing.
    pub fn update_from_receiver(
        source_name: String,
        cancelled: bool,
        received: Option<Received<String>>,
    ) -> (step: LoopStep<SceneText>)
        ensures
            step == match crate::bus::step_after(cancelled, received) {
                LoopStep::Handle(text) => LoopStep::Handle(SceneText { source_name, text }),
                LoopStep::Continue => LoopStep::Continue,
                LoopStep::Exit => LoopStep::Exit,
            },
    {
        match wake(cancelled, received) {
            LoopStep::Handle(text) => LoopStep::Handle(SceneText { source_name, text }),
            LoopStep::Continue => LoopStep::Continue,
            LoopStep::Exit => LoopStep::Exit,
        }
    }

    /// Takes the answer to the setting of the text, which ends the update.
    pub fn text_set(outcome: Result<(), obws::error::Error>) -> (result: Result<
        (),
        ObsControllerError,
    >)
        ensures
            match outcome {
                Ok(_) => result == Ok::<(), ObsControllerError>(()),
                Err(e) => result == Err::<(), ObsControllerError>(ObsControllerError::Unknown(e)),
            },
    {
        match outcome {
            Ok(_) => Ok(()),
            Err(e) => Err(ObsControllerError::Unknown(e)),
        }
    }
}

/// Whether one of the scenes that `search` has not listed yet holds the source
/// that it looks for.
pub open spec fn still_held(search: SceneSearchView, world: Seq<Seq<Seq<char>>>) -> bool {
    exists|i: int|
        search.next <= i < search.scenes && #[trigger] world[i].contains(search.source_name)
}

/// A search through scenes that all answer ends in exactly two ways. Where a
/// scene not yet listed holds the source, the text of the input of that name is
/// set, to the text the update was started with. Where none does, the update
/// fails with the name that was not found.
pub proof fn lemma_search_outcome(search: SceneSearchView, world: Seq<Seq<Seq<char>>>)
    ensures
        still_held(search, world) ==> search.outcome(world) == (
            SearchStepView::SetText { input: search.source_name, text: search.text }),
        !still_held(search, world) ==> search.outcome(world) == SearchStepView::NotFound(
            search.source_name,
        ),
    decreases search.scenes - search.next,
{
    if search.next < search.scenes {
        let rest = SceneSearchView { next: search.next + 1, ..search };
        if !world[search.next as int].contains(search.source_name) {
            lemma_search_outcome(rest, world);
            assert(still_held(search, world) == still_held(rest, world));
        }
    }
}

} // verus!
