//! Where a finished reaction goes: to the display page, to a source of the
//! scene-control backend, to both or to neither.
//!
//! Of a reaction only what is shown is handed out. Every sink gets its own
//! delivery, so that one that fails keeps nothing from the others.

use crate::ai::ReactionResult;
use crate::obs::SceneText;
use vstd::prelude::*;

verus! {

/// One delivery of a reaction to one sink.
#[derive(Debug)]
pub enum Delivery {
    /// Show the text on the display page.
    Display(String),
    /// Set the text of a source of the scene-control backend.
    Scene(SceneText),
}

/// What a [`Delivery`] stands for in contracts.
pub enum DeliveryView {
    Display(Seq<char>),
    Scene { source_name: Seq<char>, text: Seq<char> },
}

impl View for Delivery {
    type V = DeliveryView;

    open spec fn view(&self) -> DeliveryView {
        match *self {
            Delivery::Display(text) => DeliveryView::Display(text@),
            Delivery::Scene(scene) => DeliveryView::Scene {
                source_name: scene.source_name@,
                text: scene.text@,
            },
        }
    }
}

/// The deliveries in `deliveries`, as contracts see them.
pub open spec fn views(deliveries: Seq<Delivery>) -> Seq<DeliveryView> {
    Seq::new(deliveries.len(), |i: int| deliveries[i]@)
}

/// The sinks that are configured.
pub struct SinkFanout {
    display: bool,
    scene_source: Option<String>,
}

impl SinkFanout {
    /// Whether the display page is a sink.
    pub closed spec fn shows(&self) -> bool {
        self.display
    }

    /// The source of the scene-control backend that is a sink, if one is.
    pub closed spec fn scene_source(&self) -> Option<Seq<char>> {
        match self.scene_source {
            Some(name) => Some(name@),
            None => None,
        }
    }

    /// The deliveries that `text` is fanned out into: one for each sink, the
    /// display page first, each with the whole text.
    pub open spec fn fanned_out(&self, text: Seq<char>) -> Seq<DeliveryView> {
        (if self.shows() {
            seq![DeliveryView::Display(text)]
        } else {
            Seq::empty()
        }) + (match self.scene_source() {
            Some(source_name) => seq![DeliveryView::Scene { source_name, text }],
            None => Seq::empty(),
        })
    }

    /// The fan-out to the display page, if `display` says so, and to the
    /// source `scene_source`, if there is one.
    pub fn new(display: bool, scene_source: Option<String>) -> (sinks: Self)
        ensures
            sinks.shows() == display,
            sinks.scene_source() == match scene_source {
                Some(name) => Some(name@),
                None => None,
            },
    {
        SinkFanout { display, scene_source }
    }

    /// The deliveries of `reaction`: to every sink what is shown of it, and
    /// nothing else of it to any.
    pub fn deliver(&self, reaction: &ReactionResult) -> (deliveries: Vec<Delivery>)
        ensures
            views(deliveries@) == self.fanned_out(reaction.displayable@),
    {
        let mut deliveries: Vec<Delivery> = Vec::new();
        if self.display {
            deliveries.push(Delivery::Display(reaction.displayable.clone()));
        }
        match &self.scene_source {
            Some(source_name) => {
                deliveries.push(
                    Delivery::Scene(
                        SceneText {
                            source_name: source_name.clone(),
                            text: reaction.displayable.clone(),
                        },
                    ),
                );
            },
            None => {},
        }
        assert(views(deliveries@) =~= self.fanned_out(reaction.displayable@));
        deliveries
    }
}

} // verus!
