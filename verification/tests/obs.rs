use kikimaki::bus::{LoopStep, Received};
use kikimaki::obs::{ObsController, ObsControllerError, SearchStep};

fn names(items: &[&str]) -> Vec<String> {
    items.iter().map(|t| t.to_string()).collect()
}

fn run(source: &str, text: &str, world: &[&[&str]]) -> (SearchStep, usize) {
    let mut listed = 0;
    let mut step = ObsController::update_from_message(
        source.to_string(),
        text.to_string(),
        Ok(world.len()),
    );
    loop {
        match step {
            SearchStep::ListItems(search) => {
                let scene = search.scene();
                assert_eq!(scene, listed);
                listed += 1;
                step = search.items_listed(Ok(names(world[scene])));
            }
            other => return (other, listed),
        }
    }
}

#[test]
fn obs_sets_the_text_of_the_source_that_a_scene_holds() {
    let world: [&[&str]; 3] = [&["camera", "chat"], &["kikichatter", "camera"], &["kikichatter"]];
    let (step, listed) = run("kikichatter", "(^_^)", &world);
    match step {
        SearchStep::SetText { input, text } => {
            assert_eq!(input, "kikichatter");
            assert_eq!(text, "(^_^)");
        }
        other => panic!("{:?}", other),
    }
    assert_eq!(listed, 2);
}

#[test]
fn obs_stops_at_the_first_scene_that_holds_the_source() {
    let world: [&[&str]; 2] = [&["a", "b", "face"], &["face"]];
    let (step, listed) = run("face", "x", &world);
    assert!(matches!(step, SearchStep::SetText { .. }));
    assert_eq!(listed, 1);
}

#[test]
fn obs_fails_with_the_name_when_no_scene_holds_the_source() {
    let world: [&[&str]; 3] = [&["camera"], &[], &["Kikichatter", "kikichatter "]];
    let (step, listed) = run("kikichatter", "(^_^)", &world);
    match step {
        SearchStep::Done(Err(ObsControllerError::NoSceneName(name))) => {
            assert_eq!(name, "kikichatter")
        }
        other => panic!("{:?}", other),
    }
    assert_eq!(listed, 3);
}

#[test]
fn obs_fails_with_the_name_when_there_is_no_scene() {
    let (step, listed) = run("kikichatter", "(^_^)", &[]);
    assert!(matches!(step, SearchStep::Done(Err(ObsControllerError::NoSceneName(_)))));
    assert_eq!(listed, 0);
}

#[test]
fn obs_gives_up_when_the_scenes_cannot_be_listed() {
    let step = ObsController::update_from_message(
        "face".to_string(),
        "x".to_string(),
        Err(obws::error::Error::Disconnected),
    );
    assert!(matches!(
        step,
        SearchStep::Done(Err(ObsControllerError::Unknown(obws::error::Error::Disconnected)))
    ));
}

#[test]
fn obs_gives_up_when_the_items_cannot_be_listed() {
    let step = ObsController::update_from_message("face".to_string(), "x".to_string(), Ok(3));
    let search = match step {
        SearchStep::ListItems(search) => search,
        other => panic!("{:?}", other),
    };
    let step = search.items_listed(Ok(names(&["other"])));
    let search = match step {
        SearchStep::ListItems(search) => search,
        other => panic!("{:?}", other),
    };
    assert_eq!(search.scene(), 1);
    let step = search.items_listed(Err(obws::error::Error::Timeout));
    assert!(matches!(
        step,
        SearchStep::Done(Err(ObsControllerError::Unknown(obws::error::Error::Timeout)))
    ));
}

#[test]
fn obs_text_set_maps_the_outcome() {
    assert!(matches!(ObsController::text_set(Ok(())), Ok(())));
    assert!(matches!(
        ObsController::text_set(Err(obws::error::Error::Timeout)),
        Err(ObsControllerError::Unknown(obws::error::Error::Timeout))
    ));
}

#[test]
fn obs_sink_loop_updates_on_a_message() {
    let step = ObsController::update_from_receiver(
        "kikichatter".to_string(),
        false,
        Some(Received::Message("(^_^)".to_string())),
    );
    match step {
        LoopStep::Handle(scene) => {
            assert_eq!(scene.source_name, "kikichatter");
            assert_eq!(scene.text, "(^_^)");
        }
        other => panic!("{:?}", other),
    }
}

#[test]
fn obs_sink_loop_goes_on_after_dropped_messages() {
    let step =
        ObsController::update_from_receiver("s".to_string(), false, Some(Received::Lagged(17)));
    assert!(matches!(step, LoopStep::Continue));
    let step = ObsController::update_from_receiver("s".to_string(), false, None);
    assert!(matches!(step, LoopStep::Continue));
}

#[test]
fn obs_sink_loop_ends_on_cancellation_or_a_closed_bus() {
    let step = ObsController::update_from_receiver(
        "s".to_string(),
        true,
        Some(Received::Message("late".to_string())),
    );
    assert!(matches!(step, LoopStep::Exit));
    let step = ObsController::update_from_receiver("s".to_string(), true, None);
    assert!(matches!(step, LoopStep::Exit));
    let step = ObsController::update_from_receiver("s".to_string(), false, Some(Received::Closed));
    assert!(matches!(step, LoopStep::Exit));
}
