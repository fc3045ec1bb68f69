use gpu_life::app::{Dispatch, Draw};
use gpu_life::context::SurfaceCapabilities;
use gpu_life::runner::{Response, Runner, WindowEvent};

fn running(now: u64) -> Runner {
    let mut runner = Runner::new();
    let offered = SurfaceCapabilities { formats_srgb: vec![false, true], alpha_modes: 2 };
    runner.resumed(900, 900, &offered, now);
    runner
}

#[test]
fn a_new_runner_has_nothing() {
    let runner = Runner::new();
    assert_eq!(runner.context(), None);
    assert_eq!(runner.app(), None);
}

#[test]
fn resumed_makes_the_context_and_the_loop() {
    let runner = running(5);
    let context = runner.context().unwrap();
    assert_eq!(context.size(), (900, 900));
    assert_eq!(context.config().format, 1);
    assert_eq!(context.config().alpha_mode, 0);
    let app = runner.app().unwrap();
    assert_eq!(app.grid_size(), 2048);
    assert_eq!(app.step(), 0);
    assert_eq!(app.last_generation(), 5);
}

#[test]
fn a_second_resume_keeps_the_running_program() {
    let mut runner = running(0);
    assert_eq!(
        runner.window_event(true, WindowEvent::Resized { width: 300, height: 200 }, 1),
        Response::Resized { configure: true }
    );
    for now in [10_000u64, 20_000, 30_000] {
        assert!(matches!(
            runner.window_event(true, WindowEvent::RedrawRequested, now),
            Response::Redraw { dispatch: Some(_) }
        ));
    }
    let before = runner;
    let offered = SurfaceCapabilities { formats_srgb: vec![true, false], alpha_modes: 1 };
    runner.resumed(640, 480, &offered, 1_000_000);
    assert_eq!(runner, before);
    assert_eq!(runner.app().unwrap().step(), 3);
    assert_eq!(runner.app().unwrap().last_generation(), 30_000);
    assert_eq!(runner.context().unwrap().size(), (300, 200));
    assert_eq!(runner.context().unwrap().config().format, 1);
    let nothing_offered = SurfaceCapabilities { formats_srgb: vec![], alpha_modes: 0 };
    runner.resumed(1, 1, &nothing_offered, 2_000_000);
    assert_eq!(runner, before);
}

#[test]
fn the_context_and_the_loop_come_together() {
    let runner = Runner::new();
    assert!(runner.context().is_none() && runner.app().is_none());
    let runner = running(0);
    assert!(runner.context().is_some() && runner.app().is_some());
}

#[test]
fn events_for_another_window_are_ignored() {
    let mut runner = running(0);
    let before = runner;
    for event in [
        WindowEvent::CloseRequested,
        WindowEvent::Resized { width: 1, height: 1 },
        WindowEvent::RedrawRequested,
        WindowEvent::Other,
    ] {
        assert_eq!(runner.window_event(false, event, 1_000_000), Response::Ignored);
        assert_eq!(runner, before);
    }
}

#[test]
fn a_close_request_ends_the_loop() {
    let mut runner = running(0);
    let before = runner;
    assert_eq!(runner.window_event(true, WindowEvent::CloseRequested, 99), Response::Exit);
    assert_eq!(runner, before);
}

#[test]
fn a_new_size_goes_to_the_context() {
    let mut runner = running(0);
    let app = runner.app();
    assert_eq!(
        runner.window_event(true, WindowEvent::Resized { width: 300, height: 200 }, 99),
        Response::Resized { configure: true }
    );
    assert_eq!(runner.context().unwrap().size(), (300, 200));
    assert_eq!(runner.context().unwrap().config().width, 300);
    assert_eq!(runner.context().unwrap().config().height, 200);
    assert_eq!(runner.app(), app);
}

#[test]
fn a_size_of_zero_is_left_out() {
    let mut runner = running(0);
    let before = runner;
    assert_eq!(
        runner.window_event(true, WindowEvent::Resized { width: 0, height: 200 }, 99),
        Response::Resized { configure: false }
    );
    assert_eq!(runner, before);
    assert_eq!(
        runner.window_event(true, WindowEvent::Resized { width: 300, height: 0 }, 99),
        Response::Resized { configure: false }
    );
    assert_eq!(runner, before);
}

#[test]
fn a_redraw_dispatches_when_a_generation_is_due() {
    let mut runner = running(0);
    assert_eq!(
        runner.window_event(true, WindowEvent::RedrawRequested, 9_999),
        Response::Redraw { dispatch: None }
    );
    assert_eq!(runner.app().unwrap().step(), 0);
    assert_eq!(
        runner.window_event(true, WindowEvent::RedrawRequested, 10_000),
        Response::Redraw {
            dispatch: Some(Dispatch {
                bind_group: 0,
                workgroups_x: 256,
                workgroups_y: 256,
                workgroups_z: 1
            })
        }
    );
    assert_eq!(runner.app().unwrap().step(), 1);
    assert_eq!(
        runner.app().unwrap().render(Ok(())),
        Ok(Draw { bind_group: 1, vertices: 6, instances: 2048 * 2048 })
    );
    assert_eq!(
        runner.window_event(true, WindowEvent::RedrawRequested, 10_001),
        Response::Redraw { dispatch: None }
    );
    assert_eq!(runner.app().unwrap().step(), 1);
}

#[test]
fn other_events_are_ignored() {
    let mut runner = running(0);
    let before = runner;
    assert_eq!(runner.window_event(true, WindowEvent::Other, 1_000_000), Response::Ignored);
    assert_eq!(runner, before);
}
