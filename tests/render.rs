use pharosa::integrator::SmallPT;
use pharosa::kernel::{react, ControlEvent, Reaction, WorkerState};
use pharosa::scene::nearest_index;
use pharosa::{KernelCommand, Mailbox, RenderProgress, SampleIntegrator, Side, Worker};

#[test]
fn passes_run_in_order_until_done() {
    let integrator = SampleIntegrator { n_spp: 3, delegate: SmallPT::default() };
    let mut progress = integrator.start_render();
    let mut seen = Vec::new();
    while let Some(k) = progress.begin_pass(false) {
        seen.push(k);
        progress.complete_pass();
    }
    assert_eq!(seen, vec![0, 1, 2]);
    assert!(progress.is_complete());
    assert_eq!(progress.passes_done(), 3);
    assert_eq!(progress.n_spp(), 3);
}

#[test]
fn terminate_request_stops_before_remaining_passes() {
    let mut progress = RenderProgress::new(5);
    assert_eq!(progress.begin_pass(false), Some(0));
    progress.complete_pass();
    assert_eq!(progress.begin_pass(true), None);
    assert_eq!(progress.passes_done(), 1);
    assert!(!progress.is_complete());
}

#[test]
fn zero_samples_render_nothing() {
    let progress = RenderProgress::new(0);
    assert_eq!(progress.begin_pass(false), None);
    assert_eq!(progress.per_mille(), 0);
    assert!(progress.is_complete());
}

#[test]
fn default_integrators() {
    let integrator: SampleIntegrator<SmallPT> = SampleIntegrator::default();
    assert_eq!(integrator.n_spp, 1);
    assert_eq!(integrator.delegate.rr_depth, 4);
}

#[test]
fn roulette_applies_below_threshold_or_deep() {
    let pt = SmallPT { rr_depth: 5 };
    assert!(!pt.roulette_applies(0, false));
    assert!(!pt.roulette_applies(4, false));
    assert!(pt.roulette_applies(5, false));
    assert!(pt.roulette_applies(0, true));
}

#[test]
fn latest_command_wins() {
    let mut mailbox = Mailbox::new();
    assert!(!mailbox.has_command());
    mailbox.post(Some(KernelCommand::Restart));
    mailbox.post(Some(KernelCommand::Restart));
    assert!(mailbox.has_command());
    assert_eq!(mailbox.take(), Some(KernelCommand::Restart));
    assert_eq!(mailbox.take(), None);
    mailbox.post(Some(KernelCommand::Start));
    mailbox.post(None);
    assert_eq!(mailbox.take(), None);
}

#[test]
fn worker_follows_commands() {
    let mut worker = Worker::new();
    assert_eq!(worker.current(), WorkerState::Idle);
    assert!(!worker.on_command(None));
    assert_eq!(worker.current(), WorkerState::Idle);
    assert!(!worker.on_command(Some(KernelCommand::Restart)));
    assert_eq!(worker.current(), WorkerState::Idle);
    assert!(worker.on_command(Some(KernelCommand::Start)));
    assert_eq!(worker.current(), WorkerState::Rendering);
    worker.on_render_returned();
    assert_eq!(worker.current(), WorkerState::Waiting);
    assert!(!worker.on_command(None));
    assert_eq!(worker.current(), WorkerState::Waiting);
    assert!(worker.on_command(Some(KernelCommand::Restart)));
    worker.on_render_returned();
    assert!(!worker.on_command(Some(KernelCommand::Finish)));
    assert_eq!(worker.current(), WorkerState::Stopped);
}

#[test]
fn control_reactions() {
    assert_eq!(
        react(ControlEvent::StartPressed, false),
        Some(Reaction { request_termination: false, post: Some(KernelCommand::Start) })
    );
    assert_eq!(
        react(ControlEvent::PausePressed, true),
        Some(Reaction { request_termination: true, post: None })
    );
    assert_eq!(react(ControlEvent::CameraMoved, false), None);
    assert_eq!(
        react(ControlEvent::CameraMoved, true),
        Some(Reaction { request_termination: true, post: Some(KernelCommand::Restart) })
    );
    assert_eq!(
        react(ControlEvent::WindowClosed, false),
        Some(Reaction { request_termination: true, post: Some(KernelCommand::Finish) })
    );
}

#[test]
fn camera_move_mid_pass_restarts_render() {
    let mut progress = RenderProgress::new(100);
    let mut mailbox = Mailbox::new();
    let mut worker = Worker::new();
    mailbox.post(Some(KernelCommand::Start));
    assert!(worker.on_command(mailbox.take()));
    let mut terminate_request = false;
    let k = progress.begin_pass(terminate_request).unwrap();
    assert_eq!(k, 0);
    // the user moves the camera while pass 0 runs
    let reaction = react(ControlEvent::CameraMoved, true).unwrap();
    terminate_request = reaction.request_termination;
    mailbox.post(reaction.post);
    progress.complete_pass();
    assert_eq!(progress.begin_pass(terminate_request), None);
    assert!(progress.passes_done() < 100);
    worker.on_render_returned();
    assert!(mailbox.has_command());
    assert!(worker.on_command(mailbox.take()));
    assert_eq!(worker.current(), WorkerState::Rendering);
}

#[test]
fn nearest_hit_takes_smallest_key() {
    let hits = vec![None, Some(9.0f32.to_bits()), Some(1.0f32.to_bits()), None];
    assert_eq!(nearest_index(&hits), Some(2));
}

#[test]
fn nearest_hit_ties_go_to_first() {
    let hits = vec![Some(5), None, Some(3), Some(3), Some(4)];
    assert_eq!(nearest_index(&hits), Some(2));
}

#[test]
fn nearest_hit_misses_everything() {
    assert_eq!(nearest_index(&vec![None, None]), None);
    assert_eq!(nearest_index(&vec![]), None);
}

#[test]
fn sides_differ() {
    assert_ne!(Side::Outside, Side::Inside);
    let s = Side::Inside;
    let t = s;
    assert_eq!(s, t);
}


#[test]
fn progress_in_thousandths() {
    let mut progress = RenderProgress::new(3);
    assert_eq!(progress.per_mille(), 0);
    progress.complete_pass();
    assert_eq!(progress.per_mille(), 333);
    progress.complete_pass();
    progress.complete_pass();
    assert_eq!(progress.per_mille(), 1000);
    assert_eq!(RenderProgress::new(0).per_mille(), 0);
}

#[test]
fn finish_before_start_stops_worker() {
    let mut worker = Worker::new();
    assert!(!worker.on_command(Some(KernelCommand::Finish)));
    assert_eq!(worker.current(), WorkerState::Stopped);
}
