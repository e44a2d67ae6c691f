use lib::drive::{
    next_output_len, Action, DecoderFeed, DecoderStep, EncodePlan, EncoderActionLoop, Error,
    Feed, FeedPhase, FeedRequest, FeedStep, LoopStep, Status, UpstreamDecoderLoop,
    UpstreamEncoderLoop, UpstreamPlan,
};
use lib::harness::upstream_encode_expected;

#[test]
fn encoder_action_loop_run_ends_when_input_is_consumed() {
    let mut l = EncoderActionLoop::new(Action::Run, 5);
    let mut encoded = vec![9];
    assert_eq!(l.absorb(&mut encoded, &[1, 2, 3], 2, 1, Status::Normal), LoopStep::Continue);
    assert_eq!(encoded, vec![9, 1]);
    assert_eq!(l.input_pos, 2);
    assert_eq!(l.absorb(&mut encoded, &[4, 5], 3, 2, Status::Normal), LoopStep::Done(Status::Normal));
    assert_eq!(encoded, vec![9, 1, 4, 5]);
}

#[test]
fn encoder_action_loop_finish_ends_at_stream_end() {
    let mut l = EncoderActionLoop::new(Action::Finish, 0);
    let mut encoded = Vec::new();
    assert_eq!(l.absorb(&mut encoded, &[1, 2, 3], 0, 3, Status::Normal), LoopStep::Continue);
    assert_eq!(
        l.absorb(&mut encoded, &[4, 5, 6], 0, 2, Status::StreamEnd),
        LoopStep::Done(Status::StreamEnd)
    );
    assert_eq!(encoded, vec![1, 2, 3, 4, 5]);
}

#[test]
fn encoder_action_loop_gives_up_after_the_round_limit() {
    let mut l = EncoderActionLoop::new(Action::Finish, 0);
    let mut encoded = Vec::new();
    let mut last = LoopStep::Continue;
    for _ in 0..200_000 {
        last = l.absorb(&mut encoded, &[0], 0, 0, Status::Normal);
    }
    assert_eq!(last, LoopStep::Stuck);
}

#[test]
fn upstream_encoder_loop_stops_after_two_idle_calls() {
    let mut l = UpstreamEncoderLoop::new(Action::Finish, 0);
    let mut encoded = Vec::new();
    assert_eq!(l.absorb(&mut encoded, &[7], 0, 1, Status::Normal), LoopStep::Continue);
    assert_eq!(l.absorb(&mut encoded, &[7], 0, 0, Status::Normal), LoopStep::Continue);
    assert_eq!(l.absorb(&mut encoded, &[7], 0, 1, Status::Normal), LoopStep::Continue);
    assert_eq!(l.absorb(&mut encoded, &[7], 0, 0, Status::Normal), LoopStep::Continue);
    assert_eq!(l.absorb(&mut encoded, &[7], 0, 0, Status::Normal), LoopStep::Done(Status::Normal));
    assert_eq!(encoded, vec![7, 7]);
}

#[test]
fn upstream_decoder_loop_decisions() {
    let mut l = UpstreamDecoderLoop::new(Action::Run, 4);
    assert_eq!(l.absorb(Err(Error::Data)), DecoderStep::Finished(true));
    let mut l = UpstreamDecoderLoop::new(Action::Run, 4);
    assert_eq!(l.absorb(Err(Error::Program)), DecoderStep::ProgramError);
    let mut l = UpstreamDecoderLoop::new(Action::Run, 4);
    assert_eq!(l.absorb(Ok((1, 0, Status::Normal))), DecoderStep::Continue);
    assert_eq!(l.absorb(Ok((3, 9, Status::Normal))), DecoderStep::Finished(false));
    let mut l = UpstreamDecoderLoop::new(Action::Finish, 4);
    assert_eq!(l.absorb(Ok((4, 9, Status::Normal))), DecoderStep::Continue);
    assert_eq!(l.absorb(Ok((0, 0, Status::Normal))), DecoderStep::Finished(false));
    let mut l = UpstreamDecoderLoop::new(Action::Finish, 4);
    assert_eq!(l.absorb(Ok((0, 0, Status::Normal))), DecoderStep::Continue);
    assert_eq!(l.absorb(Ok((0, 0, Status::Normal))), DecoderStep::Finished(false));
    let mut l = UpstreamDecoderLoop::new(Action::Finish, 4);
    assert_eq!(l.absorb(Ok((2, 0, Status::StreamEnd))), DecoderStep::Finished(true));
}

fn run_encode_plan(len: usize, controls: &[u8], allow_sync_flush: bool) -> Vec<Feed> {
    let input: Vec<u8> = (0..len).map(|i| (i % 251) as u8).collect();
    let mut plan = EncodePlan::new(&input, allow_sync_flush);
    let mut feeds = Vec::new();
    let mut fed = Vec::new();
    while let Some(f) = plan.next(&input, controls) {
        fed.extend_from_slice(&input[f.start..f.end]);
        // One stream call per action, each taking one output-size control byte.
        next_output_len(controls, &mut plan.control_index);
        feeds.push(f);
    }
    // Everything handed out, in order, is the input.
    assert_eq!(fed, input);
    feeds
}

#[test]
fn encode_plan_tiles_the_input_and_finishes() {
    for controls in [&[][..], &[0, 4, 3][..], &[4][..], &[8, 1, 200, 3][..], &[5, 9, 12, 16][..]] {
        for len in [0usize, 1, 2, 7, 100, 5000] {
            for allow in [false, true] {
                let feeds = run_encode_plan(len, controls, allow);
                let mut pos = 0;
                for f in &feeds[..feeds.len() - 1] {
                    if f.action == Action::Run {
                        assert_eq!(f.start, pos);
                        assert!(f.end > f.start);
                        pos = f.end;
                    } else {
                        assert!(f.action != Action::Finish);
                        assert_eq!((f.start, f.end), (pos, pos));
                    }
                }
                assert_eq!(pos, len);
                assert_eq!(*feeds.last().unwrap(), Feed { start: len, end: len, action: Action::Finish });
            }
        }
    }
}

#[test]
fn encode_plan_flush_choices() {
    let feeds = run_encode_plan(1, &[4], true);
    assert_eq!(feeds[0], Feed { start: 0, end: 1, action: Action::Run });
    assert_eq!(feeds[1], Feed { start: 1, end: 1, action: Action::FullFlush });
    assert_eq!(feeds[2], Feed { start: 1, end: 1, action: Action::Finish });
    let feeds = run_encode_plan(1, &[8], true);
    assert_eq!(feeds[1].action, Action::FullBarrier);
    let feeds = run_encode_plan(1, &[8], false);
    assert_eq!(feeds[1].action, Action::FullFlush);
    let feeds = run_encode_plan(1, &[12], true);
    assert_eq!(feeds[1].action, Action::SyncFlush);
    let feeds = run_encode_plan(1, &[5], true);
    assert_eq!(feeds.len(), 2);
}

fn run_upstream_plan(input: &[u8]) -> (Vec<Feed>, Vec<u8>) {
    let mut plan = UpstreamPlan::new(input, Action::Finish, Action::Run);
    let mut feeds = Vec::new();
    let mut fed = Vec::new();
    while let Some(f) = plan.next(input) {
        fed.extend_from_slice(&input[f.start..f.end]);
        feeds.push(f);
    }
    (feeds, fed)
}

#[test]
fn upstream_plan_feeds_half_then_whole() {
    let input: Vec<u8> = (0..5000u32).map(|i| (i * 7) as u8).collect();
    let (feeds, fed) = run_upstream_plan(&input);
    assert_eq!(
        feeds,
        vec![
            Feed { start: 0, end: 2500, action: Action::Run },
            Feed { start: 0, end: 2047, action: Action::Run },
            Feed { start: 2047, end: 4094, action: Action::Run },
            Feed { start: 4094, end: 5000, action: Action::Finish },
        ]
    );
    assert_eq!(fed, upstream_encode_expected(&input));

    let (feeds, fed) = run_upstream_plan(&[]);
    assert_eq!(feeds, vec![Feed { start: 0, end: 0, action: Action::Run }]);
    assert!(fed.is_empty());

    let (feeds, fed) = run_upstream_plan(&[42]);
    assert_eq!(feeds, vec![Feed { start: 0, end: 1, action: Action::Finish }]);
    assert_eq!(fed, upstream_encode_expected(&[42]));
}

#[test]
fn upstream_plan_stops_early() {
    let input = [1u8; 10];
    let mut plan = UpstreamPlan::new(&input, Action::Finish, Action::Finish);
    assert!(plan.next(&input).is_some());
    plan.stop();
    assert!(plan.next(&input).is_none());
}

#[test]
fn decoder_feed_chunks_then_forces_then_finishes() {
    let controls = [0u8];
    let mut feed = DecoderFeed::new(10);
    assert_eq!(feed.next_request(&controls), FeedRequest::Run { start: 0, end: 1, out_len: 1 });
    assert_eq!(feed.on_run(Ok((1, 0, Status::Normal))), FeedStep::Continue);
    assert_eq!(feed.next_request(&controls), FeedRequest::Run { start: 1, end: 2, out_len: 1 });
    assert_eq!(feed.on_run(Ok((0, 0, Status::Normal))), FeedStep::Continue);
    assert!(feed.force_all_remaining);
    assert_eq!(feed.next_request(&controls), FeedRequest::Run { start: 1, end: 10, out_len: 1 });
    assert_eq!(feed.on_run(Ok((0, 0, Status::Normal))), FeedStep::Continue);
    assert_eq!(feed.phase, FeedPhase::Finishing);
    assert_eq!(feed.next_request(&controls), FeedRequest::Finish { out_len: 1 });
    for _ in 0..16 {
        assert_eq!(feed.on_finish(Ok((0, Status::Normal))), FeedStep::Continue);
    }
    assert_eq!(feed.on_finish(Ok((0, Status::Normal))), FeedStep::NoProgress);
}

#[test]
fn decoder_feed_endings() {
    let mut feed = DecoderFeed::new(3);
    assert!(matches!(feed.next_request(&[]), FeedRequest::Run { start: 0, .. }));
    assert_eq!(feed.on_run(Ok((1, 4, Status::StreamEnd))), FeedStep::Return);
    assert_eq!(feed.next_request(&[]), FeedRequest::Done);

    let mut feed = DecoderFeed::new(3);
    feed.next_request(&[]);
    assert_eq!(feed.on_run(Err(Error::Program)), FeedStep::ProgramError);
    let mut feed = DecoderFeed::new(3);
    feed.next_request(&[]);
    assert_eq!(feed.on_run(Err(Error::Format)), FeedStep::Return);

    let mut feed = DecoderFeed::new(0);
    assert_eq!(feed.next_request(&[3]), FeedRequest::Finish { out_len: 35 });
    assert_eq!(feed.on_finish(Ok((5, Status::Normal))), FeedStep::Continue);
    assert_eq!(feed.on_finish(Ok((0, Status::MemNeeded))), FeedStep::Return);
    assert_eq!(feed.next_request(&[3]), FeedRequest::Done);
}
