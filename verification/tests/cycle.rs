use framechain::error::RenderError;
use framechain::fence::PreviousFuture;
use framechain::render::CommandBuffer;
use framechain::surface::{CompositeAlpha, Extent, ImageUsage, RenderPass, SwapchainCreateInfo};
use framechain::swapchain::{ChainReply, DrawAction, DrawEvent, Phase, Swapchain};

const CALLBACK: u64 = 7;

fn info() -> SwapchainCreateInfo {
    SwapchainCreateInfo {
        min_image_count: 3,
        image_format: Some(44),
        image_extent: Extent { width: 800, height: 600 },
        image_usage: ImageUsage::ColorAttachment,
        composite_alpha: CompositeAlpha::Opaque,
    }
}

fn reply(first_image: u64, n: u64) -> ChainReply {
    ChainReply {
        images: (0..n).map(|i| first_image + i).collect(),
        framebuffers: (0..n).map(|i| Some(first_image + 1000 + i)).collect(),
    }
}

fn sequences(first: u64, n: u64) -> Vec<Option<u64>> {
    (0..n).map(|i| Some(first + i)).collect()
}

fn recorded_chain(n: u64) -> Swapchain {
    let mut chain = Swapchain::new(info(), Some(reply(100, n))).unwrap();
    chain.build_command_buffer(CALLBACK, &sequences(500, n)).unwrap();
    chain
}

fn recordings(chain: &Swapchain) -> Vec<Option<CommandBuffer>> {
    (0..chain.framebuffers.len()).map(|i| chain.framebuffers.index(i).command_buffer).collect()
}

fn tokens(chain: &Swapchain) -> Vec<Option<u64>> {
    (0..chain.framebuffers.len()).map(|i| chain.framebuffers.index(i).fence_ticket()).collect()
}

/// Runs one cycle in which the device acquires `index` and flushes under `ticket`.
fn clean_cycle(chain: &mut Swapchain, index: u32, ticket: u64) -> DrawAction {
    assert!(chain.is_well_formed());
    let begun = chain.draw(DrawEvent::Tick).unwrap();
    assert!(matches!(begun, DrawAction::Acquire { .. }));
    let acquired = chain.draw(DrawEvent::Acquired { index, suboptimal: false }).unwrap();
    assert!(matches!(acquired, DrawAction::Submit { .. }));
    chain.draw(DrawEvent::Flushed { ticket }).unwrap()
}

#[test]
fn new_chain_is_ready_with_fresh_targets() {
    let chain = Swapchain::new(info(), Some(reply(100, 3))).unwrap();
    assert_eq!(chain.swapchain, info());
    assert_eq!(chain.render_pass, RenderPass::single_color(44));
    assert_eq!(chain.framebuffers.len(), 3);
    assert_eq!(chain.previous_image_index(), 0);
    assert_eq!(chain.phase(), Phase::Ready);
    assert_eq!(tokens(&chain), vec![None, None, None]);
    assert_eq!(recordings(&chain), vec![None, None, None]);
    assert_eq!(chain.framebuffers.cb_builder(), None);
    assert!(chain.is_well_formed());
}

#[test]
fn new_chain_has_one_target_per_distinct_image() {
    for n in 2u64..8 {
        let chain = Swapchain::new(info(), Some(reply(100, n))).unwrap();
        assert_eq!(chain.framebuffers.len() as u64, n);
        for i in 0..n as usize {
            assert_eq!(chain.framebuffers.index(i).image, 100 + i as u64);
            for j in 0..i {
                assert_ne!(chain.framebuffers.index(i).image, chain.framebuffers.index(j).image);
            }
        }
    }
}

#[test]
fn new_chain_rejected_is_setup_error() {
    assert_eq!(Swapchain::new(info(), None).unwrap_err(), RenderError::Setup);
    assert_eq!(Swapchain::new(info(), Some(reply(100, 0))).unwrap_err(), RenderError::Setup);
    let no_format = SwapchainCreateInfo { image_format: None, ..info() };
    assert_eq!(Swapchain::new(no_format, Some(reply(100, 3))).unwrap_err(), RenderError::Setup);
    let mut partial = reply(100, 3);
    partial.framebuffers = vec![Some(1), None];
    assert_eq!(Swapchain::new(info(), Some(partial)).unwrap_err(), RenderError::Setup);
}

#[test]
fn first_draw_joins_a_now_future_and_leaves_cursor_at_zero() {
    let mut chain = recorded_chain(3);
    assert_eq!(
        chain.draw(DrawEvent::Tick),
        Ok(DrawAction::Acquire { previous: PreviousFuture::Now })
    );
    assert_eq!(chain.phase(), Phase::Acquiring { previous: PreviousFuture::Now });
    assert_eq!(
        chain.draw(DrawEvent::Acquired { index: 0, suboptimal: false }),
        Ok(DrawAction::Submit { previous: PreviousFuture::Now, index: 0, command_buffer: 500 })
    );
    assert_eq!(
        chain.phase(),
        Phase::Submitting { previous: PreviousFuture::Now, index: 0, suboptimal: false }
    );
    assert_eq!(chain.draw(DrawEvent::Flushed { ticket: 9000 }), Ok(DrawAction::Done));
    assert_eq!(chain.previous_image_index(), 0);
    assert_eq!(chain.phase(), Phase::Ready);
    assert_eq!(tokens(&chain), vec![Some(9000), None, None]);
}

#[test]
fn next_draw_joins_the_token_of_the_previous_frame() {
    let mut chain = recorded_chain(3);
    assert_eq!(clean_cycle(&mut chain, 0, 9000), DrawAction::Done);
    assert_eq!(
        chain.draw(DrawEvent::Tick),
        Ok(DrawAction::Acquire { previous: PreviousFuture::Signaled(9000) })
    );
    assert_eq!(tokens(&chain), vec![None, None, None]);
    assert_eq!(
        chain.draw(DrawEvent::Acquired { index: 1, suboptimal: false }),
        Ok(DrawAction::Submit {
            previous: PreviousFuture::Signaled(9000),
            index: 1,
            command_buffer: 501
        })
    );
    assert_eq!(chain.draw(DrawEvent::Flushed { ticket: 9001 }), Ok(DrawAction::Done));
    assert_eq!(chain.previous_image_index(), 1);
    assert_eq!(tokens(&chain), vec![None, Some(9001), None]);
}

#[test]
fn draws_without_resize_never_recreate_and_keep_recordings() {
    for n in 2u64..5 {
        let mut chain = recorded_chain(n);
        let before = recordings(&chain);
        for frame in 0..(3 * n) {
            let index = (frame % n) as u32;
            assert_eq!(clean_cycle(&mut chain, index, 9000 + frame), DrawAction::Done);
            assert_eq!(chain.phase(), Phase::Ready);
            assert_eq!(chain.previous_image_index(), index);
            assert_eq!(recordings(&chain), before);
            assert_eq!(chain.framebuffers.cb_builder(), Some(CALLBACK));
        }
    }
}

#[test]
fn at_most_the_cursor_target_holds_a_token() {
    let mut chain = recorded_chain(3);
    let order = [0u32, 1, 2, 0, 2, 2, 1, 0];
    for (frame, index) in order.iter().enumerate() {
        clean_cycle(&mut chain, *index, 9000 + frame as u64);
        let held = tokens(&chain);
        for (i, token) in held.iter().enumerate() {
            if i as u32 == *index {
                assert_eq!(*token, Some(9000 + frame as u64));
            } else {
                assert_eq!(*token, None);
            }
        }
    }
}

#[test]
fn stale_acquisition_asks_for_recreation_without_error() {
    let mut chain = recorded_chain(3);
    clean_cycle(&mut chain, 0, 9000);
    chain.draw(DrawEvent::Tick).unwrap();
    assert_eq!(chain.draw(DrawEvent::AcquireOutOfDate), Ok(DrawAction::Recreate));
    assert_eq!(chain.phase(), Phase::Stale);
    assert_eq!(chain.previous_image_index(), 0);
    // No cycle begins before the chain was recreated.
    assert_eq!(chain.draw(DrawEvent::Tick), Ok(DrawAction::Recreate));
    assert_eq!(chain.phase(), Phase::Stale);
    let size = Extent { width: 640, height: 480 };
    assert_eq!(chain.recreate(size, Some(reply(200, 3)), &sequences(600, 3)), Ok(()));
    assert_eq!(chain.phase(), Phase::Ready);
    assert_eq!(
        chain.draw(DrawEvent::Tick),
        Ok(DrawAction::Acquire { previous: PreviousFuture::Now })
    );
}

#[test]
fn suboptimal_acquisition_recreates_after_the_frame() {
    let mut chain = recorded_chain(3);
    chain.draw(DrawEvent::Tick).unwrap();
    assert_eq!(
        chain.draw(DrawEvent::Acquired { index: 1, suboptimal: true }),
        Ok(DrawAction::Submit { previous: PreviousFuture::Now, index: 1, command_buffer: 501 })
    );
    assert_eq!(chain.draw(DrawEvent::Flushed { ticket: 9000 }), Ok(DrawAction::Recreate));
    assert_eq!(chain.phase(), Phase::Stale);
    assert_eq!(chain.previous_image_index(), 1);
    assert_eq!(tokens(&chain), vec![None, Some(9000), None]);
}

#[test]
fn stale_flush_on_fifth_cycle_recreates_at_current_size() {
    let mut chain = recorded_chain(3);
    for frame in 0..4u64 {
        assert_eq!(clean_cycle(&mut chain, (frame % 3) as u32, 9000 + frame), DrawAction::Done);
    }
    chain.draw(DrawEvent::Tick).unwrap();
    chain.draw(DrawEvent::Acquired { index: 1, suboptimal: false }).unwrap();
    assert_eq!(chain.draw(DrawEvent::FlushOutOfDate), Ok(DrawAction::Recreate));
    assert_eq!(chain.phase(), Phase::Stale);
    assert_eq!(chain.previous_image_index(), 1);
    assert_eq!(tokens(&chain), vec![None, None, None]);
    let size = Extent { width: 1024, height: 768 };
    assert_eq!(chain.recreate(size, Some(reply(200, 3)), &sequences(600, 3)), Ok(()));
    assert_eq!(chain.swapchain.image_extent, size);
    assert_eq!(chain.swapchain, SwapchainCreateInfo { image_extent: size, ..info() });
    assert_eq!(chain.create_info().image_extent, size);
    assert_eq!(chain.framebuffers().len(), 3);
    assert_eq!(chain.phase(), Phase::Ready);
    assert!(chain.is_well_formed());
}

#[test]
fn recreate_after_resize_keeps_the_cached_callback() {
    let mut chain = recorded_chain(3);
    clean_cycle(&mut chain, 0, 9000);
    let size = Extent { width: 320, height: 200 };
    assert_eq!(chain.recreate(size, Some(reply(200, 3)), &sequences(600, 3)), Ok(()));
    assert_eq!(chain.framebuffers.cb_builder(), Some(CALLBACK));
    assert_eq!(chain.render_pass, RenderPass::single_color(44));
    for i in 0..3usize {
        let target = chain.framebuffers.index(i);
        assert_eq!(target.image, 200 + i as u64);
        assert_eq!(target.framebuffer, 1200 + i as u64);
        assert_eq!(
            target.command_buffer,
            Some(CommandBuffer {
                handle: 600 + i as u64,
                framebuffer: 1200 + i as u64,
                recorder: CALLBACK
            })
        );
        assert!(!target.has_fence());
    }
    assert_eq!(clean_cycle(&mut chain, 0, 9001), DrawAction::Done);
}

#[test]
fn recreate_without_callback_records_nothing() {
    let mut chain = Swapchain::new(info(), Some(reply(100, 2))).unwrap();
    let size = Extent { width: 320, height: 200 };
    assert_eq!(chain.recreate(size, Some(reply(200, 4)), &vec![]), Ok(()));
    assert_eq!(chain.framebuffers.len(), 4);
    assert_eq!(chain.framebuffers.cb_builder(), None);
    assert_eq!(recordings(&chain), vec![None, None, None, None]);
}

#[test]
fn recreate_with_fewer_images_resets_the_cursor() {
    let mut chain = recorded_chain(4);
    clean_cycle(&mut chain, 3, 9000);
    assert_eq!(chain.previous_image_index(), 3);
    let size = Extent { width: 320, height: 200 };
    chain.recreate(size, Some(reply(200, 2)), &sequences(600, 2)).unwrap();
    assert_eq!(chain.previous_image_index(), 0);
    assert!(chain.is_well_formed());
    let mut chain = recorded_chain(4);
    clean_cycle(&mut chain, 1, 9000);
    chain.recreate(size, Some(reply(200, 2)), &sequences(600, 2)).unwrap();
    assert_eq!(chain.previous_image_index(), 1);
}

#[test]
fn recreate_failure_leaves_the_chain_as_it_was() {
    let mut chain = recorded_chain(3);
    clean_cycle(&mut chain, 2, 9000);
    let before = recordings(&chain);
    let size = Extent { width: 320, height: 200 };
    assert_eq!(chain.recreate(size, None, &vec![]), Err(RenderError::Setup));
    assert_eq!(chain.recreate(size, Some(reply(200, 0)), &vec![]), Err(RenderError::Setup));
    let mut partial = reply(200, 3);
    partial.framebuffers = vec![Some(1)];
    assert_eq!(chain.recreate(size, Some(partial), &sequences(600, 3)), Err(RenderError::Setup));
    assert_eq!(
        chain.recreate(size, Some(reply(200, 3)), &vec![Some(600), None]),
        Err(RenderError::Recording)
    );
    assert_eq!(chain.swapchain, info());
    assert_eq!(recordings(&chain), before);
    assert_eq!(tokens(&chain), vec![None, None, Some(9000)]);
    assert_eq!(chain.previous_image_index(), 2);
    assert_eq!(chain.phase(), Phase::Ready);
    assert_eq!(chain.framebuffers.index(0).image, 100);
}

#[test]
fn draw_without_recording_is_recording_error() {
    let mut chain = Swapchain::new(info(), Some(reply(100, 3))).unwrap();
    chain.draw(DrawEvent::Tick).unwrap();
    assert_eq!(
        chain.draw(DrawEvent::Acquired { index: 0, suboptimal: false }),
        Err(RenderError::Recording)
    );
    assert_eq!(chain.phase(), Phase::Ready);
    assert_eq!(chain.previous_image_index(), 0);
}

#[test]
fn device_failures_are_fatal() {
    let mut chain = recorded_chain(3);
    chain.draw(DrawEvent::Tick).unwrap();
    assert_eq!(chain.draw(DrawEvent::AcquireFailed), Err(RenderError::Fatal));
    assert_eq!(chain.phase(), Phase::Ready);

    chain.draw(DrawEvent::Tick).unwrap();
    assert_eq!(
        chain.draw(DrawEvent::Acquired { index: 3, suboptimal: false }),
        Err(RenderError::Fatal)
    );
    assert_eq!(chain.phase(), Phase::Ready);

    chain.draw(DrawEvent::Tick).unwrap();
    chain.draw(DrawEvent::Acquired { index: 2, suboptimal: false }).unwrap();
    assert_eq!(chain.draw(DrawEvent::FlushFailed), Err(RenderError::Fatal));
    assert_eq!(chain.phase(), Phase::Ready);
    assert_eq!(chain.previous_image_index(), 0);
    assert_eq!(tokens(&chain), vec![None, None, None]);
}

#[test]
fn event_that_answers_nothing_is_fatal_and_changes_nothing() {
    let mut chain = recorded_chain(3);
    clean_cycle(&mut chain, 1, 9000);
    for event in [
        DrawEvent::Acquired { index: 0, suboptimal: false },
        DrawEvent::AcquireOutOfDate,
        DrawEvent::AcquireFailed,
        DrawEvent::Waited,
        DrawEvent::WaitFailed,
        DrawEvent::Flushed { ticket: 1 },
        DrawEvent::FlushOutOfDate,
        DrawEvent::FlushFailed,
    ] {
        assert_eq!(chain.draw(event), Err(RenderError::Fatal));
        assert_eq!(chain.phase(), Phase::Ready);
        assert_eq!(chain.previous_image_index(), 1);
        assert_eq!(tokens(&chain), vec![None, Some(9000), None]);
    }
    chain.draw(DrawEvent::Tick).unwrap();
    let phase = chain.phase();
    assert_eq!(chain.draw(DrawEvent::Tick), Err(RenderError::Fatal));
    assert_eq!(chain.draw(DrawEvent::Waited), Err(RenderError::Fatal));
    assert_eq!(chain.draw(DrawEvent::Flushed { ticket: 1 }), Err(RenderError::Fatal));
    assert_eq!(chain.phase(), phase);
}

#[test]
fn chain_with_foreign_render_pass_is_not_well_formed() {
    let mut chain = recorded_chain(3);
    assert!(chain.is_well_formed());
    chain.render_pass.format = 45;
    assert!(!chain.is_well_formed());
}

#[test]
fn recording_failure_leaves_the_chain_as_it_was() {
    let mut chain = recorded_chain(3);
    clean_cycle(&mut chain, 1, 9000);
    let before = recordings(&chain);
    assert_eq!(
        chain.build_command_buffer(8, &vec![Some(1), Some(2)]),
        Err(RenderError::Recording)
    );
    assert_eq!(
        chain.build_command_buffer(8, &vec![Some(1), None, Some(3)]),
        Err(RenderError::Recording)
    );
    assert_eq!(recordings(&chain), before);
    assert_eq!(chain.framebuffers.cb_builder(), Some(CALLBACK));
    assert_eq!(tokens(&chain), vec![None, Some(9000), None]);
    assert_eq!(chain.build_command_buffer(8, &sequences(700, 3)), Ok(()));
    assert_eq!(chain.framebuffers.cb_builder(), Some(8));
    assert_eq!(
        chain.framebuffers.index(2).command_buffer,
        Some(CommandBuffer { handle: 702, framebuffer: 1102, recorder: 8 })
    );
    assert_eq!(tokens(&chain), vec![None, Some(9000), None]);
    assert!(chain.is_well_formed());
}
