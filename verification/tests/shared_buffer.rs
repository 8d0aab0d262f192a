use tephrite_rs::shared_buffer::{
    adaptive_pause, check_join, compute_shmem_allocation_size, confirm_join, AttachError,
    CommitStep, ConsumerState, ControlBlock, NextFrame, Pause, ProducerConfigError, ProducerState,
    ReadyStep, MAGIC, MAX_PAGE, SHMEM_DATA_OFFSET,
};

#[test]
fn allocation_sizes_round_up_to_pages() {
    assert_eq!(compute_shmem_allocation_size(3, 1000, 4096), Some(12288));
    assert_eq!(compute_shmem_allocation_size(2, 4096, 4096), Some(SHMEM_DATA_OFFSET + 8192));
    assert_eq!(compute_shmem_allocation_size(1, 1, -1), Some(MAX_PAGE));
    assert_eq!(compute_shmem_allocation_size(usize::MAX, 2, 4096), None);
    assert_eq!(compute_shmem_allocation_size(1, usize::MAX - 10, 4096), None);
}

#[test]
fn producers_need_two_buffers_and_some_consumers() {
    let mut cb = ControlBlock::zeroed();
    assert_eq!(
        ProducerState::new(1, 64, 1, &mut cb).err(),
        Some(ProducerConfigError::TooFewBuffers)
    );
    assert_eq!(
        ProducerState::new(3, 64, 0, &mut cb).err(),
        Some(ProducerConfigError::ConsumerCountOutOfBounds)
    );
    assert_eq!(
        ProducerState::new(3, 64, 16, &mut cb).err(),
        Some(ProducerConfigError::ConsumerCountOutOfBounds)
    );
    assert_eq!(cb.magic, 0);
    let p = ProducerState::new(3, 64, 2, &mut cb).ok().unwrap();
    assert_eq!(cb.magic, MAGIC);
    assert_eq!(cb.buf_count, 3);
    assert_eq!(cb.num_consumers, 2);
    assert_eq!(cb.consumer_barrier.thread_count, 2);
    assert_eq!(p.last_published, 0);
}

#[test]
fn producer_waits_for_consumers_then_commits_in_lockstep() {
    let mut cb = ControlBlock::zeroed();
    let mut p = ProducerState::new(3, 64, 2, &mut cb).ok().unwrap();
    assert_eq!(p.wait_until_ready_step(1), ReadyStep::Wait);
    assert_eq!(p.wait_until_ready_step(2), ReadyStep::Ready { start: true });
    assert_eq!(p.wait_until_ready_step(0), ReadyStep::Ready { start: false });

    let s = p.prepare();
    assert_eq!((s.gen_next, s.slot, s.size), (1, 1, 64));
    cb.publish(s.slot, s.gen_next);
    cb.consumer_gen[0] = 1;
    assert_eq!(p.commit_step(&s, cb.min_acked(2), 0), CommitStep::Wait);
    assert_eq!(p.last_published, 0);
    cb.consumer_gen[1] = 1;
    assert_eq!(p.commit_step(&s, cb.min_acked(2), 0), CommitStep::Done { gen: 1, slot: 1 });
    assert_eq!(p.last_published, 1);

    let s = p.prepare();
    assert_eq!((s.gen_next, s.slot), (2, 2));
    assert_eq!(p.commit_step(&s, cb.min_acked(2), 1), CommitStep::Interrupt);
    p.shutdown();
    assert_eq!(p.wait_until_ready_step(2), ReadyStep::Interrupt);
    assert_eq!(p.choose_slot_rr(3), 0);
}

#[test]
fn consumers_take_each_new_generation_once() {
    let mut cb = ControlBlock::zeroed();
    let _ = ProducerState::new(2, 16, 1, &mut cb);
    let mut c = ConsumerState::new(0, 1, 0, 16);
    assert_eq!(c.wait_for_next_step(0, 0, 0, 0), NextFrame::Wait);
    assert_eq!(c.wait_for_next_step(0, 1, 1, 2), NextFrame::Retry);
    assert_eq!(c.wait_for_next_step(0, 1, 1, 1), NextFrame::Frame { gen: 1, slot: 1 });
    c.ack(&mut cb, 1);
    assert_eq!(cb.consumer_gen[0], 1);
    assert_eq!(c.last_seen, 1);
    assert_eq!(c.wait_for_next_step(0, 1, 1, 1), NextFrame::Wait);
    assert_eq!(c.wait_for_next_step(1, 2, 0, 2), NextFrame::Interrupt);
}

#[test]
fn late_consumers_are_refused() {
    assert_eq!(check_join(0), Ok(()));
    assert_eq!(check_join(1), Err(AttachError::LateAttach));
    assert_eq!(confirm_join(1), Err(AttachError::LateAttach));
    assert_eq!(AttachError::LateAttach.message(), "late attach not allowed: producer already started");
}

#[test]
fn min_acked_is_the_least_of_the_first_consumers() {
    let mut cb = ControlBlock::zeroed();
    cb.consumer_gen[0] = 5;
    cb.consumer_gen[1] = 3;
    cb.consumer_gen[2] = 9;
    assert_eq!(cb.min_acked(0), u64::MAX);
    assert_eq!(cb.min_acked(1), 5);
    assert_eq!(cb.min_acked(3), 3);
}

#[test]
fn pauses_spin_then_yield_then_sleep() {
    let mut spins = 0u32;
    assert_eq!(adaptive_pause(&mut spins), Pause::Spin);
    assert_eq!(spins, 1);
    spins = 62;
    assert_eq!(adaptive_pause(&mut spins), Pause::Spin);
    assert_eq!(adaptive_pause(&mut spins), Pause::Yield);
    spins = 254;
    assert_eq!(adaptive_pause(&mut spins), Pause::Yield);
    assert_eq!(adaptive_pause(&mut spins), Pause::Sleep);
}

#[test]
fn producers_zero_a_used_control_block() {
    let mut cb = ControlBlock::zeroed();
    cb.ready_count = 5;
    cb.started = 1;
    cb.shutdown = 1;
    cb.publish_gen = 9;
    cb.consumer_gen[3] = 7;
    cb.consumer_gen[15] = 4;
    let p = ProducerState::new(4, 128, 2, &mut cb);
    assert!(p.is_ok());
    assert_eq!(cb.ready_count, 0);
    assert_eq!(cb.started, 0);
    assert_eq!(cb.shutdown, 0);
    assert_eq!(cb.publish_gen, 0);
    assert_eq!(cb.publish_idx, 0);
    assert!(cb.consumer_gen.iter().all(|g| *g == 0));
    assert_eq!(cb.buf_size, 128);
}

#[test]
fn preparing_twice_hands_out_the_same_frame() {
    let mut cb = ControlBlock::zeroed();
    let mut p = ProducerState::new(3, 32, 1, &mut cb).ok().unwrap();
    let a = p.prepare();
    let b = p.prepare();
    assert_eq!(a, b);
    assert_eq!(p.last_published, 0);
    assert_eq!(p.commit_step(&a, 1, 1), CommitStep::Done { gen: 1, slot: 1 });
    assert_eq!(p.last_published, 1);
}
