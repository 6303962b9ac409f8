use heph_gl::renderers::max_concurrent_threads;
use heph_gl::renderers::thread_context::{
    already_registered_error, no_thread_registered, register, thread_context_count, unregister,
    ThreadContextIndex, ThreadContextMaskArray, INVALID_THREAD_CONTEXT_INDEX,
    MAIN_THREAD_CONTEXT_INDEX, MAIN_THREAD_CONTEXT_MASK_INDEX, THREAD_CONTEXT_COUNT,
    THREAD_CONTEXT_MASK_BIT_SIZE,
};
use heph_gl::renderers::RendererError;

#[test]
fn test_thread_context_index() {
    let index = ThreadContextIndex::new();
    assert_eq!(index.get(), INVALID_THREAD_CONTEXT_INDEX);
    let try_get = index.try_get();
    assert!(try_get.is_err());
    assert_eq!(try_get.err().unwrap(), RendererError::invalid_operation(""));
}

#[test]
fn register_main_thread_sets_the_reserved_slot() {
    let mut index = ThreadContextIndex::new();
    let mut masks: ThreadContextMaskArray = [0; 1];
    assert!(register(&mut index, &mut masks, true).is_ok());
    assert_eq!(index.get(), MAIN_THREAD_CONTEXT_INDEX);
    assert_eq!(
        masks[MAIN_THREAD_CONTEXT_MASK_INDEX],
        1 << (MAIN_THREAD_CONTEXT_INDEX % THREAD_CONTEXT_MASK_BIT_SIZE)
    );
    assert_eq!(index.try_get().unwrap(), MAIN_THREAD_CONTEXT_INDEX);
}

#[test]
fn register_worker_takes_lowest_free_slot() {
    let mut index = ThreadContextIndex::new();
    let mut masks: ThreadContextMaskArray = [0; 1];
    assert!(register(&mut index, &mut masks, false).is_ok());
    assert_ne!(index.get(), INVALID_THREAD_CONTEXT_INDEX);
    assert_eq!(index.get(), 0);
    assert_eq!(masks[0], 1);

    let mut second = ThreadContextIndex::new();
    masks[0] |= 0b100;
    assert!(register(&mut second, &mut masks, false).is_ok());
    assert_eq!(second.get(), 1);
    assert_eq!(masks[0], 0b111);
}

#[test]
fn unregister_restores_the_masks() {
    let mut index = ThreadContextIndex::new();
    let mut masks: ThreadContextMaskArray = [0; 1];
    assert!(register(&mut index, &mut masks, false).is_ok());
    unregister(&mut index, &mut masks);
    assert_eq!(index.get(), INVALID_THREAD_CONTEXT_INDEX);
    assert_eq!(masks[0], 0);
    assert!(no_thread_registered(&masks));
}

#[test]
fn all_threads_fill_and_release_every_slot() {
    let mut masks: ThreadContextMaskArray = [0; 1];
    let mut indices = Vec::new();
    for i in 0..THREAD_CONTEXT_COUNT {
        let mut index = ThreadContextIndex::new();
        assert!(register(&mut index, &mut masks, i == MAIN_THREAD_CONTEXT_INDEX).is_ok());
        indices.push(index);
    }
    for mask in masks {
        assert_eq!(mask, u128::MAX);
    }
    let mut extra = ThreadContextIndex::new();
    let err = register(&mut extra, &mut masks, false).unwrap_err();
    assert_eq!(
        err.to_string(),
        "Failed to initialize frames: maximum threads reached"
    );
    assert_eq!(extra.get(), INVALID_THREAD_CONTEXT_INDEX);
    for index in indices.iter_mut() {
        unregister(index, &mut masks);
    }
    for mask in masks {
        assert_eq!(mask, 0);
    }
}

#[test]
fn registrations_in_any_order_hand_out_distinct_slots() {
    let mut masks: ThreadContextMaskArray = [0; 1];
    let mut seen = Vec::new();
    for i in 0..THREAD_CONTEXT_COUNT {
        let mut index = ThreadContextIndex::new();
        assert!(register(&mut index, &mut masks, i == 40).is_ok());
        let slot = index.get();
        assert!(!seen.contains(&slot));
        assert_eq!(slot == MAIN_THREAD_CONTEXT_INDEX, i == 40);
        seen.push(slot);
    }
    assert_eq!(masks[0], u128::MAX);
}

#[test]
fn workers_never_take_the_main_slot() {
    let mut masks: ThreadContextMaskArray = [u128::MAX >> 1; 1];
    let mut index = ThreadContextIndex::new();
    assert!(register(&mut index, &mut masks, false).is_err());
    assert_eq!(masks[0], u128::MAX >> 1);
    assert!(!no_thread_registered(&masks));
}

#[test]
fn thread_counts_and_messages() {
    assert_eq!(thread_context_count(), 128);
    assert_eq!(max_concurrent_threads(), 128);
    assert_eq!(
        already_registered_error(5).to_string(),
        "Invalid operation: Current thread (5) already has a worker."
    );
}
