use d3dx12::command_queue::SynchronizedCommandQueue;
use d3dx12::command_queue::FIRST_FENCE_VALUE;
use d3dx12::frames::Frame;
use d3dx12::frames::Frames;
use d3dx12::frames::FRAME_COUNT;

#[test]
fn the_first_signal_carries_the_value_one() {
    let mut queue = SynchronizedCommandQueue::new();
    assert_eq!(FIRST_FENCE_VALUE, 1);
    assert_eq!(queue.fence_value(), 1);
    assert_eq!(queue.enqueue_signal(), 1);
    assert_eq!(queue.fence_value(), 2);
}

#[test]
fn each_signal_carries_a_value_one_higher() {
    let mut queue = SynchronizedCommandQueue::new();
    let mut last = 0;
    for expected in 1..=100u64 {
        assert_eq!(queue.fence_value(), expected);
        let signaled = queue.enqueue_signal();
        assert_eq!(signaled, expected);
        assert!(signaled > last);
        last = signaled;
    }
    assert_eq!(queue.fence_value(), 101);
}

#[test]
fn a_new_frame_owns_nothing() {
    let frame: Frame<&str> = Frame::new();
    assert_eq!(frame.fence_value(), 0);
    assert!(frame.command_allocators().is_empty());
    assert!(frame.needs_command_allocator());
}

#[test]
fn a_frame_hands_out_its_allocators_first_to_last() {
    let mut frame: Frame<&str> = Frame::new();
    frame.add_command_allocator("a");
    assert!(!frame.needs_command_allocator());
    assert_eq!(*frame.get_command_allocator(), "a");
    assert!(frame.needs_command_allocator());
    frame.add_command_allocator("b");
    assert_eq!(*frame.get_command_allocator(), "b");
    assert!(frame.needs_command_allocator());
    assert_eq!(frame.command_allocators(), &vec!["a", "b"]);

    frame.start();
    assert!(!frame.needs_command_allocator());
    assert_eq!(*frame.get_command_allocator(), "a");
    assert!(!frame.needs_command_allocator());
    assert_eq!(*frame.get_command_allocator(), "b");
    assert!(frame.needs_command_allocator());
    frame.add_command_allocator("c");
    assert_eq!(*frame.get_command_allocator(), "c");
    assert_eq!(frame.command_allocators(), &vec!["a", "b", "c"]);
}

#[test]
fn a_frame_keeps_the_value_it_was_ended_with() {
    let mut frame: Frame<u8> = Frame::new();
    frame.add_command_allocator(1);
    let _ = frame.get_command_allocator();
    frame.end(41);
    assert_eq!(frame.fence_value(), 41);
    assert!(frame.needs_command_allocator());
    frame.start();
    assert_eq!(frame.fence_value(), 41);
    assert!(!frame.needs_command_allocator());
    frame.end(42);
    assert_eq!(frame.fence_value(), 42);
}

#[test]
fn new_frames_start_with_the_first_back_buffer() {
    let frames: Frames<u8, u8> = Frames::new();
    assert_eq!(FRAME_COUNT, 2);
    assert_eq!(frames.current_index(), 0);
    assert_eq!(frames.frame().fence_value(), 0);
    assert!(frames.frame().command_allocators().is_empty());
    assert!(frames.command_lists().is_empty());
    assert!(frames.needs_command_allocator());
}

#[test]
fn recorded_command_lists_keep_their_order() {
    let mut frames: Frames<u8, &str> = Frames::new();
    frames.push_command_list("pre");
    frames.push_command_list("shadow");
    frames.push_command_list("post");
    assert_eq!(frames.command_lists(), &vec!["pre", "shadow", "post"]);
}

#[test]
fn command_lists_go_to_rest_when_the_frame_ends() {
    let mut frames: Frames<u8, u32> = Frames::new();
    assert_eq!(frames.take_idle_command_list(), None);
    frames.push_command_list(1);
    frames.push_command_list(2);
    frames.end_frame(7, 1);
    assert!(frames.command_lists().is_empty());
    assert_eq!(frames.current_index(), 1);

    frames.push_command_list(3);
    frames.end_frame(8, 0);
    assert!(frames.command_lists().is_empty());
    assert_eq!(frames.take_idle_command_list(), Some(3));
    assert_eq!(frames.take_idle_command_list(), Some(2));
    assert_eq!(frames.take_idle_command_list(), Some(1));
    assert_eq!(frames.take_idle_command_list(), None);
}

#[test]
fn each_frame_keeps_its_own_fence_value_and_allocators() {
    let mut frames: Frames<&str, u32> = Frames::new();
    frames.start_frame();
    frames.add_command_allocator("first of 0");
    assert_eq!(*frames.get_command_allocator(), "first of 0");
    frames.end_frame(5, 1);

    assert_eq!(frames.current_index(), 1);
    assert_eq!(frames.frame().fence_value(), 0);
    frames.start_frame();
    assert!(frames.needs_command_allocator());
    frames.add_command_allocator("first of 1");
    frames.add_command_allocator("second of 1");
    assert_eq!(*frames.get_command_allocator(), "first of 1");
    assert_eq!(*frames.get_command_allocator(), "second of 1");
    frames.end_frame(6, 0);

    assert_eq!(frames.current_index(), 0);
    assert_eq!(frames.frame().fence_value(), 5);
    assert_eq!(frames.frame().command_allocators(), &vec!["first of 0"]);
    assert!(frames.needs_command_allocator());
    frames.start_frame();
    assert!(!frames.needs_command_allocator());
    assert_eq!(*frames.get_command_allocator(), "first of 0");
    frames.end_frame(7, 1);

    assert_eq!(frames.frame().fence_value(), 6);
    assert_eq!(
        frames.frame().command_allocators(),
        &vec!["first of 1", "second of 1"]
    );
}

#[test]
fn a_frame_may_follow_itself() {
    let mut frames: Frames<u8, u8> = Frames::new();
    frames.push_command_list(9);
    frames.end_frame(3, 0);
    assert_eq!(frames.current_index(), 0);
    assert_eq!(frames.frame().fence_value(), 3);
    assert_eq!(frames.take_idle_command_list(), Some(9));
}

#[test]
fn a_whole_frame_of_the_renderer() {
    let mut queue = SynchronizedCommandQueue::new();
    let mut frames: Frames<u32, u32> = Frames::new();
    let mut made_lists = 0u32;
    let mut made_allocators = 0u32;
    for round in 0..4usize {
        frames.start_frame();
        for _ in 0..19 {
            let list = match frames.take_idle_command_list() {
                Some(list) => list,
                None => {
                    made_lists += 1;
                    made_lists
                }
            };
            if frames.needs_command_allocator() {
                made_allocators += 1;
                frames.add_command_allocator(made_allocators);
            }
            let _ = frames.get_command_allocator();
            frames.push_command_list(list);
        }
        assert_eq!(frames.command_lists().len(), 19);
        let signaled = queue.enqueue_signal();
        assert_eq!(signaled, round as u64 + 1);
        frames.end_frame(signaled, (round + 1) % FRAME_COUNT);
    }
    assert_eq!(made_lists, 19);
    assert_eq!(made_allocators, 38);
    assert_eq!(frames.frame().fence_value(), 3);
}

#[test]
fn a_queue_that_has_signaled_little_can_signal_again() {
    let mut queue = SynchronizedCommandQueue::new();
    assert!(queue.can_enqueue_signal());
    queue.enqueue_signal();
    assert!(queue.can_enqueue_signal());
}
