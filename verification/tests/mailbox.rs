use zeusix_desktop::mailbox::FrameMailbox;

#[test]
fn new_mailbox_reads_nothing() {
    let mailbox = FrameMailbox::new();
    assert!(mailbox.is_empty());
    assert_eq!(mailbox.read(), None);
    assert_eq!(mailbox.read_or_empty(), Vec::<u8>::new());
}

#[test]
fn publish_replaces_the_earlier_frame() {
    let mut mailbox = FrameMailbox::new();
    mailbox.publish(vec![1, 2, 3]);
    mailbox.publish(vec![9, 8]);
    assert_eq!(mailbox.read(), Some(vec![9, 8]));
}

#[test]
fn read_leaves_the_frame_in_place() {
    let mut mailbox = FrameMailbox::new();
    mailbox.publish(vec![5, 6, 7]);
    assert_eq!(mailbox.read(), Some(vec![5, 6, 7]));
    assert_eq!(mailbox.read(), Some(vec![5, 6, 7]));
    assert_eq!(mailbox.read_or_empty(), vec![5, 6, 7]);
    assert!(!mailbox.is_empty());
}

#[test]
fn clear_empties_the_mailbox() {
    let mut mailbox = FrameMailbox::new();
    mailbox.publish(vec![1]);
    mailbox.clear();
    assert!(mailbox.is_empty());
    assert_eq!(mailbox.read(), None);
}

#[test]
fn an_empty_frame_differs_from_no_frame() {
    let mut mailbox = FrameMailbox::new();
    mailbox.publish(Vec::new());
    assert_eq!(mailbox.read(), Some(Vec::new()));
    assert!(!mailbox.is_empty());
    assert_eq!(mailbox.read_or_empty(), Vec::<u8>::new());
}
