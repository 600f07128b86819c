use field_of_pads::sweep::plan_sweep;

#[test]
fn orphan_image_is_planned_for_removal() {
    let images = vec![b"00001".to_vec(), b"00002".to_vec()];
    let labels = vec![b"00001".to_vec()];
    let removed = plan_sweep(&images, &labels);
    assert_eq!(removed, vec![b"00002".to_vec()]);
}

#[test]
fn sweep_is_idempotent() {
    let images = vec![b"00001".to_vec(), b"00002".to_vec()];
    let labels = vec![b"00001".to_vec()];
    let removed = plan_sweep(&images, &labels);
    assert_eq!(removed, vec![b"00002".to_vec()]);
    // After the removal the images directory holds 00001 alone, and a
    // second sweep plans nothing; the label is never planned at all.
    let remaining = vec![b"00001".to_vec()];
    let removed_again = plan_sweep(&remaining, &labels);
    assert!(removed_again.is_empty());
}

#[test]
fn fully_labeled_directory_is_untouched() {
    let images = vec![b"00001".to_vec(), b"00002".to_vec()];
    let labels = vec![b"00002".to_vec(), b"00001".to_vec()];
    let removed = plan_sweep(&images, &labels);
    assert!(removed.is_empty());
}

#[test]
fn empty_images_directory_plans_nothing() {
    let images: Vec<Vec<u8>> = Vec::new();
    let labels = vec![b"00001".to_vec()];
    assert!(plan_sweep(&images, &labels).is_empty());
}

#[test]
fn order_of_orphans_is_directory_order() {
    let images = vec![
        b"00003".to_vec(),
        b"00001".to_vec(),
        b"00002".to_vec(),
    ];
    let labels = vec![b"00001".to_vec()];
    let removed = plan_sweep(&images, &labels);
    assert_eq!(removed, vec![b"00003".to_vec(), b"00002".to_vec()]);
}
