use openwhisper::{Recorder, RollingWindow};

#[test]
fn two_blocks_fill_window_in_order() {
    let first: Vec<f32> = (0..512).map(|i| i as f32).collect();
    let second: Vec<f32> = (0..700).map(|i| -(i as f32) - 1.0).collect();
    let mut window: RollingWindow<f32> = RollingWindow::new(4096);
    window.push_block(&first);
    window.push_block(&second);
    let mut expected = first.clone();
    expected.extend_from_slice(&second);
    assert_eq!(window.contents(), expected);
    assert_eq!(window.len(), 1212);
    assert!(!window.is_full());
}

#[test]
fn full_window_evicts_oldest() {
    let mut window: RollingWindow<i32> = RollingWindow::new(4);
    window.push_block(&[1, 2, 3]);
    window.push_block(&[4, 5, 6]);
    assert_eq!(window.contents(), vec![3, 4, 5, 6]);
    assert!(window.is_full());
    window.push(7);
    assert_eq!(window.contents(), vec![4, 5, 6, 7]);
    assert_eq!(window.capacity(), 4);
}

#[test]
fn written_count_is_sum_of_blocks() {
    let mut recorder: Recorder<f32> = Recorder::new(4096);
    let sizes = [512usize, 700, 0, 3000, 1];
    for n in sizes {
        let block = vec![0.25f32; n];
        recorder.accept_block(&block);
    }
    assert_eq!(recorder.written(), 4213);
}

#[test]
fn analysis_is_due_every_window() {
    let mut recorder: Recorder<i32> = Recorder::new(4);
    assert_eq!(recorder.accept_block(&[1, 2]), None);
    assert_eq!(recorder.accept_block(&[3]), None);
    assert_eq!(recorder.accept_block(&[4, 5]), Some(vec![2, 3, 4, 5]));
    assert_eq!(recorder.accept_block(&[6, 7, 8]), None);
    assert_eq!(recorder.accept_block(&[9]), Some(vec![6, 7, 8, 9]));
    assert_eq!(recorder.accept_block(&[10, 11, 12, 13, 14, 15]), Some(vec![12, 13, 14, 15]));
    assert_eq!(recorder.window(), vec![12, 13, 14, 15]);
    assert_eq!(recorder.written(), 15);
}

#[test]
fn empty_block_changes_nothing() {
    let mut recorder: Recorder<i32> = Recorder::new(3);
    assert_eq!(recorder.accept_block(&[]), None);
    assert_eq!(recorder.written(), 0);
    assert_eq!(recorder.window(), Vec::<i32>::new());
}
