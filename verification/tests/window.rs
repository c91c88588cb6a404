use live_translate::window::Window;

#[test]
fn window_keeps_what_it_was_made_with() {
    let w = Window::new(vec![0.25f32, -0.25, 0.5], 7, 1_234_567);
    assert_eq!(w.samples(), &vec![0.25, -0.25, 0.5]);
    assert_eq!(w.len(), 3);
    assert_eq!(w.seq(), 7);
    assert_eq!(w.created_at(), 1_234_567);
    assert_eq!(w.into_samples(), vec![0.25, -0.25, 0.5]);
}

#[test]
fn window_may_be_empty() {
    let w: Window<i16> = Window::new(Vec::new(), 0, 0);
    assert_eq!(w.len(), 0);
    assert!(w.into_samples().is_empty());
}
