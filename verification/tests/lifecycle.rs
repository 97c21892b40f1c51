use triangle_panel::lifecycle::LifecycleEvent;
use triangle_panel::lifecycle::RendererLifecycle;
use triangle_panel::lifecycle::RendererPhase;

#[test]
fn fresh_tracker_is_uninitialized() {
    let l = RendererLifecycle::new();
    assert_eq!(l.phase, RendererPhase::Uninitialized);
    assert!(!l.may_paint());
}

#[test]
fn initialize_then_paints_then_destroy() {
    let mut l = RendererLifecycle::new();
    assert!(l.advance(LifecycleEvent::Initialize));
    assert_eq!(l.phase, RendererPhase::Initialized);
    assert!(l.may_paint());
    assert!(l.advance(LifecycleEvent::Paint));
    assert!(l.advance(LifecycleEvent::Paint));
    assert!(l.advance(LifecycleEvent::Destroy));
    assert_eq!(l.phase, RendererPhase::Destroyed);
    assert!(!l.may_paint());
}

#[test]
fn initialize_then_destroy_without_paint() {
    let mut l = RendererLifecycle::new();
    assert!(l.advance(LifecycleEvent::Initialize));
    assert!(l.advance(LifecycleEvent::Destroy));
    assert_eq!(l.phase, RendererPhase::Destroyed);
}

#[test]
fn paint_before_initialize_is_refused() {
    let mut l = RendererLifecycle::new();
    assert!(!l.advance(LifecycleEvent::Paint));
    assert_eq!(l.phase, RendererPhase::Uninitialized);
}

#[test]
fn destroy_before_initialize_is_refused() {
    let mut l = RendererLifecycle::new();
    assert!(!l.advance(LifecycleEvent::Destroy));
    assert_eq!(l.phase, RendererPhase::Uninitialized);
}

#[test]
fn second_initialize_is_refused() {
    let mut l = RendererLifecycle::new();
    assert!(l.advance(LifecycleEvent::Initialize));
    assert!(!l.advance(LifecycleEvent::Initialize));
    assert_eq!(l.phase, RendererPhase::Initialized);
}

#[test]
fn paint_after_destroy_is_refused() {
    let mut l = RendererLifecycle::new();
    assert!(l.advance(LifecycleEvent::Initialize));
    assert!(l.advance(LifecycleEvent::Destroy));
    assert!(!l.advance(LifecycleEvent::Paint));
    assert_eq!(l.phase, RendererPhase::Destroyed);
}

#[test]
fn second_destroy_is_refused() {
    let mut l = RendererLifecycle::new();
    assert!(l.advance(LifecycleEvent::Initialize));
    assert!(l.advance(LifecycleEvent::Destroy));
    assert!(!l.advance(LifecycleEvent::Destroy));
    assert_eq!(l.phase, RendererPhase::Destroyed);
}
