use battery_tray::tooltip::DEFAULT_TOOLTIP;
use battery_tray::tray::{Lifecycle, TrayController};

#[test]
fn new_controller_has_no_widget() {
    let controller = TrayController::new();
    assert_eq!(controller.lifecycle(), Lifecycle::Uninitialized);
    assert_eq!(controller.tooltip(), None);
}

#[test]
fn build_constructs_with_the_default_tooltip() {
    let mut controller = TrayController::new();
    assert!(controller.build());
    assert_eq!(controller.lifecycle(), Lifecycle::Built);
    assert_eq!(controller.tooltip(), Some(DEFAULT_TOOLTIP.to_string()));
}

#[test]
fn build_happens_once() {
    let mut controller = TrayController::new();
    assert!(controller.build());
    assert!(!controller.build());
    assert_eq!(controller.lifecycle(), Lifecycle::Built);
    assert!(controller.activate());
    assert!(!controller.build());
    assert_eq!(controller.lifecycle(), Lifecycle::Active);
}

#[test]
fn build_does_not_reset_the_tooltip() {
    let mut controller = TrayController::new();
    controller.build();
    controller.activate();
    assert!(controller.update_tooltip("Battery: 5 W"));
    assert!(!controller.build());
    assert_eq!(controller.tooltip(), Some("Battery: 5 W".to_string()));
}

#[test]
fn activate_needs_a_built_widget() {
    let mut controller = TrayController::new();
    assert!(!controller.activate());
    assert_eq!(controller.lifecycle(), Lifecycle::Uninitialized);
    controller.build();
    assert!(controller.activate());
    assert_eq!(controller.lifecycle(), Lifecycle::Active);
    assert_eq!(controller.tooltip(), Some(DEFAULT_TOOLTIP.to_string()));
    assert!(controller.activate());
    assert_eq!(controller.lifecycle(), Lifecycle::Active);
}

#[test]
fn update_overwrites_and_does_not_append() {
    let mut controller = TrayController::new();
    controller.build();
    controller.activate();
    assert!(controller.update_tooltip("Battery: 47.25 W"));
    assert_eq!(controller.tooltip(), Some("Battery: 47.25 W".to_string()));
    assert!(controller.update_tooltip("No battery found"));
    assert_eq!(controller.tooltip(), Some("No battery found".to_string()));
}

#[test]
fn update_without_widget_is_dropped() {
    let mut controller = TrayController::new();
    assert!(!controller.update_tooltip("Battery: 47.25 W"));
    assert_eq!(controller.lifecycle(), Lifecycle::Uninitialized);
    assert_eq!(controller.tooltip(), None);
}

#[test]
fn update_before_activation_is_dropped() {
    let mut controller = TrayController::new();
    controller.build();
    assert!(!controller.update_tooltip("Battery: 47.25 W"));
    assert_eq!(controller.lifecycle(), Lifecycle::Built);
    assert_eq!(controller.tooltip(), Some(DEFAULT_TOOLTIP.to_string()));
}
