use usb_layout_switch::controller::{layout_for, Controller, Layout, Step};
use usb_layout_switch::detector::{EnumerationError, Signal};
use usb_layout_switch::device::{DeviceId, ListedDevice};

fn with_target() -> Vec<ListedDevice> {
    vec![Some(DeviceId::new(0x445a, 0x1121))]
}

#[test]
fn new_controller_is_idle() {
    let c = Controller::new(DeviceId::target());
    assert!(!c.connected);
    assert_eq!(c.last_applied, Signal::NoChange);
    assert_eq!(c.target, DeviceId::target());
}

#[test]
fn layouts_of_signals() {
    assert_eq!(layout_for(Signal::SwitchToLayoutA), Some(Layout::LayoutA));
    assert_eq!(layout_for(Signal::SwitchToLayoutB), Some(Layout::LayoutB));
    assert_eq!(layout_for(Signal::NoChange), None);
}

#[test]
fn scenario_enumeration_failure() {
    let mut c = Controller::new(DeviceId::target());
    c.connected = true;
    c.last_applied = Signal::SwitchToLayoutB;
    let before = c;
    assert_eq!(c.on_enumeration(Err(EnumerationError::ContextUnavailable)), Step::PollAgain);
    assert_eq!(c, before);
    assert_eq!(c.on_enumeration(Err(EnumerationError::ListingFailed)), Step::PollAgain);
    assert_eq!(c, before);
}

#[test]
fn attach_asks_for_layout_b_once() {
    let mut c = Controller::new(DeviceId::target());
    assert_eq!(c.on_enumeration(Ok(vec![])), Step::Sleep);
    assert_eq!(c.on_enumeration(Ok(with_target())), Step::Switch(Signal::SwitchToLayoutB));
    assert!(c.connected);
    assert_eq!(c.last_applied, Signal::NoChange);
    assert_eq!(c.on_switch_result(Signal::SwitchToLayoutB, true), Step::Sleep);
    assert_eq!(c.last_applied, Signal::SwitchToLayoutB);
    assert_eq!(c.on_enumeration(Ok(with_target())), Step::Sleep);
    assert_eq!(c.last_applied, Signal::NoChange);
    assert_eq!(c.on_enumeration(Ok(vec![])), Step::Switch(Signal::SwitchToLayoutA));
    assert!(!c.connected);
    assert_eq!(c.on_switch_result(Signal::SwitchToLayoutA, true), Step::Sleep);
    assert_eq!(c.last_applied, Signal::SwitchToLayoutA);
}

#[test]
fn repeated_signal_switches_once() {
    let mut c = Controller::new(DeviceId::target());
    let mut switches = 0;
    for _ in 0..4 {
        if let Step::Switch(s) = c.react(Signal::SwitchToLayoutB) {
            switches += 1;
            assert_eq!(c.on_switch_result(s, true), Step::Sleep);
        }
    }
    assert_eq!(switches, 1);
    assert_eq!(c.last_applied, Signal::SwitchToLayoutB);
}

#[test]
fn failed_switch_is_retried() {
    let mut c = Controller::new(DeviceId::target());
    assert_eq!(c.react(Signal::SwitchToLayoutB), Step::Switch(Signal::SwitchToLayoutB));
    assert_eq!(c.on_switch_result(Signal::SwitchToLayoutB, false), Step::PollAgain);
    assert_eq!(c.last_applied, Signal::NoChange);
    assert_eq!(c.react(Signal::SwitchToLayoutB), Step::Switch(Signal::SwitchToLayoutB));
}

#[test]
fn failed_attach_switch_retried_on_next_attach() {
    let mut c = Controller::new(DeviceId::target());
    assert_eq!(c.on_enumeration(Ok(with_target())), Step::Switch(Signal::SwitchToLayoutB));
    assert_eq!(c.on_switch_result(Signal::SwitchToLayoutB, false), Step::PollAgain);
    assert_eq!(c.on_enumeration(Ok(vec![])), Step::Switch(Signal::SwitchToLayoutA));
    assert_eq!(c.on_switch_result(Signal::SwitchToLayoutA, false), Step::PollAgain);
    assert_eq!(c.on_enumeration(Ok(with_target())), Step::Switch(Signal::SwitchToLayoutB));
}

#[test]
fn no_change_is_applied_without_switch() {
    let mut c = Controller::new(DeviceId::target());
    c.last_applied = Signal::SwitchToLayoutA;
    assert_eq!(c.react(Signal::NoChange), Step::Sleep);
    assert_eq!(c.last_applied, Signal::NoChange);
    assert_eq!(c.react(Signal::NoChange), Step::Sleep);
    assert_eq!(c.last_applied, Signal::NoChange);
}
