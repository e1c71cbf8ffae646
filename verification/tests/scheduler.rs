use rival650_battery::display::DisplayState;
use rival650_battery::reading::BatteryReading;
use rival650_battery::scheduler::{
    poll_action, poll_advance, poll_start, poll_step, PollAction, PollEvent, PollState,
    POLL_INTERVAL_SECS,
};

#[test]
fn scheduler_starts_with_a_query() {
    assert_eq!(poll_start(), PollState::Probing);
    assert_eq!(poll_action(poll_start()), PollAction::Probe);
}

#[test]
fn cycle_is_query_delivery_rest() {
    let reading = BatteryReading::Percent(77);
    let s = poll_step(poll_start(), PollEvent::ProbeFinished { reading });
    assert_eq!(s, PollState::Delivering { reading });
    assert_eq!(
        poll_action(s),
        PollAction::Deliver {
            state: DisplayState { icon: 77, text: String::from("Rival 650 battery level is 77%") }
        }
    );
    let s = poll_step(s, PollEvent::Delivered);
    assert_eq!(s, PollState::Sleeping);
    assert_eq!(poll_action(s), PollAction::Sleep { seconds: 60 });
    let s = poll_step(s, PollEvent::Woke);
    assert_eq!(s, PollState::Probing);
}

#[test]
fn rest_lasts_sixty_seconds() {
    assert_eq!(POLL_INTERVAL_SECS, 60);
    assert_eq!(poll_action(PollState::Sleeping), PollAction::Sleep { seconds: 60 });
}

#[test]
fn unknown_reading_is_delivered_and_the_cycle_goes_on() {
    let (s, a) =
        poll_advance(PollState::Probing, PollEvent::ProbeFinished { reading: BatteryReading::Unknown });
    assert_eq!(s, PollState::Delivering { reading: BatteryReading::Unknown });
    assert_eq!(
        a,
        PollAction::Deliver {
            state: DisplayState {
                icon: 0,
                text: String::from("Rival 650 battery level is unknown")
            }
        }
    );
    let (s, a) = poll_advance(s, PollEvent::Delivered);
    assert_eq!((s, a), (PollState::Sleeping, PollAction::Sleep { seconds: 60 }));
    let (s, a) = poll_advance(s, PollEvent::Woke);
    assert_eq!((s, a), (PollState::Probing, PollAction::Probe));
}

#[test]
fn out_of_range_reading_is_delivered_with_icon_zero() {
    let s = PollState::Delivering { reading: BatteryReading::Percent(150) };
    assert_eq!(
        poll_action(s),
        PollAction::Deliver {
            state: DisplayState { icon: 0, text: String::from("Rival 650 battery level is 150%") }
        }
    );
}

#[test]
fn event_out_of_turn_is_ignored() {
    let delivering = PollState::Delivering { reading: BatteryReading::Percent(5) };
    let finished = PollEvent::ProbeFinished { reading: BatteryReading::Percent(9) };
    assert_eq!(poll_step(PollState::Probing, PollEvent::Woke), PollState::Probing);
    assert_eq!(poll_step(PollState::Probing, PollEvent::Delivered), PollState::Probing);
    assert_eq!(poll_step(delivering, PollEvent::Woke), delivering);
    assert_eq!(poll_step(delivering, finished), delivering);
    assert_eq!(poll_step(PollState::Sleeping, PollEvent::Delivered), PollState::Sleeping);
    assert_eq!(poll_step(PollState::Sleeping, finished), PollState::Sleeping);
}

#[test]
fn many_cycles_never_stop() {
    let mut state = poll_start();
    let mut probes: u32 = 0;
    for turn in 0..300u32 {
        let event = match poll_action(state) {
            PollAction::Probe => {
                probes += 1;
                let reading = if turn % 2 == 0 {
                    BatteryReading::Unknown
                } else {
                    BatteryReading::Percent(50)
                };
                PollEvent::ProbeFinished { reading }
            }
            PollAction::Deliver { .. } => PollEvent::Delivered,
            PollAction::Sleep { .. } => PollEvent::Woke,
        };
        state = poll_step(state, event);
    }
    assert_eq!(probes, 100);
    assert_eq!(state, PollState::Probing);
}
