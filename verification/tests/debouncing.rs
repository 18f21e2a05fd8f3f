use fan_controller::bus::Message;
use fan_controller::buttons::{
    button_decrease_power_pressed, button_increase_power_pressed, button_power_switch,
    button_wifi_connection, Button, ButtonTask, ButtonWait, BUTTONS_TASK_DELAY,
};
use fan_controller::debounce::{Debouncer, Level, Observation, Phase, Wait, DEBOUNCE};
use fan_controller::power::PowerCommand;

use Observation::{Edge, Sampled};

#[test]
fn new_debouncer_starts_a_cycle() {
    let debouncer = Debouncer::new(DEBOUNCE);
    assert_eq!(debouncer.debounce, 100);
    assert_eq!(debouncer.phase, Phase::Sampling);
    assert_eq!(debouncer.pending(), Wait::Sample);
}

#[test]
fn a_cycle_asks_for_sample_edge_hold() {
    let mut debouncer = Debouncer::new(75);
    assert_eq!(debouncer.debounce(Sampled(Level::High)), None);
    assert_eq!(debouncer.pending(), Wait::AwaitEdge);
    assert_eq!(debouncer.debounce(Edge), None);
    assert_eq!(debouncer.pending(), Wait::HoldThenSample(75));
    assert_eq!(debouncer.debounce(Sampled(Level::Low)), Some(Level::Low));
    assert_eq!(debouncer.pending(), Wait::Sample);
}

#[test]
fn noise_restarts_the_cycle_without_an_event() {
    let mut debouncer = Debouncer::new(DEBOUNCE);
    assert_eq!(debouncer.debounce(Sampled(Level::High)), None);
    assert_eq!(debouncer.debounce(Edge), None);
    assert_eq!(debouncer.debounce(Sampled(Level::High)), None);
    assert_eq!(debouncer.phase, Phase::Sampling);
}

#[test]
fn bounces_within_the_settle_window_give_one_event() {
    let mut debouncer = Debouncer::new(DEBOUNCE);
    let trace = [Sampled(Level::High), Edge, Edge, Edge, Edge, Edge, Sampled(Level::Low)];
    assert_eq!(debouncer.replay(&trace), vec![Level::Low]);
    assert_eq!(debouncer.phase, Phase::Sampling);
}

#[test]
fn edges_alone_settle_nothing() {
    let mut debouncer = Debouncer::new(DEBOUNCE);
    assert_eq!(debouncer.replay(&[Edge; 20]), Vec::<Level>::new());
    assert_eq!(debouncer.phase, Phase::Sampling);
    let mut settling = Debouncer { debounce: DEBOUNCE, phase: Phase::Settling(Level::Low) };
    assert_eq!(settling.replay(&[Edge; 20]), Vec::<Level>::new());
    assert_eq!(settling.phase, Phase::Settling(Level::Low));
}

#[test]
fn press_and_release_give_two_events() {
    let mut debouncer = Debouncer::new(DEBOUNCE);
    let trace = [
        Sampled(Level::High),
        Edge,
        Edge,
        Sampled(Level::Low),
        Sampled(Level::Low),
        Edge,
        Sampled(Level::High),
    ];
    assert_eq!(debouncer.replay(&trace), vec![Level::Low, Level::High]);
}

#[test]
fn replay_of_nothing_changes_nothing() {
    let mut debouncer = Debouncer { debounce: 5, phase: Phase::Armed(Level::High) };
    assert_eq!(debouncer.replay(&[]), Vec::<Level>::new());
    assert_eq!(debouncer, Debouncer { debounce: 5, phase: Phase::Armed(Level::High) });
}

#[test]
fn a_sample_while_armed_is_ignored() {
    let mut debouncer = Debouncer { debounce: 5, phase: Phase::Armed(Level::High) };
    assert_eq!(debouncer.debounce(Sampled(Level::Low)), None);
    assert_eq!(debouncer.phase, Phase::Armed(Level::High));
}

fn changes(trace: &[Observation]) -> usize {
    let mut last: Option<Level> = None;
    let mut count = 0;
    for seen in trace {
        if let Sampled(level) = seen {
            if let Some(before) = last {
                if before != *level {
                    count += 1;
                }
            }
            last = Some(*level);
        }
    }
    count
}

#[test]
fn never_more_events_than_level_changes() {
    let alphabet = [Sampled(Level::Low), Sampled(Level::High), Edge];
    for code in 0..3usize.pow(7) {
        let mut trace = Vec::new();
        let mut rest = code;
        for _ in 0..7 {
            trace.push(alphabet[rest % 3]);
            rest /= 3;
        }
        let mut debouncer = Debouncer::new(DEBOUNCE);
        let settled = debouncer.replay(&trace);
        assert!(settled.len() <= changes(&trace), "trace {:?}", trace);
    }
}

#[test]
fn each_button_means_one_message() {
    assert_eq!(Button::PowerSwitch.message(), Message::SetupSwitch);
    assert_eq!(
        Button::IncreasePower.message(),
        Message::PowerCommand { command: PowerCommand::Increase, broadcast: true }
    );
    assert_eq!(
        Button::DecreasePower.message(),
        Message::PowerCommand { command: PowerCommand::Decrease, broadcast: true }
    );
    assert_eq!(Button::WifiConnection.message(), Message::WifiToggleRequested);
}

#[test]
fn the_four_tasks_own_their_buttons() {
    assert_eq!(button_power_switch(DEBOUNCE), ButtonTask::new(Button::PowerSwitch, 100));
    assert_eq!(button_increase_power_pressed(DEBOUNCE).button, Button::IncreasePower);
    assert_eq!(button_decrease_power_pressed(DEBOUNCE).button, Button::DecreasePower);
    assert_eq!(button_wifi_connection(DEBOUNCE).button, Button::WifiConnection);
    assert_eq!(button_wifi_connection(30).debouncer, Debouncer::new(30));
    assert!(!button_wifi_connection(30).resting);
}

#[test]
fn a_press_sends_once_and_then_rests() {
    let mut task = button_increase_power_pressed(DEBOUNCE);
    assert_eq!(task.pending(), ButtonWait::Input(Wait::Sample));
    assert_eq!(task.observe(Sampled(Level::High)), None);
    assert_eq!(task.pending(), ButtonWait::Input(Wait::AwaitEdge));
    assert_eq!(task.observe(Edge), None);
    assert_eq!(task.pending(), ButtonWait::Input(Wait::HoldThenSample(100)));
    assert_eq!(
        task.observe(Sampled(Level::Low)),
        Some(Message::PowerCommand { command: PowerCommand::Increase, broadcast: true })
    );
    assert_eq!(task.pending(), ButtonWait::Rest(BUTTONS_TASK_DELAY));
    assert_eq!(BUTTONS_TASK_DELAY, 400);
}

#[test]
fn dead_time_swallows_the_input() {
    let mut task = button_power_switch(DEBOUNCE);
    task.observe(Sampled(Level::High));
    task.observe(Edge);
    assert_eq!(task.observe(Sampled(Level::Low)), Some(Message::SetupSwitch));
    let resting = task;
    for seen in [Sampled(Level::High), Edge, Sampled(Level::Low), Edge] {
        assert_eq!(task.observe(seen), None);
        assert_eq!(task, resting);
    }
    task.rested();
    assert!(!task.resting);
    assert_eq!(task.pending(), ButtonWait::Input(Wait::Sample));
}
