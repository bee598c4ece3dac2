use backpressure::admission::index;
use backpressure::channel::work_queue;
use backpressure::config::Config;
use backpressure::shutdown::{read_flag, ShutdownFlag};
use backpressure::worker::{arrival, first_action, poll, step, Action, Event, Worker};

fn quick() -> Config {
    Config::new(5, 20).unwrap()
}

fn all_events() -> Vec<Event> {
    vec![
        Event::Flag(true),
        Event::Flag(false),
        Event::Item(String::from("x")),
        Event::TimedOut,
        Event::Processed,
        Event::ListenerStopped,
    ]
}

#[test]
fn starts_ready_and_reads_the_flag() {
    assert_eq!(Worker::new(), Worker::Ready);
    assert_eq!(first_action(), Action::ReadFlag);
    assert!(Worker::new().is_running());
    assert!(!Worker::new().is_exited());
}

#[test]
fn transitions() {
    assert_eq!(step(Worker::Ready, Event::Flag(true)), Some((Worker::Polling, Action::Poll)));
    assert_eq!(
        step(Worker::Ready, Event::Flag(false)),
        Some((Worker::Stopping, Action::StopListener))
    );
    assert_eq!(
        step(Worker::Polling, Event::Item(String::from("job"))),
        Some((Worker::Busy, Action::Process(String::from("job"))))
    );
    assert_eq!(step(Worker::Polling, Event::TimedOut), Some((Worker::Ready, Action::ReadFlag)));
    assert_eq!(step(Worker::Busy, Event::Processed), Some((Worker::Ready, Action::ReadFlag)));
    assert_eq!(
        step(Worker::Stopping, Event::ListenerStopped),
        Some((Worker::Exited, Action::Exit))
    );
}

#[test]
fn events_out_of_place_are_refused() {
    let mut accepted = 0;
    for state in [Worker::Ready, Worker::Polling, Worker::Busy, Worker::Stopping, Worker::Exited] {
        for event in all_events() {
            if step(state, event).is_some() {
                accepted += 1;
            }
        }
    }
    assert_eq!(accepted, 6);
    assert_eq!(step(Worker::Busy, Event::Item(String::from("second"))), None);
    assert_eq!(step(Worker::Busy, Event::Flag(false)), None);
    assert_eq!(step(Worker::Exited, Event::ListenerStopped), None);
}

#[test]
fn phases() {
    assert!(Worker::Ready.is_running());
    assert!(Worker::Polling.is_running());
    assert!(Worker::Busy.is_running());
    assert!(!Worker::Stopping.is_running());
    assert!(!Worker::Exited.is_running());
    assert!(Worker::Exited.is_exited());
    assert!(!Worker::Stopping.is_exited());
}

#[test]
fn arrival_reports_the_wait() {
    assert_eq!(arrival(Some(String::from("a"))), Event::Item(String::from("a")));
    assert_eq!(arrival(None), Event::TimedOut);
}

#[test]
fn flag_starts_raised_and_stays_down() {
    let flag = ShutdownFlag::new();
    let other = flag.share();
    assert!(flag.is_running());
    assert!(other.is_running());
    other.request_stop();
    assert!(!flag.is_running());
    assert!(!other.is_running());
    flag.request_stop();
    assert!(!flag.is_running());
}

#[test]
fn read_flag_follows_the_flag() {
    let flag = ShutdownFlag::new();
    assert_eq!(read_flag(&flag), (Worker::Polling, Action::Poll));
    flag.request_stop();
    assert_eq!(read_flag(&flag), (Worker::Stopping, Action::StopListener));
}

#[test]
fn second_item_waits_for_the_first() {
    let config = quick();
    let (tx, rx) = work_queue(&config);
    let flag = ShutdownFlag::new();

    assert_eq!(index(&tx, String::from("first")).status, 202);
    assert_eq!(read_flag(&flag), (Worker::Polling, Action::Poll));
    let (state, action) = poll(&rx, &config);
    assert_eq!(state, Worker::Busy);
    assert_eq!(action, Action::Process(String::from("first")));

    // While the first is being processed the second is admitted but not started.
    assert_eq!(index(&tx, String::from("second")).status, 202);
    assert_eq!(step(state, Event::Flag(true)), None);
    assert_eq!(step(state, Event::Item(String::from("second"))), None);

    let (state, action) = step(state, Event::Processed).unwrap();
    assert_eq!((state, action), (Worker::Ready, Action::ReadFlag));
    assert_eq!(read_flag(&flag), (Worker::Polling, Action::Poll));
    let (state, action) = poll(&rx, &config);
    assert_eq!(state, Worker::Busy);
    assert_eq!(action, Action::Process(String::from("second")));
}

#[test]
fn signal_during_an_idle_wait_ends_the_loop() {
    let config = quick();
    let (_tx, rx) = work_queue(&config);
    let flag = ShutdownFlag::new();
    let handler = flag.share();

    assert_eq!(read_flag(&flag), (Worker::Polling, Action::Poll));
    handler.request_stop();
    assert_eq!(poll(&rx, &config), (Worker::Ready, Action::ReadFlag));
    let (state, action) = read_flag(&flag);
    assert_eq!((state, &action), (Worker::Stopping, &Action::StopListener));
    assert_eq!(step(state, Event::ListenerStopped), Some((Worker::Exited, Action::Exit)));
}

#[test]
fn queued_items_are_not_taken_after_shutdown() {
    let config = quick();
    let (tx, rx) = work_queue(&config);
    let flag = ShutdownFlag::new();
    assert_eq!(index(&tx, String::from("left behind")).status, 202);
    flag.request_stop();
    let (state, action) = read_flag(&flag);
    assert_eq!(action, Action::StopListener);
    assert_eq!(step(state, Event::Item(String::from("left behind"))), None);
    assert_eq!(step(state, Event::Flag(true)), None);
    assert_eq!(rx.len(), 1);
}

#[test]
fn driven_loop_processes_in_order_and_stops_once() {
    let config = quick();
    let (tx, rx) = work_queue(&config);
    let flag = ShutdownFlag::new();
    for name in ["a", "b", "c"] {
        assert_eq!(index(&tx, String::from(name)).status, 202);
    }
    let mut processed = Vec::new();
    let mut stops = 0;
    let mut state = Worker::new();
    let mut action = first_action();
    loop {
        let (to, then) = match action {
            Action::ReadFlag => read_flag(&flag),
            Action::Poll => poll(&rx, &config),
            Action::Process(item) => {
                processed.push(item);
                if processed.len() == 3 {
                    flag.request_stop();
                }
                step(state, Event::Processed).unwrap()
            }
            Action::StopListener => {
                stops += 1;
                step(state, Event::ListenerStopped).unwrap()
            }
            Action::Exit => break,
        };
        state = to;
        action = then;
    }
    assert_eq!(processed, vec!["a", "b", "c"]);
    assert_eq!(stops, 1);
    assert!(state.is_exited());
}
