use opt_nostd::{entry, greeting, my_panic, step, Action, Event, State, Transition};

const HI: &[u8] = b"hi!\n";

#[test]
fn greeting_is_hi_newline() {
    assert_eq!(greeting(), HI.to_vec());
}

#[test]
fn run_with_no_arguments() {
    let argv: Vec<String> = Vec::new();
    let out = entry(0, &argv);
    assert_eq!(out.output, HI.to_vec());
    assert_eq!(out.status, 0);
}

#[test]
fn run_with_arbitrary_arguments() {
    let argv: Vec<String> = vec!["prog".to_string(), "foo".to_string(), "bar".to_string()];
    let out = entry(3, &argv);
    assert_eq!(out.output, HI.to_vec());
    assert_eq!(out.status, 0);
}

#[test]
fn output_does_not_depend_on_arguments() {
    let none: Vec<String> = Vec::new();
    let many: Vec<String> = (0..50).map(|i| format!("arg{}", i)).collect();
    let odd: Vec<String> = vec![String::new(), "%s%n".to_string(), "\u{0}".to_string()];
    let a = entry(0, &none);
    let b = entry(50, &many);
    let c = entry(-1, &odd);
    let d = entry(isize::MAX, &none);
    for o in [&b, &c, &d] {
        assert_eq!(o.output, a.output);
        assert_eq!(o.status, a.status);
    }
}

#[test]
fn normal_completion_exits_with_status() {
    let t = step(State::Running, Event::Completed(0));
    assert_eq!(t, Transition { next: State::Running, action: Action::Exit(0) });
    let t = step(State::Running, Event::Completed(7));
    assert_eq!(t.action, Action::Exit(7));
    assert_eq!(t.next, State::Running);
}

#[test]
fn fatal_error_halts_and_idles() {
    let t = my_panic(State::Running);
    assert_eq!(t, Transition { next: State::Halted, action: Action::Idle });
    assert_eq!(my_panic(State::Halted), t);
    assert_eq!(step(State::Running, Event::FatalError), t);
}

#[test]
fn halted_program_never_exits_nor_writes() {
    // Drive a halted program through many events, well past any bounded
    // wait: it neither leaves the halted state nor asks for an exit.
    let mut state = my_panic(State::Running).next;
    for i in 0..100_000isize {
        let event = if i % 2 == 0 { Event::Completed(0) } else { Event::FatalError };
        let t = step(state, event);
        assert_eq!(t.next, State::Halted);
        assert_eq!(t.action, Action::Idle);
        state = t.next;
    }
}
