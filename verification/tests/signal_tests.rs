use supi::signals::{Sig, SignalError, SignalEvent, SignalHandler};

#[test]
fn signal_names_parse_case_insensitively_with_or_without_prefix() {
    assert_eq!(SignalHandler::new("SIGUSR1").unwrap().restart_signal, Sig::Usr1);
    assert_eq!(SignalHandler::new("USR1").unwrap().restart_signal, Sig::Usr1);
    assert_eq!(SignalHandler::new("sigusr1").unwrap().restart_signal, Sig::Usr1);
    assert_eq!(SignalHandler::new("SIGUSR2").unwrap().restart_signal, Sig::Usr2);
    assert_eq!(SignalHandler::new("usr2").unwrap().restart_signal, Sig::Usr2);
    assert_eq!(SignalHandler::new("SIGHUP").unwrap().restart_signal, Sig::Hup);
    assert_eq!(SignalHandler::new("Hup").unwrap().restart_signal, Sig::Hup);
}

#[test]
fn unsupported_signal_names_are_rejected() {
    assert_eq!(SignalHandler::new("SIGKILL"), Err(SignalError::UnsupportedSignal));
    assert_eq!(SignalHandler::new("SIGINT"), Err(SignalError::UnsupportedSignal));
    assert_eq!(SignalHandler::new(""), Err(SignalError::UnsupportedSignal));
    assert_eq!(SignalHandler::new("USR3"), Err(SignalError::UnsupportedSignal));
}

#[test]
fn termination_signals_classify_as_terminate() {
    let h = SignalHandler::new("SIGUSR1").unwrap();
    assert_eq!(h.classify(Sig::Int), SignalEvent::Terminate(Sig::Int));
    assert_eq!(h.classify(Sig::Term), SignalEvent::Terminate(Sig::Term));
    assert_eq!(h.classify(Sig::Quit), SignalEvent::Terminate(Sig::Quit));
}

#[test]
fn restart_candidates_classify_as_restart() {
    let h = SignalHandler::new("SIGUSR2").unwrap();
    assert_eq!(h.classify(Sig::Usr1), SignalEvent::Restart(Sig::Usr1));
    assert_eq!(h.classify(Sig::Usr2), SignalEvent::Restart(Sig::Usr2));
    assert_eq!(h.classify(Sig::Hup), SignalEvent::Restart(Sig::Hup));
}

#[test]
fn watched_signals_cover_termination_and_the_restart_signal() {
    let h = SignalHandler::new("SIGHUP").unwrap();
    assert_eq!(h.watched_signals(), vec![Sig::Int, Sig::Term, Sig::Quit, Sig::Hup]);
}

#[test]
fn signal_names_render_conventionally() {
    assert_eq!(Sig::Int.name(), "SIGINT");
    assert_eq!(Sig::Term.name(), "SIGTERM");
    assert_eq!(Sig::Quit.name(), "SIGQUIT");
    assert_eq!(Sig::Usr1.name(), "SIGUSR1");
    assert_eq!(Sig::Usr2.name(), "SIGUSR2");
    assert_eq!(Sig::Hup.name(), "SIGHUP");
}
