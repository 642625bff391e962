use supi::output::{LogColor, Output};

#[test]
fn color_names_parse_case_insensitively() {
    assert_eq!(LogColor::from_str("yellow"), Ok(LogColor::Yellow));
    assert_eq!(LogColor::from_str("YELLOW"), Ok(LogColor::Yellow));
    assert_eq!(LogColor::from_str("Red"), Ok(LogColor::Red));
    assert_eq!(LogColor::from_str("green"), Ok(LogColor::Green));
    assert_eq!(LogColor::from_str("blue"), Ok(LogColor::Blue));
    assert_eq!(LogColor::from_str("cyan"), Ok(LogColor::Cyan));
    assert_eq!(LogColor::from_str("MAGENTA"), Ok(LogColor::Magenta));
    assert_eq!(LogColor::from_str("white"), Ok(LogColor::White));
    assert_eq!(LogColor::from_str("none"), Ok(LogColor::NoColor));
}

#[test]
fn unsupported_color_names_are_handed_back() {
    assert_eq!(LogColor::from_str("purple"), Err(String::from("purple")));
    assert_eq!(LogColor::from_str(""), Err(String::from("")));
    assert_eq!(LogColor::from_str("yellowish"), Err(String::from("yellowish")));
}

#[test]
fn each_color_has_its_sgr_code() {
    assert_eq!(LogColor::Yellow.ansi_code(), Some(33));
    assert_eq!(LogColor::Red.ansi_code(), Some(31));
    assert_eq!(LogColor::Green.ansi_code(), Some(32));
    assert_eq!(LogColor::Blue.ansi_code(), Some(34));
    assert_eq!(LogColor::Cyan.ansi_code(), Some(36));
    assert_eq!(LogColor::Magenta.ansi_code(), Some(35));
    assert_eq!(LogColor::White.ansi_code(), Some(37));
    assert_eq!(LogColor::NoColor.ansi_code(), None);
}

#[test]
fn different_colors_produce_different_codes() {
    let colors = [
        LogColor::Yellow,
        LogColor::Red,
        LogColor::Green,
        LogColor::Blue,
        LogColor::Cyan,
        LogColor::Magenta,
        LogColor::White,
    ];
    for (i, a) in colors.iter().enumerate() {
        for b in colors.iter().skip(i + 1) {
            assert_ne!(a.ansi_code(), b.ansi_code());
        }
    }
}

#[test]
fn output_channels_run_without_panic() {
    let loud = Output::new(LogColor::Yellow, LogColor::Green, false);
    loud.log("log line");
    loud.elog("error log line");
    loud.info("info line");
    loud.einfo("error info line");
    let silent = Output::new(LogColor::NoColor, LogColor::NoColor, true);
    silent.log("suppressed");
    silent.einfo("suppressed");
    // Child passthrough is exempt from silent mode.
    silent.forward_stdout("child stdout");
    silent.forward_stderr("child stderr");
}

#[test]
fn output_keeps_its_policy() {
    let o = Output::new(LogColor::Blue, LogColor::White, true);
    assert_eq!(o.log_color, LogColor::Blue);
    assert_eq!(o.info_color, LogColor::White);
    assert!(o.silent);
}
