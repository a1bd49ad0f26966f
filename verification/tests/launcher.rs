use sbt_warm::ansi::strip_ansi_escapes;
use sbt_warm::color::process_line;
use sbt_warm::color::Rgb;
use sbt_warm::fmt::bg_killed_message;
use sbt_warm::fmt::bg_started_message;
use sbt_warm::fmt::fg_exited_message;
use sbt_warm::fmt::fg_started_message;
use sbt_warm::fmt::kill_failed_message;
use sbt_warm::fmt::push_u32_dec;
use sbt_warm::fmt::spawn_failed_message;
use sbt_warm::fmt::wait_failed_message;
use sbt_warm::fmt::window_title;
use sbt_warm::search::line_signals_ready;
use sbt_warm::supervisor::Action;
use sbt_warm::supervisor::Event;
use sbt_warm::supervisor::Stream;
use sbt_warm::supervisor::Supervisor;
use sbt_warm::supervisor::SupervisorState;

fn gray() -> Rgb {
    Rgb { r: 75, g: 75, b: 75 }
}

#[test]
fn strip_removes_color_codes() {
    assert_eq!(strip_ansi_escapes("abc\u{1b}[31mred.txt done"), "abcred.txt done");
    assert_eq!(strip_ansi_escapes("\u{1b}[31mred\u{1b}[0m"), "red");
    assert_eq!(strip_ansi_escapes("\u{1b}[32mgreen"), "green");
}

#[test]
fn strip_leaves_plain_text_alone() {
    assert_eq!(strip_ansi_escapes("plain text."), "plain text.");
    assert_eq!(strip_ansi_escapes(""), "");
}

#[test]
fn strip_handles_parameter_runs() {
    assert_eq!(strip_ansi_escapes("\u{1b}[0;39?mX"), "X");
    assert_eq!(strip_ansi_escapes("\u{1b}[mX"), "X");
    assert_eq!(strip_ansi_escapes("\u{1b}[?25lY"), "Y");
}

#[test]
fn strip_leaves_incomplete_sequences_alone() {
    assert_eq!(strip_ansi_escapes("\u{1b}[12"), "\u{1b}[12");
    assert_eq!(strip_ansi_escapes("x\u{1b}"), "x\u{1b}");
    assert_eq!(strip_ansi_escapes("\u{1b}]0;t\u{7}"), "\u{1b}]0;t\u{7}");
    assert_eq!(strip_ansi_escapes("\u{1b}\u{1b}[1mA"), "\u{1b}A");
}

#[test]
fn strip_works_across_lines() {
    assert_eq!(strip_ansi_escapes("\u{1b}[1mA\n\u{1b}[2mB\n"), "A\nB\n");
}

#[test]
fn strip_agrees_with_the_ansi_pattern() {
    let re = regex::Regex::new(r"\x1B\[[0-9;?]*[A-Za-z]").unwrap();
    let samples = [
        "abc\u{1b}[31mred.txt done",
        "plain text.",
        "\u{1b}[31mred\u{1b}[0m",
        "\u{1b}[32mgreen",
        "\u{1b}[0;39?mX",
        "\u{1b}[m\u{1b}[",
        "\u{1b}[?25l\u{1b}[?25h",
        "[info] \u{1b}[34mstarted sbt server\u{1b}[0m\n",
        "\u{1b}\u{1b}[1mA",
        "\u{1b}[\u{1b}[1mB",
        "",
    ];
    for s in samples {
        assert_eq!(strip_ansi_escapes(s), re.replace_all(s, "").to_string(), "input {:?}", s);
    }
}

#[test]
fn marker_is_seen_in_a_plain_line() {
    assert!(line_signals_ready("[info] started sbt server (in 2 s)"));
    assert!(line_signals_ready("started sbt server"));
    assert!(!line_signals_ready("starting sbt server"));
    assert!(!line_signals_ready(""));
}

#[test]
fn process_line_reports_readiness_after_cleaning() {
    let (_, ready) = process_line("[info] started sbt server\n", &gray());
    assert!(ready);
    let (_, ready) = process_line("[info] compiling 3 sources\n", &gray());
    assert!(!ready);
    // The marker counts even when an escape sequence interrupts it.
    let (_, ready) = process_line("started sbt \u{1b}[32mserver\n", &gray());
    assert!(ready);
}

#[test]
fn process_line_keeps_the_cleaned_text_in_the_display() {
    let (shown, ready) = process_line("abc\u{1b}[31mred.txt done\n", &gray());
    assert!(!ready);
    assert!(shown.contains("abcred.txt done\n"), "shown {:?}", shown);
    // Either color was off and the line passed through, or it was wrapped
    // in a style opener and a reset.
    assert!(
        shown == "abcred.txt done\n"
            || (shown.starts_with("\u{1b}[") && shown.ends_with("\u{1b}[0m")),
        "shown {:?}",
        shown
    );
}

#[test]
fn window_title_wraps_the_directory_name() {
    assert_eq!(window_title("myproj"), "\u{1b}]0;myproj - sbt\u{7}");
    assert_eq!(window_title(""), "\u{1b}]0; - sbt\u{7}");
}

#[test]
fn decimal_digits_are_exact() {
    let mut v: Vec<char> = Vec::new();
    push_u32_dec(0, &mut v);
    assert_eq!(v.iter().collect::<String>(), "0");
    let mut v: Vec<char> = Vec::new();
    push_u32_dec(4294967295, &mut v);
    assert_eq!(v.iter().collect::<String>(), "4294967295");
    let mut v: Vec<char> = Vec::new();
    push_u32_dec(1048576, &mut v);
    assert_eq!(v.iter().collect::<String>(), "1048576");
}

#[test]
fn messages_read_as_printed() {
    assert_eq!(bg_started_message(42), "background sbt started with PID: 42");
    assert_eq!(
        fg_exited_message("exit status: 0"),
        "foreground sbt exited with status: exit status: 0"
    );
    assert_eq!(bg_killed_message(42), "background sbt with PID 42 killed");
    assert_eq!(spawn_failed_message("no such file"), "Failed to start sbt: no such file");
    assert_eq!(wait_failed_message("interrupted"), "Failed to wait on sbt: interrupted");
    assert_eq!(kill_failed_message("gone"), "Failed to kill background sbt: gone");
}

#[test]
fn argument_list_is_quoted_and_escaped() {
    let args = vec!["clean".to_string(), "a\"b\\c".to_string()];
    assert_eq!(
        fg_started_message(7, &args),
        "foreground sbt started with PID: 7 and args: [\"clean\", \"a\\\"b\\\\c\"]"
    );
    assert_eq!(
        fg_started_message(7, &args),
        format!("foreground sbt started with PID: 7 and args: {:?}", args)
    );
    let none: Vec<String> = Vec::new();
    assert_eq!(
        fg_started_message(1, &none),
        "foreground sbt started with PID: 1 and args: []"
    );
    let control = vec!["a\nb\u{7}c".to_string()];
    assert_eq!(
        fg_started_message(2, &control),
        "foreground sbt started with PID: 2 and args: [\"a\\nb\\u{7}c\"]"
    );
}

#[test]
fn argument_escaping_matches_the_debug_form_for_ascii() {
    for b in 0u32..128 {
        let c = char::from_u32(b).unwrap();
        let args = vec![format!("a{}b", c)];
        assert_eq!(
            fg_started_message(1, &args),
            format!("foreground sbt started with PID: 1 and args: {:?}", args),
            "code point {}",
            b
        );
    }
}

#[test]
fn supervisor_walks_the_happy_path() {
    let mut sup = Supervisor::new(vec!["compile".to_string()]);
    assert!(matches!(sup.state, SupervisorState::Launching));

    let out = sup.step(Event::BgSpawned { pid: 10 });
    assert_eq!(out.action, Action::AwaitServerReady);
    let line = out.message.unwrap();
    assert_eq!(line.stream, Stream::Stdout);
    assert_eq!(line.text, "background sbt started with PID: 10");

    let out = sup.step(Event::ServerReady);
    assert_eq!(out.action, Action::LaunchForeground);
    assert!(out.message.is_none());

    let out = sup.step(Event::FgSpawned { pid: 11 });
    assert_eq!(out.action, Action::AwaitForegroundExit);
    let line = out.message.unwrap();
    assert_eq!(line.stream, Stream::Stdout);
    assert_eq!(line.text, "foreground sbt started with PID: 11 and args: [\"compile\"]");

    let out = sup.step(Event::FgExited { status: "exit status: 0".to_string() });
    assert_eq!(out.action, Action::KillBackground);
    let line = out.message.unwrap();
    assert_eq!(line.stream, Stream::Stdout);
    assert_eq!(line.text, "foreground sbt exited with status: exit status: 0");

    let out = sup.step(Event::BgKilled);
    assert_eq!(out.action, Action::Stop);
    let line = out.message.unwrap();
    assert_eq!(line.stream, Stream::Stdout);
    assert_eq!(line.text, "background sbt with PID 10 killed");
    assert!(matches!(sup.state, SupervisorState::Finished));
}

#[test]
fn supervisor_stops_when_the_background_spawn_fails() {
    let mut sup = Supervisor::new(Vec::new());
    let out = sup.step(Event::BgSpawnFailed { error: "not found".to_string() });
    assert_eq!(out.action, Action::Stop);
    let line = out.message.unwrap();
    assert_eq!(line.stream, Stream::Stderr);
    assert_eq!(line.text, "Failed to start sbt: not found");
    assert!(matches!(sup.state, SupervisorState::Finished));
}

#[test]
fn supervisor_stops_when_the_foreground_cannot_be_waited_on() {
    let mut sup = Supervisor::new(Vec::new());
    sup.step(Event::BgSpawned { pid: 1 });
    sup.step(Event::ServerReady);
    sup.step(Event::FgSpawned { pid: 2 });
    let out = sup.step(Event::FgWaitFailed { error: "interrupted".to_string() });
    assert_eq!(out.action, Action::Stop);
    let line = out.message.unwrap();
    assert_eq!(line.stream, Stream::Stderr);
    assert_eq!(line.text, "Failed to wait on sbt: interrupted");
    assert!(matches!(sup.state, SupervisorState::Finished));
}

#[test]
fn supervisor_reports_a_failed_kill() {
    let mut sup = Supervisor::new(Vec::new());
    sup.step(Event::BgSpawned { pid: 1 });
    sup.step(Event::ServerReady);
    sup.step(Event::FgSpawned { pid: 2 });
    sup.step(Event::FgExited { status: "exit status: 1".to_string() });
    let out = sup.step(Event::BgKillFailed { error: "gone".to_string() });
    assert_eq!(out.action, Action::Stop);
    let line = out.message.unwrap();
    assert_eq!(line.stream, Stream::Stderr);
    assert_eq!(line.text, "Failed to kill background sbt: gone");
    assert!(matches!(sup.state, SupervisorState::Finished));
}

#[test]
fn supervisor_is_inert_once_finished() {
    let mut sup = Supervisor::new(Vec::new());
    sup.step(Event::BgSpawnFailed { error: "not found".to_string() });
    let out = sup.step(Event::BgKilled);
    assert_eq!(out.action, Action::Stop);
    assert!(out.message.is_none());
    assert!(matches!(sup.state, SupervisorState::Finished));
}
