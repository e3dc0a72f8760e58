use ssh_engine::channel::{
    after_step, choose_shell, default_pty_request, env_setting, failure_message, first_step,
    pty_request, step_message, EnvVar, SetupStep, SetupVerdict, TerminalSize, DEFAULT_COLS,
    DEFAULT_ROWS, LOCALE, TERMINAL_TYPE,
};

fn walk(answers: &[bool]) -> (Vec<SetupStep>, SetupVerdict) {
    let mut steps = vec![first_step()];
    let mut answers = answers.iter();
    loop {
        let step = *steps.last().unwrap();
        match after_step(step, *answers.next().unwrap()) {
            SetupVerdict::Next(next) => steps.push(next),
            ended => return (steps, ended),
        }
    }
}

#[test]
fn default_terminal_size() {
    assert_eq!(
        TerminalSize::default(),
        TerminalSize { cols: 80, rows: 24, width: 640, height: 480 }
    );
    assert_eq!(DEFAULT_COLS, 80);
    assert_eq!(DEFAULT_ROWS, 24);
}

#[test]
fn a_setup_that_goes_well_runs_every_step_in_order() {
    let (steps, end) = walk(&[true; 7]);
    assert_eq!(
        steps,
        vec![
            SetupStep::OpenChannel,
            SetupStep::RequestPty,
            SetupStep::SetEnv(EnvVar::Term),
            SetupStep::SetEnv(EnvVar::LcAll),
            SetupStep::SetEnv(EnvVar::Lang),
            SetupStep::StartShell,
            SetupStep::OpenSftp,
        ]
    );
    assert_eq!(end, SetupVerdict::Ready { sftp: true });
}

#[test]
fn refused_environment_variables_are_tolerated() {
    let (steps, end) = walk(&[true, true, false, false, false, true, true]);
    assert_eq!(steps.len(), 7);
    assert_eq!(end, SetupVerdict::Ready { sftp: true });
}

#[test]
fn a_server_without_sftp_still_gives_a_shell() {
    let (_, end) = walk(&[true, true, true, true, true, true, false]);
    assert_eq!(end, SetupVerdict::Ready { sftp: false });
}

#[test]
fn channel_pty_and_shell_are_fatal() {
    assert_eq!(walk(&[false]).1, SetupVerdict::Failed(SetupStep::OpenChannel));
    assert_eq!(walk(&[true, false]).1, SetupVerdict::Failed(SetupStep::RequestPty));
    assert_eq!(
        walk(&[true, true, true, true, true, false]).1,
        SetupVerdict::Failed(SetupStep::StartShell)
    );
}

#[test]
fn what_the_environment_is_set_to() {
    assert_eq!(env_setting(EnvVar::Term), ("TERM", "xterm-256color"));
    assert_eq!(env_setting(EnvVar::LcAll), ("LC_ALL", "en_US.UTF-8"));
    assert_eq!(env_setting(EnvVar::Lang), ("LANG", "en_US.UTF-8"));
    assert_eq!(TERMINAL_TYPE, "xterm-256color");
    assert_eq!(LOCALE, "en_US.UTF-8");
}

#[test]
fn the_first_pty_has_the_default_geometry() {
    let request = default_pty_request();
    assert_eq!(request.term, "xterm-256color");
    assert_eq!((request.cols, request.rows), (80, 24));
    assert_eq!((request.pixel_width, request.pixel_height), (0, 0));
}

#[test]
fn a_pty_request_carries_the_size() {
    let request = pty_request(TerminalSize { cols: 132, rows: 43, width: 1056, height: 688 });
    assert_eq!(request.term, "xterm-256color");
    assert_eq!((request.cols, request.rows), (132, 43));
    assert_eq!((request.pixel_width, request.pixel_height), (1056, 688));
    let largest = pty_request(TerminalSize { cols: 65535, rows: 65535, width: 65535, height: 0 });
    assert_eq!((largest.cols, largest.rows, largest.pixel_width), (65535, 65535, 65535));
}

#[test]
fn the_shell_of_a_local_terminal() {
    assert_eq!(choose_shell(Some("/bin/zsh".to_string()), Some("/bin/fish".to_string())), "/bin/zsh");
    assert_eq!(choose_shell(None, Some("/bin/fish".to_string())), "/bin/fish");
    assert_eq!(choose_shell(None, None), "/bin/bash");
    assert_eq!(choose_shell(Some(String::new()), None), "");
}

#[test]
fn lines_of_the_setup() {
    assert_eq!(step_message(SetupStep::OpenChannel), "Creating terminal session");
    assert_eq!(step_message(SetupStep::RequestPty), "Requesting pseudo-terminal (PTY)");
    assert_eq!(step_message(SetupStep::SetEnv(EnvVar::Lang)), "Setting up terminal environment");
    assert_eq!(step_message(SetupStep::StartShell), "Starting remote shell");
    assert_eq!(step_message(SetupStep::OpenSftp), "Initializing SFTP support");
    assert_eq!(
        failure_message(SetupStep::OpenChannel, "denied"),
        "Failed to create SSH channel: denied"
    );
    assert_eq!(failure_message(SetupStep::RequestPty, "denied"), "Failed to request PTY: denied");
    assert_eq!(failure_message(SetupStep::StartShell, "no"), "Failed to start shell: no");
    assert_eq!(failure_message(SetupStep::OpenSftp, "off"), "SFTP not available: off");
    assert_eq!(
        failure_message(SetupStep::SetEnv(EnvVar::Term), "no"),
        "Failed to set environment: no"
    );
}
