use stdin_relay::invocation::{parse_invocation, usage, Invocation};

fn argv(words: &[&str]) -> Vec<String> {
    words.iter().map(|w| w.to_string()).collect()
}

#[test]
fn no_arguments_asks_for_usage() {
    assert_eq!(parse_invocation(&argv(&["tool"])), Invocation::Usage);
    assert_eq!(parse_invocation(&argv(&[])), Invocation::Usage);
}

#[test]
fn label_alone_is_stdin_mode() {
    assert_eq!(
        parse_invocation(&argv(&["tool", "t1"])),
        Invocation::Stdin { label: String::from("t1") }
    );
}

#[test]
fn label_and_program_is_run_mode() {
    assert_eq!(
        parse_invocation(&argv(&["tool", "t1", "/bin/bash"])),
        Invocation::Run {
            label: String::from("t1"),
            program: String::from("/bin/bash"),
            args: Vec::new(),
        }
    );
}

#[test]
fn program_arguments_are_kept_in_order() {
    assert_eq!(
        parse_invocation(&argv(&["./tool", "job 7", "sh", "-c", "echo hi; cat", "", "--"])),
        Invocation::Run {
            label: String::from("job 7"),
            program: String::from("sh"),
            args: argv(&["-c", "echo hi; cat", "", "--"]),
        }
    );
}

#[test]
fn usage_names_both_modes() {
    assert_eq!(
        usage("tool"),
        argv(&[
            "tool has two modes, run mode and stdin mode.",
            "",
            "Run mode: tool {label} {program arguments}",
            "Stdin mode: tool {label}",
        ])
    );
}

#[test]
fn usage_repeats_the_name_it_was_called_by() {
    let lines = usage("/usr/local/bin/inject");
    assert_eq!(lines.len(), 4);
    assert_eq!(lines[0], "/usr/local/bin/inject has two modes, run mode and stdin mode.");
    assert_eq!(lines[1], "");
    assert_eq!(lines[2], "Run mode: /usr/local/bin/inject {label} {program arguments}");
    assert_eq!(lines[3], "Stdin mode: /usr/local/bin/inject {label}");
}
