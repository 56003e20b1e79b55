use cmd::{Cmd, CmdList};

#[test]
fn cmds_list() {
    let mut cmds = CmdList::new();
    cmds.push(
        Cmd::with_name("new-session")
            .opt("-n", "session_name")
            .env("ENVVAR", "EN")
            .to_owned(),
    );
    cmds.push(
        Cmd::with_name("has-session")
            .opt("-t", "session_name")
            .to_owned(),
    );
    cmds.push(
        Cmd::with_name("kill-session")
            .opt("-t", "session_name")
            .to_owned(),
    );

    assert_eq!(
        cmds.to_vec(),
        vec![
            "ENVVAR=EN",
            "new-session",
            "-n",
            "session_name",
            ";",
            "has-session",
            "-t",
            "session_name",
            ";",
            "kill-session",
            "-t",
            "session_name"
        ]
    );

    assert_eq!(
        cmds.to_string(),
        "ENVVAR=EN new-session -n session_name ; has-session -t session_name ; kill-session -t session_name"
    );
}

#[test]
fn three_sessions_joined() {
    let l = CmdList::new()
        .cmd(Cmd::with_name("new-session").opt("-n", "s").to_owned())
        .cmd(Cmd::with_name("has-session").opt("-t", "s").to_owned())
        .cmd(Cmd::with_name("kill-session").opt("-t", "s").to_owned());
    assert_eq!(
        l.render_joined(" "),
        "new-session -n s ; has-session -t s ; kill-session -t s"
    );
}

#[test]
fn separators_only_between_commands() {
    let mut l = CmdList::new();
    for name in ["a", "b", "c", "d"] {
        l.push(Cmd::with_name(name));
    }
    let v = l.to_vec();
    assert_eq!(v.first().map(|s| s.as_str()), Some("a"));
    assert_eq!(v.last().map(|s| s.as_str()), Some("d"));
    assert_eq!(v.iter().filter(|t| t.as_str() == ";").count(), 3);
}

#[test]
fn empty_list_renders_nothing() {
    let l = CmdList::new();
    assert!(l.to_vec().is_empty());
    assert_eq!(l.to_string(), "");
    assert!(CmdList::default().to_vec().is_empty());
}

#[test]
fn single_command_list_renders_as_the_command() {
    let mut c = Cmd::with_name("ls");
    c.push_flag_short('l');
    let l = CmdList::new().cmd(c.clone());
    assert_eq!(l.to_vec(), c.to_vec());
}

#[test]
fn custom_and_empty_separator() {
    let mut l = CmdList::new();
    l.push(Cmd::with_name("a"));
    l.push(Cmd::with_name("b"));
    l.separator("&&");
    assert_eq!(l.to_vec(), vec!["a", "&&", "b"]);
    assert_eq!(l.get_separator().map(|s| s.as_str()), Some("&&"));
    l.separator("");
    assert_eq!(l.to_vec(), vec!["a", "", "b"]);
}

#[test]
fn no_separator_when_unset() {
    let mut l = CmdList::new();
    l.separator = None;
    l.push(Cmd::with_name("a"));
    l.push(Cmd::with_name("b"));
    assert_eq!(l.to_vec(), vec!["a", "b"]);
    assert!(l.get_separator().is_none());
}

#[test]
fn default_separator_is_semicolon() {
    assert_eq!(CmdList::new().get_separator().map(|s| s.as_str()), Some(";"));
}

#[test]
fn into_cmds_keeps_order() {
    let l = CmdList::new().cmd(Cmd::with_name("x")).cmd(Cmd::with_name("y"));
    let cmds = l.into_cmds();
    assert_eq!(cmds.len(), 2);
    assert_eq!(cmds[0].to_vec(), vec!["x"]);
    assert_eq!(cmds[1].to_vec(), vec!["y"]);
}

#[test]
fn invocations_one_per_command() {
    let mut a = Cmd::with_name("echo");
    a.push_param("hi");
    let l = CmdList::new().cmd(a).cmd(Cmd::with_name("true"));
    let invs = l.to_invocations();
    assert_eq!(invs.len(), 2);
    assert_eq!(invs[0].program, "echo");
    assert_eq!(invs[0].args, vec!["hi"]);
    assert_eq!(invs[1].program, "true");
    assert!(invs[1].args.is_empty());
}

#[test]
fn list_clone_renders_the_same() {
    let l = CmdList::new().cmd(Cmd::with_name("x")).cmd(Cmd::with_name("y"));
    let m = l.clone();
    assert_eq!(l.to_vec(), m.to_vec());
}
