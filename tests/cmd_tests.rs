use cmd::{Cmd, CmdList};

#[test]
fn tmux_test() {
    let mut cmd = Cmd::with_name("tmux");
    cmd.push_cmd(Cmd::with_name("list-commands"));

    cmd.env("LANGUAGE", "en_US.UTF-8");
    let v = cmd.to_vec();

    assert_eq!(v, vec!["LANGUAGE=en_US.UTF-8", "tmux", "list-commands"]);

    let s = cmd.to_string();
    assert_eq!(s, "LANGUAGE=en_US.UTF-8 tmux list-commands");
}

#[test]
fn git_status_subcommand() {
    let mut git = Cmd::with_name("git");
    git.push_cmd(Cmd::with_name("status"));
    assert_eq!(git.to_vec(), vec!["git", "status"]);
    assert_eq!(git.render_joined(" "), "git status");
}

#[test]
fn option_then_env_renders_env_first() {
    let mut c = Cmd::with_name("new-session");
    c.push_option("-n", "session_name").env("ENVVAR", "EN");
    assert_eq!(c.to_vec(), vec!["ENVVAR=EN", "new-session", "-n", "session_name"]);
}

#[test]
fn short_flags_combined_by_default() {
    let mut c = Cmd::new();
    c.push_flag_short('a').push_flag_short('b');
    assert_eq!(c.to_vec(), vec!["-ab"]);
}

#[test]
fn short_flags_separate_when_not_combined() {
    let mut c = Cmd::new();
    c.push_flag_short('a').push_flag_short('b').not_combine_short_flags();
    assert_eq!(c.to_vec(), vec!["-a", "-b"]);
}

#[test]
fn render_twice_is_identical() {
    let mut c = Cmd::with_name("ls");
    c.env("A", "1").push_flag_short('l').push_param("/tmp");
    let first = c.to_vec();
    let second = c.to_vec();
    assert_eq!(first, second);
    assert_eq!(c.to_string(), c.to_string());
}

#[test]
fn empty_cmd_renders_nothing() {
    assert!(Cmd::new().to_vec().is_empty());
    assert!(Cmd::default().to_vec().is_empty());
    assert_eq!(Cmd::new().to_string(), "");
}

#[test]
fn groups_come_in_fixed_order_whatever_the_call_order() {
    let mut c = Cmd::new();
    c.push_cmd(Cmd::with_name("sub"));
    c.push_param("file");
    c.push_flag_short('x');
    c.env("K1", "V1");
    c.name("prog");
    c.push_flag("--long");
    c.push_flag_short('y');
    c.env("K2", "V2");
    c.opt("-o", "val");
    assert_eq!(
        c.to_vec(),
        vec!["K1=V1", "K2=V2", "prog", "-xy", "file", "--long", "-o", "val", "sub"]
    );
}

#[test]
fn name_preferred_to_alias_by_default() {
    let mut c = Cmd::with_name("new-session");
    c.alias("new");
    assert_eq!(c.to_vec(), vec!["new-session"]);
    c.use_alias();
    assert_eq!(c.to_vec(), vec!["new"]);
    c.not_use_alias();
    assert_eq!(c.to_vec(), vec!["new-session"]);
}

#[test]
fn alias_alone_renders_only_when_preferred() {
    let mut c = Cmd::with_alias("ls");
    assert!(c.to_vec().is_empty());
    c.use_alias();
    assert_eq!(c.to_vec(), vec!["ls"]);
}

#[test]
fn new_full_separates_flags_and_uses_name() {
    let mut c = Cmd::new_full("tar");
    c.alias("t").use_alias();
    c.push_flag_short('x').push_flag_short('f');
    c.not_use_alias();
    assert_eq!(c.to_vec(), vec!["tar", "-x", "-f"]);
}

#[test]
fn arg_and_param_builders() {
    let mut c = Cmd::with_name("cp");
    c.arg("--target", "/dst").param("a.txt").push_param("b.txt");
    assert_eq!(c.to_vec(), vec!["cp", "--target", "/dst", "a.txt", "b.txt"]);
    assert_eq!(c.render_joined(","), "cp,--target,/dst,a.txt,b.txt");
}

#[test]
fn push_cmds_replaces_subcommands() {
    let mut c = Cmd::with_name("tmux");
    c.push_cmd(Cmd::with_name("old"));
    let mut l = CmdList::new();
    l.push(Cmd::with_name("a"));
    l.push(Cmd::with_name("b"));
    l.separator("\\;");
    c.push_cmds(l);
    assert_eq!(c.to_vec(), vec!["tmux", "a", "\\;", "b"]);
}

#[test]
fn nested_subcommands_render_recursively() {
    let mut inner = Cmd::with_name("inner");
    inner.push_cmd(Cmd::with_name("x"));
    inner.push_cmd(Cmd::with_name("y"));
    let mut outer = Cmd::with_name("outer");
    outer.push_cmd(inner);
    outer.push_cmd(Cmd::with_name("z"));
    assert_eq!(outer.to_vec(), vec!["outer", "inner", "x", ";", "y", ";", "z"]);
}

#[test]
fn clone_renders_the_same() {
    let mut c = Cmd::with_name("git");
    c.env("A", "B").push_flag_short('v').push_cmd(Cmd::with_name("log"));
    let d = c.clone();
    assert_eq!(c.to_vec(), d.to_vec());
    assert_eq!(d.to_vec(), vec!["A=B", "git", "-v", "log"]);
}

#[test]
fn env_with_empty_value() {
    let mut c = Cmd::with_name("run");
    c.env("EMPTY", "");
    assert_eq!(c.to_vec(), vec!["EMPTY=", "run"]);
}

#[test]
fn invocation_splits_program_args_and_env() {
    let mut c = Cmd::with_name("git");
    c.env("LANG", "C").push_flag_short('p').push_param("log").push_cmd(Cmd::with_name("sub"));
    let inv = c.to_invocation();
    assert_eq!(inv.program, "git");
    assert_eq!(inv.args, vec!["-p", "log", "sub"]);
    assert_eq!(inv.envs, vec![("LANG".to_string(), "C".to_string())]);
}

#[test]
fn invocation_of_nameless_cmd_has_empty_program() {
    let mut c = Cmd::new();
    c.push_param("x");
    let inv = c.to_invocation();
    assert_eq!(inv.program, "");
    assert_eq!(inv.args, vec!["x"]);
    assert!(inv.envs.is_empty());
}
