use cmd::{Arg, ArgList, Flag, Opt, Param};

#[test]
fn args_list() {}

#[test]
fn arg_tokens() {
    assert_eq!(Arg::flag("-v").to_vec(), vec!["-v"]);
    assert_eq!(Arg::opt("-n", "name").to_vec(), vec!["-n", "name"]);
    assert_eq!(Arg::param("file").to_vec(), vec!["file"]);
    assert_eq!(Arg::opt("-n", "name").to_string(), "-n name");
    assert_eq!(Arg::param("file").to_string(), "file");
}

#[test]
fn arg_list_with_and_without_separator() {
    let mut l = ArgList::new();
    l.push(Arg::opt("-t", "target"));
    l.push_flag("-d");
    l.push(Arg::param("p"));
    assert_eq!(l.to_vec(), vec!["-t", "target", "-d", "p"]);
    assert_eq!(l.to_string(), "-t target-dp");
    l.separator = Some(",".to_string());
    assert_eq!(l.to_vec(), vec!["-t", "target", ",", "-d", ",", "p"]);
    assert!(ArgList::default().to_vec().is_empty());
}

#[test]
fn arg_list_from_one_arg() {
    let l = ArgList::from(Arg::param("x"));
    assert_eq!(l.args.len(), 1);
    assert!(l.separator.is_none());
    assert_eq!(l.to_vec(), vec!["x"]);
}

#[test]
fn flag_forms() {
    let s = Flag::new_short("-a");
    assert_eq!(s.get_short(), Some("-a"));
    assert_eq!(s.get_long(), None);
    assert_eq!(s.to_string(), "-a");
    let l = Flag::new_long("--all");
    assert_eq!(l.get_short(), None);
    assert_eq!(l.get_long(), Some("--all"));
    assert_eq!(l.to_string(), "--all");
    assert_eq!(Flag::default().to_string(), "");
}

#[test]
fn opt_and_param_text() {
    assert_eq!(Opt::new_short("-o", "out").to_string(), "-o out");
    assert_eq!(Opt::new_long("--output", "out").to_string(), "--output out");
    assert_eq!(Param::new("value").to_string(), "value");
}
