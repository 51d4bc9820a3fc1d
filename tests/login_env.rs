use apex_kube_manager::login_env::fix_path_env;

fn pairs(text: &str) -> Vec<(String, String)> {
    fix_path_env(text)
}

#[test]
fn takes_plain_assignments_in_order() {
    let r = pairs("PATH=/usr/bin:/bin\nHOME=/home/me\n");
    assert_eq!(r, vec![("PATH".to_string(), "/usr/bin:/bin".to_string()), ("HOME".to_string(), "/home/me".to_string())]);
}

#[test]
fn skips_the_shells_own_variables() {
    let r = pairs("PWD=/tmp\n_=/usr/bin/env\nSHLVL=2\nOLDPWD=/\nLANG=C\n");
    assert_eq!(r, vec![("LANG".to_string(), "C".to_string())]);
}

#[test]
fn value_keeps_later_equals_signs_and_may_be_empty() {
    let r = pairs("OPTS=a=b=c\nEMPTY=\n");
    assert_eq!(r, vec![("OPTS".to_string(), "a=b=c".to_string()), ("EMPTY".to_string(), String::new())]);
}

#[test]
fn rejects_bad_keys_and_continuation_lines() {
    let r = pairs("=novalue\nBAD-KEY=1\n  continued text\nGOOD_1=x\n");
    assert_eq!(r, vec![("GOOD_1".to_string(), "x".to_string())]);
}

#[test]
fn key_must_be_shorter_than_64() {
    let long63 = "K".repeat(63);
    let long64 = "K".repeat(64);
    let text = format!("{}=a\n{}=b\n", long63, long64);
    let r = pairs(&text);
    assert_eq!(r, vec![(long63, "a".to_string())]);
}

#[test]
fn crlf_endings_and_missing_final_newline() {
    let r = pairs("A=1\r\nB=2");
    assert_eq!(r, vec![("A".to_string(), "1".to_string()), ("B".to_string(), "2".to_string())]);
}

#[test]
fn empty_output_sets_nothing() {
    assert!(pairs("").is_empty());
    assert!(pairs("\n\n").is_empty());
}
