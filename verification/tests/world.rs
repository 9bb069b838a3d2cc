use wrangler::environment::{EnvValue, Environment, Platform, VarError};
use wrangler::table::{Key, Keyed, Table};
use wrangler::text::{chain, chain3, copy_bytes, owned, strip_marker};
use wrangler::world::{
    same_bytes, same_texts, Answer, Observations, PathStatus, ProcessOutput, Query,
};

fn status() -> PathStatus {
    PathStatus {
        exists: true,
        is_file: true,
        is_dir: false,
        is_symlink: false,
        canonical: Ok("/x".to_string()),
    }
}

#[test]
fn observations_start_empty_and_keep_what_is_recorded() {
    let mut obs = Observations::new();
    assert!(obs.stat("/x").is_none());
    assert!(!obs.knows(&Query::Stat("/x".to_string())));
    assert!(obs.record(Query::Stat("/x".to_string()), Answer::Status(status())));
    assert_eq!(obs.stat("/x"), Some(&status()));
    assert!(obs.stat("/y").is_none());
    assert!(obs.stat("/x/").is_none());
    assert!(obs.knows(&Query::Stat("/x".to_string())));
    assert!(obs.current_dir().is_none());
    assert!(obs.current_exe().is_none());
}

#[test]
fn later_answer_replaces_the_earlier() {
    let mut obs = Observations::new();
    obs.record(Query::CurrentDir, Answer::Location(Ok("/a".to_string())));
    obs.record(Query::CurrentDir, Answer::Location(Err("gone".to_string())));
    assert_eq!(obs.current_dir(), Some(&Err("gone".to_string())));
}

#[test]
fn answer_of_the_wrong_kind_is_not_kept() {
    let mut obs = Observations::new();
    assert!(!obs.record(Query::Stat("/x".to_string()), Answer::Location(Ok("/x".to_string()))));
    assert!(!obs.record(Query::CurrentDir, Answer::Status(status())));
    assert!(!obs.record(Query::Run(vec![]), Answer::Status(status())));
    assert!(!obs.record(Query::DecodeBuild(vec![]), Answer::Inspection(Err(String::new()))));
    assert!(!obs.record(Query::DecodeInspection(vec![]), Answer::Built(Ok(vec![]))));
    assert!(!obs.record(Query::LoadCollectionMeta("/c".to_string()), Answer::Status(status())));
    assert!(obs.stat("/x").is_none());
    assert!(obs.current_dir().is_none());
    assert!(!obs.knows(&Query::Stat("/x".to_string())));
}

#[test]
fn working_directory_and_executable_are_kept_apart() {
    let mut obs = Observations::new();
    obs.record(Query::CurrentDir, Answer::Location(Ok("/cwd".to_string())));
    assert!(obs.current_exe().is_none());
    obs.record(Query::CurrentExe, Answer::Location(Ok("/exe".to_string())));
    assert_eq!(obs.current_dir(), Some(&Ok("/cwd".to_string())));
    assert_eq!(obs.current_exe(), Some(&Ok("/exe".to_string())));
}

#[test]
fn runs_are_told_apart_by_the_whole_command() {
    let mut obs = Observations::new();
    let a = Query::Run(vec!["nix".to_string(), "eval".to_string()]);
    let b = Query::Run(vec!["nix".to_string(), "build".to_string()]);
    let c = Query::Run(vec!["nix".to_string()]);
    let out = Ok(ProcessOutput { status: Some(0), stdout: b"1".to_vec(), stderr: vec![] });
    obs.record(a.clone(), Answer::Output(out.clone()));
    assert_eq!(obs.output(&a), Some(&out));
    assert!(obs.output(&b).is_none());
    assert!(obs.output(&c).is_none());
}

#[test]
fn queries_are_the_same_when_kind_and_content_are() {
    let stat = |p: &str| Query::Stat(p.to_string());
    assert!(stat("/a").same(&stat("/a")));
    assert!(!stat("/a").same(&stat("/b")));
    assert!(!stat("/a").same(&Query::LoadCollectionMeta("/a".to_string())));
    assert!(Query::CurrentDir.same(&Query::CurrentDir));
    assert!(!Query::CurrentDir.same(&Query::CurrentExe));
    assert!(Query::DecodeBuild(vec![1, 2]).same(&Query::DecodeBuild(vec![1, 2])));
    assert!(!Query::DecodeBuild(vec![1, 2]).same(&Query::DecodeBuild(vec![1, 3])));
    assert!(!Query::DecodeBuild(vec![1, 2]).same(&Query::DecodeInspection(vec![1, 2])));
    assert!("a".to_string().same(&"a".to_string()));
    assert!(!"a".to_string().same(&"A".to_string()));
}

#[test]
fn lists_are_compared_item_by_item() {
    let t = |items: &[&str]| items.iter().map(|s| s.to_string()).collect::<Vec<_>>();
    assert!(same_texts(&t(&[]), &t(&[])));
    assert!(same_texts(&t(&["a", "b"]), &t(&["a", "b"])));
    assert!(!same_texts(&t(&["a", "b"]), &t(&["a"])));
    assert!(!same_texts(&t(&["a", "b"]), &t(&["a", "c"])));
    assert!(!same_texts(&t(&["ab"]), &t(&["a", "b"])));
    assert!(same_bytes(&vec![], &vec![]));
    assert!(same_bytes(&vec![0, 255], &vec![0, 255]));
    assert!(!same_bytes(&vec![0, 255], &vec![255, 0]));
    assert!(!same_bytes(&vec![0], &vec![0, 0]));
}

#[test]
fn table_keeps_the_last_value_under_a_key() {
    let mut table: Keyed<u8> = Table::new();
    assert!(table.is_empty());
    assert_eq!(table.get_text("a"), None);
    table.put("a".to_string(), 1);
    table.put("b".to_string(), 2);
    table.put("a".to_string(), 3);
    assert!(!table.is_empty());
    assert_eq!(table.get_text("a"), Some(&3));
    assert_eq!(table.get(&"b".to_string()), Some(&2));
    assert_eq!(table.get_text("c"), None);
    assert_eq!(table.entries().len(), 3);
}

#[test]
fn environment_reads_variables_in_three_ways() {
    let mut env = Environment::new(Platform::MacOs);
    assert_eq!(env.platform(), Platform::MacOs);
    assert_eq!(env.var("A"), Err(VarError::NotPresent));
    assert_eq!(env.var_os("A"), None);
    assert!(!env.flag("A"));
    env.set_text("A", "x");
    assert_eq!(env.var("A"), Ok("x"));
    assert_eq!(env.var_os("A"), Some("x"));
    assert!(env.flag("A"));
    env.set("A".to_string(), EnvValue { text: "x\u{fffd}".to_string(), unicode: false });
    assert_eq!(env.var("A"), Err(VarError::NotUnicode));
    assert_eq!(env.var_os("A"), Some("x\u{fffd}"));
    assert!(env.flag("A"));
    env.set_text("A", "");
    assert_eq!(env.var("A"), Ok(""));
    assert!(!env.flag("A"));
}

#[test]
fn platform_names_its_library_path_variable() {
    assert_eq!(Platform::MacOs.library_path_var(), "DYLD_FALLBACK_LIBRARY_PATH");
    assert_eq!(Platform::Other.library_path_var(), "LD_LIBRARY_PATH");
}

#[test]
fn texts_are_put_together_and_taken_apart() {
    assert_eq!(owned("é"), "é");
    assert_eq!(chain("ab", "cd"), "abcd");
    assert_eq!(chain3("nightly", "-", "x86_64"), "nightly-x86_64");
    assert_eq!(strip_marker("+nightly", '+'), Some("nightly".to_string()));
    assert_eq!(strip_marker("+", '+'), Some(String::new()));
    assert_eq!(strip_marker("++x", '+'), Some("+x".to_string()));
    assert_eq!(strip_marker("nightly", '+'), None);
    assert_eq!(strip_marker("", '+'), None);
    assert_eq!(strip_marker("-+", '+'), None);
    assert_eq!(strip_marker("+ünï", '+'), Some("ünï".to_string()));
    assert_eq!(copy_bytes(&vec![1, 2, 3]), vec![1, 2, 3]);
}
