use ashlang_ide::fs::init;
use ashlang_ide::ide::IDE;
use ashlang_ide::workspace::Workspace;

#[test]
fn init_seeds_the_demo_workspace() {
    let ws = init();
    let mut names = ws.names();
    names.sort();
    assert_eq!(
        names,
        vec![
            "assert_eq.ar1cs".to_string(),
            "assert_eq.tasm".to_string(),
            "entry.ash".to_string(),
            "pow5.ash".to_string(),
        ]
    );
    let pow5 = ws.get(&"pow5.ash".to_string()).unwrap();
    assert_eq!(pow5, "(v)\n\nlet v2 = v * v\nlet v4 = v2 * v2\n\nreturn v4 * v\n");
    let entry = ws.get(&"entry.ash".to_string()).unwrap();
    assert!(entry.starts_with("# define some vectors to play with"));
    assert!(entry.contains("pow5(m)"));
}

#[test]
fn get_from_empty_workspace() {
    let ws = Workspace::empty();
    assert!(ws.get(&"entry.ash".to_string()).is_none());
    assert!(!ws.contains(&"entry.ash".to_string()));
    assert!(ws.names().is_empty());
}

#[test]
fn set_replaces_text_under_an_existing_name() {
    let mut ws = init();
    ws.set(&"pow5.ash".to_string(), "(v)\n\nreturn v\n".to_string());
    assert_eq!(ws.get(&"pow5.ash".to_string()).unwrap(), "(v)\n\nreturn v\n");
    // Setting an existing name keeps the name unique.
    let names = ws.names();
    assert_eq!(names.len(), 4);
    assert_eq!(names.iter().filter(|n| n.as_str() == "pow5.ash").count(), 1);
}

#[test]
fn set_adds_a_new_file() {
    let mut ws = init();
    ws.set(&"util.ash".to_string(), "(x)\n\nreturn x\n".to_string());
    assert_eq!(ws.names().len(), 5);
    assert_eq!(ws.get(&"util.ash".to_string()).unwrap(), "(x)\n\nreturn x\n");
    // The other files are untouched.
    assert!(ws.get(&"entry.ash".to_string()).is_some());
}

#[test]
fn recompile_commits_the_edited_text() {
    // After a trigger begins, the store's value for the active file equals
    // exactly the text the edit produced: no stale reads.
    let mut ide = IDE::new();
    ide.set_source("let x = 1\nlet y = 2\nlet _ = x + y\n".to_string());
    let _run = ide.trigger_recompile();
    let committed = ide.file_text(&"entry.ash".to_string()).unwrap();
    assert_eq!(committed, "let x = 1\nlet y = 2\nlet _ = x + y\n");
}

#[test]
fn add_file_extends_the_session_workspace() {
    let mut ide = IDE::new();
    ide.add_file(&"util.ash".to_string(), "(x)\n\nreturn x * x\n".to_string());
    assert_eq!(ide.file_names().len(), 5);
    assert_eq!(
        ide.file_text(&"util.ash".to_string()).unwrap(),
        "(x)\n\nreturn x * x\n"
    );
    // Selection and editor buffer are untouched.
    assert_eq!(ide.active_file(), "entry.ash");
    assert!(ide.source().starts_with("# define some vectors"));
    // Adding an existing name replaces its text and keeps names unique.
    ide.add_file(&"util.ash".to_string(), "(x)\n\nreturn x\n".to_string());
    assert_eq!(ide.file_names().len(), 5);
    assert_eq!(ide.file_text(&"util.ash".to_string()).unwrap(), "(x)\n\nreturn x\n");
}

#[test]
fn select_file_loads_its_text() {
    let mut ide = IDE::new();
    assert!(ide.select_file(&"pow5.ash".to_string()));
    assert_eq!(ide.active_file(), "pow5.ash");
    assert!(ide.source().starts_with("(v)"));
    // Selecting an unknown name changes nothing.
    assert!(!ide.select_file(&"missing.ash".to_string()));
    assert_eq!(ide.active_file(), "pow5.ash");
}
