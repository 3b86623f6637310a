use pdarena::sandbox::sandbox_files;
use pdarena::sandbox::write_driver_script;
use pdarena::sandbox::write_history;
use pdarena::sandbox::ModuleNames;
use pdarena::sandbox::SandboxFile;
use pdarena::sandbox::EXIT_COOPERATE;
use pdarena::sandbox::EXIT_DEFECT;
use pdarena::sandbox::MAX_NAME_LENGTH;
use pdarena::sandbox::MAX_TOKEN_LENGTH;

#[test]
fn exit_code_constants() {
    assert_eq!(EXIT_DEFECT, 100);
    assert_eq!(EXIT_COOPERATE, 101);
}

#[test]
fn history_is_written_as_python_values() {
    assert_eq!(write_history(&vec![]), "");
    assert_eq!(write_history(&vec![None]), "None");
    assert_eq!(write_history(&vec![Some(true)]), "True");
    assert_eq!(write_history(&vec![Some(false)]), "False");
    assert_eq!(write_history(&vec![None, Some(true), Some(false)]), "None,True,False");
    assert_eq!(write_history(&vec![Some(true), Some(true)]), "True,True");
}

#[test]
fn driver_script_text() {
    let script = write_driver_script("mod_a", "mod_b", &vec![Some(true), None]);
    let expected = [
        "#!/usr/bin/env python3",
        "import mod_a as Sub",
        "import mod_b as Opp",
        "opp_defection_history = [True,None]",
        "defected = Sub.should_defect(Opp.should_defect, opp_defection_history)",
        "exit(100 if defected else 101)",
    ]
    .join("\n");
    assert_eq!(script, expected);
}

#[test]
fn driver_script_of_first_round() {
    let script = write_driver_script("mod_x1", "mod_y2", &vec![]);
    assert_eq!(
        script,
        "#!/usr/bin/env python3\nimport mod_x1 as Sub\nimport mod_y2 as Opp\nopp_defection_history = []\ndefected = Sub.should_defect(Opp.should_defect, opp_defection_history)\nexit(100 if defected else 101)"
    );
}

#[test]
fn module_names_carry_the_prefix() {
    let names = ModuleNames::new("k3Jx9", "Zz_0").unwrap();
    assert_eq!(names.submission(), "mod_k3Jx9");
    assert_eq!(names.opponent(), "mod_Zz_0");
}

#[test]
fn module_names_must_differ() {
    assert!(ModuleNames::new("abc", "abc").is_none());
    assert!(ModuleNames::new("", "").is_none());
    assert!(ModuleNames::new("abc", "abd").is_some());
    assert!(ModuleNames::new("", "a").is_some());
}

#[test]
fn module_names_must_be_identifiers() {
    assert!(ModuleNames::new("a b", "c").is_none());
    assert!(ModuleNames::new("a", "c-d").is_none());
    assert!(ModuleNames::new("a.b", "c").is_none());
    assert!(ModuleNames::new("a/b", "c").is_none());
    assert!(ModuleNames::new("é", "c").is_none());
    assert!(ModuleNames::new("a", "import os\n").is_none());
    assert!(ModuleNames::new("AZaz09_", "c").is_some());
}

#[test]
fn files_of_one_half() {
    let names = ModuleNames::new("one", "two").unwrap();
    let files = sandbox_files(
        &names,
        "def should_defect(opp, hist): return False",
        "def should_defect(opp, hist): return True",
        &vec![Some(true), Some(true)],
    );
    assert_eq!(
        files,
        vec![
            SandboxFile {
                name: String::from("run"),
                content: write_driver_script("mod_one", "mod_two", &vec![Some(true), Some(true)]),
            },
            SandboxFile {
                name: String::from("mod_one.py"),
                content: String::from("def should_defect(opp, hist): return False"),
            },
            SandboxFile {
                name: String::from("mod_two.py"),
                content: String::from("def should_defect(opp, hist): return True"),
            },
        ]
    );
    assert!(files[0].content.contains("import mod_one as Sub"));
    assert!(files[0].content.contains("import mod_two as Opp"));
}

#[test]
fn files_have_three_different_names() {
    let names = ModuleNames::new("", "run").unwrap();
    let files = sandbox_files(&names, "a", "b", &vec![]);
    assert_eq!(files.len(), 3);
    assert_ne!(files[0].name, files[1].name);
    assert_ne!(files[0].name, files[2].name);
    assert_ne!(files[1].name, files[2].name);
}

#[test]
fn module_names_are_bounded() {
    assert_eq!(MAX_TOKEN_LENGTH, 64);
    assert_eq!(MAX_NAME_LENGTH, 100);
    let longest = "a".repeat(64);
    let too_long = "a".repeat(65);
    assert!(ModuleNames::new(&longest, "b").is_some());
    assert!(ModuleNames::new("b", &longest).is_some());
    assert!(ModuleNames::new(&too_long, "b").is_none());
    assert!(ModuleNames::new("b", &too_long).is_none());
}
