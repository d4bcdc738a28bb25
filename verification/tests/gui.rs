use microworlds::gui::editor::files::FileHandle;
use microworlds::gui::editor::syntax::{
    is_control_flow_command, is_definition_command, is_other_command, is_word_list_command,
    obj_def_count, var_def_count,
};
use microworlds::gui::editor::{Editor, FileDescription};
use microworlds::gui::highlighter::highlighter::{Highlight, Highlighter};
use std::path::PathBuf;

fn spans(text: &str) -> Vec<(String, Highlight)> {
    Highlighter::new().compute_highlights(text)
}

fn expect(pairs: &[(&str, Highlight)]) -> Vec<(String, Highlight)> {
    pairs.iter().map(|(s, h)| (String::from(*s), *h)).collect()
}

#[test]
fn highlights_command_and_number() {
    assert_eq!(
        spans("fd 50"),
        expect(&[("fd", Highlight::Command), (" ", Highlight::Plain), ("50", Highlight::Number)])
    );
}

#[test]
fn highlights_variable_named_by_make() {
    assert_eq!(
        spans("make \"x 10"),
        expect(&[
            ("make", Highlight::Definition),
            (" ", Highlight::Plain),
            ("\"x", Highlight::Variable),
            (" ", Highlight::Plain),
            ("10", Highlight::Number),
        ])
    );
}

#[test]
fn highlights_comment_up_to_the_newline() {
    assert_eq!(
        spans("; note\nfd 1"),
        expect(&[
            ("; note", Highlight::Comment),
            ("\n", Highlight::Plain),
            ("fd", Highlight::Command),
            (" ", Highlight::Plain),
            ("1", Highlight::Number),
        ])
    );
}

#[test]
fn highlights_word_list_as_one_word() {
    assert_eq!(
        spans("print [a b]"),
        expect(&[
            ("print", Highlight::Command),
            (" ", Highlight::Plain),
            ("[", Highlight::Plain),
            ("a b", Highlight::Word),
            ("]", Highlight::Plain),
        ])
    );
}

#[test]
fn open_word_list_ends_with_nul() {
    let result = spans("print [a");
    assert_eq!(
        result,
        expect(&[
            ("print", Highlight::Command),
            (" ", Highlight::Plain),
            ("[", Highlight::Plain),
            ("a", Highlight::Word),
            ("\0", Highlight::Plain),
        ])
    );
    let text: String = result.iter().map(|(s, _)| s.as_str()).collect();
    assert_eq!(text, "print [a\0");
}

#[test]
fn highlights_control_flow_and_lists() {
    assert_eq!(
        spans("repeat 4 [fd 10]"),
        expect(&[
            ("repeat", Highlight::ControlFlow),
            (" ", Highlight::Plain),
            ("4", Highlight::Number),
            (" ", Highlight::Plain),
            ("[", Highlight::Plain),
            ("fd", Highlight::Command),
            (" ", Highlight::Plain),
            ("10", Highlight::Number),
            ("]", Highlight::Plain),
        ])
    );
}

#[test]
fn highlights_objects_and_parentheses() {
    assert_eq!(
        spans(":x \"y t1, t2's (a)"),
        expect(&[
            (":x", Highlight::Variable),
            (" ", Highlight::Plain),
            ("\"y", Highlight::Word),
            (" ", Highlight::Plain),
            ("t1,", Highlight::Object),
            (" ", Highlight::Plain),
            ("t2's", Highlight::Object),
            (" ", Highlight::Plain),
            ("(", Highlight::Plain),
            ("a", Highlight::Plain),
            (")", Highlight::Plain),
        ])
    );
}

#[test]
fn highlights_let_names_as_variables() {
    assert_eq!(
        spans("let [a 1 b 2]"),
        expect(&[
            ("let", Highlight::Definition),
            (" ", Highlight::Plain),
            ("[", Highlight::Plain),
            ("a", Highlight::Variable),
            (" ", Highlight::Plain),
            ("1", Highlight::Number),
            (" ", Highlight::Plain),
            ("b", Highlight::Variable),
            (" ", Highlight::Plain),
            ("2", Highlight::Number),
            ("]", Highlight::Plain),
        ])
    );
}

#[test]
fn highlights_piped_word_with_spaces() {
    assert_eq!(
        spans("show \"|a b| 1"),
        expect(&[
            ("show", Highlight::Command),
            (" ", Highlight::Plain),
            ("\"|a b|", Highlight::Word),
            (" ", Highlight::Plain),
            ("1", Highlight::Number),
        ])
    );
}

#[test]
fn highlight_text_gives_back_the_code() {
    let code = "to square :n\nrepeat 4 [fd :n rt 90] ; draw\nend\nmake \"x (3 + 4) * 2\n";
    let text: String = spans(code).iter().map(|(s, _)| s.as_str()).collect();
    assert_eq!(text, code);
}

#[test]
fn highlight_of_empty_code_is_empty() {
    assert!(spans("").is_empty());
}

#[test]
fn syntax_tables_know_their_words() {
    let w = |s: &str| String::from(s);
    assert!(is_definition_command(&w("make")));
    assert!(!is_definition_command(&w("fd")));
    assert!(is_control_flow_command(&w("repeat")));
    assert!(is_other_command(&w("fd")));
    assert!(is_other_command(&w("touching?")));
    assert!(!is_other_command(&w("repeat")));
    assert!(is_word_list_command(&w("print")));
    assert_eq!(var_def_count(&w("make")), Some(1));
    assert_eq!(var_def_count(&w("to")), None);
    assert_eq!(obj_def_count(&w("touching?")), Some(2));
    assert_eq!(obj_def_count(&w("ask")), Some(1));
    assert_eq!(obj_def_count(&w("make")), None);
}

#[test]
fn new_editor_shows_an_untitled_file() {
    let editor = Editor::new();
    assert_eq!(editor.open_files.len(), 1);
    assert_eq!(editor.current_file_index, Some(0));
    assert_eq!(editor.current_file().unwrap().name, "untitled.logo");
    assert_eq!(editor.current_code(), "");
    assert!(editor.should_highlight);
}

#[test]
fn new_file_is_shown() {
    let mut editor = Editor::new();
    editor.new_file();
    assert_eq!(editor.open_files.len(), 2);
    assert_eq!(editor.current_file_index, Some(1));
    editor.select_file(0);
    assert_eq!(editor.current_file_index, Some(0));
}

#[test]
fn closing_the_last_file_shows_none() {
    let mut editor = Editor::new();
    editor.close_file(0);
    assert!(editor.open_files.is_empty());
    assert_eq!(editor.current_file_index, None);
    assert!(editor.current_file().is_none());
    assert_eq!(editor.current_code(), "");
}

#[test]
fn closing_moves_the_current_file_back_into_range() {
    let mut editor = Editor::new();
    editor.new_file();
    editor.new_file();
    assert_eq!(editor.current_file_index, Some(2));
    editor.close_file(2);
    assert_eq!(editor.current_file_index, Some(1));
    editor.select_file(0);
    editor.close_file(1);
    assert_eq!(editor.current_file_index, Some(0));
}

#[test]
fn opened_file_is_shown_with_its_content() {
    let mut editor = Editor::new();
    let path = PathBuf::from("shapes.logo");
    editor.push_file(FileDescription::from_open(
        String::from("shapes.logo"),
        path.clone(),
        String::from("fd 10"),
    ));
    assert_eq!(editor.current_file_index, Some(1));
    assert_eq!(editor.current_code(), "fd 10");
    assert_eq!(editor.current_file().unwrap().path, Some(path));
    assert!(!editor.current_file().unwrap().is_edited);
}

#[test]
fn saving_renames_the_current_file() {
    let mut editor = Editor::new();
    if let Some(file) = editor.current_file_mut() {
        file.content = String::from("rt 90");
        file.is_edited = true;
    }
    editor.mark_saved(String::from("turn.logo"), PathBuf::from("/tmp/turn.logo"));
    let file = editor.current_file().unwrap();
    assert_eq!(file.name, "turn.logo");
    assert_eq!(file.path, Some(PathBuf::from("/tmp/turn.logo")));
    assert_eq!(file.content, "rt 90");
    assert!(!file.is_edited);
}

#[test]
fn get_file_mut_is_none_out_of_range() {
    let mut editor = Editor::new();
    assert!(editor.get_file_mut(3).is_none());
    assert!(editor.get_file_mut(0).is_some());
}

#[test]
fn file_handles_start_unedited() {
    let handle = FileHandle::new(String::from("a.logo"));
    assert_eq!(handle.name, "a.logo");
    assert_eq!(handle.path, None);
    assert_eq!(handle.content, "");
    assert!(!handle.is_edited);
    let opened = FileHandle::from_open(
        String::from("b.logo"),
        PathBuf::from("b.logo"),
        String::from("fd 1"),
    );
    assert_eq!(opened.path, Some(PathBuf::from("b.logo")));
    assert_eq!(opened.content, "fd 1");
    assert!(!opened.is_edited);
}

#[test]
fn file_descriptions_start_unedited() {
    let file = FileDescription::new(String::from("c.logo"));
    assert_eq!(file.name, "c.logo");
    assert!(file.path.is_none());
    assert!(file.content.is_empty());
    assert!(!file.is_edited);
}

#[test]
fn closing_the_file_opened_last_gives_back_the_files_before() {
    let mut editor = Editor::new();
    editor.open_files[0].content = String::from("fd 10");
    let before: Vec<(String, String)> = editor
        .open_files
        .iter()
        .map(|f| (f.name.clone(), f.content.clone()))
        .collect();
    editor.new_file();
    editor.close_file(1);
    let after: Vec<(String, String)> = editor
        .open_files
        .iter()
        .map(|f| (f.name.clone(), f.content.clone()))
        .collect();
    assert_eq!(after, before);
    assert_eq!(editor.current_file_index, Some(0));
    assert_eq!(editor.current_code(), "fd 10");
}
