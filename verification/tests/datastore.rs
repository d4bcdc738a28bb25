use microworlds::interpreter::interpreter::{
    enter_procedure_scope, leave_procedure_scope, parse_list, procedure_bindings,
};
use microworlds::interpreter::language::procedure::Procedure;
use microworlds::interpreter::language::token::Token;
use microworlds::interpreter::state::datastore::DataStore;
use microworlds::interpreter::state::input::InputManager;
use microworlds::interpreter::state::object::TurtleShape;

fn word(s: &str) -> Token {
    Token::Word(String::from(s))
}

fn number(s: &str) -> Token {
    Token::Number(String::from(s))
}

#[test]
fn new_store_has_the_builtin_shapes() {
    let data = DataStore::new();
    assert_eq!(data.get_shape("triangle"), Some(&TurtleShape::Triangle));
    assert_eq!(data.get_shape("circle"), Some(&TurtleShape::Circle));
    assert_eq!(data.get_shape("square"), Some(&TurtleShape::Square));
    assert_eq!(data.get_shape("star"), None);
    assert_eq!(data.get_base_directory(), "");
    assert_eq!(data.get_last_error_message(), "");
    assert!(!data.reached_max_scope_depth());
}

#[test]
fn variable_read_back_after_set() {
    let mut data = DataStore::new();
    assert!(data.get_variable("x").is_none());
    data.set_variable("x", number("5"));
    assert_eq!(data.get_variable("x"), Some(&number("5")));
    data.set_variable("y", word("hello"));
    assert_eq!(data.get_variable("x"), Some(&number("5")));
    assert_eq!(data.get_variable("y"), Some(&word("hello")));
}

#[test]
fn set_goes_to_global_unless_a_local_holds_the_name() {
    let mut data = DataStore::new();
    data.push_scope();
    data.set_variable("g", number("1"));
    data.pop_scope();
    // The variable was set in the global scope, so it outlives the scope.
    assert_eq!(data.get_variable("g"), Some(&number("1")));

    data.push_scope();
    data.init_local("l", number("2"));
    data.set_variable("l", number("3"));
    assert_eq!(data.get_variable("l"), Some(&number("3")));
    data.pop_scope();
    assert!(data.get_variable("l").is_none());
}

#[test]
fn local_shadows_global() {
    let mut data = DataStore::new();
    data.set_variable("x", number("1"));
    data.push_scope();
    data.init_local("x", number("2"));
    assert_eq!(data.get_variable("x"), Some(&number("2")));
    // A second init does not replace the local value.
    data.init_local("x", number("9"));
    assert_eq!(data.get_variable("x"), Some(&number("2")));
    data.remove_variable("x");
    assert_eq!(data.get_variable("x"), Some(&number("1")));
    data.pop_scope();
    assert_eq!(data.get_variable("x"), Some(&number("1")));
}

#[test]
fn global_scope_is_never_popped() {
    let mut data = DataStore::new();
    data.set_variable("x", number("1"));
    data.pop_scope();
    data.pop_scope();
    assert_eq!(data.get_variable("x"), Some(&number("1")));
    data.push_scope();
    data.push_scope();
    data.init_local("y", number("2"));
    data.reset_scope();
    assert!(data.get_variable("y").is_none());
    assert_eq!(data.get_variable("x"), Some(&number("1")));
}

#[test]
fn remove_all_variables_empties_innermost_scope() {
    let mut data = DataStore::new();
    data.set_variable("a", number("1"));
    data.set_variable("b", number("2"));
    data.remove_all_variables_in_scope();
    assert!(data.get_variable("a").is_none());
    assert!(data.get_variable("b").is_none());
}

#[test]
fn scope_depth_limit_is_one_hundred() {
    let mut data = DataStore::new();
    for _ in 0..98 {
        data.push_scope();
    }
    assert!(!data.reached_max_scope_depth());
    data.push_scope();
    assert!(data.reached_max_scope_depth());
}

#[test]
fn procedures_are_kept_by_name() {
    let mut data = DataStore::new();
    let square = Procedure {
        name: String::from("square"),
        params: vec![String::from("size")],
        code: String::from("repeat 4 [fd :size rt 90]"),
    };
    data.set_procedure(square);
    let star = Procedure {
        name: String::from("star"),
        params: vec![],
        code: String::from("fd 10"),
    };
    data.set_procedure(star);
    assert_eq!(data.get_procedure("square").unwrap().code, "repeat 4 [fd :size rt 90]");
    assert!(data.get_procedure("circle").is_none());
    let replaced = Procedure {
        name: String::from("square"),
        params: vec![],
        code: String::from("fd 1"),
    };
    data.set_procedure(replaced);
    assert_eq!(data.get_procedure("square").unwrap().code, "fd 1");
    let all = data.get_all_procedures();
    assert_eq!(all.len(), 2);
    let mut names: Vec<String> = all.iter().map(|p| p.name.clone()).collect();
    names.sort();
    assert_eq!(names, vec![String::from("square"), String::from("star")]);
}

#[test]
fn shapes_can_be_added() {
    let mut data = DataStore::new();
    data.set_shape("cat", TurtleShape::Image(String::from("cat"), String::from("cat.png")));
    assert_eq!(
        data.get_shape("cat"),
        Some(&TurtleShape::Image(String::from("cat"), String::from("cat.png")))
    );
}

#[test]
fn base_directory_gets_a_trailing_slash() {
    let mut data = DataStore::new();
    data.set_base_directory(String::from("pictures"));
    assert_eq!(data.get_base_directory(), "pictures/");
    data.set_base_directory(String::from("pictures/"));
    assert_eq!(data.get_base_directory(), "pictures/");
    data.set_base_directory(String::new());
    assert_eq!(data.get_base_directory(), "/");
}

#[test]
fn last_error_message_is_kept() {
    let mut data = DataStore::new();
    data.set_last_error_message(String::from("oops"));
    assert_eq!(data.get_last_error_message(), "oops");
}

#[test]
fn list_items_split_on_whitespace() {
    let data = DataStore::new();
    let items = parse_list(&data, &String::from("one  two 3"), false).unwrap();
    assert_eq!(items, vec![word("one"), word("two"), word("3")]);
    let items = parse_list(&data, &String::from("one 2 -3.5 x1"), true).unwrap();
    assert_eq!(items, vec![word("one"), number("2"), number("-3.5"), word("x1")]);
}

#[test]
fn list_items_keep_nested_lists_whole() {
    let data = DataStore::new();
    let items = parse_list(&data, &String::from("a [b c] d"), false).unwrap();
    assert_eq!(items, vec![word("a"), Token::List(String::from("b c")), word("d")]);
}

#[test]
fn list_items_read_variables() {
    let mut data = DataStore::new();
    data.set_variable("v", number("7"));
    let items = parse_list(&data, &String::from("x :v"), true).unwrap();
    assert_eq!(items, vec![word("x"), number("7")]);
    let err = parse_list(&data, &String::from(":w x"), true).unwrap_err();
    assert_eq!(err.message, "w has no value");
}

#[test]
fn bindings_pair_parameters_with_inputs() {
    let procedure = Procedure {
        name: String::from("move"),
        params: vec![String::from("a"), String::from("b")],
        code: String::from("fd :a rt :b"),
    };
    let args = vec![number("10"), number("90")];
    let bindings = procedure_bindings(&procedure, &args).unwrap();
    assert_eq!(bindings.len(), 2);
    assert_eq!(bindings[0].0, "a");
    assert_eq!(bindings[0].1, number("10"));
    assert_eq!(bindings[1].0, "b");
    let err = procedure_bindings(&procedure, &vec![number("1")]).unwrap_err();
    assert_eq!(err.message, "move expected 2 inputs");
}

#[test]
fn procedure_scope_is_entered_and_left() {
    let mut data = DataStore::new();
    let bindings = vec![(String::from("p"), number("4"))];
    enter_procedure_scope(&mut data, &bindings).unwrap();
    assert_eq!(data.get_variable("p"), Some(&number("4")));
    leave_procedure_scope(&mut data, &bindings);
    // Parameters are set like any variable: in the global scope when no
    // scope holds them.
    assert_eq!(data.get_variable("p"), Some(&number("4")));
}

#[test]
fn procedure_scope_fails_at_the_depth_limit() {
    let mut data = DataStore::new();
    for _ in 0..99 {
        data.push_scope();
    }
    let err = enter_procedure_scope(&mut data, &vec![]).unwrap_err();
    assert_eq!(err.message, "maximum stack depth exceeded");
}

#[test]
fn keys_are_read_first_in_first_out() {
    let mut input: InputManager<(i32, i32)> = InputManager::new();
    assert!(!input.has_key());
    assert_eq!(input.get_one_key(), None);
    input.add_key_to_buffer(String::from("a"));
    input.add_key_to_buffer(String::from("b"));
    assert!(input.has_key());
    assert_eq!(input.get_one_key(), Some(String::from("a")));
    assert_eq!(input.get_one_key(), Some(String::from("b")));
    assert_eq!(input.get_one_key(), None);
}

#[test]
fn keys_held_down_are_tracked() {
    let mut input: InputManager<(i32, i32)> = InputManager::new();
    let key = String::from("space");
    assert!(!input.is_key_down(&key));
    input.set_key_down(key.clone());
    input.set_key_down(key.clone());
    assert!(input.is_key_down(&key));
    input.set_key_up(&key);
    assert!(!input.is_key_down(&key));
}

#[test]
fn clicks_are_read_in_order() {
    let mut input: InputManager<(i32, i32)> = InputManager::new();
    assert!(!input.has_click());
    input.add_click_to_buffer((1, 2));
    input.add_click_to_buffer((3, 4));
    assert!(input.has_click());
    assert_eq!(input.get_one_click(), Some((1, 2)));
    assert_eq!(input.get_one_click(), Some((3, 4)));
    assert_eq!(input.get_one_click(), None);
}

#[test]
fn releasing_a_pressed_key_leaves_the_others_down() {
    let mut input: InputManager<(i32, i32)> = InputManager::new();
    let a = String::from("a");
    let b = String::from("b");
    input.set_key_down(a.clone());
    input.set_key_down(b.clone());
    input.set_key_up(&b);
    assert!(input.is_key_down(&a));
    assert!(!input.is_key_down(&b));
}

#[test]
fn key_changes_are_the_differences_of_the_held_keys() {
    let previous = vec![String::from("a"), String::from("shift"), String::from("b")];
    let current = vec![String::from("c"), String::from("b"), String::from("a")];
    let (pressed, released) = microworlds::interpreter::state::input::key_changes(&previous, &current);
    assert_eq!(pressed, vec![String::from("c")]);
    assert_eq!(released, vec![String::from("shift")]);
    let (pressed, released) = microworlds::interpreter::state::input::key_changes(&current, &current);
    assert!(pressed.is_empty() && released.is_empty());
}
