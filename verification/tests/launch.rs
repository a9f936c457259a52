use bar::launch::{
    matching_options, options, KeyPress, Launch, LaunchMessage,
};
use bar::model::{Size, TerminalProgram, Transition};

fn names(launch: &Launch) -> Vec<String> {
    launch.current_list.iter().map(|o| o.name.clone()).collect()
}

fn search(launch: &mut Launch, text: &str) -> Size {
    launch.update(LaunchMessage::CommandChanged(text.to_string()))
}

#[test]
fn table_is_in_name_order() {
    let all = options();
    let got: Vec<(String, Transition)> = all.iter().map(|o| (o.name.clone(), o.target)).collect();
    assert_eq!(
        got,
        vec![
            ("Bluetooth".to_string(), Transition::ToTerminal(TerminalProgram::Bluetui)),
            ("Power".to_string(), Transition::ToBase),
            ("Wifi".to_string(), Transition::ToTerminal(TerminalProgram::Impala)),
        ]
    );
}

#[test]
fn new_launcher_lists_everything() {
    let launch = Launch::new();
    assert_eq!(launch.command, "");
    assert_eq!(names(&launch), vec!["Bluetooth", "Power", "Wifi"]);
    assert_eq!(launch.selection, 0);
    assert_eq!(launch.get_desired_size(), Size { width: 400, height: 240 });
}

#[test]
fn search_is_case_insensitive_on_names() {
    let mut launch = Launch::new();
    let size = search(&mut launch, "o");
    assert_eq!(names(&launch), vec!["Bluetooth", "Power"]);
    assert_eq!(size, Size { width: 400, height: 185 });
    search(&mut launch, "wi");
    assert_eq!(names(&launch), vec!["Wifi"]);
    assert_eq!(launch.command, "wi");
}

#[test]
fn upper_case_search_text_is_not_lowered() {
    let mut launch = Launch::new();
    let size = search(&mut launch, "W");
    assert!(names(&launch).is_empty());
    assert_eq!(launch.selection, 0);
    assert_eq!(size, Size { width: 400, height: 75 });
}

#[test]
fn empty_search_restores_everything() {
    let mut launch = Launch::new();
    search(&mut launch, "power");
    assert_eq!(names(&launch), vec!["Power"]);
    search(&mut launch, "");
    assert_eq!(names(&launch), vec!["Bluetooth", "Power", "Wifi"]);
}

#[test]
fn search_pulls_selection_back() {
    let mut launch = Launch::new();
    launch.key_event(KeyPress::ArrowDown);
    launch.key_event(KeyPress::ArrowDown);
    assert_eq!(launch.selection, 2);
    search(&mut launch, "t");
    assert_eq!(names(&launch), vec!["Bluetooth"]);
    assert_eq!(launch.selection, 0);
}

#[test]
fn search_keeps_selection_that_still_fits() {
    let mut launch = Launch::new();
    launch.key_event(KeyPress::ArrowDown);
    search(&mut launch, "e");
    assert_eq!(names(&launch), vec!["Bluetooth", "Power"]);
    assert_eq!(launch.selection, 1);
}

#[test]
fn arrows_wrap_around() {
    let mut launch = Launch::new();
    assert_eq!(launch.key_event(KeyPress::ArrowUp), None);
    assert_eq!(launch.selection, 2);
    assert_eq!(launch.key_event(KeyPress::ArrowDown), None);
    assert_eq!(launch.selection, 0);
    launch.key_event(KeyPress::ArrowDown);
    assert_eq!(launch.selection, 1);
    launch.key_event(KeyPress::ArrowUp);
    assert_eq!(launch.selection, 0);
}

#[test]
fn arrows_on_empty_list_stay_at_zero() {
    let mut launch = Launch::new();
    search(&mut launch, "zzz");
    launch.key_event(KeyPress::ArrowDown);
    assert_eq!(launch.selection, 0);
    launch.key_event(KeyPress::ArrowUp);
    assert_eq!(launch.selection, 0);
    assert_eq!(launch.key_event(KeyPress::Enter), None);
}

#[test]
fn enter_opens_selected_entry() {
    let mut launch = Launch::new();
    assert_eq!(
        launch.key_event(KeyPress::Enter),
        Some(Transition::ToTerminal(TerminalProgram::Bluetui))
    );
    launch.key_event(KeyPress::ArrowUp);
    assert_eq!(
        launch.key_event(KeyPress::Enter),
        Some(Transition::ToTerminal(TerminalProgram::Impala))
    );
    search(&mut launch, "pow");
    assert_eq!(launch.key_event(KeyPress::Enter), Some(Transition::ToBase));
}

#[test]
fn other_keys_change_nothing() {
    let mut launch = Launch::new();
    launch.key_event(KeyPress::ArrowDown);
    assert_eq!(launch.key_event(KeyPress::Other), None);
    assert_eq!(launch.selection, 1);
    assert_eq!(names(&launch), vec!["Bluetooth", "Power", "Wifi"]);
}

#[test]
fn matching_options_follows_table_order() {
    let found: Vec<String> = matching_options("i").iter().map(|o| o.name.clone()).collect();
    assert_eq!(found, vec!["Wifi"]);
    let found: Vec<String> = matching_options("").iter().map(|o| o.name.clone()).collect();
    assert_eq!(found, vec!["Bluetooth", "Power", "Wifi"]);
}

#[test]
fn visible_names_are_the_first_rows() {
    let launch = Launch::new();
    assert_eq!(launch.visible_names(), vec!["Bluetooth", "Power", "Wifi"]);
}

#[test]
fn narrowing_lists_a_subset() {
    let mut short = Launch::new();
    let mut long = Launch::new();
    search(&mut short, "o");
    search(&mut long, "oo");
    for n in names(&long) {
        assert!(names(&short).contains(&n));
    }
    assert_eq!(names(&long), vec!["Bluetooth"]);
}

#[test]
fn names_are_lowered_before_matching() {
    let mut launch = Launch::new();
    search(&mut launch, "w");
    assert_eq!(names(&launch), vec!["Power", "Wifi"]);
    search(&mut launch, "b");
    assert_eq!(names(&launch), vec!["Bluetooth"]);
}
