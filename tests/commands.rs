use shader_canvas::{join_with, parse_command, run_command, split_words, Command, Reply, ShaderEntry, State};

fn state(names: &[&str]) -> State {
    let entries: Vec<ShaderEntry> =
        names.iter().map(|n| ShaderEntry { name: n.to_string(), source: String::new() }).collect();
    match State::new(&entries, (320, 200)) {
        Ok(s) => s,
        Err(e) => panic!("no state: {:?}", e),
    }
}

fn text(r: Reply) -> String {
    match r {
        Reply::Text(t) => t,
        Reply::FetchResume => panic!("expected text"),
    }
}

#[test]
fn words_split_on_white_space() {
    assert_eq!(split_words("  shader\tplasma \n"), vec!["shader".to_string(), "plasma".to_string()]);
    assert_eq!(split_words(""), Vec::<String>::new());
    assert_eq!(split_words(" \u{3000} "), Vec::<String>::new());
    assert_eq!(split_words("a\u{a0}b"), vec!["a".to_string(), "b".to_string()]);
    assert_eq!(split_words("one"), vec!["one".to_string()]);
}

#[test]
fn join_puts_separator_between() {
    let parts = vec!["a".to_string(), "b".to_string(), "c".to_string()];
    assert_eq!(join_with(&parts, ", "), "a, b, c");
    assert_eq!(join_with(&vec!["x".to_string()], ", "), "x");
    assert_eq!(join_with(&Vec::new(), ", "), "");
}

#[test]
fn parse_each_command() {
    assert_eq!(parse_command("   "), Command::Empty);
    assert_eq!(parse_command(" help "), Command::Help);
    assert_eq!(parse_command("cat  resume"), Command::CatResume);
    assert_eq!(parse_command("view resume"), Command::ViewResume);
    assert_eq!(parse_command("game"), Command::Game);
    assert_eq!(parse_command("python-games"), Command::PythonGames);
    assert_eq!(parse_command("shader plasma"), Command::Shader("plasma".to_string()));
    assert_eq!(parse_command("shaders"), Command::Shaders);
    assert_eq!(parse_command("clear"), Command::Clear);
    assert_eq!(parse_command("help me"), Command::Unknown);
    assert_eq!(parse_command("shader"), Command::Unknown);
    assert_eq!(parse_command("cat resume now"), Command::Unknown);
}

#[test]
fn fixed_replies() {
    let s = state(&["vs", "a"]);
    assert_eq!(text(run_command("", &s)), "");
    assert_eq!(text(run_command("view resume", &s)), "__SHOW_RESUME__");
    assert_eq!(text(run_command("python-games", &s)), "__RUN_PYTHON_GAMES__");
    assert_eq!(text(run_command("clear", &s)), "__CLEAR__");
    assert!(text(run_command("game", &s)).ends_with("__START_GAME__"));
    assert!(text(run_command("help", &s)).starts_with("\nAvailable commands:\n  help\n"));
    assert_eq!(run_command("cat resume", &s), Reply::FetchResume);
}

#[test]
fn unknown_command_echoes_input() {
    let s = state(&["vs", "a"]);
    assert_eq!(text(run_command(" dance now", &s)), "\n dance now: command not found");
}

#[test]
fn shader_command_known_and_unknown() {
    let s = state(&["vs", "waves", "plasma"]);
    assert_eq!(text(run_command("shader waves", &s)), "__SET_SHADER__:waves");
    assert_eq!(
        text(run_command("shader nope", &s)),
        "Shader 'nope' not found. Available shaders:\n  plasma\n  waves"
    );
}

#[test]
fn shaders_listing_marks_active() {
    let mut s = state(&["vs", "waves", "plasma"]);
    assert!(s.set_pipeline("waves"));
    assert_eq!(
        text(run_command("shaders", &s)),
        "Available shaders:\n  plasma\n  waves (active)\n\nUse 'shader [name]' to switch"
    );
}
