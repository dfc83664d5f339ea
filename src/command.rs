use vstd::prelude::*;
use vstd::string::*;
use crate::order::views;
use crate::registry::same_name;
use crate::state::State;

verus! {

/// Unicode's White_Space characters, which separate the words of a command.
pub open spec fn is_white(c: char) -> bool {
    ||| ('\t' <= c && c <= '\r')
    ||| c == ' '
    ||| c == '\u{85}'
    ||| c == '\u{a0}'
    ||| c == '\u{1680}'
    ||| ('\u{2000}' <= c && c <= '\u{200a}')
    ||| c == '\u{2028}'
    ||| c == '\u{2029}'
    ||| c == '\u{202f}'
    ||| c == '\u{205f}'
    ||| c == '\u{3000}'
}

/// The words of `s`: its longest runs of characters that are not white
/// space, in order.
pub open spec fn words(s: Seq<char>) -> Seq<Seq<char>>
    decreases s.len(),
{
    if s.len() == 0 {
        Seq::empty()
    } else if is_white(s.last()) {
        words(s.drop_last())
    } else if s.len() >= 2 && !is_white(s[s.len() - 2]) {
        let w = words(s.drop_last());
        w.update(w.len() - 1, w.last().push(s.last()))
    } else {
        words(s.drop_last()).push(seq![s.last()])
    }
}

/// Whether `c` is white space.
pub fn is_white_space(c: char) -> (r: bool)
    ensures
        r == is_white(c),
{
    ('\t' <= c && c <= '\r') || c == ' ' || c == '\u{85}' || c == '\u{a0}' || c == '\u{1680}'
        || ('\u{2000}' <= c && c <= '\u{200a}') || c == '\u{2028}' || c == '\u{2029}' || c == '\u{202f}'
        || c == '\u{205f}' || c == '\u{3000}'
}

/// Splits `s` into its words.
pub fn split_words(s: &str) -> (r: Vec<String>)
    ensures
        views(r@) == words(s@),
{
    let n = s.unicode_len();
    let mut out: Vec<String> = Vec::new();
    let mut i: usize = 0;
    assert(s@.take(0) =~= Seq::<char>::empty());
    assert(views(out@) =~= words(s@.take(0)));
    while i < n
        invariant
            n == s@.len(),
            i <= n,
            views(out@) == words(s@.take(i as int)),
            i < n ==> (i == 0 || is_white(s@[i - 1])),
        decreases n - i,
    {
        if is_white_space(s.get_char(i)) {
            assert(s@.take(i + 1).drop_last() =~= s@.take(i as int));
            i = i + 1;
        } else {
            let start = i;
            assert(s@.take(i + 1).drop_last() =~= s@.take(i as int));
            assert(s@.subrange(start as int, i + 1) =~= seq![s@[i as int]]);
            i = i + 1;
            while i < n && !is_white_space(s.get_char(i))
                invariant
                    n == s@.len(),
                    start < i <= n,
                    views(out@).push(s@.subrange(start as int, i as int)) == words(s@.take(i as int)),
                    !is_white(s@[i - 1]),
                decreases n - i,
            {
                assert(s@.take(i + 1).drop_last() =~= s@.take(i as int));
                assert(s@.subrange(start as int, i + 1) =~= s@.subrange(start as int, i as int).push(s@[i as int]));
                let ghost w = words(s@.take(i as int));
                assert(w.update(w.len() - 1, w.last().push(s@[i as int])) =~= views(out@).push(
                    s@.subrange(start as int, i + 1),
                ));
                i = i + 1;
            }
            let word = s.substring_char(start, i).to_owned();
            out.push(word);
            assert(views(out@) =~= words(s@.take(i as int)));
            if i < n {
                assert(s@.take(i + 1).drop_last() =~= s@.take(i as int));
                i = i + 1;
            }
        }
    }
    assert(s@.take(n as int) =~= s@);
    out
}

/// `parts` with `sep` between each two of them.
pub open spec fn join(parts: Seq<Seq<char>>, sep: Seq<char>) -> Seq<char>
    decreases parts.len(),
{
    if parts.len() == 0 {
        Seq::empty()
    } else if parts.len() == 1 {
        parts[0]
    } else {
        join(parts.drop_last(), sep) + sep + parts.last()
    }
}

/// Joins `parts` with `sep` between each two of them.
pub fn join_with(parts: &Vec<String>, sep: &str) -> (r: String)
    ensures
        r@ == join(views(parts@), sep@),
{
    let n = parts.len();
    if n == 0 {
        return String::new();
    }
    let mut acc = parts[0].clone();
    let mut i: usize = 1;
    assert(views(parts@).take(1) =~= seq![parts@[0]@]);
    while i < n
        invariant
            n == parts@.len(),
            1 <= i <= n,
            acc@ == join(views(parts@).take(i as int), sep@),
        decreases n - i,
    {
        assert(views(parts@).take(i + 1).drop_last() =~= views(parts@).take(i as int));
        acc.append(sep);
        acc.append(parts[i].as_str());
        i = i + 1;
    }
    assert(views(parts@).take(n as int) =~= views(parts@));
    acc
}

/// A command of the terminal, by its words.
#[derive(Debug, PartialEq, Eq)]
pub enum Command {
    /// No word at all.
    Empty,
    /// `help`
    Help,
    /// `cat resume`: the resume as text, which the host fetches.
    CatResume,
    /// `view resume`
    ViewResume,
    /// `game`
    Game,
    /// `python-games`
    PythonGames,
    /// `shader <name>`
    Shader(String),
    /// `shaders`
    Shaders,
    /// `clear`
    Clear,
    /// Anything else.
    Unknown,
}

/// Reads a command from its words.
pub fn parse_command(command: &str) -> (r: Command)
    ensures
        r is Empty <==> words(command@).len() == 0,
        r is Help <==> words(command@) == seq!["help"@],
        r is CatResume <==> words(command@) == seq!["cat"@, "resume"@],
        r is ViewResume <==> words(command@) == seq!["view"@, "resume"@],
        r is Game <==> words(command@) == seq!["game"@],
        r is PythonGames <==> words(command@) == seq!["python-games"@],
        r is Shader <==> words(command@).len() == 2 && words(command@)[0] == "shader"@,
        r matches Command::Shader(name) ==> name@ == words(command@)[1],
        r is Shaders <==> words(command@) == seq!["shaders"@],
        r is Clear <==> words(command@) == seq!["clear"@],
{
    let w = split_words(command);
    let ghost ws = words(command@);
    proof {
        reveal_strlit("help");
        reveal_strlit("cat");
        reveal_strlit("resume");
        reveal_strlit("view");
        reveal_strlit("game");
        reveal_strlit("python-games");
        reveal_strlit("shader");
        reveal_strlit("shaders");
        reveal_strlit("clear");
        assert("help"@[0] != "game"@[0]);
        assert("cat"@.len() != "shader"@.len() && "view"@.len() != "shader"@.len());
        assert("cat"@.len() != "view"@.len());
    }
    assert(ws.len() == w@.len());
    if w.len() == 0 {
        assert(seq!["cat"@, "resume"@].len() == 2);
        assert(seq!["view"@, "resume"@].len() == 2);
        return Command::Empty;
    }
    let first = w[0].as_str();
    if w.len() == 1 {
        assert(ws.len() == 1 && ws[0] == w@[0]@);
        assert(ws =~= seq![ws[0]]);
        if same_name(first, "help") {
            Command::Help
        } else if same_name(first, "game") {
            Command::Game
        } else if same_name(first, "python-games") {
            Command::PythonGames
        } else if same_name(first, "shaders") {
            Command::Shaders
        } else if same_name(first, "clear") {
            Command::Clear
        } else {
            Command::Unknown
        }
    } else if w.len() == 2 {
        let second = w[1].as_str();
        assert(ws.len() == 2 && ws[0] == w@[0]@ && ws[1] == w@[1]@);
        assert(ws =~= seq![ws[0], ws[1]]);
        if same_name(first, "shader") {
            Command::Shader(w[1].clone())
        } else if same_name(first, "cat") && same_name(second, "resume") {
            Command::CatResume
        } else if same_name(first, "view") && same_name(second, "resume") {
            Command::ViewResume
        } else {
            Command::Unknown
        }
    } else {
        Command::Unknown
    }
}

/// What a command gives back to the terminal.
#[derive(Debug, PartialEq, Eq)]
pub enum Reply {
    /// Text to show.
    Text(String),
    /// The host fetches the resume and shows it as text.
    FetchResume,
}

pub open spec fn help_text() -> Seq<char> {
    "\nAvailable commands:\n  help\n  cat resume\n  view resume\n  game (Snake - JavaScript)\n  python-games (Python collection)\n  python <code>\n  shaders (list available shaders)\n  shader [name] (switch shader)\n  clear\n"@
}

pub open spec fn game_text() -> Seq<char> {
    "\nStarting Snake Game...\nUse WASD or arrow keys to move\nEat the red squares to grow!\n\n__START_GAME__"@
}

/// One line of the shader list; the selected shader is marked.
pub open spec fn shader_line(name: Seq<char>, active: Seq<char>) -> Seq<char> {
    if name == active {
        "  "@ + name + " (active)"@
    } else {
        "  "@ + name
    }
}

/// The reply to `shaders`.
pub open spec fn shader_listing(names: Seq<Seq<char>>, active: Seq<char>) -> Seq<char> {
    "Available shaders:\n"@ + join(names.map_values(|n: Seq<char>| shader_line(n, active)), "\n"@)
        + "\n\nUse 'shader [name]' to switch"@
}

/// The reply to `shader <name>` when there is no shader of that name.
pub open spec fn shader_missing(name: Seq<char>, names: Seq<Seq<char>>) -> Seq<char> {
    "Shader '"@ + name + "' not found. Available shaders:\n  "@ + join(names, "\n  "@)
}

/// The reply to `command`, given the shader names and the selected one;
/// `None` where the host is to fetch the resume.
pub open spec fn reply_of(command: Seq<char>, names: Seq<Seq<char>>, active: Seq<char>) -> Option<Seq<char>> {
    let w = words(command);
    if w.len() == 0 {
        Some(Seq::empty())
    } else if w == seq!["help"@] {
        Some(help_text())
    } else if w == seq!["cat"@, "resume"@] {
        None
    } else if w == seq!["view"@, "resume"@] {
        Some("__SHOW_RESUME__"@)
    } else if w == seq!["game"@] {
        Some(game_text())
    } else if w == seq!["python-games"@] {
        Some("__RUN_PYTHON_GAMES__"@)
    } else if w.len() == 2 && w[0] == "shader"@ {
        if names.contains(w[1]) {
            Some("__SET_SHADER__:"@ + w[1])
        } else {
            Some(shader_missing(w[1], names))
        }
    } else if w == seq!["shaders"@] {
        Some(shader_listing(names, active))
    } else if w == seq!["clear"@] {
        Some("__CLEAR__"@)
    } else {
        Some("\n"@ + command + ": command not found"@)
    }
}

fn concat3(a: &str, b: &str, c: &str) -> (r: String)
    ensures
        r@ == a@ + b@ + c@,
{
    let mut r = String::from_str(a);
    r.append(b);
    r.append(c);
    r
}

/// Whether `name` is among `names`.
fn contains_name(names: &Vec<String>, name: &str) -> (r: bool)
    ensures
        r == views(names@).contains(name@),
{
    let mut i: usize = 0;
    while i < names.len()
        invariant
            i <= names@.len(),
            forall|q: int| 0 <= q < i ==> #[trigger] views(names@)[q] != name@,
        decreases names@.len() - i,
    {
        if same_name(names[i].as_str(), name) {
            assert(views(names@)[i as int] == name@);
            return true;
        }
        i = i + 1;
    }
    false
}

/// The reply to `shaders`.
fn list_shaders(names: &Vec<String>, active: &str) -> (r: String)
    ensures
        r@ == shader_listing(views(names@), active@),
{
    let mut lines: Vec<String> = Vec::new();
    let mut i: usize = 0;
    while i < names.len()
        invariant
            i <= names@.len(),
            views(lines@) == views(names@).take(i as int).map_values(|n: Seq<char>| shader_line(n, active@)),
        decreases names@.len() - i,
    {
        let line = if same_name(names[i].as_str(), active) {
            concat3("  ", names[i].as_str(), " (active)")
        } else {
            concat3("  ", names[i].as_str(), "")
        };
        proof {
            reveal_strlit("");
            assert(""@ =~= Seq::<char>::empty());
            assert("  "@ + names@[i as int]@ + ""@ =~= "  "@ + names@[i as int]@);
        }
        assert(line@ == shader_line(views(names@)[i as int], active@));
        let ghost before = lines@;
        lines.push(line);
        assert(views(lines@) =~= views(before).push(line@));
        assert(views(lines@) =~= views(names@).take(i + 1).map_values(|n: Seq<char>| shader_line(n, active@)));
        i = i + 1;
    }
    assert(views(names@).take(names@.len() as int) =~= views(names@));
    let body = join_with(&lines, "\n");
    concat3("Available shaders:\n", body.as_str(), "\n\nUse 'shader [name]' to switch")
}

/// Answers a terminal command. `shader <name>` answers with a request to
/// select `name` when the state has such a shader, and with the list of
/// shaders otherwise; `shaders` lists them with the selected one marked.
pub fn run_command(command: &str, state: &State) -> (r: Reply)
    requires
        state.wf(),
    ensures
        match r {
            Reply::FetchResume => reply_of(command@, state.names_view(), state.active_view()) is None,
            Reply::Text(t) => reply_of(command@, state.names_view(), state.active_view()) == Some(t@),
        },
{
    let parsed = parse_command(command);
    proof {
        reveal_strlit("");
    }
    match parsed {
        Command::Empty => {
            assert(""@ =~= Seq::<char>::empty());
            Reply::Text(String::from_str(""))
        },
        Command::Help => Reply::Text(String::from_str(
            "\nAvailable commands:\n  help\n  cat resume\n  view resume\n  game (Snake - JavaScript)\n  python-games (Python collection)\n  python <code>\n  shaders (list available shaders)\n  shader [name] (switch shader)\n  clear\n",
        )),
        Command::CatResume => Reply::FetchResume,
        Command::ViewResume => Reply::Text(String::from_str("__SHOW_RESUME__")),
        Command::Game => Reply::Text(String::from_str(
            "\nStarting Snake Game...\nUse WASD or arrow keys to move\nEat the red squares to grow!\n\n__START_GAME__",
        )),
        Command::PythonGames => Reply::Text(String::from_str("__RUN_PYTHON_GAMES__")),
        Command::Shader(name) => {
            let names = state.get_shader_names();
            if contains_name(&names, name.as_str()) {
                assert(""@ + "__SET_SHADER__:"@ + name@ =~= "__SET_SHADER__:"@ + name@);
                Reply::Text(concat3("", "__SET_SHADER__:", name.as_str()))
            } else {
                let listed = join_with(&names, "\n  ");
                let head = concat3("Shader '", name.as_str(), "' not found. Available shaders:\n  ");
                Reply::Text(concat3(head.as_str(), listed.as_str(), ""))
            }
        },
        Command::Shaders => {
            let names = state.get_shader_names();
            let active = state.get_active_shader();
            Reply::Text(list_shaders(&names, active.as_str()))
        },
        Command::Clear => Reply::Text(String::from_str("__CLEAR__")),
        Command::Unknown => Reply::Text(concat3("\n", command, ": command not found")),
    }
}

} // verus!
