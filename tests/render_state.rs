use shader_canvas::{
    choose_format, choose_present_mode, PresentMode,
    encode_uniforms, is_vertex_name, name_lt, same_name, uniform_words, Acquire, DrawCall, FramePlan, LoadError,
    Registry, ShaderEntry, State, UNIFORM_BYTES, UNIFORM_WORDS,
};

fn entry(name: &str) -> ShaderEntry {
    ShaderEntry { name: name.to_string(), source: format!("// {}", name) }
}

fn entries(names: &[&str]) -> Vec<ShaderEntry> {
    names.iter().map(|n| entry(n)).collect()
}

fn state(names: &[&str]) -> State {
    match State::new(&entries(names), (800, 600)) {
        Ok(s) => s,
        Err(e) => panic!("no state: {:?}", e),
    }
}

#[test]
fn end_to_end_selection() {
    let mut s = state(&["vs", "a", "b"]);
    assert_eq!(s.get_shader_names(), vec!["a".to_string(), "b".to_string()]);
    assert_eq!(s.get_active_shader(), "a");
    assert!(s.set_pipeline("b"));
    assert_eq!(s.get_active_shader(), "b");
    assert!(!s.set_pipeline("missing"));
    assert_eq!(s.get_active_shader(), "b");
}

#[test]
fn names_sorted_and_first_selected() {
    let s = state(&["zeta", "vs", "alpha", "mid"]);
    assert_eq!(s.get_shader_names(), vec!["alpha".to_string(), "mid".to_string(), "zeta".to_string()]);
    assert_eq!(s.get_active_shader(), "alpha");
}

#[test]
fn names_order_by_code_point() {
    let s = state(&["vs", "b", "B", "ab", "a", "é"]);
    assert_eq!(
        s.get_shader_names(),
        vec!["B".to_string(), "a".to_string(), "ab".to_string(), "b".to_string(), "é".to_string()]
    );
    assert_eq!(s.get_active_shader(), "B");
}

#[test]
fn missing_vertex_stage_fails() {
    assert_eq!(State::new(&entries(&["a", "b"]), (10, 10)).err(), Some(LoadError::MissingVertexStage));
    assert_eq!(Registry::load(&entries(&[])).err(), Some(LoadError::MissingVertexStage));
    assert_eq!(Registry::load(&entries(&["vs2", "v"])).err(), Some(LoadError::MissingVertexStage));
}

#[test]
fn only_vertex_stage_gives_empty_list() {
    let s = state(&["vs"]);
    assert!(s.get_shader_names().is_empty());
    assert_eq!(s.get_active_shader(), "");
    assert_eq!(s.render(Acquire::Ready), FramePlan::Present(None));
}

#[test]
fn repeated_names_kept_once_last_source_wins() {
    let list = entries(&["a", "vs", "b", "a", "vs"]);
    let reg = match Registry::load(&list) {
        Ok(r) => r,
        Err(e) => panic!("{:?}", e),
    };
    assert_eq!(reg.names(), vec!["a".to_string(), "b".to_string()]);
    assert_eq!(reg.len(), 2);
    assert_eq!(reg.fragment_slot(0), 3);
    assert_eq!(reg.fragment_slot(1), 2);
    assert_eq!(reg.vertex_slot(), 1);
    assert_eq!(reg.active_index(), Some(0));
}

#[test]
fn select_known_and_unknown() {
    let mut s = state(&["vs", "c", "a", "b"]);
    assert!(s.set_pipeline("c"));
    assert_eq!(s.get_active_shader(), "c");
    assert!(!s.set_pipeline("vs"));
    assert!(!s.set_pipeline(""));
    assert!(!s.set_pipeline("C"));
    assert_eq!(s.get_active_shader(), "c");
    assert_eq!(s.get_shader_names().len(), 3);
}

#[test]
fn reselecting_active_reports_no_change() {
    let mut s = state(&["vs", "a", "b"]);
    assert!(!s.set_pipeline("a"));
    assert_eq!(s.get_active_shader(), "a");
    assert!(s.set_pipeline("b"));
    assert!(!s.set_pipeline("b"));
    assert_eq!(s.get_active_shader(), "b");
    assert!(s.set_pipeline("a"));
    assert_eq!(s.get_active_shader(), "a");
}

#[test]
fn format_prefers_first_srgb() {
    assert_eq!(choose_format(&vec![false, true, true]), 1);
    assert_eq!(choose_format(&vec![true, false]), 0);
    assert_eq!(choose_format(&vec![false, false, false]), 0);
    assert_eq!(choose_format(&vec![false]), 0);
}

#[test]
fn present_mode_prefers_mailbox() {
    assert_eq!(choose_present_mode(true), PresentMode::Mailbox);
    assert_eq!(choose_present_mode(false), PresentMode::Fifo);
}

#[test]
fn resize_with_zero_side_is_ignored() {
    let mut s = state(&["vs", "a"]);
    let before = s.uniforms();
    assert!(!s.resize((0, 480)));
    assert!(!s.resize((640, 0)));
    assert!(!s.resize((0, 0)));
    assert_eq!(s.size(), (800, 600));
    assert_eq!(s.uniforms(), before);
    assert_eq!(s.uniforms().resolution, [800, 600]);
}

#[test]
fn resize_then_update_writes_new_resolution() {
    let mut s = state(&["vs", "a"]);
    assert!(s.resize((640, 480)));
    assert_eq!(s.size(), (640, 480));
    let p = s.update(1.5f32.to_bits(), [3.0f32.to_bits(), 4.0f32.to_bits()]);
    assert_eq!(p.resolution, [640, 480]);
    assert_eq!(p.time, 1.5f32.to_bits());
    assert_eq!(p.pointer, [3.0f32.to_bits(), 4.0f32.to_bits()]);
    assert_eq!(s.uniforms(), p);
}

#[test]
fn initial_uniforms() {
    let s = state(&["vs", "a"]);
    let u = s.uniforms();
    assert_eq!(u.time, 0);
    assert_eq!(u.pointer, [0, 0]);
    assert_eq!(u.resolution, [800, 600]);
}

#[test]
fn lost_surface_reconfigures_then_draws() {
    let mut s = state(&["vs", "a", "b"]);
    assert_eq!(s.render(Acquire::Lost), FramePlan::Reconfigure(800, 600));
    assert_eq!(s.render(Acquire::Outdated), FramePlan::Reconfigure(800, 600));
    s.update(2.0f32.to_bits(), [0, 0]);
    assert_eq!(
        s.render(Acquire::Ready),
        FramePlan::Present(Some(DrawCall { pipeline: 0, vertex_count: 3, instance_count: 1 }))
    );
}

#[test]
fn other_failures_skip_the_frame() {
    let s = state(&["vs", "a"]);
    assert_eq!(s.render(Acquire::Timeout), FramePlan::Skip);
    assert_eq!(s.render(Acquire::OutOfMemory), FramePlan::Skip);
    assert_eq!(
        s.render(Acquire::Ready),
        FramePlan::Present(Some(DrawCall { pipeline: 0, vertex_count: 3, instance_count: 1 }))
    );
}

#[test]
fn every_pipeline_draws_once() {
    let mut s = state(&["vs", "x", "y", "z"]);
    let names = s.get_shader_names();
    for (i, n) in names.iter().enumerate() {
        assert_eq!(s.set_pipeline(n), i != 0);
        assert_eq!(
            s.render(Acquire::Ready),
            FramePlan::Present(Some(DrawCall { pipeline: i, vertex_count: 3, instance_count: 1 }))
        );
    }
}

#[test]
fn uniform_word_layout() {
    let w = uniform_words(7, [8, 9], [10, 11]);
    assert_eq!(w.len(), UNIFORM_WORDS);
    assert_eq!(w, vec![7, 0, 0, 0, 8, 9, 0, 0, 10, 11, 0, 0]);
}

#[test]
fn uniform_bytes_layout() {
    let b = encode_uniforms(0x0102_0304, [0x0506_0708, 0x090a_0b0c], [640, 480]);
    assert_eq!(b.len(), UNIFORM_BYTES);
    assert_eq!(&b[0..4], &0x0102_0304u32.to_ne_bytes());
    assert_eq!(&b[4..16], &[0u8; 12]);
    assert_eq!(&b[16..20], &0x0506_0708u32.to_ne_bytes());
    assert_eq!(&b[20..24], &0x090a_0b0cu32.to_ne_bytes());
    assert_eq!(&b[24..32], &[0u8; 8]);
    assert_eq!(&b[32..36], &640u32.to_ne_bytes());
    assert_eq!(&b[36..40], &480u32.to_ne_bytes());
    assert_eq!(&b[40..48], &[0u8; 8]);
}

#[test]
fn name_helpers() {
    assert!(is_vertex_name("vs"));
    assert!(!is_vertex_name("vs "));
    assert!(!is_vertex_name("v"));
    assert!(!is_vertex_name("sv"));
    assert!(name_lt("a", "b"));
    assert!(name_lt("a", "ab"));
    assert!(!name_lt("ab", "a"));
    assert!(!name_lt("a", "a"));
    assert!(name_lt("", "a"));
    assert!(name_lt("Z", "a"));
    assert!(same_name("plasma", "plasma"));
    assert!(!same_name("plasma", "plasm"));
}
