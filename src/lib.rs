//! Render-state core of an animated full-viewport shader background.
//!
//! The library keeps the logical side of the renderer: the registry of
//! fragment shaders and the active selection, the byte layout of the
//! per-frame uniform block, and the frame driver that decides, tick by tick,
//! what the graphics device is asked to do. The device itself is driven by
//! the host application, which hands the outcome of each device operation
//! back to the driver. A small command layer answers the terminal's text
//! commands from the same state, and lays out the resume as text.

mod command;
mod laws;
mod order;
mod registry;
mod resume;
mod state;
mod surface;
mod uniforms;

pub use command::{
    game_text, help_text, is_white, is_white_space, join, join_with, parse_command, reply_of, run_command,
    shader_line, shader_listing, shader_missing, split_words, words, Command, Reply,
};
pub use laws::{
    delivered_frame_draws_once, lost_surface_recovers_next_tick, resize_then_update_writes_resolution,
    resize_to_zero_changes_nothing,
};
pub use order::{lex_lt, name_lt, sorted_names_unique, strictly_sorted, views};
pub use registry::{
    first_vertex, has_vertex_stage, is_fragment_name, is_vertex_name, last_named, same_name, vertex_name,
    LoadError, Registry, ShaderEntry,
};
pub use resume::{
    comma_list, education_text, experience_text, format_education, format_experience, format_project,
    format_resume, format_skills, project_links, project_text, resume_text, skills_text, Contact, Education,
    Experience, Project, Resume, Skills,
};
pub use state::{triangle_draw, Acquire, DrawCall, FramePlan, State, UniformPayload, TRIANGLE_VERTICES};
pub use surface::{choose_format, choose_present_mode, PresentMode};
pub use uniforms::{
    encode_uniforms, holds_words, uniform_layout, uniform_words, word_at, words_in_order, UNIFORM_BYTES,
    UNIFORM_WORDS,
};
