use shader_canvas::{
    format_education, format_experience, format_project, format_resume, format_skills, Contact, Education,
    Experience, Project, Resume, Skills,
};

fn strings(v: &[&str]) -> Vec<String> {
    v.iter().map(|s| s.to_string()).collect()
}

fn sample() -> Resume {
    Resume {
        contact: Contact {
            name: "Ada".to_string(),
            email: "ada@example.org".to_string(),
            linkedin: "in/ada".to_string(),
            github: "gh/ada".to_string(),
            location: "London".to_string(),
        },
        summary: "Engines.".to_string(),
        experience: vec![Experience {
            title: "Analyst".to_string(),
            company: "Babbage".to_string(),
            dates: "1842".to_string(),
            description: "Notes".to_string(),
            technologies: strings(&["cards", "gears"]),
        }],
        education: vec![Education {
            degree: "Maths".to_string(),
            university: "Home".to_string(),
            dates: "1830".to_string(),
            gpa: "4.0".to_string(),
            coursework: strings(&["algebra"]),
        }],
        skills: Skills {
            languages: strings(&["Note G"]),
            web: vec![],
            tools: strings(&["loom", "pen"]),
            concepts: strings(&["loops"]),
        },
        projects: vec![
            Project {
                name: "Bernoulli".to_string(),
                description: "Numbers".to_string(),
                technologies: strings(&["engine"]),
                github: Some("gh/b".to_string()),
                demo: Some("demo/b".to_string()),
            },
            Project {
                name: "Poem".to_string(),
                description: "Verse".to_string(),
                technologies: vec![],
                github: None,
                demo: Some("demo/p".to_string()),
            },
        ],
    }
}

#[test]
fn experience_entry_text() {
    let r = sample();
    assert_eq!(format_experience(&r.experience[0]), "- Analyst\n  Babbage (1842)\n  Notes\n  Tech: cards, gears\n");
}

#[test]
fn education_entry_text() {
    let r = sample();
    assert_eq!(format_education(&r.education[0]), "- Maths, Home (1830) - GPA: 4.0\n  Coursework: algebra");
}

#[test]
fn project_links_skip_missing() {
    let r = sample();
    assert_eq!(format_project(&r.projects[0]), "- Bernoulli\n  Numbers\n  Tech: engine\n  Links: gh/b, demo/b");
    assert_eq!(format_project(&r.projects[1]), "- Poem\n  Verse\n  Tech: \n  Links: demo/p");
}

#[test]
fn skills_text_lists() {
    let r = sample();
    assert_eq!(format_skills(&r.skills), "Languages: Note G\nWeb: \nTools: loom, pen\nConcepts: loops");
}

#[test]
fn whole_resume_text() {
    let expected = "\nAda\nada@example.org | in/ada | gh/ada | London\n\nEngines.\n\n== Experience ==\n\
- Analyst\n  Babbage (1842)\n  Notes\n  Tech: cards, gears\n\n== Education ==\n\
- Maths, Home (1830) - GPA: 4.0\n  Coursework: algebra\n== Skills ==\n\
Languages: Note G\nWeb: \nTools: loom, pen\nConcepts: loops\n\n== Projects ==\n\
- Bernoulli\n  Numbers\n  Tech: engine\n  Links: gh/b, demo/b\n\n- Poem\n  Verse\n  Tech: \n  Links: demo/p\n";
    assert_eq!(format_resume(&sample()), expected);
}
