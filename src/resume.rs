use vstd::prelude::*;
use vstd::string::*;
use crate::order::views;
use crate::command::{join, join_with};

verus! {

pub struct Contact {
    pub name: String,
    pub email: String,
    pub linkedin: String,
    pub github: String,
    pub location: String,
}

pub struct Experience {
    pub title: String,
    pub company: String,
    pub dates: String,
    pub description: String,
    pub technologies: Vec<String>,
}

pub struct Education {
    pub degree: String,
    pub university: String,
    pub dates: String,
    pub gpa: String,
    pub coursework: Vec<String>,
}

pub struct Skills {
    pub languages: Vec<String>,
    pub web: Vec<String>,
    pub tools: Vec<String>,
    pub concepts: Vec<String>,
}

pub struct Project {
    pub name: String,
    pub description: String,
    pub technologies: Vec<String>,
    pub github: Option<String>,
    pub demo: Option<String>,
}

/// The resume that `cat resume` shows.
pub struct Resume {
    pub contact: Contact,
    pub summary: String,
    pub experience: Vec<Experience>,
    pub education: Vec<Education>,
    pub skills: Skills,
    pub projects: Vec<Project>,
}

/// A list of words separated by commas.
pub open spec fn comma_list(v: Seq<String>) -> Seq<char> {
    join(views(v), ", "@)
}

pub open spec fn experience_text(e: Experience) -> Seq<char> {
    "- "@ + e.title@ + "\n  "@ + e.company@ + " ("@ + e.dates@ + ")\n  "@ + e.description@ + "\n  Tech: "@
        + comma_list(e.technologies@) + "\n"@
}

pub open spec fn education_text(e: Education) -> Seq<char> {
    "- "@ + e.degree@ + ", "@ + e.university@ + " ("@ + e.dates@ + ") - GPA: "@ + e.gpa@ + "\n  Coursework: "@
        + comma_list(e.coursework@)
}

/// The links of a project that it has, GitHub first.
pub open spec fn project_links(p: Project) -> Seq<Seq<char>> {
    let g: Seq<Seq<char>> = match p.github {
        Some(s) => seq![s@],
        None => Seq::empty(),
    };
    let d: Seq<Seq<char>> = match p.demo {
        Some(s) => seq![s@],
        None => Seq::empty(),
    };
    g + d
}

pub open spec fn project_text(p: Project) -> Seq<char> {
    "- "@ + p.name@ + "\n  "@ + p.description@ + "\n  Tech: "@ + comma_list(p.technologies@) + "\n  Links: "@
        + join(project_links(p), ", "@)
}

pub open spec fn skills_text(s: Skills) -> Seq<char> {
    "Languages: "@ + comma_list(s.languages@) + "\nWeb: "@ + comma_list(s.web@) + "\nTools: "@
        + comma_list(s.tools@) + "\nConcepts: "@ + comma_list(s.concepts@)
}

/// The resume as the terminal shows it.
pub open spec fn resume_text(r: Resume) -> Seq<char> {
    "\n"@ + r.contact.name@ + "\n"@ + r.contact.email@ + " | "@ + r.contact.linkedin@ + " | "@ + r.contact.github@
        + " | "@ + r.contact.location@ + "\n\n"@ + r.summary@ + "\n\n== Experience ==\n"@
        + join(r.experience@.map_values(|e: Experience| experience_text(e)), "\n"@) + "\n== Education ==\n"@
        + join(r.education@.map_values(|e: Education| education_text(e)), "\n"@) + "\n== Skills ==\n"@
        + skills_text(r.skills) + "\n\n== Projects ==\n"@
        + join(r.projects@.map_values(|p: Project| project_text(p)), "\n\n"@) + "\n"@
}

fn comma_joined(v: &Vec<String>) -> (r: String)
    ensures
        r@ == comma_list(v@),
{
    join_with(v, ", ")
}

/// One entry of the experience section.
pub fn format_experience(e: &Experience) -> (r: String)
    ensures
        r@ == experience_text(*e),
{
    let mut s = String::from_str("- ");
    s.append(e.title.as_str());
    s.append("\n  ");
    s.append(e.company.as_str());
    s.append(" (");
    s.append(e.dates.as_str());
    s.append(")\n  ");
    s.append(e.description.as_str());
    s.append("\n  Tech: ");
    let tech = comma_joined(&e.technologies);
    s.append(tech.as_str());
    s.append("\n");
    s
}

/// One entry of the education section.
pub fn format_education(e: &Education) -> (r: String)
    ensures
        r@ == education_text(*e),
{
    let mut s = String::from_str("- ");
    s.append(e.degree.as_str());
    s.append(", ");
    s.append(e.university.as_str());
    s.append(" (");
    s.append(e.dates.as_str());
    s.append(") - GPA: ");
    s.append(e.gpa.as_str());
    s.append("\n  Coursework: ");
    let courses = comma_joined(&e.coursework);
    s.append(courses.as_str());
    s
}

/// One entry of the projects section.
pub fn format_project(p: &Project) -> (r: String)
    ensures
        r@ == project_text(*p),
{
    let mut links: Vec<String> = Vec::new();
    match &p.github {
        Some(g) => links.push(g.clone()),
        None => {},
    }
    match &p.demo {
        Some(d) => links.push(d.clone()),
        None => {},
    }
    assert(views(links@) =~= project_links(*p));
    let mut s = String::from_str("- ");
    s.append(p.name.as_str());
    s.append("\n  ");
    s.append(p.description.as_str());
    s.append("\n  Tech: ");
    let tech = comma_joined(&p.technologies);
    s.append(tech.as_str());
    s.append("\n  Links: ");
    let joined = join_with(&links, ", ");
    s.append(joined.as_str());
    s
}

/// The skills section.
pub fn format_skills(k: &Skills) -> (r: String)
    ensures
        r@ == skills_text(*k),
{
    let mut s = String::from_str("Languages: ");
    let part = comma_joined(&k.languages);
    s.append(part.as_str());
    s.append("\nWeb: ");
    let part = comma_joined(&k.web);
    s.append(part.as_str());
    s.append("\nTools: ");
    let part = comma_joined(&k.tools);
    s.append(part.as_str());
    s.append("\nConcepts: ");
    let part = comma_joined(&k.concepts);
    s.append(part.as_str());
    s
}

fn experience_section(v: &Vec<Experience>) -> (r: String)
    ensures
        r@ == join(v@.map_values(|e: Experience| experience_text(e)), "\n"@),
{
    let mut parts: Vec<String> = Vec::new();
    let mut i: usize = 0;
    while i < v.len()
        invariant
            i <= v@.len(),
            views(parts@) == v@.take(i as int).map_values(|e: Experience| experience_text(e)),
        decreases v@.len() - i,
    {
        let t = format_experience(&v[i]);
        let ghost before = parts@;
        parts.push(t);
        assert(views(parts@) =~= views(before).push(t@));
        assert(views(parts@) =~= v@.take(i + 1).map_values(|e: Experience| experience_text(e)));
        i = i + 1;
    }
    assert(v@.take(v@.len() as int) =~= v@);
    join_with(&parts, "\n")
}

fn education_section(v: &Vec<Education>) -> (r: String)
    ensures
        r@ == join(v@.map_values(|e: Education| education_text(e)), "\n"@),
{
    let mut parts: Vec<String> = Vec::new();
    let mut i: usize = 0;
    while i < v.len()
        invariant
            i <= v@.len(),
            views(parts@) == v@.take(i as int).map_values(|e: Education| education_text(e)),
        decreases v@.len() - i,
    {
        let t = format_education(&v[i]);
        let ghost before = parts@;
        parts.push(t);
        assert(views(parts@) =~= views(before).push(t@));
        assert(views(parts@) =~= v@.take(i + 1).map_values(|e: Education| education_text(e)));
        i = i + 1;
    }
    assert(v@.take(v@.len() as int) =~= v@);
    join_with(&parts, "\n")
}

fn projects_section(v: &Vec<Project>) -> (r: String)
    ensures
        r@ == join(v@.map_values(|p: Project| project_text(p)), "\n\n"@),
{
    let mut parts: Vec<String> = Vec::new();
    let mut i: usize = 0;
    while i < v.len()
        invariant
            i <= v@.len(),
            views(parts@) == v@.take(i as int).map_values(|p: Project| project_text(p)),
        decreases v@.len() - i,
    {
        let t = format_project(&v[i]);
        let ghost before = parts@;
        parts.push(t);
        assert(views(parts@) =~= views(before).push(t@));
        assert(views(parts@) =~= v@.take(i + 1).map_values(|p: Project| project_text(p)));
        i = i + 1;
    }
    assert(v@.take(v@.len() as int) =~= v@);
    join_with(&parts, "\n\n")
}

/// The resume as the terminal shows it: contact line, summary, then the
/// experience, education, skills and projects sections.
pub fn format_resume(r: &Resume) -> (t: String)
    ensures
        t@ == resume_text(*r),
{
    let mut s = String::from_str("\n");
    s.append(r.contact.name.as_str());
    s.append("\n");
    s.append(r.contact.email.as_str());
    s.append(" | ");
    s.append(r.contact.linkedin.as_str());
    s.append(" | ");
    s.append(r.contact.github.as_str());
    s.append(" | ");
    s.append(r.contact.location.as_str());
    s.append("\n\n");
    s.append(r.summary.as_str());
    s.append("\n\n== Experience ==\n");
    let part = experience_section(&r.experience);
    s.append(part.as_str());
    s.append("\n== Education ==\n");
    let part = education_section(&r.education);
    s.append(part.as_str());
    s.append("\n== Skills ==\n");
    let part = format_skills(&r.skills);
    s.append(part.as_str());
    s.append("\n\n== Projects ==\n");
    let part = projects_section(&r.projects);
    s.append(part.as_str());
    s.append("\n");
    s
}

} // verus!
