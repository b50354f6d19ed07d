use lictool::errors::Error;
use lictool::template::plan_write;
use lictool::template::should_reprompt;
use lictool::template::Template;

fn template_for(text: &str) -> Template {
    Template {
        license_text: text.to_string(),
        year: None,
        owner: None,
        repo: None,
        email: None,
    }
}

#[test]
fn year_markers_all_replaced() {
    let mut t = template_for(
        "Copyright (c) [yyyy], [YEAR], <year>, {YEAR} and [Year] — [yyyy] again.",
    );
    t.year = Some(2024);
    let out = t.render();
    assert_eq!(
        out,
        "Copyright (c) 2024, 2024, 2024, 2024 and 2024 — 2024 again."
    );
    assert!(!out.contains("[yyyy]"));
    assert!(!out.contains("[YEAR]"));
    assert!(!out.contains("<year>"));
    assert!(!out.contains("{YEAR}"));
    assert!(!out.contains("[Year]"));
}

#[test]
fn negative_year_rendered_with_sign() {
    let mut t = template_for("year: <year>");
    t.year = Some(-42);
    assert_eq!(t.render(), "year: -42");
}

#[test]
fn year_zero_rendered_as_digit() {
    let mut t = template_for("[yyyy]");
    t.year = Some(0);
    assert_eq!(t.render(), "0");
}

#[test]
fn owner_value_without_marker_is_noop() {
    let text = "Copyright (c) [yyyy] — no owner placeholder here.";
    let mut with_owner = template_for(text);
    with_owner.owner = Some("Alice".to_string());
    let mut without_owner = template_for(text);
    assert_eq!(with_owner.render(), without_owner.render());
}

#[test]
fn owner_markers_replaced() {
    let mut t = template_for("by <owner>, that is [fullname], or <AUTHOR>");
    t.owner = Some("Alice".to_string());
    assert_eq!(t.render(), "by Alice, that is Alice, or Alice");
}

#[test]
fn long_owner_and_repo_markers_replaced() {
    let mut t = template_for(
        "Licensed by [one or more legally recognised persons or entities offering the Work under the terms and conditions of this Licence].\n<one line to give the program's name and a brief idea of what it does.>\n",
    );
    t.owner = Some("Alice".to_string());
    t.repo = Some("example: a sample program".to_string());
    assert_eq!(
        t.render(),
        "Licensed by Alice.\nexample: a sample program\n"
    );
}

#[test]
fn repo_and_email_markers_replaced() {
    let mut t = template_for("<program> — contact <EMAIL> or [EMAIL]");
    t.repo = Some("example".to_string());
    t.email = Some("alice@example.com".to_string());
    assert_eq!(
        t.render(),
        "example — contact alice@example.com or alice@example.com"
    );
}

#[test]
fn unsupplied_values_leave_text_unchanged() {
    let text = "Copyright (c) <year> [fullname] <program> <EMAIL>";
    let mut t = template_for(text);
    assert_eq!(t.render(), text);
}

#[test]
fn render_moves_text_out() {
    let mut t = template_for("some text");
    let _ = t.render();
    assert_eq!(t.license_text, "");
}

#[test]
fn details_fixture_year_only_end_to_end() {
    let source = "The [yyyy] license.\n\nCopyright [yyyy].\nNo other markers: name, email.\n";
    let mut t = template_for(source);
    t.year = Some(2024);
    let out = t.render();
    let expected = "The 2024 license.\n\nCopyright 2024.\nNo other markers: name, email.\n";
    assert_eq!(out, expected);
    assert_eq!(out, source.replace("[yyyy]", "2024"));
}

#[test]
fn plan_write_refuses_existing_file() {
    let mut t = template_for("text with [yyyy]");
    t.year = Some(2024);
    let r = plan_write(&"LICENSE.md".to_string(), true, &mut t);
    assert_eq!(
        r,
        Err(Error::AlreadyExists {
            file: "LICENSE.md".to_string()
        })
    );
    assert_eq!(t.license_text, "text with [yyyy]");
}

#[test]
fn plan_write_renders_for_fresh_path() {
    let mut t = template_for("text with [yyyy]");
    t.year = Some(2024);
    let r = plan_write(&"LICENSE.md".to_string(), false, &mut t);
    assert_eq!(r, Ok("text with 2024".to_string()));
    assert_eq!(t.license_text, "");
}

#[test]
fn only_conflicts_are_reprompted() {
    assert!(should_reprompt(&Error::AlreadyExists {
        file: "LICENSE.md".to_string()
    }));
    assert!(!should_reprompt(&Error::NotFound));
    assert!(!should_reprompt(&Error::Malformed));
}

#[test]
fn error_messages() {
    assert_eq!(
        Error::NotFound.message(),
        "No license found matching the ID provided."
    );
    assert_eq!(
        Error::AlreadyExists {
            file: "LICENSE.md".to_string()
        }
        .message(),
        "The LICENSE.md file already exists."
    );
    assert_eq!(
        Error::Malformed.message(),
        "The registry response is malformed."
    );
}
