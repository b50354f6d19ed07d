//! A license template and its rendering, and the non-destructive plan for
//! writing the rendered text to a file.

use vstd::prelude::*;
use crate::errors::Error;
use crate::markers::year_applied;
use crate::markers::owner_applied;
use crate::markers::repo_applied;
use crate::markers::email_applied;
use crate::markers::has_owner_marker;
use crate::markers::apply_year;
use crate::markers::apply_owner;
use crate::markers::apply_repo;
use crate::markers::apply_email;
use crate::markers::lemma_owner_applied_noop;
use crate::markers::lemma_year_applied_clears;
use crate::markers::lemma_year_applied_keeps_no_owner;
use crate::num::int_rep;
use crate::num::int_chars;
use crate::num::lemma_int_rep_numeric;
use crate::text::contains_seq;
use crate::text::chars_of;
use crate::text::string_of;

verus! {

/// A license template: the raw text and the optional substitution values.
#[derive(Debug)]
pub struct Template {
    /// The text of the license, with its markers still in place.
    pub license_text: String,
    /// The year of creation, when supplied.
    pub year: Option<i32>,
    /// The name of the copyright owner, when supplied.
    pub owner: Option<String>,
    /// The name of the program, when supplied.
    pub repo: Option<String>,
    /// The contact email, when supplied.
    pub email: Option<String>,
}

/// The rendering of a template: each supplied value is applied to its
/// marker category, year first, then owner, repository name and email; a
/// category without a value leaves the text untouched.
pub open spec fn spec_render(t: Template) -> Seq<char> {
    let s0 = t.license_text@;
    let s1 = match t.year {
        Some(y) => year_applied(s0, int_rep(y as int)),
        None => s0,
    };
    let s2 = match t.owner {
        Some(o) => owner_applied(s1, o@),
        None => s1,
    };
    let s3 = match t.repo {
        Some(p) => repo_applied(s2, p@),
        None => s2,
    };
    match t.email {
        Some(e) => email_applied(s3, e@),
        None => s3,
    }
}

impl Default for Template {
    /// An empty template: no text and no substitution values.
    fn default() -> (t: Template)
        ensures
            t.license_text@ == Seq::<char>::empty(),
            t.year is None,
            t.owner is None,
            t.repo is None,
            t.email is None,
    {
        Template {
            license_text: String::new(),
            year: None,
            owner: None,
            repo: None,
            email: None,
        }
    }
}

impl Template {
    /// Renders the template: the license text is moved out and every
    /// supplied value replaces the markers of its category.
    pub fn render(&mut self) -> (s: String)
        ensures
            s@ == spec_render(*old(self)),
            final(self).license_text@ == Seq::<char>::empty(),
            final(self).year == old(self).year,
            final(self).owner == old(self).owner,
            final(self).repo == old(self).repo,
            final(self).email == old(self).email,
    {
        let mut text = String::new();
        core::mem::swap(&mut text, &mut self.license_text);
        let t0 = chars_of(text.as_str());
        let t1 = match self.year {
            Some(y) => {
                let v = int_chars(y);
                apply_year(&t0, &v)
            },
            None => t0,
        };
        let t2 = match &self.owner {
            Some(o) => {
                let v = chars_of(o.as_str());
                apply_owner(&t1, &v)
            },
            None => t1,
        };
        let t3 = match &self.repo {
            Some(p) => {
                let v = chars_of(p.as_str());
                apply_repo(&t2, &v)
            },
            None => t2,
        };
        let t4 = match &self.email {
            Some(e) => {
                let v = chars_of(e.as_str());
                apply_email(&t3, &v)
            },
            None => t3,
        };
        string_of(&t4)
    }
}

/// The decision part of writing a rendered template: when the target path
/// already exists as a file, nothing is rendered and the conflict is
/// reported with the offending path; otherwise the rendered text is
/// produced for the caller to write.
pub fn plan_write(path: &String, exists_as_file: bool, template: &mut Template) -> (r: Result<
    String,
    Error,
>)
    ensures
        exists_as_file ==> r == Err::<String, Error>(Error::AlreadyExists { file: *path })
            && *final(template) == *old(template),
        !exists_as_file ==> match r {
            Ok(s) => {
                &&& s@ == spec_render(*old(template))
                &&& final(template).license_text@ == Seq::<char>::empty()
                &&& final(template).year == old(template).year
                &&& final(template).owner == old(template).owner
                &&& final(template).repo == old(template).repo
                &&& final(template).email == old(template).email
            },
            Err(_) => false,
        },
{
    if exists_as_file {
        Err(Error::AlreadyExists { file: path.clone() })
    } else {
        Ok(template.render())
    }
}

/// After a failed write, only a conflict with an existing file is worth
/// prompting for a new path; any other error ends the attempt.
pub fn should_reprompt(e: &Error) -> (b: bool)
    ensures
        b == (e is AlreadyExists),
{
    matches!(e, Error::AlreadyExists { .. })
}

/// Rendering with a supplied year and no other value replaces the year
/// markers throughout and leaves no year marker of any variant behind.
pub proof fn lemma_render_year_only_clears(t: Template)
    requires
        t.year is Some,
        t.owner is None,
        t.repo is None,
        t.email is None,
    ensures
        !contains_seq(spec_render(t), "[yyyy]"@),
        !contains_seq(spec_render(t), "[YEAR]"@),
        !contains_seq(spec_render(t), "<year>"@),
        !contains_seq(spec_render(t), "{YEAR}"@),
        !contains_seq(spec_render(t), "[Year]"@),
{
    match t.year {
        Some(y) => {
            lemma_int_rep_numeric(y as int);
            lemma_year_applied_clears(t.license_text@, int_rep(y as int));
        },
        None => {},
    }
}

/// A license text without owner markers renders the same whatever owner
/// value is supplied: rendering is a no-op on the owner dimension.
pub proof fn lemma_render_owner_noop(t: Template)
    requires
        !has_owner_marker(t.license_text@),
    ensures
        spec_render(t) == spec_render(Template { owner: None, ..t }),
{
    let s0 = t.license_text@;
    match t.year {
        Some(y) => {
            lemma_int_rep_numeric(y as int);
            lemma_year_applied_keeps_no_owner(s0, int_rep(y as int));
            match t.owner {
                Some(o) => {
                    lemma_owner_applied_noop(year_applied(s0, int_rep(y as int)), o@);
                },
                None => {},
            }
        },
        None => {
            match t.owner {
                Some(o) => {
                    lemma_owner_applied_noop(s0, o@);
                },
                None => {},
            }
        },
    }
}

} // verus!
