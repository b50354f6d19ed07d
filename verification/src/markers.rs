//! The fixed placeholder markers recognized in license text.
//!
//! There are four categories — year, owner, repository name and email — each
//! a small set of literal marker strings. A category is detected by substring
//! containment, and applied by replacing each of its markers, in order, with
//! the supplied value.

use vstd::prelude::*;
use crate::text::contains_seq;
use crate::text::replaced;
use crate::text::chars_of;
use crate::text::contains_slice;
use crate::text::replace_all;
use crate::text::lemma_replaced_noop;
use crate::text::lemma_replaced_free;
use crate::num::is_numeric_char;

verus! {

/// The text contains a year placeholder.
pub open spec fn has_year_marker(t: Seq<char>) -> bool {
    ||| contains_seq(t, "[yyyy]"@)
    ||| contains_seq(t, "[YEAR]"@)
    ||| contains_seq(t, "<year>"@)
    ||| contains_seq(t, "{YEAR}"@)
    ||| contains_seq(t, "[Year]"@)
}

/// The text contains an owner placeholder.
pub open spec fn has_owner_marker(t: Seq<char>) -> bool {
    ||| contains_seq(t, "[fullname]"@)
    ||| contains_seq(t, "<owner>"@)
    ||| contains_seq(t, "[NAME]"@)
    ||| contains_seq(t, "<name of author>"@)
    ||| contains_seq(t, "[name of copyright owner]"@)
    ||| contains_seq(t, "[name of copyright holder]"@)
    ||| contains_seq(t, "<COPYRIGHT HOLDERS>"@)
    ||| contains_seq(t, "<copyright holders>"@)
    ||| contains_seq(t, "<AUTHOR>"@)
    ||| contains_seq(t, "<author's name or designee>"@)
    ||| contains_seq(
        t,
        "[one or more legally recognised persons or entities offering the Work under the terms and conditions of this Licence]"@,
    )
}

/// The text contains a repository-name placeholder.
pub open spec fn has_repo_marker(t: Seq<char>) -> bool {
    ||| contains_seq(t, "<program>"@)
    ||| contains_seq(
        t,
        "<one line to give the program's name and a brief idea of what it does.>"@,
    )
}

/// The text contains an email placeholder.
pub open spec fn has_email_marker(t: Seq<char>) -> bool {
    ||| contains_seq(t, "<EMAIL>"@)
    ||| contains_seq(t, "[EMAIL]"@)
}

/// The year pass: every year marker replaced by `v`, in order.
pub open spec fn year_applied(t: Seq<char>, v: Seq<char>) -> Seq<char> {
    let t1 = replaced(t, "[yyyy]"@, v);
    let t2 = replaced(t1, "[YEAR]"@, v);
    let t3 = replaced(t2, "<year>"@, v);
    let t4 = replaced(t3, "{YEAR}"@, v);
    replaced(t4, "[Year]"@, v)
}

/// The owner pass: every owner marker replaced by `v`, in order.
pub open spec fn owner_applied(t: Seq<char>, v: Seq<char>) -> Seq<char> {
    let t1 = replaced(t, "[fullname]"@, v);
    let t2 = replaced(t1, "<owner>"@, v);
    let t3 = replaced(t2, "[NAME]"@, v);
    let t4 = replaced(t3, "<name of author>"@, v);
    let t5 = replaced(t4, "[name of copyright owner]"@, v);
    let t6 = replaced(t5, "[name of copyright holder]"@, v);
    let t7 = replaced(t6, "<COPYRIGHT HOLDERS>"@, v);
    let t8 = replaced(t7, "<copyright holders>"@, v);
    let t9 = replaced(t8, "<AUTHOR>"@, v);
    let t10 = replaced(t9, "<author's name or designee>"@, v);
    replaced(
        t10,
        "[one or more legally recognised persons or entities offering the Work under the terms and conditions of this Licence]"@,
        v,
    )
}

/// The repository pass: every repository-name marker replaced by `v`.
pub open spec fn repo_applied(t: Seq<char>, v: Seq<char>) -> Seq<char> {
    let t1 = replaced(t, "<program>"@, v);
    replaced(
        t1,
        "<one line to give the program's name and a brief idea of what it does.>"@,
        v,
    )
}

/// The email pass: every email marker replaced by `v`.
pub open spec fn email_applied(t: Seq<char>, v: Seq<char>) -> Seq<char> {
    let t1 = replaced(t, "<EMAIL>"@, v);
    replaced(t1, "[EMAIL]"@, v)
}

/// Detects a year placeholder in `t`.
pub fn text_has_year(t: &Vec<char>) -> (b: bool)
    ensures
        b == has_year_marker(t@),
{
    let m1 = chars_of("[yyyy]");
    let m2 = chars_of("[YEAR]");
    let m3 = chars_of("<year>");
    let m4 = chars_of("{YEAR}");
    let m5 = chars_of("[Year]");
    contains_slice(t, &m1) || contains_slice(t, &m2) || contains_slice(t, &m3) || contains_slice(
        t,
        &m4,
    ) || contains_slice(t, &m5)
}

/// Detects an owner placeholder in `t`.
pub fn text_has_owner(t: &Vec<char>) -> (b: bool)
    ensures
        b == has_owner_marker(t@),
{
    let m1 = chars_of("[fullname]");
    let m2 = chars_of("<owner>");
    let m3 = chars_of("[NAME]");
    let m4 = chars_of("<name of author>");
    let m5 = chars_of("[name of copyright owner]");
    let m6 = chars_of("[name of copyright holder]");
    let m7 = chars_of("<COPYRIGHT HOLDERS>");
    let m8 = chars_of("<copyright holders>");
    let m9 = chars_of("<AUTHOR>");
    let m10 = chars_of("<author's name or designee>");
    let m11 = chars_of(
        "[one or more legally recognised persons or entities offering the Work under the terms and conditions of this Licence]",
    );
    contains_slice(t, &m1) || contains_slice(t, &m2) || contains_slice(t, &m3) || contains_slice(
        t,
        &m4,
    ) || contains_slice(t, &m5) || contains_slice(t, &m6) || contains_slice(t, &m7)
        || contains_slice(t, &m8) || contains_slice(t, &m9) || contains_slice(t, &m10)
        || contains_slice(t, &m11)
}

/// Detects a repository-name placeholder in `t`.
pub fn text_has_repo(t: &Vec<char>) -> (b: bool)
    ensures
        b == has_repo_marker(t@),
{
    let m1 = chars_of("<program>");
    let m2 = chars_of(
        "<one line to give the program's name and a brief idea of what it does.>",
    );
    contains_slice(t, &m1) || contains_slice(t, &m2)
}

/// Detects an email placeholder in `t`.
pub fn text_has_email(t: &Vec<char>) -> (b: bool)
    ensures
        b == has_email_marker(t@),
{
    let m1 = chars_of("<EMAIL>");
    let m2 = chars_of("[EMAIL]");
    contains_slice(t, &m1) || contains_slice(t, &m2)
}

/// Performs the year pass on `t` with value `v`.
pub fn apply_year(t: &Vec<char>, v: &Vec<char>) -> (out: Vec<char>)
    ensures
        out@ == year_applied(t@, v@),
{
    let m1 = chars_of("[yyyy]");
    let m2 = chars_of("[YEAR]");
    let m3 = chars_of("<year>");
    let m4 = chars_of("{YEAR}");
    let m5 = chars_of("[Year]");
    let t1 = replace_all(t, &m1, v);
    let t2 = replace_all(&t1, &m2, v);
    let t3 = replace_all(&t2, &m3, v);
    let t4 = replace_all(&t3, &m4, v);
    replace_all(&t4, &m5, v)
}

/// Performs the owner pass on `t` with value `v`.
pub fn apply_owner(t: &Vec<char>, v: &Vec<char>) -> (out: Vec<char>)
    ensures
        out@ == owner_applied(t@, v@),
{
    let m1 = chars_of("[fullname]");
    let m2 = chars_of("<owner>");
    let m3 = chars_of("[NAME]");
    let m4 = chars_of("<name of author>");
    let m5 = chars_of("[name of copyright owner]");
    let m6 = chars_of("[name of copyright holder]");
    let m7 = chars_of("<COPYRIGHT HOLDERS>");
    let m8 = chars_of("<copyright holders>");
    let m9 = chars_of("<AUTHOR>");
    let m10 = chars_of("<author's name or designee>");
    let m11 = chars_of(
        "[one or more legally recognised persons or entities offering the Work under the terms and conditions of this Licence]",
    );
    let t1 = replace_all(t, &m1, v);
    let t2 = replace_all(&t1, &m2, v);
    let t3 = replace_all(&t2, &m3, v);
    let t4 = replace_all(&t3, &m4, v);
    let t5 = replace_all(&t4, &m5, v);
    let t6 = replace_all(&t5, &m6, v);
    let t7 = replace_all(&t6, &m7, v);
    let t8 = replace_all(&t7, &m8, v);
    let t9 = replace_all(&t8, &m9, v);
    let t10 = replace_all(&t9, &m10, v);
    replace_all(&t10, &m11, v)
}

/// Performs the repository pass on `t` with value `v`.
pub fn apply_repo(t: &Vec<char>, v: &Vec<char>) -> (out: Vec<char>)
    ensures
        out@ == repo_applied(t@, v@),
{
    let m1 = chars_of("<program>");
    let m2 = chars_of(
        "<one line to give the program's name and a brief idea of what it does.>",
    );
    let t1 = replace_all(t, &m1, v);
    replace_all(&t1, &m2, v)
}

/// Performs the email pass on `t` with value `v`.
pub fn apply_email(t: &Vec<char>, v: &Vec<char>) -> (out: Vec<char>)
    ensures
        out@ == email_applied(t@, v@),
{
    let m1 = chars_of("<EMAIL>");
    let m2 = chars_of("[EMAIL]");
    let t1 = replace_all(t, &m1, v);
    replace_all(&t1, &m2, v)
}

/// A text without owner markers is unchanged by the owner pass, whatever
/// value was supplied.
pub proof fn lemma_owner_applied_noop(t: Seq<char>, v: Seq<char>)
    requires
        !has_owner_marker(t),
    ensures
        owner_applied(t, v) == t,
{
    lemma_replaced_noop(t, "[fullname]"@, v);
    lemma_replaced_noop(t, "<owner>"@, v);
    lemma_replaced_noop(t, "[NAME]"@, v);
    lemma_replaced_noop(t, "<name of author>"@, v);
    lemma_replaced_noop(t, "[name of copyright owner]"@, v);
    lemma_replaced_noop(t, "[name of copyright holder]"@, v);
    lemma_replaced_noop(t, "<COPYRIGHT HOLDERS>"@, v);
    lemma_replaced_noop(t, "<copyright holders>"@, v);
    lemma_replaced_noop(t, "<AUTHOR>"@, v);
    lemma_replaced_noop(t, "<author's name or designee>"@, v);
    lemma_replaced_noop(
        t,
        "[one or more legally recognised persons or entities offering the Work under the terms and conditions of this Licence]"@,
        v,
    );
}

proof fn lemma_year_marker_chars()
    ensures
        "[yyyy]"@.len() > 0,
        "[YEAR]"@.len() > 0,
        "<year>"@.len() > 0,
        "{YEAR}"@.len() > 0,
        "[Year]"@.len() > 0,
        forall|a: int| 0 <= a < "[yyyy]"@.len() ==> !is_numeric_char(#[trigger] "[yyyy]"@[a]),
        forall|a: int| 0 <= a < "[YEAR]"@.len() ==> !is_numeric_char(#[trigger] "[YEAR]"@[a]),
        forall|a: int| 0 <= a < "<year>"@.len() ==> !is_numeric_char(#[trigger] "<year>"@[a]),
        forall|a: int| 0 <= a < "{YEAR}"@.len() ==> !is_numeric_char(#[trigger] "{YEAR}"@[a]),
        forall|a: int| 0 <= a < "[Year]"@.len() ==> !is_numeric_char(#[trigger] "[Year]"@[a]),
{
    reveal_strlit("[yyyy]");
    reveal_strlit("[YEAR]");
    reveal_strlit("<year>");
    reveal_strlit("{YEAR}");
    reveal_strlit("[Year]");
}

proof fn lemma_numeric_disjoint(q: Seq<char>, r: Seq<char>)
    requires
        forall|a: int| 0 <= a < q.len() ==> !is_numeric_char(#[trigger] q[a]),
        forall|b: int| 0 <= b < r.len() ==> is_numeric_char(#[trigger] r[b]),
    ensures
        forall|a: int, b: int| 0 <= a < q.len() && 0 <= b < r.len() ==> q[a] != r[b],
{
}

proof fn lemma_owner_marker_chars()
    ensures
        "[fullname]"@.len() > 0,
        "<owner>"@.len() > 0,
        "[NAME]"@.len() > 0,
        "<name of author>"@.len() > 0,
        "[name of copyright owner]"@.len() > 0,
        "[name of copyright holder]"@.len() > 0,
        "<COPYRIGHT HOLDERS>"@.len() > 0,
        "<copyright holders>"@.len() > 0,
        "<AUTHOR>"@.len() > 0,
        "<author's name or designee>"@.len() > 0,
        "[one or more legally recognised persons or entities offering the Work under the terms and conditions of this Licence]"@.len()
            > 0,
        forall|a: int|
            0 <= a < "[fullname]"@.len() ==> !is_numeric_char(#[trigger] "[fullname]"@[a]),
        forall|a: int| 0 <= a < "<owner>"@.len() ==> !is_numeric_char(#[trigger] "<owner>"@[a]),
        forall|a: int| 0 <= a < "[NAME]"@.len() ==> !is_numeric_char(#[trigger] "[NAME]"@[a]),
        forall|a: int|
            0 <= a < "<name of author>"@.len() ==> !is_numeric_char(
                #[trigger] "<name of author>"@[a],
            ),
        forall|a: int|
            0 <= a < "[name of copyright owner]"@.len() ==> !is_numeric_char(
                #[trigger] "[name of copyright owner]"@[a],
            ),
        forall|a: int|
            0 <= a < "[name of copyright holder]"@.len() ==> !is_numeric_char(
                #[trigger] "[name of copyright holder]"@[a],
            ),
        forall|a: int|
            0 <= a < "<COPYRIGHT HOLDERS>"@.len() ==> !is_numeric_char(
                #[trigger] "<COPYRIGHT HOLDERS>"@[a],
            ),
        forall|a: int|
            0 <= a < "<copyright holders>"@.len() ==> !is_numeric_char(
                #[trigger] "<copyright holders>"@[a],
            ),
        forall|a: int| 0 <= a < "<AUTHOR>"@.len() ==> !is_numeric_char(#[trigger] "<AUTHOR>"@[a]),
        forall|a: int|
            0 <= a < "<author's name or designee>"@.len() ==> !is_numeric_char(
                #[trigger] "<author's name or designee>"@[a],
            ),
        forall|a: int|
            0 <= a
                < "[one or more legally recognised persons or entities offering the Work under the terms and conditions of this Licence]"@.len()
                ==> !is_numeric_char(
                #[trigger] "[one or more legally recognised persons or entities offering the Work under the terms and conditions of this Licence]"@[a],
            ),
{
    reveal_strlit("[fullname]");
    reveal_strlit("<owner>");
    reveal_strlit("[NAME]");
    reveal_strlit("<name of author>");
    reveal_strlit("[name of copyright owner]");
    reveal_strlit("[name of copyright holder]");
    reveal_strlit("<COPYRIGHT HOLDERS>");
    reveal_strlit("<copyright holders>");
    reveal_strlit("<AUTHOR>");
    reveal_strlit("<author's name or designee>");
    reveal_strlit(
        "[one or more legally recognised persons or entities offering the Work under the terms and conditions of this Licence]",
    );
}

/// The year pass with a numeric value cannot introduce an owner marker: a
/// text without owner markers still has none after its year markers are
/// replaced.
pub proof fn lemma_year_applied_keeps_no_owner(t: Seq<char>, v: Seq<char>)
    requires
        v.len() > 0,
        forall|b: int| 0 <= b < v.len() ==> is_numeric_char(#[trigger] v[b]),
        !has_owner_marker(t),
    ensures
        !has_owner_marker(year_applied(t, v)),
{
    lemma_year_marker_chars();
    lemma_owner_marker_chars();
    let o1 = "[fullname]"@;
    let o2 = "<owner>"@;
    let o3 = "[NAME]"@;
    let o4 = "<name of author>"@;
    let o5 = "[name of copyright owner]"@;
    let o6 = "[name of copyright holder]"@;
    let o7 = "<COPYRIGHT HOLDERS>"@;
    let o8 = "<copyright holders>"@;
    let o9 = "<AUTHOR>"@;
    let o10 = "<author's name or designee>"@;
    let o11 =
        "[one or more legally recognised persons or entities offering the Work under the terms and conditions of this Licence]"@;
    lemma_numeric_disjoint(o1, v);
    lemma_numeric_disjoint(o2, v);
    lemma_numeric_disjoint(o3, v);
    lemma_numeric_disjoint(o4, v);
    lemma_numeric_disjoint(o5, v);
    lemma_numeric_disjoint(o6, v);
    lemma_numeric_disjoint(o7, v);
    lemma_numeric_disjoint(o8, v);
    lemma_numeric_disjoint(o9, v);
    lemma_numeric_disjoint(o10, v);
    lemma_numeric_disjoint(o11, v);
    let t1 = replaced(t, "[yyyy]"@, v);
    let t2 = replaced(t1, "[YEAR]"@, v);
    let t3 = replaced(t2, "<year>"@, v);
    let t4 = replaced(t3, "{YEAR}"@, v);
    lemma_replaced_free(t, "[yyyy]"@, v, o1);
    lemma_replaced_free(t, "[yyyy]"@, v, o2);
    lemma_replaced_free(t, "[yyyy]"@, v, o3);
    lemma_replaced_free(t, "[yyyy]"@, v, o4);
    lemma_replaced_free(t, "[yyyy]"@, v, o5);
    lemma_replaced_free(t, "[yyyy]"@, v, o6);
    lemma_replaced_free(t, "[yyyy]"@, v, o7);
    lemma_replaced_free(t, "[yyyy]"@, v, o8);
    lemma_replaced_free(t, "[yyyy]"@, v, o9);
    lemma_replaced_free(t, "[yyyy]"@, v, o10);
    lemma_replaced_free(t, "[yyyy]"@, v, o11);
    lemma_replaced_free(t1, "[YEAR]"@, v, o1);
    lemma_replaced_free(t1, "[YEAR]"@, v, o2);
    lemma_replaced_free(t1, "[YEAR]"@, v, o3);
    lemma_replaced_free(t1, "[YEAR]"@, v, o4);
    lemma_replaced_free(t1, "[YEAR]"@, v, o5);
    lemma_replaced_free(t1, "[YEAR]"@, v, o6);
    lemma_replaced_free(t1, "[YEAR]"@, v, o7);
    lemma_replaced_free(t1, "[YEAR]"@, v, o8);
    lemma_replaced_free(t1, "[YEAR]"@, v, o9);
    lemma_replaced_free(t1, "[YEAR]"@, v, o10);
    lemma_replaced_free(t1, "[YEAR]"@, v, o11);
    lemma_replaced_free(t2, "<year>"@, v, o1);
    lemma_replaced_free(t2, "<year>"@, v, o2);
    lemma_replaced_free(t2, "<year>"@, v, o3);
    lemma_replaced_free(t2, "<year>"@, v, o4);
    lemma_replaced_free(t2, "<year>"@, v, o5);
    lemma_replaced_free(t2, "<year>"@, v, o6);
    lemma_replaced_free(t2, "<year>"@, v, o7);
    lemma_replaced_free(t2, "<year>"@, v, o8);
    lemma_replaced_free(t2, "<year>"@, v, o9);
    lemma_replaced_free(t2, "<year>"@, v, o10);
    lemma_replaced_free(t2, "<year>"@, v, o11);
    lemma_replaced_free(t3, "{YEAR}"@, v, o1);
    lemma_replaced_free(t3, "{YEAR}"@, v, o2);
    lemma_replaced_free(t3, "{YEAR}"@, v, o3);
    lemma_replaced_free(t3, "{YEAR}"@, v, o4);
    lemma_replaced_free(t3, "{YEAR}"@, v, o5);
    lemma_replaced_free(t3, "{YEAR}"@, v, o6);
    lemma_replaced_free(t3, "{YEAR}"@, v, o7);
    lemma_replaced_free(t3, "{YEAR}"@, v, o8);
    lemma_replaced_free(t3, "{YEAR}"@, v, o9);
    lemma_replaced_free(t3, "{YEAR}"@, v, o10);
    lemma_replaced_free(t3, "{YEAR}"@, v, o11);
    lemma_replaced_free(t4, "[Year]"@, v, o1);
    lemma_replaced_free(t4, "[Year]"@, v, o2);
    lemma_replaced_free(t4, "[Year]"@, v, o3);
    lemma_replaced_free(t4, "[Year]"@, v, o4);
    lemma_replaced_free(t4, "[Year]"@, v, o5);
    lemma_replaced_free(t4, "[Year]"@, v, o6);
    lemma_replaced_free(t4, "[Year]"@, v, o7);
    lemma_replaced_free(t4, "[Year]"@, v, o8);
    lemma_replaced_free(t4, "[Year]"@, v, o9);
    lemma_replaced_free(t4, "[Year]"@, v, o10);
    lemma_replaced_free(t4, "[Year]"@, v, o11);
}

/// After the year pass with a numeric value — such as a rendered year — no
/// year marker of any variant remains in the text.
pub proof fn lemma_year_applied_clears(t: Seq<char>, v: Seq<char>)
    requires
        v.len() > 0,
        forall|b: int| 0 <= b < v.len() ==> is_numeric_char(#[trigger] v[b]),
    ensures
        !contains_seq(year_applied(t, v), "[yyyy]"@),
        !contains_seq(year_applied(t, v), "[YEAR]"@),
        !contains_seq(year_applied(t, v), "<year>"@),
        !contains_seq(year_applied(t, v), "{YEAR}"@),
        !contains_seq(year_applied(t, v), "[Year]"@),
{
    lemma_year_marker_chars();
    lemma_numeric_disjoint("[yyyy]"@, v);
    lemma_numeric_disjoint("[YEAR]"@, v);
    lemma_numeric_disjoint("<year>"@, v);
    lemma_numeric_disjoint("{YEAR}"@, v);
    lemma_numeric_disjoint("[Year]"@, v);
    let t1 = replaced(t, "[yyyy]"@, v);
    let t2 = replaced(t1, "[YEAR]"@, v);
    let t3 = replaced(t2, "<year>"@, v);
    let t4 = replaced(t3, "{YEAR}"@, v);
    lemma_replaced_free(t, "[yyyy]"@, v, "[yyyy]"@);
    lemma_replaced_free(t1, "[YEAR]"@, v, "[YEAR]"@);
    lemma_replaced_free(t1, "[YEAR]"@, v, "[yyyy]"@);
    lemma_replaced_free(t2, "<year>"@, v, "<year>"@);
    lemma_replaced_free(t2, "<year>"@, v, "[yyyy]"@);
    lemma_replaced_free(t2, "<year>"@, v, "[YEAR]"@);
    lemma_replaced_free(t3, "{YEAR}"@, v, "{YEAR}"@);
    lemma_replaced_free(t3, "{YEAR}"@, v, "[yyyy]"@);
    lemma_replaced_free(t3, "{YEAR}"@, v, "[YEAR]"@);
    lemma_replaced_free(t3, "{YEAR}"@, v, "<year>"@);
    lemma_replaced_free(t4, "[Year]"@, v, "[Year]"@);
    lemma_replaced_free(t4, "[Year]"@, v, "[yyyy]"@);
    lemma_replaced_free(t4, "[Year]"@, v, "[YEAR]"@);
    lemma_replaced_free(t4, "[Year]"@, v, "<year>"@);
    lemma_replaced_free(t4, "[Year]"@, v, "{YEAR}"@);
}

} // verus!
